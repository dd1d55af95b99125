[package]
name = "ticket_store"
version = "0.1.0"
edition = "2021"
publish = false

[dependencies]
uuid = { version = "1", features = ["v4", "serde"] }
serde = { version = "1", features = ["derive"] }
thiserror = "1"
axum = "0.7"
tokio = { version = "1", features = ["full"] }
