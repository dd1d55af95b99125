//! An in-memory ticket tracker: validated field types and an ordered store
//! of tickets keyed by a 128-bit identifier.

pub mod data;
pub mod history;
pub mod request;
pub mod store;
