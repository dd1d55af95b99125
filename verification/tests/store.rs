use ticket_store::data::{
    Errors, Ticket, TicketDescription, TicketDraft, TicketStatus, TicketTemplate, TicketTitle,
};
use ticket_store::store::{TicketId, TicketStore};

fn draft(title: &str, description: &str) -> TicketDraft {
    TicketDraft {
        title: TicketTitle::try_from(title).unwrap(),
        description: TicketDescription::try_from(description).unwrap(),
    }
}

fn nothing() -> TicketTemplate {
    TicketTemplate { title: None, description: None, status: None }
}

fn ids_of(list: &Vec<Option<Ticket>>) -> Vec<u128> {
    list.iter().map(|entry| entry.as_ref().unwrap().id.as_u128()).collect()
}

#[test]
fn new_store_is_empty() {
    let store = TicketStore::new();
    assert_eq!(store.len(), 0);
    assert_eq!(store.get_all(), vec![]);
    assert_eq!(TicketStore::default().len(), 0);
}

#[test]
fn created_ticket_is_found_with_its_draft_and_todo() {
    let mut store = TicketStore::new();
    let id = store.add_ticket(draft("Write report", "Quarterly numbers"));
    let ticket = store.get_ticket(id).unwrap();
    assert_eq!(ticket.id, id);
    assert_eq!(ticket.title.as_str(), "Write report");
    assert_eq!(ticket.description.as_str(), "Quarterly numbers");
    assert_eq!(ticket.status, TicketStatus::Todo);
    assert_eq!(store.len(), 1);
}

#[test]
fn drawn_identifiers_are_version_four() {
    let mut store = TicketStore::new();
    let id = store.add_ticket(draft("a", "b"));
    let value = id.as_u128();
    assert_eq!((value >> 76) & 0xf, 4);
    assert_eq!((value >> 62) & 0x3, 2);
    assert_ne!(id, TicketId::default());
    let other = store.add_ticket(draft("a", "b"));
    assert_ne!(id, other);
}

#[test]
fn unknown_identifier_is_absent() {
    let mut store = TicketStore::new();
    assert_eq!(store.get_ticket(TicketId::default()), None);
    let id = store.add_ticket(draft("a", "b"));
    assert_eq!(store.get_ticket(TicketId::default()), None);
    assert_eq!(store.get_ticket(TicketId::from_u128(id.as_u128() ^ 1)), None);
    assert_eq!(store.len(), 1);
}

#[test]
fn get_does_not_change_the_store() {
    let mut store = TicketStore::new();
    let id = store.add_ticket(draft("a", "b"));
    let first = store.get_ticket(id);
    let second = store.get_ticket(id);
    assert_eq!(first, second);
    assert_eq!(store.get_all().len(), 1);
}

#[test]
fn empty_template_changes_nothing() {
    let mut store = TicketStore::new();
    let id = store.add_ticket(draft("Title", "Description"));
    let before = store.get_ticket(id).unwrap();
    let all_before = store.get_all();
    let after = store.update_ticket(id, nothing()).unwrap();
    assert_eq!(after, before);
    assert_eq!(store.get_ticket(id), Some(before));
    assert_eq!(store.get_all(), all_before);
}

#[test]
fn status_update_changes_status_only() {
    let mut store = TicketStore::new();
    let id = store.add_ticket(draft("Title", "Description"));
    let other = store.add_ticket(draft("Other", "Untouched"));
    let other_before = store.get_ticket(other);
    let template = TicketTemplate { title: None, description: None, status: Some(TicketStatus::Done) };
    let changed = store.update_ticket(id, template).unwrap();
    assert_eq!(changed.id, id);
    assert_eq!(changed.title.as_str(), "Title");
    assert_eq!(changed.description.as_str(), "Description");
    assert_eq!(changed.status, TicketStatus::Done);
    assert_eq!(store.get_ticket(id), Some(changed));
    assert_eq!(store.get_ticket(other), other_before);
    assert_eq!(store.len(), 2);
}

#[test]
fn any_status_may_follow_any_other() {
    let mut store = TicketStore::new();
    let id = store.add_ticket(draft("Title", "Description"));
    for status in [
        TicketStatus::Done,
        TicketStatus::Todo,
        TicketStatus::InProgress,
        TicketStatus::Hold,
        TicketStatus::Done,
        TicketStatus::Hold,
    ] {
        let template = TicketTemplate { title: None, description: None, status: Some(status) };
        assert_eq!(store.update_ticket(id, template).unwrap().status, status);
    }
}

#[test]
fn update_replaces_each_field_that_is_there() {
    let mut store = TicketStore::new();
    let id = store.add_ticket(draft("Old title", "Old description"));
    let template = TicketTemplate {
        title: Some(TicketTitle::try_from("New title").unwrap()),
        description: None,
        status: None,
    };
    let changed = store.update_ticket(id, template).unwrap();
    assert_eq!(changed.title.as_str(), "New title");
    assert_eq!(changed.description.as_str(), "Old description");
    assert_eq!(changed.status, TicketStatus::Todo);
    let template = TicketTemplate {
        title: Some(TicketTitle::try_from("Third title").unwrap()),
        description: Some(TicketDescription::try_from("New description").unwrap()),
        status: Some(TicketStatus::InProgress),
    };
    let changed = store.update_ticket(id, template).unwrap();
    assert_eq!(changed.id, id);
    assert_eq!(changed.title.as_str(), "Third title");
    assert_eq!(changed.description.as_str(), "New description");
    assert_eq!(changed.status, TicketStatus::InProgress);
    assert_eq!(store.get_ticket(id), Some(changed));
}

#[test]
fn update_of_unknown_identifier_fails_and_changes_nothing() {
    let mut store = TicketStore::new();
    let template = TicketTemplate { title: None, description: None, status: Some(TicketStatus::Done) };
    assert_eq!(store.update_ticket(TicketId::default(), template), Err(Errors::UpdateError));
    assert_eq!(store.len(), 0);
    let id = store.add_ticket(draft("Title", "Description"));
    let before = store.get_all();
    let template = TicketTemplate {
        title: Some(TicketTitle::try_from("x").unwrap()),
        description: None,
        status: Some(TicketStatus::Done),
    };
    assert_eq!(
        store.update_ticket(TicketId::from_u128(id.as_u128() ^ 1), template),
        Err(Errors::UpdateError)
    );
    assert_eq!(store.get_all(), before);
}

#[test]
fn disjoint_updates_both_apply_in_either_order() {
    let title_only = || TicketTemplate {
        title: Some(TicketTitle::try_from("Renamed").unwrap()),
        description: None,
        status: None,
    };
    let status_only =
        || TicketTemplate { title: None, description: None, status: Some(TicketStatus::Hold) };

    let mut one = TicketStore::new();
    let id = TicketId::from_u128(42);
    one.insert_ticket(id, draft("Title", "Description"));
    one.update_ticket(id, title_only()).unwrap();
    let last_one = one.update_ticket(id, status_only()).unwrap();

    let mut two = TicketStore::new();
    two.insert_ticket(id, draft("Title", "Description"));
    two.update_ticket(id, status_only()).unwrap();
    let last_two = two.update_ticket(id, title_only()).unwrap();

    assert_eq!(last_one, last_two);
    assert_eq!(last_one.title.as_str(), "Renamed");
    assert_eq!(last_one.description.as_str(), "Description");
    assert_eq!(last_one.status, TicketStatus::Hold);
    assert_eq!(one.get_all(), two.get_all());
}

#[test]
fn list_holds_every_created_ticket_once() {
    let mut store = TicketStore::new();
    let mut created: Vec<u128> = Vec::new();
    for n in 0..20 {
        let id = store.add_ticket(draft(&format!("Title {}", n), "Description"));
        created.push(id.as_u128());
    }
    let list = store.get_all();
    assert_eq!(list.len(), 20);
    assert_eq!(store.len(), 20);
    assert!(list.iter().all(|entry| entry.is_some()));
    let mut expected = created.clone();
    expected.sort();
    assert_eq!(ids_of(&list), expected);
}

#[test]
fn list_is_in_ascending_order_of_identifiers() {
    let mut store = TicketStore::new();
    let high = 0xffff_ffff_ffff_ffff_ffff_ffff_ffff_ffffu128;
    for value in [7u128, 3, high, 1 << 64, 5, 0] {
        store.insert_ticket(TicketId::from_u128(value), draft(&format!("t{}", value), "d"));
    }
    let list = store.get_all();
    assert_eq!(ids_of(&list), vec![0, 3, 5, 7, 1 << 64, high]);
    assert_eq!(list[1].as_ref().unwrap().title.as_str(), "t3");
    assert_eq!(list[1], store.get_ticket(TicketId::from_u128(3)));
}

#[test]
fn update_keeps_the_list_order_and_length() {
    let mut store = TicketStore::new();
    for value in [9u128, 2, 4] {
        store.insert_ticket(TicketId::from_u128(value), draft("t", "d"));
    }
    let template = TicketTemplate { title: None, description: None, status: Some(TicketStatus::Done) };
    store.update_ticket(TicketId::from_u128(4), template).unwrap();
    let list = store.get_all();
    assert_eq!(ids_of(&list), vec![2, 4, 9]);
    assert_eq!(list[1].as_ref().unwrap().status, TicketStatus::Done);
    assert_eq!(list[0].as_ref().unwrap().status, TicketStatus::Todo);
}

#[test]
fn insert_under_a_held_identifier_replaces_the_ticket() {
    let mut store = TicketStore::new();
    let id = TicketId::from_u128(11);
    store.insert_ticket(id, draft("First", "One"));
    let template = TicketTemplate { title: None, description: None, status: Some(TicketStatus::Done) };
    store.update_ticket(id, template).unwrap();
    store.insert_ticket(id, draft("Second", "Two"));
    assert_eq!(store.len(), 1);
    let ticket = store.get_ticket(id).unwrap();
    assert_eq!(ticket.title.as_str(), "Second");
    assert_eq!(ticket.status, TicketStatus::Todo);
}

#[test]
fn callers_get_copies() {
    let mut store = TicketStore::new();
    let id = store.add_ticket(draft("Title", "Description"));
    let mut copy = store.get_ticket(id).unwrap();
    copy.status = TicketStatus::Done;
    copy.title = TicketTitle::try_from("Changed outside").unwrap();
    let stored = store.get_ticket(id).unwrap();
    assert_eq!(stored.status, TicketStatus::Todo);
    assert_eq!(stored.title.as_str(), "Title");
    let cloned = store.clone();
    assert_eq!(cloned.get_all(), store.get_all());
}

#[test]
fn identifier_value_round_trip_and_order() {
    let value = 0xa1a2a3a4b1b2c1c2d1d2d3d4d5d6d7d8u128;
    let id = TicketId::from_u128(value);
    assert_eq!(id.as_u128(), value);
    assert_eq!(TicketId::default().as_u128(), 0);
    assert!(TicketId::from_u128(1) < TicketId::from_u128(2));
    assert!(TicketId::from_u128(1 << 100) > TicketId::from_u128(u64::MAX as u128));
    assert_eq!(id, TicketId::from_u128(value));
}

#[test]
fn identifier_text_is_hyphenated_lowercase_hex() {
    let id = TicketId::from_u128(0xa1a2a3a4b1b2c1c2d1d2d3d4d5d6d7d8u128);
    assert_eq!(id.to_text(), "a1a2a3a4-b1b2-c1c2-d1d2-d3d4d5d6d7d8");
    assert_eq!(TicketId::default().to_text(), "00000000-0000-0000-0000-000000000000");
    assert_eq!(TicketId::from_u128(0xABCDEF).to_text(), "00000000-0000-0000-0000-000000abcdef");
    assert_eq!(
        TicketId::from_u128(u128::MAX).to_text(),
        "ffffffff-ffff-ffff-ffff-ffffffffffff"
    );
}

#[test]
fn meeting_ticket_is_put_on_hold() {
    let mut store = TicketStore::new();
    let id = store.add_ticket(draft(
        "Neil's Client Meeting",
        "Complete the work for the meeting presentation",
    ));
    assert_eq!(store.len(), 1);
    let list = store.get_all();
    assert_eq!(list.len(), 1);
    assert_eq!(list[0].as_ref().unwrap().status, TicketStatus::Todo);
    let status = ticket_store::data::identify_status("hold".to_string()).unwrap();
    let template = TicketTemplate { title: None, description: None, status: Some(status) };
    let changed = store.update_ticket(id, template).unwrap();
    assert_eq!(changed.status, TicketStatus::Hold);
    assert_eq!(changed.title.as_str(), "Neil's Client Meeting");
    assert_eq!(changed.description.as_str(), "Complete the work for the meeting presentation");
    assert_eq!(store.len(), 1);
}
