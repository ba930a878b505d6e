use lokai::models::Role;
use lokai::store::{Store, StoreError};

#[test]
fn created_message_comes_back_with_identical_role_and_content() {
    // Round trip: create_message then get_messages returns a message with
    // the role and content it was created with.
    let mut store = Store::new();
    let conversation = store.create_conversation("c".to_string(), "p".to_string());
    let created = store
        .create_message(Role::User, "why is the sky blue?".to_string(), conversation.id)
        .unwrap();
    let fetched = store.get_messages(conversation.id);
    assert_eq!(fetched.len(), 1);
    assert_eq!(fetched[0].role, created.role);
    assert_eq!(fetched[0].role, Role::User);
    assert_eq!(fetched[0].content, "why is the sky blue?");
    assert_eq!(fetched[0].id, created.id);
}

#[test]
fn conversations_come_back_in_creation_order() {
    let mut store = Store::new();
    let a = store.create_conversation("conversation 1".to_string(), "p1".to_string());
    let b = store.create_conversation("conversation 2".to_string(), "p2".to_string());
    assert!(a.id < b.id);
    assert!(a.created_at <= b.created_at);
    let all = store.get_conversations();
    assert_eq!(all.len(), 2);
    assert_eq!(all[0].name, "conversation 1");
    assert_eq!(all[1].name, "conversation 2");
}

#[test]
fn deleting_a_conversation_cascades_to_its_messages() {
    let mut store = Store::new();
    let keep = store.create_conversation("keep".to_string(), "p1".to_string());
    let gone = store.create_conversation("gone".to_string(), "p2".to_string());
    store.create_message(Role::User, "stays".to_string(), keep.id).unwrap();
    store.create_message(Role::User, "a".to_string(), gone.id).unwrap();
    store.create_message(Role::Assistant, "b".to_string(), gone.id).unwrap();

    let deleted = store.delete_conversation(gone.id).unwrap();
    assert_eq!(deleted.id, gone.id);
    assert_eq!(deleted.name, "gone");

    assert!(store.get_messages(gone.id).is_empty());
    assert_eq!(store.get_conversations().len(), 1);
    let kept = store.get_messages(keep.id);
    assert_eq!(kept.len(), 1);
    assert_eq!(kept[0].content, "stays");
}

#[test]
fn deleting_a_missing_conversation_reports_not_found() {
    let mut store = Store::new();
    store.create_conversation("c".to_string(), "p".to_string());
    assert_eq!(store.delete_conversation(9999).unwrap_err(), StoreError::NotFound);
    assert_eq!(store.get_conversations().len(), 1);
}

#[test]
fn creating_a_message_in_a_missing_conversation_reports_not_found() {
    let mut store = Store::new();
    store.create_conversation("c".to_string(), "p".to_string());
    let r = store.create_message(Role::User, "hi".to_string(), 9999);
    assert_eq!(r.unwrap_err(), StoreError::NotFound);
}

#[test]
fn updating_a_message_replaces_only_its_content() {
    let mut store = Store::new();
    let conversation = store.create_conversation("c".to_string(), "p".to_string());
    let original = store
        .create_message(Role::Assistant, "I don't know".to_string(), conversation.id)
        .unwrap();
    let updated = store
        .update_message("Actually, I know why".to_string(), original.id)
        .unwrap();
    assert_eq!(updated.id, original.id);
    assert_eq!(updated.role, original.role);
    assert_eq!(updated.conversation_id, original.conversation_id);
    assert_eq!(updated.created_at, original.created_at);
    assert_eq!(updated.content, "Actually, I know why");
    let fetched = store.get_messages(conversation.id);
    assert_eq!(fetched.len(), 1);
    assert_eq!(fetched[0].content, "Actually, I know why");
}

#[test]
fn updating_a_missing_message_reports_not_found() {
    let mut store = Store::new();
    let conversation = store.create_conversation("c".to_string(), "p".to_string());
    store.create_message(Role::User, "hi".to_string(), conversation.id).unwrap();
    let r = store.update_message("new".to_string(), 9999);
    assert_eq!(r.unwrap_err(), StoreError::NotFound);
    assert_eq!(store.get_messages(conversation.id)[0].content, "hi");
}

#[test]
fn lookup_finds_a_conversation_by_id() {
    let mut store = Store::new();
    let a = store.create_conversation("a".to_string(), "pa".to_string());
    let b = store.create_conversation("b".to_string(), "pb".to_string());
    assert_eq!(store.get_conversation(b.id).unwrap().name, "b");
    assert_eq!(store.get_conversation(a.id).unwrap().name, "a");
    assert_eq!(store.get_conversation(12345).unwrap_err(), StoreError::NotFound);
}

#[test]
fn messages_of_other_conversations_stay_out_of_get_messages() {
    let mut store = Store::new();
    let a = store.create_conversation("a".to_string(), "pa".to_string());
    let b = store.create_conversation("b".to_string(), "pb".to_string());
    store.create_message(Role::User, "for a".to_string(), a.id).unwrap();
    store.create_message(Role::User, "for b".to_string(), b.id).unwrap();
    let of_a = store.get_messages(a.id);
    assert_eq!(of_a.len(), 1);
    assert_eq!(of_a[0].content, "for a");
}
