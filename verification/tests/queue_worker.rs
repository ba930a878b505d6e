use lokai::assistant::Assistant;
use lokai::models::{Message, Role};
use lokai::queue::{RequestQueue, SubmitError};
use lokai::store::Store;

fn user(content: &str, conversation_id: u32) -> Message {
    Message::user(content.to_string(), conversation_id)
}

#[test]
fn processing_order_equals_submission_order() {
    // Fill a capacity-3 queue with 3 submissions on one conversation and
    // drain it: the dequeue order and the persisted order both equal the
    // submission order.
    let mut store = Store::new();
    let conversation = store.create_conversation("c".to_string(), "p".to_string());
    let mut queue = RequestQueue::new(3);
    for text in ["first", "second", "third"] {
        let m = store
            .create_message(Role::User, text.to_string(), conversation.id)
            .unwrap();
        assert!(queue.try_submit(m).is_ok());
    }
    let mut processed: Vec<String> = Vec::new();
    while let Some(m) = queue.dequeue() {
        processed.push(m.content.clone());
    }
    assert_eq!(processed, vec!["first", "second", "third"]);
    let stored: Vec<String> = store
        .get_messages(conversation.id)
        .into_iter()
        .map(|m| m.content)
        .collect();
    assert_eq!(stored, vec!["first", "second", "third"]);
}

#[test]
fn capacity_one_queue_suspends_second_submit_until_dequeue() {
    // Scenario: queue capacity 1; two back-to-back submissions; the second
    // is held off (the caller suspends) until the first is dequeued; both
    // persist in submission order.
    let mut store = Store::new();
    let conversation = store.create_conversation("c".to_string(), "p".to_string());
    let first = store
        .create_message(Role::User, "one".to_string(), conversation.id)
        .unwrap();
    let second = store
        .create_message(Role::User, "two".to_string(), conversation.id)
        .unwrap();

    let mut queue = RequestQueue::new(1);
    assert!(queue.try_submit(first).is_ok());
    let held_back = match queue.try_submit(second) {
        Err((SubmitError::QueueFull, m)) => m,
        _ => panic!("a full queue must hold the caller back"),
    };
    let dequeued = queue.dequeue().unwrap();
    assert_eq!(dequeued.content, "one");
    assert!(queue.try_submit(held_back).is_ok());
    assert_eq!(queue.dequeue().unwrap().content, "two");

    let stored: Vec<String> = store
        .get_messages(conversation.id)
        .into_iter()
        .map(|m| m.content)
        .collect();
    assert_eq!(stored, vec!["one", "two"]);
}

#[test]
fn closed_queue_refuses_with_worker_unavailable() {
    let mut queue = RequestQueue::new(2);
    queue.close();
    match queue.try_submit(user("late", 1)) {
        Err((SubmitError::WorkerUnavailable, m)) => assert_eq!(m.content, "late"),
        _ => panic!("a closed queue must refuse for good"),
    }
}

#[test]
fn deltas_carry_the_full_cumulative_content() {
    let mut worker = Assistant::new();
    let placeholder = Message {
        id: 7,
        role: Role::Assistant,
        content: String::new(),
        conversation_id: 3,
        created_at: 5,
    };
    worker.begin(placeholder);
    assert!(worker.is_generating());

    let d1 = worker.on_chunk("Hel");
    assert_eq!(d1.content, "Hel");
    assert_eq!(d1.id, 7);
    assert_eq!(d1.conversation_id, 3);
    assert_eq!(d1.role, Role::Assistant);

    let d2 = worker.on_chunk("lo the");
    assert_eq!(d2.content, "Hello the");
    assert_eq!(d2.id, 7);

    let terminal = worker.finish();
    assert_eq!(terminal.content, "Hello the");
    assert_eq!(terminal.id, 7);
    assert!(!worker.is_generating());
}

#[test]
fn truncated_stream_keeps_every_received_token() {
    // a mid-stream failure finalizes with whatever arrived so far
    let mut store = Store::new();
    let conversation = store.create_conversation("c".to_string(), "p".to_string());
    let placeholder = store
        .create_message(Role::Assistant, String::new(), conversation.id)
        .unwrap();
    let mut worker = Assistant::new();
    let placeholder_id = placeholder.id;
    worker.begin(placeholder);
    worker.on_chunk("partial ");
    worker.on_chunk("answer");
    // the backend fails here; the worker still persists the accumulation
    let terminal = worker.finish();
    let updated = store.update_message(terminal.content.clone(), terminal.id).unwrap();
    assert_eq!(updated.id, placeholder_id);
    assert_eq!(updated.content, "partial answer");
    let stored = store.get_messages(conversation.id);
    assert_eq!(stored.len(), 1);
    assert_eq!(stored[0].content, "partial answer");
}
