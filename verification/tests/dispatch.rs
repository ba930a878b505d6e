use lokai::app::{App, Command};
use lokai::assistant::Assistant;
use lokai::event::{Event, InferenceType, KeyCode, KeyInput};
use lokai::focus::AppFocus;
use lokai::models::{Message, Role};
use lokai::store::Store;

fn key(code: KeyCode) -> KeyInput {
    KeyInput { code, ctrl: false, shift: false }
}

fn ctrl(c: char) -> KeyInput {
    KeyInput { code: KeyCode::Char(c), ctrl: true, shift: false }
}

fn ch(c: char) -> KeyInput {
    KeyInput { code: KeyCode::Char(c), ctrl: false, shift: false }
}

#[test]
fn tab_cycles_focus_and_backtab_cycles_back() {
    let mut app = App::new();
    assert_eq!(app.current_focus(), AppFocus::Conversation);
    app.handle_key_events(key(KeyCode::Tab));
    assert_eq!(app.current_focus(), AppFocus::Messages);
    app.handle_key_events(key(KeyCode::Tab));
    assert_eq!(app.current_focus(), AppFocus::Prompt);
    app.handle_key_events(key(KeyCode::Tab));
    assert_eq!(app.current_focus(), AppFocus::Conversation);
    app.handle_key_events(key(KeyCode::BackTab));
    assert_eq!(app.current_focus(), AppFocus::Prompt);
}

#[test]
fn ctrl_c_stops_the_loop() {
    let mut app = App::new();
    assert!(app.is_running());
    app.handle_key_events(ctrl('c'));
    assert!(!app.is_running());
}

#[test]
fn at_most_one_modal_popup_is_up() {
    let mut store = Store::new();
    let c = store.create_conversation("c".to_string(), "p".to_string());
    let mut app = App::new();
    app.init(store.get_conversations());
    app.handle_key_events(key(KeyCode::Up));
    assert_eq!(app.conversations.currently_selected().unwrap().id, c.id);

    // Delete opens the confirmation popup
    app.handle_key_events(key(KeyCode::Delete));
    assert!(app.delete_conversation_popup.is_activated());
    assert!(!app.new_conversation_popup.is_activated());

    // Ctrl-N switches to the naming popup, closing the confirmation
    app.handle_key_events(ctrl('n'));
    assert!(app.new_conversation_popup.is_activated());
    assert!(!app.delete_conversation_popup.is_activated());

    // Esc closes it again
    app.handle_key_events(key(KeyCode::Esc));
    assert!(!app.new_conversation_popup.is_activated());
}

#[test]
fn n_answers_the_delete_popup_with_no() {
    let mut store = Store::new();
    store.create_conversation("c".to_string(), "p".to_string());
    let mut app = App::new();
    app.init(store.get_conversations());
    app.handle_key_events(key(KeyCode::Up));
    app.handle_key_events(key(KeyCode::Delete));
    assert!(app.delete_conversation_popup.is_activated());
    let cmd = app.handle_key_events(ch('n'));
    assert!(matches!(cmd, Command::Nothing));
    assert!(!app.delete_conversation_popup.is_activated());
    assert_eq!(app.conversations.currently_selected().unwrap().name, "c");
}

#[test]
fn enter_in_naming_popup_asks_for_creation() {
    let mut app = App::new();
    app.handle_key_events(ctrl('n'));
    for c in ['i', 'd', 'e', 'a', 's'] {
        app.handle_key_events(ch(c));
    }
    let cmd = app.handle_key_events(key(KeyCode::Enter));
    let name = match cmd {
        Command::CreateConversation { name } => name,
        _ => panic!("expected a creation command"),
    };
    assert_eq!(name, "ideas");

    // the shell persists it, then commits
    let mut store = Store::new();
    let created = store.create_conversation(name, String::new());
    app.apply_conversation_created(created);
    assert!(!app.new_conversation_popup.is_activated());
    assert!(app.conversations.currently_selected().is_none());
    app.handle_key_events(key(KeyCode::Up));
    assert_eq!(app.conversations.currently_selected().unwrap().name, "ideas");
}

#[test]
fn typed_keys_reach_the_popup_before_the_prompt() {
    let mut app = App::new();
    app.handle_key_events(key(KeyCode::Tab));
    app.handle_key_events(key(KeyCode::Tab));
    assert_eq!(app.current_focus(), AppFocus::Prompt);
    app.handle_key_events(ch('p'));
    app.handle_key_events(ctrl('n'));
    app.handle_key_events(ch('q'));
    assert_eq!(app.new_conversation_popup.get_content(), Some(&"q".to_string()));
    app.handle_key_events(key(KeyCode::Esc));
    app.handle_key_events(ch('r'));
    assert_eq!(app.prompt.get_content(), "pr");
}

#[test]
fn enter_submits_the_trimmed_prompt_for_the_selected_conversation() {
    let mut store = Store::new();
    let conversation = store.create_conversation("c".to_string(), "p".to_string());
    let mut app = App::new();
    app.init(store.get_conversations());
    app.handle_key_events(key(KeyCode::Up));
    app.handle_key_events(key(KeyCode::Tab));
    app.handle_key_events(key(KeyCode::Tab));
    for c in [' ', 'h', 'i', ' '] {
        app.handle_key_events(ch(c));
    }
    let cmd = app.handle_key_events(key(KeyCode::Enter));
    let (content, conversation_id) = match cmd {
        Command::SubmitPrompt { content, conversation_id } => (content, conversation_id),
        _ => panic!("expected a submission"),
    };
    assert_eq!(content, "hi");
    assert_eq!(conversation_id, conversation.id);

    let persisted = store
        .create_message(Role::User, content, conversation_id)
        .unwrap();
    app.apply_user_message(persisted);
    assert_eq!(app.prompt.get_content(), "");
    assert_eq!(app.chat.messages().len(), 1);
    assert_eq!(app.chat.messages()[0].content, "hi");
}

#[test]
fn enter_without_a_selected_conversation_submits_nothing() {
    let mut app = App::new();
    app.handle_key_events(key(KeyCode::Tab));
    app.handle_key_events(key(KeyCode::Tab));
    app.handle_key_events(ch('h'));
    let cmd = app.handle_key_events(key(KeyCode::Enter));
    assert!(matches!(cmd, Command::Nothing));
    assert_eq!(app.prompt.get_content(), "h");
}

#[test]
fn shift_enter_inserts_a_line_break_instead_of_submitting() {
    let mut app = App::new();
    app.handle_key_events(key(KeyCode::Tab));
    app.handle_key_events(key(KeyCode::Tab));
    app.handle_key_events(ch('a'));
    let cmd = app.handle_key_events(KeyInput { code: KeyCode::Enter, ctrl: false, shift: true });
    assert!(matches!(cmd, Command::Nothing));
    app.handle_key_events(ch('b'));
    // the readable content is trimmed, the break sits between the words
    assert_eq!(app.prompt.get_content(), "a\nb");
}

#[test]
fn selecting_a_conversation_defers_the_bottom_scroll() {
    let mut store = Store::new();
    let conversation = store.create_conversation("c".to_string(), "p".to_string());
    store
        .create_message(Role::User, "1\n2\n3\n4\n5\n6".to_string(), conversation.id)
        .unwrap();
    let mut app = App::new();
    app.init(store.get_conversations());
    let cmd = app.handle_key_events(key(KeyCode::Down));
    let conversation_id = match cmd {
        Command::LoadConversation { conversation_id } => conversation_id,
        _ => panic!("expected a load command"),
    };
    assert_eq!(conversation_id, conversation.id);
    app.apply_messages_loaded(store.get_messages(conversation_id));
    // the jump happens only after the next render pass recomputed metrics
    assert_eq!(app.chat.vertical_scroll(), 0);
    app.chat.recompute_scroll(80, 5);
    app.handle_events(Event::ChatBottomScroll);
    assert_eq!(app.chat.vertical_scroll(), 3);
}

#[test]
fn delete_selected_conversation_empties_transcript_and_clears_cursor() {
    // Scenario: deleting the selected conversation leaves an empty
    // transcript and an unset cursor.
    let mut store = Store::new();
    let conversation = store.create_conversation("c".to_string(), "p".to_string());
    let mut app = App::new();
    app.init(store.get_conversations());
    app.handle_key_events(key(KeyCode::Up));
    let persisted = store
        .create_message(Role::User, "hello".to_string(), conversation.id)
        .unwrap();
    app.apply_user_message(persisted);
    assert_eq!(app.chat.messages().len(), 1);

    app.handle_key_events(key(KeyCode::Delete));
    let cmd = app.handle_key_events(ch('y'));
    let conversation_id = match cmd {
        Command::DeleteConversation { conversation_id } => conversation_id,
        _ => panic!("expected a deletion command"),
    };
    let deleted = store.delete_conversation(conversation_id).unwrap();
    app.apply_conversation_deleted(deleted);

    assert!(app.chat.messages().is_empty());
    assert!(app.conversations.currently_selected().is_none());
    assert!(!app.delete_conversation_popup.is_activated());
    assert!(store.get_messages(conversation_id).is_empty());
}

#[test]
fn stale_deltas_never_patch_another_conversations_transcript() {
    // Race: the worker streams deltas for conversation A while the user
    // switches to conversation B; no delta for A may patch B's transcript,
    // and A's final content is still persisted correctly.
    let mut store = Store::new();
    let a = store.create_conversation("A".to_string(), "pa".to_string());
    let b = store.create_conversation("B".to_string(), "pb".to_string());
    let mut app = App::new();
    app.init(store.get_conversations());

    // select A and submit a prompt
    app.handle_key_events(key(KeyCode::Up));
    assert_eq!(app.conversations.currently_selected().unwrap().id, a.id);
    let user = store.create_message(Role::User, "hi".to_string(), a.id).unwrap();
    app.apply_user_message(user);

    // the worker starts generating into a placeholder for A
    let placeholder = store.create_message(Role::Assistant, String::new(), a.id).unwrap();
    let mut worker = Assistant::new();
    worker.begin(placeholder);
    let d1 = worker.on_chunk("Hel");
    app.handle_events(Event::Inference(d1, InferenceType::Streaming));
    assert_eq!(app.chat.messages().len(), 2);
    assert_eq!(app.chat.messages()[1].content, "Hel");

    // the user selects B before the stream ends
    let cmd = app.handle_key_events(key(KeyCode::Down));
    assert!(matches!(cmd, Command::LoadConversation { .. }));
    assert_eq!(app.conversations.currently_selected().unwrap().id, b.id);
    app.apply_messages_loaded(store.get_messages(b.id));
    assert!(app.chat.messages().is_empty());

    // further deltas for A are dropped silently
    let d2 = worker.on_chunk("lo");
    app.handle_events(Event::Inference(d2, InferenceType::Streaming));
    assert!(app.chat.messages().is_empty());

    // while A's final content is still persisted correctly
    let terminal = worker.finish();
    store.update_message(terminal.content.clone(), terminal.id).unwrap();
    let of_a = store.get_messages(a.id);
    assert_eq!(of_a.len(), 2);
    assert_eq!(of_a[1].role, Role::Assistant);
    assert_eq!(of_a[1].content, "Hello");
}

#[test]
fn streaming_patch_applied_twice_changes_nothing_more() {
    // Idempotence: the same assistant delta applied twice leaves the same
    // transcript tail as applied once.
    let mut app = App::new();
    let mut store = Store::new();
    let c = store.create_conversation("c".to_string(), "p".to_string());
    app.init(store.get_conversations());
    app.handle_key_events(key(KeyCode::Up));
    let user = store.create_message(Role::User, "q".to_string(), c.id).unwrap();
    app.apply_user_message(user);
    let delta = Message {
        id: 9,
        role: Role::Assistant,
        content: "partial".to_string(),
        conversation_id: c.id,
        created_at: 0,
    };
    app.handle_events(Event::Inference(delta.clone(), InferenceType::Streaming));
    let after_once: Vec<String> =
        app.chat.messages().iter().map(|m| m.content.clone()).collect();
    app.handle_events(Event::Inference(delta, InferenceType::Streaming));
    let after_twice: Vec<String> =
        app.chat.messages().iter().map(|m| m.content.clone()).collect();
    assert_eq!(after_once, after_twice);
    assert_eq!(after_twice, vec!["q".to_string(), "partial".to_string()]);
}

#[test]
fn escape_in_the_list_clears_selection_and_transcript() {
    let mut store = Store::new();
    let c = store.create_conversation("c".to_string(), "p".to_string());
    let mut app = App::new();
    app.init(store.get_conversations());
    app.handle_key_events(key(KeyCode::Up));
    let m = store.create_message(Role::User, "x".to_string(), c.id).unwrap();
    app.apply_user_message(m);
    app.handle_key_events(key(KeyCode::Esc));
    assert!(app.conversations.currently_selected().is_none());
    assert!(app.chat.messages().is_empty());
}
