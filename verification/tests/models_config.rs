use lokai::config::Config;
use lokai::models::{Message, Role};
use lokai::ollama::OllamaChatParams;

#[test]
fn role_encoding_round_trips() {
    for role in [Role::Assistant, Role::System, Role::User] {
        assert_eq!(Role::decode(role.as_str()).unwrap(), role);
    }
    assert_eq!(Role::decode("assistant").unwrap(), Role::Assistant);
    assert_eq!(Role::decode("system").unwrap(), Role::System);
    assert_eq!(Role::decode("user").unwrap(), Role::User);
}

#[test]
fn unknown_role_strings_are_rejected_with_the_string() {
    let e = Role::decode("robot").unwrap_err();
    assert_eq!(e.value, "robot");
    let e = Role::decode("").unwrap_err();
    assert_eq!(e.value, "");
    assert!(Role::decode("User").is_err());
}

#[test]
fn message_builders_fill_the_fields() {
    let m = Message::user("hello".to_string(), 4);
    assert_eq!(m.role, Role::User);
    assert_eq!(m.content, "hello");
    assert_eq!(m.conversation_id, 4);
    assert_eq!(m.id, 0);
    let m = Message::assistant("hi".to_string(), 9);
    assert_eq!(m.role, Role::Assistant);
    assert_eq!(m.conversation_id, 9);
}

#[test]
fn config_paths_derive_from_the_base_directory() {
    let mut config = Config::new("/home/someone/.lokai".to_string());
    assert_eq!(config.database_url(), "sqlite:///home/someone/.lokai/db.sqlite");
    assert_eq!(config.logs_dir(), "/home/someone/.lokai/logs");
    assert_eq!(config.kalosm_cache_dir(), "/home/someone/.lokai/kalosm_cache");
    config.update_database_url("sqlite::memory:".to_string());
    assert_eq!(config.database_url(), "sqlite::memory:");
    assert_eq!(config.logs_dir(), "/home/someone/.lokai/logs");
}

#[test]
fn chat_params_keep_the_history_in_order() {
    let history = vec![
        Message::user("one".to_string(), 1),
        Message::assistant("two".to_string(), 1),
        Message::user("three".to_string(), 1),
    ];
    let params = OllamaChatParams::new("phi3:3.8b".to_string(), history, true);
    assert_eq!(params.model, "phi3:3.8b");
    assert!(params.stream);
    assert_eq!(params.messages.len(), 3);
    assert_eq!(params.messages[0].role, Role::User);
    assert_eq!(params.messages[0].content, "one");
    assert_eq!(params.messages[1].role, Role::Assistant);
    assert_eq!(params.messages[1].content, "two");
    assert_eq!(params.messages[2].content, "three");
}
