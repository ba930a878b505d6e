use lokai::conversations::{DeleteConversationPopup, NewConversationPopup};
use lokai::event::{KeyCode, KeyInput};

fn plain(c: char) -> KeyInput {
    KeyInput { code: KeyCode::Char(c), ctrl: false, shift: false }
}

fn shifted(c: char) -> KeyInput {
    KeyInput { code: KeyCode::Char(c), ctrl: false, shift: true }
}

#[test]
fn test_activate() {
    // given
    let mut popup = NewConversationPopup::default();

    // when
    popup.activate();

    // then
    assert!(popup.is_activated());
    assert_eq!(popup.get_content(), Some(&"".to_string()));
}

#[test]
fn test_deactivate() {
    // given
    let mut popup = NewConversationPopup::default();

    // when
    popup.deactivate();

    // then
    assert!(!popup.is_activated());
    assert_eq!(popup.get_content(), None);
}

#[test]
fn test_handle_input() {
    // given
    let mut popup = NewConversationPopup::default();
    popup.activate();

    // when
    popup.handle_input(plain(' '));
    popup.handle_input(shifted('H'));
    popup.handle_input(plain('e'));
    popup.handle_input(plain('l'));
    popup.handle_input(plain('l'));
    popup.handle_input(plain('o'));
    popup.handle_input(plain(','));
    popup.handle_input(plain(' '));
    popup.handle_input(shifted('W'));
    popup.handle_input(plain('o'));
    popup.handle_input(plain('r'));
    popup.handle_input(plain('l'));
    popup.handle_input(plain('d'));
    popup.handle_input(plain('!'));
    popup.handle_input(plain(' '));

    // then
    assert_eq!(popup.get_content(), Some(&"Hello, World!".to_string()));
}

#[test]
fn test_clear() {
    // given
    let mut popup = NewConversationPopup::default();
    popup.activate();
    popup.handle_input(shifted('H'));

    // when
    popup.clear();

    // then
    assert!(popup.is_activated());
    assert_eq!(popup.get_content(), None);
}

#[test]
fn new_popup_backspace_deletes_and_trims() {
    let mut popup = NewConversationPopup::default();
    popup.activate();
    popup.handle_input(plain('h'));
    popup.handle_input(plain('i'));
    popup.handle_input(plain(' '));
    popup.handle_input(KeyInput { code: KeyCode::Backspace, ctrl: false, shift: false });
    assert_eq!(popup.get_content(), Some(&"hi".to_string()));
}

#[test]
fn new_popup_ignores_keys_with_ctrl_held() {
    let mut popup = NewConversationPopup::default();
    popup.activate();
    popup.handle_input(plain('a'));
    popup.handle_input(KeyInput { code: KeyCode::Char('b'), ctrl: true, shift: false });
    assert_eq!(popup.get_content(), Some(&"a".to_string()));
}

#[test]
fn delete_popup_starts_dormant_and_answering_no() {
    let popup = DeleteConversationPopup::default();
    assert!(!popup.is_activated());
    assert!(!popup.yes());
}

#[test]
fn delete_popup_activate_confirm_cancel() {
    let mut popup = DeleteConversationPopup::default();
    popup.activate();
    assert!(popup.is_activated());
    popup.confirm();
    assert!(popup.yes());
    popup.cancel();
    assert!(!popup.yes());
    popup.deactivate();
    assert!(!popup.is_activated());
}
