use rockbot_tui::app_state::{AppState, Message};
use rockbot_tui::chat_input::ChatKeyOutcome;
use rockbot_tui::keybindings::KeybindingConfig;
use rockbot_tui::keys::{KeyCode, KeyEvent, KeyModifiers};
use rockbot_tui::model::{ChatMessage, ChatRole, SessionInfo};
use rockbot_tui::modes::InputMode;

fn state_with_session() -> AppState {
    let mut s = AppState::new(
        "c".to_string(),
        "v".to_string(),
        "l".to_string(),
        "ws://gw".to_string(),
        "http://gw".to_string(),
    );
    s.update(Message::SessionsLoaded(vec![SessionInfo {
        key: "s1".to_string(),
        agent_id: "main".to_string(),
        channel: None,
        started_at: None,
        message_count: 0,
        model: None,
    }]));
    s.input_mode = InputMode::ChatInput;
    s
}

fn press(s: &mut AppState, code: KeyCode, mods: KeyModifiers) -> ChatKeyOutcome {
    let kb = KeybindingConfig::default();
    s.handle_chat_key(KeyEvent::new(code, mods), &kb)
}

#[test]
fn typing_and_editing_the_input_line() {
    let mut s = state_with_session();
    for c in "héllo".chars() {
        assert_eq!(press(&mut s, KeyCode::Char(c), KeyModifiers::none()), ChatKeyOutcome::Handled);
    }
    assert_eq!(s.input_buffer, "héllo");
    assert_eq!(s.input_cursor, 6);
    press(&mut s, KeyCode::Left, KeyModifiers::none());
    press(&mut s, KeyCode::Left, KeyModifiers::none());
    press(&mut s, KeyCode::Left, KeyModifiers::none());
    assert_eq!(s.input_cursor, 3);
    press(&mut s, KeyCode::Backspace, KeyModifiers::none());
    assert_eq!(s.input_buffer, "hllo");
    assert_eq!(s.input_cursor, 1);
    press(&mut s, KeyCode::Delete, KeyModifiers::none());
    assert_eq!(s.input_buffer, "hlo");
    press(&mut s, KeyCode::End, KeyModifiers::none());
    assert_eq!(s.input_cursor, 3);
    press(&mut s, KeyCode::Home, KeyModifiers::none());
    assert_eq!(s.input_cursor, 0);
    press(&mut s, KeyCode::Right, KeyModifiers::none());
    assert_eq!(s.input_cursor, 1);
}

#[test]
fn shift_enter_inserts_newlines_up_to_the_limit() {
    let mut s = state_with_session();
    for _ in 0..12 {
        press(&mut s, KeyCode::Enter, KeyModifiers::shift());
    }
    assert_eq!(s.input_buffer.matches('\n').count(), 9);
    assert_eq!(s.input_cursor, 9);
}

#[test]
fn enter_sends_and_escape_leaves() {
    let mut s = state_with_session();
    press(&mut s, KeyCode::Char('x'), KeyModifiers::none());
    assert_eq!(press(&mut s, KeyCode::Enter, KeyModifiers::none()), ChatKeyOutcome::SendBuffer);
    assert_eq!(s.input_buffer, "x");
    assert_eq!(press(&mut s, KeyCode::Esc, KeyModifiers::none()), ChatKeyOutcome::Handled);
    assert!(!s.is_capturing_input());
}

#[test]
fn control_shortcuts_and_card_keys() {
    let mut s = state_with_session();
    assert_eq!(
        press(&mut s, KeyCode::Char('r'), KeyModifiers::control()),
        ChatKeyOutcome::RetryLastMessage
    );
    assert_eq!(press(&mut s, KeyCode::Left, KeyModifiers::alt()), ChatKeyOutcome::NormalMode);
    assert_eq!(s.input_buffer, "");
}

#[test]
fn scrolling_leaves_and_rejoins_the_bottom() {
    let mut s = state_with_session();
    s.update(Message::ChatResponse("s1".to_string(), "hi".to_string()));
    s.session_chats[0].state.max_scroll = 20;
    press(&mut s, KeyCode::PageUp, KeyModifiers::none());
    assert!(!s.chat_auto_scroll());
    assert_eq!(s.chat_scroll(), 10);
    press(&mut s, KeyCode::Up, KeyModifiers::control());
    assert_eq!(s.chat_scroll(), 7);
    press(&mut s, KeyCode::Down, KeyModifiers::none());
    assert_eq!(s.chat_scroll(), 8);
    press(&mut s, KeyCode::PageDown, KeyModifiers::none());
    assert_eq!(s.chat_scroll(), 18);
    assert!(!s.chat_auto_scroll());
    press(&mut s, KeyCode::PageDown, KeyModifiers::none());
    assert!(s.chat_auto_scroll());
}

#[test]
fn paste_drops_control_characters() {
    let mut s = state_with_session();
    s.paste_into_chat("a\tb\nc");
    assert_eq!(s.input_buffer, "ab\nc");
    assert_eq!(s.input_cursor, 4);
    s.input_mode = InputMode::Normal;
    s.paste_into_chat("ignored");
    assert_eq!(s.input_buffer, "ab\nc");
}

#[test]
fn take_and_queue_a_message() {
    let mut s = state_with_session();
    s.input_buffer = "   ".to_string();
    s.input_cursor = 3;
    assert_eq!(s.take_chat_message(), None);
    assert_eq!(s.input_buffer, "");
    s.input_buffer = "  hello  ".to_string();
    let m = s.take_chat_message().unwrap();
    assert_eq!(m, "hello");
    s.queue_chat_message(m);
    assert_eq!(s.input_buffer, "");
    let chat = &s.session_chats[0].state;
    assert_eq!(chat.messages.len(), 1);
    assert_eq!(chat.messages[0].role, ChatRole::User);
    assert!(chat.loading);
}

#[test]
fn retry_drops_notices_and_reply() {
    let mut s = state_with_session();
    s.queue_chat_message("question".to_string());
    assert_eq!(s.retry_last_message(), None);
    s.update(Message::ChatResponse("s1".to_string(), "answer".to_string()));
    s.update(Message::ChatError("s1".to_string(), "boom".to_string()));
    assert_eq!(s.session_chats[0].state.messages.len(), 3);
    assert_eq!(s.retry_last_message(), Some("question".to_string()));
    let chat = &s.session_chats[0].state;
    assert_eq!(chat.messages.len(), 1);
    assert!(chat.loading);
    assert_eq!(chat.messages[0].content, "question");
}

#[test]
fn retry_without_user_message_does_nothing() {
    let mut s = state_with_session();
    s.session_chats.clear();
    assert_eq!(s.retry_last_message(), None);
    let _ = ChatMessage::system("x".to_string());
    assert!(s.session_chats.is_empty());
}
