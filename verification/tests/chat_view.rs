use rockbot_tui::chat_state::SessionChatState;
use rockbot_tui::chat_view::{chat_lines, ChatLine, ChatScroll};
use rockbot_tui::model::{ChatMessage, ChatRole, ToolCallInfo};

fn msg(role: ChatRole, content: &str, timestamp: Option<&str>, tools: Vec<ToolCallInfo>) -> ChatMessage {
    ChatMessage { role, content: content.to_string(), timestamp: timestamp.map(String::from), tool_calls: tools }
}

#[test]
fn empty_chat_shows_a_note() {
    assert_eq!(
        chat_lines(&vec![], false),
        vec![ChatLine::Empty("No messages yet. Type a message and press Enter.".to_string())]
    );
    assert!(chat_lines(&vec![], true).is_empty());
}

#[test]
fn message_lines_in_order() {
    let tool = ToolCallInfo {
        tool_name: "read".to_string(),
        arguments: String::new(),
        result: "a\r\nb\n".to_string(),
        success: true,
        duration_ms: 1500,
        expanded: true,
    };
    let folded = ToolCallInfo { tool_name: "ls".to_string(), result: String::new(), success: false, expanded: false, ..tool.clone() };
    let lines = chat_lines(
        &vec![
            msg(ChatRole::User, "hi", Some("10:00:00"), vec![]),
            msg(ChatRole::Assistant, "one\n\ntwo\n", None, vec![tool, folded]),
        ],
        false,
    );
    assert_eq!(
        lines,
        vec![
            ChatLine::Header { timestamp: "[10:00:00] ".to_string(), prefix: "You: ".to_string(), role: ChatRole::User },
            ChatLine::Content("  hi".to_string(), ChatRole::User),
            ChatLine::Blank,
            ChatLine::Header { timestamp: String::new(), prefix: "AI: ".to_string(), role: ChatRole::Assistant },
            ChatLine::Tool {
                icon: "[+]".to_string(),
                name: " read".to_string(),
                duration_ms: 1500,
                hint: " [-]".to_string(),
                success: true,
            },
            ChatLine::ToolOutput("    a".to_string()),
            ChatLine::ToolOutput("    b".to_string()),
            ChatLine::Tool {
                icon: "[x]".to_string(),
                name: " ls".to_string(),
                duration_ms: 1500,
                hint: String::new(),
                success: false,
            },
            ChatLine::Content("  one".to_string(), ChatRole::Assistant),
            ChatLine::Content("  ".to_string(), ChatRole::Assistant),
            ChatLine::Content("  two".to_string(), ChatRole::Assistant),
            ChatLine::Blank,
        ]
    );
}

#[test]
fn scroll_follows_or_stays() {
    let mut c = SessionChatState::default();
    assert_eq!(c.lay_out(5, 10), ChatScroll { max_scroll: 0, offset: 0, not_at_bottom: false });
    assert_eq!(c.lay_out(30, 10), ChatScroll { max_scroll: 20, offset: 20, not_at_bottom: false });
    assert_eq!(c.max_scroll, 20);
    c.auto_scroll = false;
    c.scroll = 4;
    assert_eq!(c.lay_out(30, 10), ChatScroll { max_scroll: 20, offset: 4, not_at_bottom: true });
    c.scroll = 50;
    assert_eq!(c.lay_out(30, 10), ChatScroll { max_scroll: 20, offset: 20, not_at_bottom: false });
}
