use rockbot_tui::widgets::{key_hint, render_tab_bar, slot_bar_height, thinking_word};

#[test]
fn key_hint_format() {
    assert_eq!(key_hint("q", "quit"), "q:quit ");
    assert_eq!(key_hint("", ""), ": ");
}

#[test]
fn tab_bar_marks_active_tab() {
    assert_eq!(
        render_tab_bar(&["Endpoints", "Providers", "Permissions"], 1),
        "  Endpoints  │▸ Providers ◂│  Permissions  "
    );
    assert_eq!(render_tab_bar(&["Only"], 0), "▸ Only ◂");
    assert_eq!(render_tab_bar(&["A", "B"], 5), "  A  │  B  ");
    assert_eq!(render_tab_bar(&[], 0), "");
}

#[test]
fn slot_bar_is_three_rows() {
    assert_eq!(slot_bar_height(), 3);
}

#[test]
fn thinking_word_rotates_every_eight_ticks() {
    assert_eq!(thinking_word(0, None), "thinking...");
    assert_eq!(thinking_word(7, None), "thinking...");
    assert_eq!(thinking_word(8, None), "reasoning...");
    assert_eq!(thinking_word(8 * 11, None), "formulating...");
    assert_eq!(thinking_word(8 * 12, None), "thinking...");
}

#[test]
fn thinking_word_names_running_tool() {
    assert_eq!(thinking_word(5, Some("web_search")), "running web_search...");
}
