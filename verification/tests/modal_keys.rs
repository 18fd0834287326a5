use rockbot_tui::app_state::AppState;
use rockbot_tui::editor::EditContextFileState;
use rockbot_tui::keys::{KeyCode, KeyEvent, KeyModifiers};
use rockbot_tui::effect::Effect;
use rockbot_tui::modes::{
    ConfirmAction, ContextFileInfo, ContextMenuAction, ContextMenuItem, ContextMenuState, InputMode,
    ViewContextFilesState,
};

fn state() -> AppState {
    AppState::new(
        "c".to_string(),
        "v".to_string(),
        "l".to_string(),
        "ws://gw".to_string(),
        "http://gw".to_string(),
    )
}

fn key(code: KeyCode) -> KeyEvent {
    KeyEvent::new(code, KeyModifiers::none())
}

fn menu(selected: usize) -> ContextMenuState {
    ContextMenuState {
        items: vec![
            ContextMenuItem { label: "Add agent".to_string(), key: 'a', action: ContextMenuAction::OpenAddAgent },
            ContextMenuItem { label: "Edit agent".to_string(), key: 'e', action: ContextMenuAction::OpenEditAgent },
            ContextMenuItem { label: "Refresh".to_string(), key: 'r', action: ContextMenuAction::RefreshPage },
        ],
        selected,
        position: (3, 4),
    }
}

fn selected_in_menu(s: &AppState) -> usize {
    match &s.input_mode {
        InputMode::ContextMenu(m) => m.selected,
        other => panic!("not in the context menu: {:?}", other),
    }
}

#[test]
fn context_menu_moves_within_its_items() {
    let mut s = state();
    assert_eq!(s.context_menu_key(key(KeyCode::Down), menu(0)), Effect::Nothing);
    assert_eq!(selected_in_menu(&s), 1);
    s.context_menu_key(key(KeyCode::Char('j')), menu(2));
    assert_eq!(selected_in_menu(&s), 2);
    s.context_menu_key(key(KeyCode::Up), menu(0));
    assert_eq!(selected_in_menu(&s), 0);
    s.context_menu_key(key(KeyCode::Char('k')), menu(2));
    assert_eq!(selected_in_menu(&s), 1);
}

#[test]
fn context_menu_runs_the_selected_or_keyed_item() {
    let mut s = state();
    assert_eq!(
        s.context_menu_key(key(KeyCode::Enter), menu(1)),
        Effect::Dispatch(ContextMenuAction::OpenEditAgent)
    );
    assert_eq!(s.input_mode, InputMode::Normal);
    assert_eq!(
        s.context_menu_key(key(KeyCode::Char('r')), menu(0)),
        Effect::Dispatch(ContextMenuAction::RefreshPage)
    );
    assert_eq!(s.input_mode, InputMode::Normal);
}

#[test]
fn context_menu_ignores_unknown_keys_and_closes_on_esc() {
    let mut s = state();
    assert_eq!(s.context_menu_key(key(KeyCode::Char('z')), menu(2)), Effect::Nothing);
    assert_eq!(selected_in_menu(&s), 2);
    assert_eq!(s.context_menu_key(key(KeyCode::Tab), menu(1)), Effect::Nothing);
    assert_eq!(selected_in_menu(&s), 1);
    assert_eq!(s.context_menu_key(key(KeyCode::Char('?')), menu(1)), Effect::Nothing);
    assert_eq!(s.input_mode, InputMode::Normal);
    s.context_menu_key(key(KeyCode::Esc), menu(1));
    assert_eq!(s.input_mode, InputMode::Normal);
}

fn browser(selected: usize) -> ViewContextFilesState {
    ViewContextFilesState {
        agent_id: "main".to_string(),
        files: vec![
            ContextFileInfo { name: "SOUL.md".to_string(), exists: true, size_bytes: 12, well_known: true },
            ContextFileInfo { name: "NOTES.md".to_string(), exists: false, size_bytes: 0, well_known: false },
        ],
        selected,
        loading: false,
    }
}

#[test]
fn file_browser_fetches_existing_files_and_opens_missing_ones_empty() {
    let mut s = state();
    assert_eq!(
        s.context_files_key(key(KeyCode::Enter), browser(0)),
        Effect::FetchContextFile("main".to_string(), "SOUL.md".to_string())
    );
    assert_eq!(s.input_mode, InputMode::ViewContextFiles(browser(0)));
    assert_eq!(s.context_files_key(key(KeyCode::Enter), browser(1)), Effect::Nothing);
    match &s.input_mode {
        InputMode::EditContextFile(e) => {
            assert_eq!(e.agent_id, "main");
            assert_eq!(e.filename, "NOTES.md");
            assert_eq!(e.content, "");
            assert!(e.is_new_file);
            assert!(!e.is_dirty);
        },
        other => panic!("not editing: {:?}", other),
    }
}

#[test]
fn file_browser_moves_and_closes() {
    let mut s = state();
    s.context_files_key(key(KeyCode::Down), browser(0));
    assert_eq!(s.input_mode, InputMode::ViewContextFiles(browser(1)));
    s.context_files_key(key(KeyCode::Down), browser(1));
    assert_eq!(s.input_mode, InputMode::ViewContextFiles(browser(1)));
    s.context_files_key(key(KeyCode::Char('k')), browser(1));
    assert_eq!(s.input_mode, InputMode::ViewContextFiles(browser(0)));
    s.context_files_key(key(KeyCode::Esc), browser(0));
    assert_eq!(s.input_mode, InputMode::Normal);
}

fn editing(content: &str) -> EditContextFileState {
    EditContextFileState::new("main".to_string(), "SOUL.md".to_string(), content.to_string())
}

fn editor_of(s: &AppState) -> EditContextFileState {
    match &s.input_mode {
        InputMode::EditContextFile(e) => e.clone(),
        other => panic!("not editing: {:?}", other),
    }
}

#[test]
fn editor_types_moves_and_saves() {
    let mut s = state();
    assert_eq!(s.context_file_editor_key(key(KeyCode::Char('h')), editing("")), Effect::Nothing);
    let e = editor_of(&s);
    assert_eq!(e.content, "h");
    assert!(e.is_dirty);
    s.context_file_editor_key(key(KeyCode::Enter), e);
    let e = editor_of(&s);
    assert_eq!(e.content, "h\n");
    assert_eq!((e.cursor_line, e.cursor_col), (1, 0));
    s.context_file_editor_key(key(KeyCode::Up), e);
    let e = editor_of(&s);
    assert_eq!(e.cursor_line, 0);
    s.context_file_editor_key(key(KeyCode::End), e);
    let e = editor_of(&s);
    assert_eq!(e.cursor_col, 1);
    s.context_file_editor_key(key(KeyCode::Home), e);
    let e = editor_of(&s);
    assert_eq!(e.cursor_col, 0);
    let save = KeyEvent::new(KeyCode::Char('s'), KeyModifiers::control());
    assert_eq!(
        s.context_file_editor_key(save, e),
        Effect::SaveContextFile("main".to_string(), "SOUL.md".to_string(), "h\n".to_string())
    );
    assert_eq!(editor_of(&s).content, "h\n");
}

#[test]
fn editor_backspace_removes_the_character_before_the_cursor() {
    let mut s = state();
    let mut e = editing("ab");
    e.cursor_col = 2;
    s.context_file_editor_key(key(KeyCode::Backspace), e);
    let e = editor_of(&s);
    assert_eq!(e.content, "a");
    assert_eq!(e.cursor_col, 1);
}

#[test]
fn editor_esc_asks_before_discarding_changes() {
    let mut s = state();
    let mut dirty = editing("x");
    dirty.is_dirty = true;
    assert_eq!(
        s.context_file_editor_key(key(KeyCode::Esc), dirty),
        Effect::FetchContextFiles("main".to_string())
    );
    let fresh = ViewContextFilesState { agent_id: "main".to_string(), files: vec![], selected: 0, loading: true };
    assert_eq!(
        s.input_mode,
        InputMode::Confirm {
            message: "Discard unsaved changes?".to_string(),
            action: ConfirmAction::DiscardContextFile(fresh.clone()),
        }
    );
    assert_eq!(
        s.context_file_editor_key(key(KeyCode::Esc), editing("x")),
        Effect::FetchContextFiles("main".to_string())
    );
    assert_eq!(s.input_mode, InputMode::ViewContextFiles(fresh));
}
