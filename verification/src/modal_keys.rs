//! Keys in the context menu, the context-file browser and the context-file
//! editor: how they change the input mode, and what the caller fetches,
//! saves or runs next.

use vstd::prelude::*;
use crate::app_state::AppState;
use crate::editor::{
    EditContextFileState, byte_len, can_delete, can_insert, char_deleted, char_inserted, line_bytes,
    moved_back, moved_down, moved_forward, moved_up, scrolled_to_cursor,
};
use crate::keys::{KeyCode, KeyEvent, KeyModifiers, mods_contain};
use crate::modes::{
    ConfirmAction, ContextFileInfo, ContextMenuItem, ContextMenuState, InputMode,
    ViewContextFilesState,
};
use crate::effect::Effect;
use crate::text::string_of;

verus! {

broadcast use vstd::string::group_string_axioms;


/// Lines kept in view in the context-file editor.
pub const EDITOR_VISIBLE_LINES: usize = 20;

/// The position of the first menu item with this key, if any.
pub open spec fn item_with_key(items: Seq<ContextMenuItem>, c: char) -> Option<int> {
    if exists|i: int| 0 <= i < items.len() && #[trigger] items[i].key == c {
        Some(choose|i: int| 0 <= i < items.len() && #[trigger] items[i].key == c && forall|j: int| 0 <= j < i ==> items[j].key != c)
    } else {
        None
    }
}

/// The state and action after a key in the context menu: Esc or `?`
/// closes it, Up/`k` and Down/`j` move the selection within the items,
/// Enter runs the selected item, and another character runs the first item
/// with that key.
pub open spec fn context_menu_keyed(
    b: AppState,
    a: AppState,
    key: KeyEvent,
    menu: ContextMenuState,
    r: Effect,
) -> bool {
    let code = key.code;
    if code == KeyCode::Esc || code == KeyCode::Char('?') {
        r == Effect::Nothing && a == (AppState { input_mode: InputMode::Normal, ..b })
    } else if code == KeyCode::Up || code == KeyCode::Char('k') {
        r == Effect::Nothing && a == (AppState {
            input_mode: InputMode::ContextMenu(
                ContextMenuState {
                    selected: if menu.selected > 0 { (menu.selected - 1) as usize } else { menu.selected },
                    ..menu
                },
            ),
            ..b
        })
    } else if code == KeyCode::Down || code == KeyCode::Char('j') {
        r == Effect::Nothing && a == (AppState {
            input_mode: InputMode::ContextMenu(
                ContextMenuState {
                    selected: if menu.selected + 1 < menu.items@.len() {
                        (menu.selected + 1) as usize
                    } else {
                        menu.selected
                    },
                    ..menu
                },
            ),
            ..b
        })
    } else if code == KeyCode::Enter {
        r == Effect::Dispatch(menu.items@[menu.selected as int].action) && a == (AppState {
            input_mode: InputMode::Normal,
            ..b
        })
    } else if code is Char {
        match item_with_key(menu.items@, code->Char_0) {
            Some(i) => r == Effect::Dispatch(menu.items@[i].action) && a == (AppState {
                input_mode: InputMode::Normal,
                ..b
            }),
            None => r == Effect::Nothing && a == (AppState { input_mode: InputMode::ContextMenu(menu), ..b }),
        }
    } else {
        r == Effect::Nothing && a == (AppState { input_mode: InputMode::ContextMenu(menu), ..b })
    }
}

/// A file browser for an agent, waiting for its list.
pub open spec fn fresh_browser(v: ViewContextFilesState, agent_id: Seq<char>) -> bool {
    &&& v.agent_id@ == agent_id
    &&& v.files@.len() == 0
    &&& v.selected == 0
    &&& v.loading
}

/// The state and action after a key in the file browser: Esc closes it,
/// Up/`k` and Down/`j` move the selection within the files, and Enter opens
/// the selected file: an existing one is fetched, a missing one is edited
/// from empty. Other keys leave the browser as it is.
pub open spec fn browser_keyed(
    b: AppState,
    a: AppState,
    key: KeyEvent,
    st: ViewContextFilesState,
    r: Effect,
) -> bool {
    let code = key.code;
    if code == KeyCode::Esc {
        r == Effect::Nothing && a == (AppState { input_mode: InputMode::Normal, ..b })
    } else if code == KeyCode::Up || code == KeyCode::Char('k') {
        r == Effect::Nothing && a == (AppState {
            input_mode: InputMode::ViewContextFiles(
                ViewContextFilesState {
                    selected: if st.selected > 0 { (st.selected - 1) as usize } else { st.selected },
                    ..st
                },
            ),
            ..b
        })
    } else if code == KeyCode::Down || code == KeyCode::Char('j') {
        r == Effect::Nothing && a == (AppState {
            input_mode: InputMode::ViewContextFiles(
                ViewContextFilesState {
                    selected: if st.selected + 1 < st.files@.len() {
                        (st.selected + 1) as usize
                    } else {
                        st.selected
                    },
                    ..st
                },
            ),
            ..b
        })
    } else if code == KeyCode::Enter && st.selected < st.files@.len() {
        let file = st.files@[st.selected as int];
        if file.exists {
            &&& a == (AppState { input_mode: InputMode::ViewContextFiles(st), ..b })
            &&& r matches Effect::FetchContextFile(agent, name) && agent@ == st.agent_id@ && name@
                == file.name@
        } else {
            &&& r == Effect::Nothing
            &&& a == (AppState { input_mode: a.input_mode, ..b })
            &&& a.input_mode matches InputMode::EditContextFile(e) && e.agent_id@ == st.agent_id@
                && e.filename@ == file.name@ && e.content@.len() == 0 && e.cursor_line == 0 && e.cursor_col
                == 0 && e.scroll_offset == 0 && !e.is_dirty && !e.is_loading && e.is_new_file
        }
    } else {
        r == Effect::Nothing && a == (AppState { input_mode: InputMode::ViewContextFiles(st), ..b })
    }
}

/// The edit that a key makes in the context-file editor before the view
/// scrolls: Enter and characters insert, Backspace deletes, Up and Down
/// move between lines.
pub open spec fn key_edit(code: KeyCode, x: EditContextFileState, y: EditContextFileState) -> bool {
    match code {
        KeyCode::Enter => char_inserted(x, y, '\n'),
        KeyCode::Backspace => char_deleted(x, y),
        KeyCode::Up => moved_up(x, y),
        KeyCode::Down => moved_down(x, y),
        KeyCode::Char(c) => char_inserted(x, y, c),
        _ => false,
    }
}

/// The editor after the key's edit and scrolling the cursor into view.
pub open spec fn edited_then_shown(code: KeyCode, st: EditContextFileState, e: EditContextFileState) -> bool {
    exists|mid: EditContextFileState| #[trigger] key_edit(code, st, mid) && scrolled_to_cursor(mid, e, EDITOR_VISIBLE_LINES as nat)
}

/// The state and action after a key in the context-file editor: Esc goes
/// back to the file browser (asking first when there are unsaved changes)
/// and refreshes its list; Ctrl+S saves; Enter, Backspace and characters
/// edit; the arrows, Home and End move the cursor.
pub open spec fn editor_keyed(
    b: AppState,
    a: AppState,
    key: KeyEvent,
    st: EditContextFileState,
    r: Effect,
) -> bool {
    a == (AppState { input_mode: a.input_mode, ..b }) && editor_mode_keyed(key, st, a.input_mode, r)
}

/// The input mode and action after a key in the context-file editor.
pub open spec fn editor_mode_keyed(key: KeyEvent, st: EditContextFileState, m: InputMode, r: Effect) -> bool {
    let code = key.code;
    if code == KeyCode::Esc {
        &&& r matches Effect::FetchContextFiles(agent) && agent@ == st.agent_id@
        &&& if st.is_dirty {
            m matches InputMode::Confirm { message, action } && message@ == "Discard unsaved changes?"@
                && (action matches ConfirmAction::DiscardContextFile(v) && fresh_browser(v, st.agent_id@))
        } else {
            m matches InputMode::ViewContextFiles(v) && fresh_browser(v, st.agent_id@)
        }
    } else if code == KeyCode::Char('s') && mods_contain(key.modifiers, KeyModifiers { bits: 2 }) {
        &&& r matches Effect::SaveContextFile(agent, name, content) && agent@ == st.agent_id@ && name@
            == st.filename@ && content@ == st.content@
        &&& m == InputMode::EditContextFile(st)
    } else if code == KeyCode::Enter || code == KeyCode::Backspace || code == KeyCode::Up || code
        == KeyCode::Down || code is Char {
        r == Effect::Nothing && (m matches InputMode::EditContextFile(e) && edited_then_shown(code, st, e))
    } else if code == KeyCode::Left {
        r == Effect::Nothing && (m matches InputMode::EditContextFile(e) && moved_back(st, e))
    } else if code == KeyCode::Right {
        r == Effect::Nothing && (m matches InputMode::EditContextFile(e) && moved_forward(st, e))
    } else if code == KeyCode::Home {
        r == Effect::Nothing && m == InputMode::EditContextFile(EditContextFileState { cursor_col: 0, ..st })
    } else if code == KeyCode::End {
        r == Effect::Nothing && m == InputMode::EditContextFile(
            EditContextFileState { cursor_col: line_bytes(st.content@, st.cursor_line as nat) as usize, ..st },
        )
    } else {
        r == Effect::Nothing && m == InputMode::EditContextFile(st)
    }
}

/// The editor can take the key without failing: insertions fall on a
/// character boundary, backspace has a character to remove, and positions
/// stay below the largest index.
pub open spec fn editor_key_ok(key: KeyEvent, st: EditContextFileState) -> bool {
    &&& byte_len(st.content@) + 1 < usize::MAX
    &&& st.cursor_line + 1 < usize::MAX
    &&& st.cursor_col + 1 < usize::MAX
    &&& st.scroll_offset + EDITOR_VISIBLE_LINES <= usize::MAX
    &&& (key.code == KeyCode::Enter || (key.code is Char && !(key.code == KeyCode::Char('s') && mods_contain(
        key.modifiers,
        KeyModifiers { bits: 2 },
    )))) ==> can_insert(st)
    &&& key.code == KeyCode::Backspace ==> can_delete(st)
}

/// A browser for an agent's files, waiting for the list.
fn browser_for(agent_id: &String) -> (v: ViewContextFilesState)
    ensures
        fresh_browser(v, agent_id@),
{
    ViewContextFilesState { agent_id: agent_id.clone(), files: Vec::new(), selected: 0, loading: true }
}

impl AppState {
    /// Handle a key in the context menu.
    pub fn context_menu_key(&mut self, key: KeyEvent, menu: ContextMenuState) -> (r: Effect)
        requires
            key.code == KeyCode::Enter ==> menu.selected < menu.items@.len(),
        ensures
            context_menu_keyed(*old(self), *final(self), key, menu, r),
    {
        let mut menu = menu;
        match key.code {
            KeyCode::Esc | KeyCode::Char('?') => {
                self.input_mode = InputMode::Normal;
                Effect::Nothing
            },
            KeyCode::Up | KeyCode::Char('k') => {
                if menu.selected > 0 {
                    menu.selected = menu.selected - 1;
                }
                self.input_mode = InputMode::ContextMenu(menu);
                Effect::Nothing
            },
            KeyCode::Down | KeyCode::Char('j') => {
                if menu.selected < menu.items.len() && menu.selected + 1 < menu.items.len() {
                    menu.selected = menu.selected + 1;
                }
                self.input_mode = InputMode::ContextMenu(menu);
                Effect::Nothing
            },
            KeyCode::Enter => {
                let action = menu.items[menu.selected].action;
                self.input_mode = InputMode::Normal;
                Effect::Dispatch(action)
            },
            KeyCode::Char(c) => {
                let mut i: usize = 0;
                while i < menu.items.len() && menu.items[i].key != c
                    invariant
                        i <= menu.items@.len(),
                        forall|j: int| 0 <= j < i ==> menu.items@[j].key != c,
                    decreases menu.items@.len() - i,
                {
                    i = i + 1;
                }
                if i < menu.items.len() {
                    proof {
                        let items = menu.items@;
                        assert(exists|q: int|
                            0 <= q < items.len() && #[trigger] items[q].key == c && forall|j: int| 0 <= j < q ==> items[j].key != c);
                        let q = choose|q: int|
                            0 <= q < items.len() && #[trigger] items[q].key == c && forall|j: int| 0 <= j < q ==> items[j].key != c;
                        if q < i {
                            assert(items[q].key != c);
                        } else if q > i {
                            assert(items[i as int].key != c);
                        }
                    }
                    let action = menu.items[i].action;
                    self.input_mode = InputMode::Normal;
                    Effect::Dispatch(action)
                } else {
                    self.input_mode = InputMode::ContextMenu(menu);
                    Effect::Nothing
                }
            },
            _ => {
                self.input_mode = InputMode::ContextMenu(menu);
                Effect::Nothing
            },
        }
    }

    /// Handle a key in the context-file browser.
    pub fn context_files_key(&mut self, key: KeyEvent, state: ViewContextFilesState) -> (r: Effect)
        ensures
            browser_keyed(*old(self), *final(self), key, state, r),
    {
        let mut st = state;
        match key.code {
            KeyCode::Esc => {
                self.input_mode = InputMode::Normal;
                Effect::Nothing
            },
            KeyCode::Up | KeyCode::Char('k') => {
                if st.selected > 0 {
                    st.selected = st.selected - 1;
                }
                self.input_mode = InputMode::ViewContextFiles(st);
                Effect::Nothing
            },
            KeyCode::Down | KeyCode::Char('j') => {
                if st.selected < st.files.len() && st.selected + 1 < st.files.len() {
                    st.selected = st.selected + 1;
                }
                self.input_mode = InputMode::ViewContextFiles(st);
                Effect::Nothing
            },
            KeyCode::Enter => {
                if st.selected < st.files.len() {
                    let file: &ContextFileInfo = &st.files[st.selected];
                    let filename = file.name.clone();
                    let agent_id = st.agent_id.clone();
                    if file.exists {
                        self.input_mode = InputMode::ViewContextFiles(st);
                        Effect::FetchContextFile(agent_id, filename)
                    } else {
                        self.input_mode = InputMode::EditContextFile(
                            EditContextFileState::new(agent_id, filename, String::new()),
                        );
                        Effect::Nothing
                    }
                } else {
                    self.input_mode = InputMode::ViewContextFiles(st);
                    Effect::Nothing
                }
            },
            _ => {
                self.input_mode = InputMode::ViewContextFiles(st);
                Effect::Nothing
            },
        }
    }

    /// Handle a key in the context-file editor.
    pub fn context_file_editor_key(&mut self, key: KeyEvent, state: EditContextFileState) -> (r: Effect)
        requires
            editor_key_ok(key, state),
        ensures
            editor_keyed(*old(self), *final(self), key, state, r),
    {
        let (mode, action) = editor_step(key, state);
        self.input_mode = mode;
        action
    }
}

/// The input mode and action after a key in the context-file editor.
fn editor_step(key: KeyEvent, state: EditContextFileState) -> (res: (InputMode, Effect))
    requires
        editor_key_ok(key, state),
    ensures
        editor_mode_keyed(key, state, res.0, res.1),
{
    let mut st = state;
    match key.code {
        KeyCode::Esc => {
            let browser = browser_for(&st.agent_id);
            let agent_id = st.agent_id.clone();
            let mode = if st.is_dirty {
                InputMode::Confirm {
                    message: string_of("Discard unsaved changes?"),
                    action: ConfirmAction::DiscardContextFile(browser),
                }
            } else {
                InputMode::ViewContextFiles(browser)
            };
            (mode, Effect::FetchContextFiles(agent_id))
        },
        KeyCode::Char('s') if key.modifiers.contains(KeyModifiers::control()) => {
            let action = Effect::SaveContextFile(
                st.agent_id.clone(),
                st.filename.clone(),
                st.content.clone(),
            );
            (InputMode::EditContextFile(st), action)
        },
        KeyCode::Enter => {
            st.insert_char('\n');
            let ghost mid = st;
            st.ensure_cursor_visible(EDITOR_VISIBLE_LINES);
            assert(key_edit(key.code, state, mid));
            (InputMode::EditContextFile(st), Effect::Nothing)
        },
        KeyCode::Backspace => {
            st.delete_char();
            let ghost mid = st;
            st.ensure_cursor_visible(EDITOR_VISIBLE_LINES);
            assert(key_edit(key.code, state, mid));
            (InputMode::EditContextFile(st), Effect::Nothing)
        },
        KeyCode::Up => {
            st.cursor_up();
            let ghost mid = st;
            st.ensure_cursor_visible(EDITOR_VISIBLE_LINES);
            assert(key_edit(key.code, state, mid));
            (InputMode::EditContextFile(st), Effect::Nothing)
        },
        KeyCode::Down => {
            st.cursor_down();
            let ghost mid = st;
            st.ensure_cursor_visible(EDITOR_VISIBLE_LINES);
            assert(key_edit(key.code, state, mid));
            (InputMode::EditContextFile(st), Effect::Nothing)
        },
        KeyCode::Left => {
            st.cursor_left();
            (InputMode::EditContextFile(st), Effect::Nothing)
        },
        KeyCode::Right => {
            st.cursor_right();
            (InputMode::EditContextFile(st), Effect::Nothing)
        },
        KeyCode::Home => {
            st.cursor_col = 0;
            (InputMode::EditContextFile(st), Effect::Nothing)
        },
        KeyCode::End => {
            let n = st.line_len(st.cursor_line);
            st.cursor_col = n;
            (InputMode::EditContextFile(st), Effect::Nothing)
        },
        KeyCode::Char(c) => {
            st.insert_char(c);
            let ghost mid = st;
            st.ensure_cursor_visible(EDITOR_VISIBLE_LINES);
            assert(key_edit(key.code, state, mid));
            (InputMode::EditContextFile(st), Effect::Nothing)
        },
        _ => (InputMode::EditContextFile(st), Effect::Nothing),
    }
}

} // verus!
