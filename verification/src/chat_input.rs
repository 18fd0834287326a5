//! What a key does in the chat input: the control shortcuts, the card bar
//! keys that go to the normal-mode handler, editing the input line, and
//! scrolling the chat of the selected session.

use vstd::prelude::*;
use crate::active_chat::{active_chat_stepped, tools_toggled};
use crate::app_state::{AppState, lemma_keys_kept};
use crate::chat_state::{ChatView, SessionChatState};
use crate::editor::byte_len;
use crate::input::{InputAction, normalize_for_text_input, normalize_spec};
use crate::keybindings::{KeybindingConfig, TuiAction, first_match};
use crate::keys::{KeyCode, KeyEvent, KeyModifiers, mods_contain};
use crate::line_edit::{
    backspace, backspaced, cursor_left, cursor_right, delete_forward, deleted, end_of, moved_left,
    moved_right, newline_typed, on_boundary, paste, pasted, type_char, type_newline, typed,
    lemma_start_boundary};
use crate::modes::InputMode;

verus! {

broadcast use vstd::string::group_string_axioms;

/// What the caller does after a key in the chat input.
#[derive(Debug, Clone, Copy, PartialEq, Eq, Structural)]
pub enum ChatKeyOutcome {
    /// The key was handled here.
    Handled,
    /// Send the last message again.
    RetryLastMessage,
    /// Send the input line.
    SendBuffer,
    /// Let the normal-mode handler take the key.
    NormalMode,
}

/// The chat after scrolling up `n` lines: following the latest content
/// stops, starting from the bottom.
pub open spec fn scrolled_up(b: ChatView, a: ChatView, n: nat) -> bool {
    let start = if b.auto_scroll { b.max_scroll } else { b.scroll };
    a == (ChatView {
        scroll: if start >= n { (start - n) as nat } else { 0 },
        auto_scroll: false,
        ..b
    })
}

/// The chat after scrolling down `n` lines: reaching the bottom follows the
/// latest content again; a chat already following it does not move.
pub open spec fn scrolled_down(b: ChatView, a: ChatView, n: nat) -> bool {
    if b.auto_scroll {
        a == b
    } else {
        let s: nat = if b.scroll + n > usize::MAX { usize::MAX as nat } else { b.scroll + n };
        a == (ChatView { scroll: s, auto_scroll: s >= b.max_scroll, ..b })
    }
}

/// Actions of the card bar and the overlays, which the chat input passes
/// on to the normal-mode handler.
pub open spec fn is_card_action(a: TuiAction) -> bool {
    match a {
        TuiAction::CardLeft | TuiAction::CardRight | TuiAction::CardUp | TuiAction::CardDown
        | TuiAction::CardActivate | TuiAction::OpenVault | TuiAction::OpenSettings
        | TuiAction::OpenModels | TuiAction::OpenCron => true,
        _ => false,
    }
}

/// Control is held.
pub open spec fn ctrl_held(key: KeyEvent) -> bool {
    mods_contain(key.modifiers, KeyModifiers { bits: 2 })
}

/// The input line is replaced by `line`: text and cursor.
pub open spec fn input_set(b: AppState, a: AppState, line: (Seq<char>, nat)) -> bool {
    &&& a == (AppState { input_buffer: a.input_buffer, input_cursor: line.1 as usize, ..b })
    &&& a.input_buffer@ == line.0
    &&& line.1 <= usize::MAX
}

/// The input line can be edited: the cursor is on a character boundary and
/// the text is far from the largest length.
pub open spec fn input_ok(s: AppState) -> bool {
    &&& on_boundary(s.input_buffer@, s.input_cursor as nat)
    &&& byte_len(s.input_buffer@) + 4 < usize::MAX
}

/// The state after a key in the chat input, and what the caller does next.
pub open spec fn chat_key_handled(
    b: AppState,
    a: AppState,
    key: KeyEvent,
    kb: KeybindingConfig,
    r: ChatKeyOutcome,
) -> bool {
    let buf = b.input_buffer@;
    let cur = b.input_cursor as nat;
    if ctrl_held(key) && key.code == KeyCode::Char('r') {
        r == ChatKeyOutcome::RetryLastMessage && a == b
    } else if ctrl_held(key) && key.code == KeyCode::Char('t') {
        r == ChatKeyOutcome::Handled && active_chat_stepped(
            b,
            a,
            |pv: ChatView, av: ChatView| tools_toggled(pv, av),
        )
    } else if ctrl_held(key) && key.code == KeyCode::Up {
        r == ChatKeyOutcome::Handled && active_chat_stepped(
            b,
            a,
            |pv: ChatView, av: ChatView| scrolled_up(pv, av, 3),
        )
    } else if ctrl_held(key) && key.code == KeyCode::Down {
        r == ChatKeyOutcome::Handled && active_chat_stepped(
            b,
            a,
            |pv: ChatView, av: ChatView| scrolled_down(pv, av, 3),
        )
    } else if first_match(kb.chat@, key) matches Some(act) && is_card_action(act) {
        r == ChatKeyOutcome::NormalMode && a == b
    } else {
        match normalize_spec(key) {
            InputAction::Submit => r == ChatKeyOutcome::SendBuffer && a == b,
            InputAction::Cancel => r == ChatKeyOutcome::Handled && a == (AppState {
                input_mode: InputMode::Normal,
                ..b
            }),
            _ => r == ChatKeyOutcome::Handled && match normalize_spec(key) {
                InputAction::Newline => input_set(b, a, newline_typed(buf, cur)),
                InputAction::Text(c) => input_set(b, a, typed(buf, cur, c)),
                InputAction::Backspace => input_set(b, a, backspaced(buf, cur)),
                InputAction::Delete => input_set(b, a, (deleted(buf, cur), cur)),
                InputAction::NavLeft => input_set(b, a, (buf, moved_left(buf, cur))),
                InputAction::NavRight => input_set(b, a, (buf, moved_right(buf, cur))),
                InputAction::Home => input_set(b, a, (buf, 0)),
                InputAction::End => input_set(b, a, (buf, byte_len(buf))),
                InputAction::PageUp => active_chat_stepped(
                    b,
                    a,
                    |pv: ChatView, av: ChatView| scrolled_up(pv, av, 10),
                ),
                InputAction::PageDown => active_chat_stepped(
                    b,
                    a,
                    |pv: ChatView, av: ChatView| scrolled_down(pv, av, 10),
                ),
                InputAction::NavUp => active_chat_stepped(
                    b,
                    a,
                    |pv: ChatView, av: ChatView| scrolled_up(pv, av, 1),
                ),
                InputAction::NavDown => active_chat_stepped(
                    b,
                    a,
                    |pv: ChatView, av: ChatView| scrolled_down(pv, av, 1),
                ),
                _ => a == b,
            },
        }
    }
}

impl SessionChatState {
    /// Scroll up `n` lines, leaving the bottom if the view followed it.
    pub fn scroll_up(&mut self, n: usize)
        ensures
            scrolled_up(old(self)@, final(self)@, n as nat),
    {
        if self.auto_scroll {
            self.scroll = self.max_scroll;
            self.auto_scroll = false;
        }
        self.scroll = self.scroll.saturating_sub(n);
    }

    /// Scroll down `n` lines, following the latest content again at the
    /// bottom.
    pub fn scroll_down(&mut self, n: usize)
        ensures
            scrolled_down(old(self)@, final(self)@, n as nat),
    {
        if !self.auto_scroll {
            self.scroll = self.scroll.saturating_add(n);
            if self.scroll >= self.max_scroll {
                self.auto_scroll = true;
            }
        }
    }
}

impl AppState {
    /// Scroll the selected session's chat up `n` lines.
    pub(crate) fn scroll_active_up(&mut self, n: usize)
        requires
            old(self).wf(),
        ensures
            final(self).wf(),
            active_chat_stepped(*old(self), *final(self), |pv: ChatView, av: ChatView| scrolled_up(pv, av, n as nat)),
    {
        if self.selected_session < self.sessions.len() {
            let key = self.sessions[self.selected_session].key.clone();
            let p = self.chat_entry(key.as_str());
            let ghost mid = self.session_chats@;
            self.session_chats[p].state.scroll_up(n);
            proof {
                lemma_keys_kept(mid, self.session_chats@, p as int);
            }
        }
    }

    /// Scroll the selected session's chat down `n` lines.
    pub(crate) fn scroll_active_down(&mut self, n: usize)
        requires
            old(self).wf(),
        ensures
            final(self).wf(),
            active_chat_stepped(*old(self), *final(self), |pv: ChatView, av: ChatView| scrolled_down(pv, av, n as nat)),
    {
        if self.selected_session < self.sessions.len() {
            let key = self.sessions[self.selected_session].key.clone();
            let p = self.chat_entry(key.as_str());
            let ghost mid = self.session_chats@;
            self.session_chats[p].state.scroll_down(n);
            proof {
                lemma_keys_kept(mid, self.session_chats@, p as int);
            }
        }
    }

    /// Make the selected session's chat follow the latest content again.
    pub(crate) fn scroll_active_end(&mut self)
        requires
            old(self).wf(),
        ensures
            final(self).wf(),
            active_chat_stepped(*old(self), *final(self), |pv: ChatView, av: ChatView| av == (ChatView { auto_scroll: true, ..pv })),
    {
        if self.selected_session < self.sessions.len() {
            let key = self.sessions[self.selected_session].key.clone();
            let p = self.chat_entry(key.as_str());
            let ghost mid = self.session_chats@;
            self.session_chats[p].state.auto_scroll = true;
            proof {
                lemma_keys_kept(mid, self.session_chats@, p as int);
            }
        }
    }

    /// Edit the input line by a text-editing action.
    fn edit_input(&mut self, action: InputAction)
        requires
            input_ok(*old(self)),
        ensures
            input_ok(*final(self)) || (action is Text || action is Newline),
            on_boundary(final(self).input_buffer@, final(self).input_cursor as nat),
            ({
                let buf = old(self).input_buffer@;
                let cur = old(self).input_cursor as nat;
                match action {
                    InputAction::Newline => input_set(*old(self), *final(self), newline_typed(buf, cur)),
                    InputAction::Text(c) => input_set(*old(self), *final(self), typed(buf, cur, c)),
                    InputAction::Backspace => input_set(*old(self), *final(self), backspaced(buf, cur)),
                    InputAction::Delete => input_set(*old(self), *final(self), (deleted(buf, cur), cur)),
                    InputAction::NavLeft => input_set(*old(self), *final(self), (buf, moved_left(buf, cur))),
                    InputAction::NavRight => input_set(*old(self), *final(self), (buf, moved_right(buf, cur))),
                    InputAction::Home => input_set(*old(self), *final(self), (buf, 0)),
                    InputAction::End => input_set(*old(self), *final(self), (buf, byte_len(buf))),
                    _ => *final(self) == *old(self),
                }
            }),
    {
        match action {
            InputAction::Newline => {
                type_newline(&mut self.input_buffer, &mut self.input_cursor);
            },
            InputAction::Text(c) => {
                type_char(&mut self.input_buffer, &mut self.input_cursor, c);
            },
            InputAction::Backspace => {
                backspace(&mut self.input_buffer, &mut self.input_cursor);
            },
            InputAction::Delete => {
                delete_forward(&mut self.input_buffer, self.input_cursor);
            },
            InputAction::NavLeft => {
                self.input_cursor = cursor_left(&self.input_buffer, self.input_cursor);
            },
            InputAction::NavRight => {
                self.input_cursor = cursor_right(&self.input_buffer, self.input_cursor);
            },
            InputAction::Home => {
                self.input_cursor = 0;
                proof {
                    lemma_start_boundary(self.input_buffer@);
                }
            },
            InputAction::End => {
                self.input_cursor = end_of(&self.input_buffer);
            },
            _ => {},
        }
    }

    /// Handle a key in the chat input; the caller sends messages and runs
    /// the normal-mode handler when told to.
    pub fn handle_chat_key(&mut self, key: KeyEvent, keybindings: &KeybindingConfig) -> (r: ChatKeyOutcome)
        requires
            old(self).wf(),
            input_ok(*old(self)),
        ensures
            final(self).wf(),
            on_boundary(final(self).input_buffer@, final(self).input_cursor as nat),
            chat_key_handled(*old(self), *final(self), key, *keybindings, r),
    {
        if key.modifiers.contains(KeyModifiers::control()) {
            match key.code {
                KeyCode::Char('r') => {
                    return ChatKeyOutcome::RetryLastMessage;
                },
                KeyCode::Char('t') => {
                    self.toggle_tool_expansion();
                    return ChatKeyOutcome::Handled;
                },
                KeyCode::Up => {
                    self.scroll_active_up(3);
                    return ChatKeyOutcome::Handled;
                },
                KeyCode::Down => {
                    self.scroll_active_down(3);
                    return ChatKeyOutcome::Handled;
                },
                _ => {},
            }
        }
        proof {
            reveal_strlit("chat");
            reveal_strlit("normal");
            assert("chat"@.len() == 4);
            assert("normal"@.len() == 6);
            assert("chat"@ != "normal"@);
        }
        let found = keybindings.lookup("chat", &key);
        match found {
            Some(action) => {
                let card = match action {
                    TuiAction::CardLeft | TuiAction::CardRight | TuiAction::CardUp
                    | TuiAction::CardDown | TuiAction::CardActivate | TuiAction::OpenVault
                    | TuiAction::OpenSettings | TuiAction::OpenModels | TuiAction::OpenCron => true,
                    _ => false,
                };
                if card {
                    return ChatKeyOutcome::NormalMode;
                }
            },
            None => {},
        }
        let action = normalize_for_text_input(key);
        match action {
            InputAction::Submit => ChatKeyOutcome::SendBuffer,
            InputAction::Cancel => {
                self.input_mode = InputMode::Normal;
                ChatKeyOutcome::Handled
            },
            InputAction::PageUp => {
                self.scroll_active_up(10);
                ChatKeyOutcome::Handled
            },
            InputAction::PageDown => {
                self.scroll_active_down(10);
                ChatKeyOutcome::Handled
            },
            InputAction::NavUp => {
                self.scroll_active_up(1);
                ChatKeyOutcome::Handled
            },
            InputAction::NavDown => {
                self.scroll_active_down(1);
                ChatKeyOutcome::Handled
            },
            _ => {
                self.edit_input(action);
                ChatKeyOutcome::Handled
            },
        }
    }

    /// Paste text into the chat input, when it is open: line feeds as
    /// newlines (while allowed), control characters dropped.
    pub fn paste_into_chat(&mut self, text: &str)
        requires
            on_boundary(old(self).input_buffer@, old(self).input_cursor as nat),
            byte_len(old(self).input_buffer@) + 4 * text@.len() + 4 < usize::MAX,
        ensures
            if old(self).input_mode is ChatInput {
                input_set(
                    *old(self),
                    *final(self),
                    pasted(old(self).input_buffer@, old(self).input_cursor as nat, text@),
                )
            } else {
                *final(self) == *old(self)
            },
    {
        match self.input_mode {
            InputMode::ChatInput => {
                paste(&mut self.input_buffer, &mut self.input_cursor, text);
            },
            _ => {},
        }
    }
}

} // verus!
