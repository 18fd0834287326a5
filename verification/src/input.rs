//! Normalisation of key events for text-input contexts.

use vstd::prelude::*;
use crate::keys::{KeyCode, KeyEvent, KeyModifiers, mods_contain};

verus! {

/// High-level input actions produced by normalizing raw key events.
#[derive(Debug, Clone, Copy, PartialEq, Eq, Structural)]
pub enum InputAction {
    /// Submit / confirm (plain Enter)
    Submit,
    /// Insert newline (Shift+Enter, Ctrl+J, Ctrl+N)
    Newline,
    /// Cancel / escape
    Cancel,
    /// Typed text (only when modifiers are empty or Shift-only)
    Text(char),
    NavUp,
    NavDown,
    NavLeft,
    NavRight,
    Backspace,
    Delete,
    Home,
    End,
    PageUp,
    PageDown,
    /// Raw key event that doesn't map to a known action
    Raw(KeyEvent),
}

/// What a key means in a text field. Shift with Enter (or a carriage return
/// or line feed character), and control with `j` or `n`, insert a newline;
/// plain Enter submits; Esc cancels; plain arrows navigate; paging and
/// editing keys act whatever the modifiers; a character is text when no
/// modifier but shift is held; anything else is passed on raw.
pub open spec fn normalize_spec(key: KeyEvent) -> InputAction {
    let m = key.modifiers;
    let c = key.code;
    if mods_contain(m, KeyModifiers { bits: 1 }) && (c == KeyCode::Enter || c == KeyCode::Char(
        '\r',
    ) || c == KeyCode::Char('\n')) {
        InputAction::Newline
    } else if mods_contain(m, KeyModifiers { bits: 2 }) && (c == KeyCode::Char('j') || c
        == KeyCode::Char('n')) {
        InputAction::Newline
    } else if c == KeyCode::Enter && m.bits == 0 {
        InputAction::Submit
    } else if c == KeyCode::Esc {
        InputAction::Cancel
    } else if c == KeyCode::Up && m.bits == 0 {
        InputAction::NavUp
    } else if c == KeyCode::Down && m.bits == 0 {
        InputAction::NavDown
    } else if c == KeyCode::Left && m.bits == 0 {
        InputAction::NavLeft
    } else if c == KeyCode::Right && m.bits == 0 {
        InputAction::NavRight
    } else if c == KeyCode::PageUp {
        InputAction::PageUp
    } else if c == KeyCode::PageDown {
        InputAction::PageDown
    } else if c == KeyCode::Backspace {
        InputAction::Backspace
    } else if c == KeyCode::Delete {
        InputAction::Delete
    } else if c == KeyCode::Home {
        InputAction::Home
    } else if c == KeyCode::End {
        InputAction::End
    } else if c is Char && (m.bits == 0 || m.bits == 1) {
        InputAction::Text(c->Char_0)
    } else {
        InputAction::Raw(key)
    }
}

/// Normalize a key event into an [`InputAction`] for text-input contexts.
pub fn normalize_for_text_input(key: KeyEvent) -> (r: InputAction)
    ensures
        r == normalize_spec(key),
{
    let mods = key.modifiers;
    if mods.contains(KeyModifiers::shift()) && (key.code == KeyCode::Enter || key.code
        == KeyCode::Char('\r') || key.code == KeyCode::Char('\n')) {
        return InputAction::Newline;
    }
    if mods.contains(KeyModifiers::control()) && (key.code == KeyCode::Char('j') || key.code
        == KeyCode::Char('n')) {
        return InputAction::Newline;
    }
    if key.code == KeyCode::Enter && mods.is_empty() {
        return InputAction::Submit;
    }
    if key.code == KeyCode::Esc {
        return InputAction::Cancel;
    }
    match key.code {
        KeyCode::Up if mods.is_empty() => {
            return InputAction::NavUp;
        },
        KeyCode::Down if mods.is_empty() => {
            return InputAction::NavDown;
        },
        KeyCode::Left if mods.is_empty() => {
            return InputAction::NavLeft;
        },
        KeyCode::Right if mods.is_empty() => {
            return InputAction::NavRight;
        },
        KeyCode::PageUp => {
            return InputAction::PageUp;
        },
        KeyCode::PageDown => {
            return InputAction::PageDown;
        },
        _ => {},
    }
    match key.code {
        KeyCode::Backspace => {
            return InputAction::Backspace;
        },
        KeyCode::Delete => {
            return InputAction::Delete;
        },
        KeyCode::Home => {
            return InputAction::Home;
        },
        KeyCode::End => {
            return InputAction::End;
        },
        _ => {},
    }
    if let KeyCode::Char(c) = key.code {
        if mods.is_empty() || mods.bits == 1 {
            return InputAction::Text(c);
        }
    }
    InputAction::Raw(key)
}

} // verus!
