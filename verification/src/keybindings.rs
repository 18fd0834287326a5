//! Keybinding configuration: named actions, the key-specification grammar
//! ("q", "ctrl+c", "Left", "Shift+Tab", "F5") and lookup of the action bound
//! to a key event.

use vstd::prelude::*;
use crate::keys::{KeyCode, KeyEvent, KeyModifiers, MediaKeyCode, ModifierKeyCode, mods_contain};
use crate::text::{
    chars_of, decimal, find_char, first_index, lemma_first_index, lowercase_of, all_ascii, ascii_lower, is_white_space, is_ascii_digit, lemma_decimal_digits, lemma_parse_u8_decimal, parse_u8_from, parse_u8_spec, push_char,
    push_decimal, str_eq, string_from_chars, string_of, to_lowercase, trim, trim_spec,
};

verus! {

broadcast use vstd::string::group_string_axioms;

/// Actions that can be triggered by keybindings.
#[derive(Debug, Clone, Copy, PartialEq, Eq, Structural)]
pub enum TuiAction {
    Quit,
    NavLeft,
    NavRight,
    NavUp,
    NavDown,
    JumpToSection(u8),
    Add,
    Edit,
    Delete,
    Refresh,
    View,
    Chat,
    Kill,
    OpenContextMenu,
    NewSession,
    StartGateway,
    StopGateway,
    InitVault,
    UnlockVault,
    LockVault,
    ContextFiles,
    Permissions,
    TestAction,
    PrevTab,
    NextTab,
    ScrollUp,
    ScrollDown,
    ScrollEnd,
    Enter,
    Escape,
    CardLeft,
    CardRight,
    CardUp,
    CardDown,
    CardActivate,
    OpenVault,
    OpenSettings,
    OpenModels,
    OpenCron,
}

/// A parsed key specification, e.g. "q", "ctrl+c", "Left", "Shift+Tab".
#[derive(Debug, Clone, Copy, PartialEq, Eq, Structural)]
pub enum KeySpec {
    Char(char),
    Key(KeyCode),
    Modified { modifiers: KeyModifiers, code: KeyCode },
}

/// When a key specification matches a key event: a plain character or key
/// matches only with no modifier held; a modified key matches when its
/// modifiers are all held (others may be held too).
pub open spec fn key_matches(k: KeySpec, e: KeyEvent) -> bool {
    match k {
        KeySpec::Char(c) => e.code == KeyCode::Char(c) && e.modifiers.bits == 0,
        KeySpec::Key(code) => e.code == code && e.modifiers.bits == 0,
        KeySpec::Modified { modifiers, code } => e.code == code && mods_contain(
            e.modifiers,
            modifiers,
        ),
    }
}

/// The named (non-function) keys the grammar knows, with their spellings.
pub open spec fn named_key_code(s: Seq<char>) -> Option<KeyCode> {
    if s == "Up"@ || s == "up"@ {
        Some(KeyCode::Up)
    } else if s == "Down"@ || s == "down"@ {
        Some(KeyCode::Down)
    } else if s == "Left"@ || s == "left"@ {
        Some(KeyCode::Left)
    } else if s == "Right"@ || s == "right"@ {
        Some(KeyCode::Right)
    } else if s == "Enter"@ || s == "enter"@ || s == "Return"@ || s == "return"@ {
        Some(KeyCode::Enter)
    } else if s == "Esc"@ || s == "esc"@ || s == "Escape"@ || s == "escape"@ {
        Some(KeyCode::Esc)
    } else if s == "Tab"@ || s == "tab"@ {
        Some(KeyCode::Tab)
    } else if s == "BackTab"@ || s == "backtab"@ || s == "ShiftTab"@ || s == "shifttab"@ {
        Some(KeyCode::BackTab)
    } else if s == "Backspace"@ || s == "backspace"@ {
        Some(KeyCode::Backspace)
    } else if s == "Delete"@ || s == "delete"@ || s == "Del"@ || s == "del"@ {
        Some(KeyCode::Delete)
    } else if s == "Insert"@ || s == "insert"@ || s == "Ins"@ || s == "ins"@ {
        Some(KeyCode::Insert)
    } else if s == "Home"@ || s == "home"@ {
        Some(KeyCode::Home)
    } else if s == "End"@ || s == "end"@ {
        Some(KeyCode::End)
    } else if s == "PageUp"@ || s == "pageup"@ || s == "PgUp"@ || s == "pgup"@ {
        Some(KeyCode::PageUp)
    } else if s == "PageDown"@ || s == "pagedown"@ || s == "PgDown"@ || s == "pgdown"@ {
        Some(KeyCode::PageDown)
    } else {
        None
    }
}

/// A key name: `F` or `f` followed by a `u8` is a function key; otherwise one
/// of the named keys.
pub open spec fn key_code_spec(s: Seq<char>) -> Option<KeyCode> {
    if s.len() > 0 && (s[0] == 'F' || s[0] == 'f') && parse_u8_spec(s.drop_first()) is Some {
        Some(KeyCode::F(parse_u8_spec(s.drop_first())->0))
    } else {
        named_key_code(s)
    }
}

/// Modifier names, after lowercasing.
pub open spec fn modifier_spec(m: Seq<char>) -> Option<KeyModifiers> {
    if m == "ctrl"@ || m == "control"@ {
        Some(KeyModifiers { bits: 2 })
    } else if m == "alt"@ {
        Some(KeyModifiers { bits: 4 })
    } else if m == "shift"@ {
        Some(KeyModifiers { bits: 1 })
    } else {
        None
    }
}

/// The key after a modifier: a key name, or a single character.
pub open spec fn modified_key_spec(mods: KeyModifiers, k: Seq<char>) -> Result<KeySpec, Seq<char>> {
    match key_code_spec(k) {
        Some(code) => Ok(KeySpec::Modified { modifiers: mods, code }),
        None => if k.len() == 1 {
            Ok(KeySpec::Modified { modifiers: mods, code: KeyCode::Char(k[0]) })
        } else {
            Err("Unknown key after modifier: "@ + k)
        },
    }
}

/// What a modifier name (already lowercased) gives.
pub open spec fn parse_modifier_spec(lowered: Seq<char>) -> Result<KeyModifiers, Seq<char>> {
    match modifier_spec(lowered) {
        Some(m) => Ok(m),
        None => Err("Unknown modifier: "@ + lowered),
    }
}

/// The grammar of key specifications. The input is trimmed; text before the
/// first `+` names a modifier (case-insensitively, through the Unicode
/// lowercase mapping), text after it the key; without a `+` the whole text
/// is a key name or a single character.
pub open spec fn parse_spec(raw: Seq<char>) -> Result<KeySpec, Seq<char>> {
    let s = trim_spec(raw);
    if s.contains('+') {
        let p = first_index(s, '+');
        let lowered = lowercase_of(s.take(p));
        match parse_modifier_spec(lowered) {
            Ok(mods) => modified_key_spec(mods, s.skip(p + 1)),
            Err(e) => Err(e),
        }
    } else {
        match key_code_spec(s) {
            Some(code) => Ok(KeySpec::Key(code)),
            None => if s.len() == 1 {
                Ok(KeySpec::Char(s[0]))
            } else {
                Err("Unknown key: "@ + s)
            },
        }
    }
}

/// Names of media keys.
pub open spec fn media_name(m: MediaKeyCode) -> Seq<char> {
    match m {
        MediaKeyCode::Play => "Play"@,
        MediaKeyCode::Pause => "Pause"@,
        MediaKeyCode::PlayPause => "PlayPause"@,
        MediaKeyCode::Reverse => "Reverse"@,
        MediaKeyCode::Stop => "Stop"@,
        MediaKeyCode::FastForward => "FastForward"@,
        MediaKeyCode::Rewind => "Rewind"@,
        MediaKeyCode::TrackNext => "TrackNext"@,
        MediaKeyCode::TrackPrevious => "TrackPrevious"@,
        MediaKeyCode::Record => "Record"@,
        MediaKeyCode::LowerVolume => "LowerVolume"@,
        MediaKeyCode::RaiseVolume => "RaiseVolume"@,
        MediaKeyCode::MuteVolume => "MuteVolume"@,
    }
}

/// Names of modifier keys.
pub open spec fn modifier_key_name(m: ModifierKeyCode) -> Seq<char> {
    match m {
        ModifierKeyCode::LeftShift => "LeftShift"@,
        ModifierKeyCode::LeftControl => "LeftControl"@,
        ModifierKeyCode::LeftAlt => "LeftAlt"@,
        ModifierKeyCode::LeftSuper => "LeftSuper"@,
        ModifierKeyCode::LeftHyper => "LeftHyper"@,
        ModifierKeyCode::LeftMeta => "LeftMeta"@,
        ModifierKeyCode::RightShift => "RightShift"@,
        ModifierKeyCode::RightControl => "RightControl"@,
        ModifierKeyCode::RightAlt => "RightAlt"@,
        ModifierKeyCode::RightSuper => "RightSuper"@,
        ModifierKeyCode::RightHyper => "RightHyper"@,
        ModifierKeyCode::RightMeta => "RightMeta"@,
        ModifierKeyCode::IsoLevel3Shift => "IsoLevel3Shift"@,
        ModifierKeyCode::IsoLevel5Shift => "IsoLevel5Shift"@,
    }
}

/// How a key code is written.
pub open spec fn key_code_text(c: KeyCode) -> Seq<char> {
    match c {
        KeyCode::Char(ch) => seq![ch],
        KeyCode::Up => "Up"@,
        KeyCode::Down => "Down"@,
        KeyCode::Left => "Left"@,
        KeyCode::Right => "Right"@,
        KeyCode::Enter => "Enter"@,
        KeyCode::Esc => "Esc"@,
        KeyCode::Tab => "Tab"@,
        KeyCode::BackTab => "BackTab"@,
        KeyCode::Backspace => "Backspace"@,
        KeyCode::Delete => "Delete"@,
        KeyCode::Insert => "Insert"@,
        KeyCode::Home => "Home"@,
        KeyCode::End => "End"@,
        KeyCode::PageUp => "PageUp"@,
        KeyCode::PageDown => "PageDown"@,
        KeyCode::F(n) => "F"@ + decimal(n as nat),
        KeyCode::Null => "Null"@,
        KeyCode::CapsLock => "CapsLock"@,
        KeyCode::ScrollLock => "ScrollLock"@,
        KeyCode::NumLock => "NumLock"@,
        KeyCode::PrintScreen => "PrintScreen"@,
        KeyCode::Pause => "Pause"@,
        KeyCode::Menu => "Menu"@,
        KeyCode::KeypadBegin => "KeypadBegin"@,
        KeyCode::Media(m) => "Media("@ + media_name(m) + ")"@,
        KeyCode::Modifier(m) => "Modifier("@ + modifier_key_name(m) + ")"@,
    }
}

/// The modifier word written for a modifier set: control wins over alt,
/// alt over shift.
pub open spec fn modifier_word(m: KeyModifiers) -> Seq<char> {
    if m.bits & 2 == 2 {
        "ctrl"@
    } else if m.bits & 4 == 4 {
        "alt"@
    } else if m.bits & 1 == 1 {
        "shift"@
    } else {
        "unknown"@
    }
}

/// How a key specification is written.
pub open spec fn display_spec(k: KeySpec) -> Seq<char> {
    match k {
        KeySpec::Char(c) => seq![c],
        KeySpec::Key(code) => key_code_text(code),
        KeySpec::Modified { modifiers, code } => modifier_word(modifiers) + "+"@ + key_code_text(
            code,
        ),
    }
}

/// Parses a named key (case-insensitive for most names; `F1`..`F255` or
/// `f1`.. for function keys).
pub fn parse_key_code(s: &str) -> (r: Option<KeyCode>)
    ensures
        r == key_code_spec(s@),
{
    let v = chars_of(s);
    if v.len() > 0 && (v[0] == 'F' || v[0] == 'f') {
        assert(v@.subrange(1, v.len() as int) == s@.drop_first());
        match parse_u8_from(&v, 1) {
            Some(n) => {
                return Some(KeyCode::F(n));
            },
            None => {},
        }
    }
    named_key_code_of(s)
}

fn named_key_code_of(s: &str) -> (r: Option<KeyCode>)
    ensures
        r == named_key_code(s@),
{
    if str_eq(s, "Up") || str_eq(s, "up") {
        Some(KeyCode::Up)
    } else if str_eq(s, "Down") || str_eq(s, "down") {
        Some(KeyCode::Down)
    } else if str_eq(s, "Left") || str_eq(s, "left") {
        Some(KeyCode::Left)
    } else if str_eq(s, "Right") || str_eq(s, "right") {
        Some(KeyCode::Right)
    } else if str_eq(s, "Enter") || str_eq(s, "enter") || str_eq(s, "Return") || str_eq(
        s,
        "return",
    ) {
        Some(KeyCode::Enter)
    } else if str_eq(s, "Esc") || str_eq(s, "esc") || str_eq(s, "Escape") || str_eq(
        s,
        "escape",
    ) {
        Some(KeyCode::Esc)
    } else if str_eq(s, "Tab") || str_eq(s, "tab") {
        Some(KeyCode::Tab)
    } else if str_eq(s, "BackTab") || str_eq(s, "backtab") || str_eq(s, "ShiftTab") || str_eq(
        s,
        "shifttab",
    ) {
        Some(KeyCode::BackTab)
    } else if str_eq(s, "Backspace") || str_eq(s, "backspace") {
        Some(KeyCode::Backspace)
    } else if str_eq(s, "Delete") || str_eq(s, "delete") || str_eq(s, "Del") || str_eq(s, "del") {
        Some(KeyCode::Delete)
    } else if str_eq(s, "Insert") || str_eq(s, "insert") || str_eq(s, "Ins") || str_eq(s, "ins") {
        Some(KeyCode::Insert)
    } else if str_eq(s, "Home") || str_eq(s, "home") {
        Some(KeyCode::Home)
    } else if str_eq(s, "End") || str_eq(s, "end") {
        Some(KeyCode::End)
    } else if str_eq(s, "PageUp") || str_eq(s, "pageup") || str_eq(s, "PgUp") || str_eq(
        s,
        "pgup",
    ) {
        Some(KeyCode::PageUp)
    } else if str_eq(s, "PageDown") || str_eq(s, "pagedown") || str_eq(s, "PgDown") || str_eq(
        s,
        "pgdown",
    ) {
        Some(KeyCode::PageDown)
    } else {
        None
    }
}

/// Reads a modifier name that has already been lowercased.
pub fn parse_modifier(lowered: &str) -> (r: Result<KeyModifiers, String>)
    ensures
        match r {
            Ok(m) => parse_modifier_spec(lowered@) == Ok::<KeyModifiers, Seq<char>>(m),
            Err(e) => parse_modifier_spec(lowered@) == Err::<KeyModifiers, Seq<char>>(e@),
        },
{
    if str_eq(lowered, "ctrl") || str_eq(lowered, "control") {
        Ok(KeyModifiers::control())
    } else if str_eq(lowered, "alt") {
        Ok(KeyModifiers::alt())
    } else if str_eq(lowered, "shift") {
        Ok(KeyModifiers::shift())
    } else {
        let mut msg = string_of("Unknown modifier: ");
        msg.append(lowered);
        Err(msg)
    }
}

fn media_name_str(m: MediaKeyCode) -> (r: &'static str)
    ensures
        r@ == media_name(m),
{
    match m {
        MediaKeyCode::Play => "Play",
        MediaKeyCode::Pause => "Pause",
        MediaKeyCode::PlayPause => "PlayPause",
        MediaKeyCode::Reverse => "Reverse",
        MediaKeyCode::Stop => "Stop",
        MediaKeyCode::FastForward => "FastForward",
        MediaKeyCode::Rewind => "Rewind",
        MediaKeyCode::TrackNext => "TrackNext",
        MediaKeyCode::TrackPrevious => "TrackPrevious",
        MediaKeyCode::Record => "Record",
        MediaKeyCode::LowerVolume => "LowerVolume",
        MediaKeyCode::RaiseVolume => "RaiseVolume",
        MediaKeyCode::MuteVolume => "MuteVolume",
    }
}

fn modifier_key_name_str(m: ModifierKeyCode) -> (r: &'static str)
    ensures
        r@ == modifier_key_name(m),
{
    match m {
        ModifierKeyCode::LeftShift => "LeftShift",
        ModifierKeyCode::LeftControl => "LeftControl",
        ModifierKeyCode::LeftAlt => "LeftAlt",
        ModifierKeyCode::LeftSuper => "LeftSuper",
        ModifierKeyCode::LeftHyper => "LeftHyper",
        ModifierKeyCode::LeftMeta => "LeftMeta",
        ModifierKeyCode::RightShift => "RightShift",
        ModifierKeyCode::RightControl => "RightControl",
        ModifierKeyCode::RightAlt => "RightAlt",
        ModifierKeyCode::RightSuper => "RightSuper",
        ModifierKeyCode::RightHyper => "RightHyper",
        ModifierKeyCode::RightMeta => "RightMeta",
        ModifierKeyCode::IsoLevel3Shift => "IsoLevel3Shift",
        ModifierKeyCode::IsoLevel5Shift => "IsoLevel5Shift",
    }
}

fn wrapped_name(prefix: &str, name: &str) -> (r: String)
    ensures
        r@ == prefix@ + name@ + ")"@,
{
    let mut s = string_of(prefix);
    s.append(name);
    s.append(")");
    s
}

/// Writes a key code.
pub fn key_code_to_str(code: &KeyCode) -> (r: String)
    ensures
        r@ == key_code_text(*code),
{
    match *code {
        KeyCode::Char(c) => {
            let mut s = String::new();
            push_char(&mut s, c);
            assert(s@ == seq![c]);
            s
        },
        KeyCode::Up => string_of("Up"),
        KeyCode::Down => string_of("Down"),
        KeyCode::Left => string_of("Left"),
        KeyCode::Right => string_of("Right"),
        KeyCode::Enter => string_of("Enter"),
        KeyCode::Esc => string_of("Esc"),
        KeyCode::Tab => string_of("Tab"),
        KeyCode::BackTab => string_of("BackTab"),
        KeyCode::Backspace => string_of("Backspace"),
        KeyCode::Delete => string_of("Delete"),
        KeyCode::Insert => string_of("Insert"),
        KeyCode::Home => string_of("Home"),
        KeyCode::End => string_of("End"),
        KeyCode::PageUp => string_of("PageUp"),
        KeyCode::PageDown => string_of("PageDown"),
        KeyCode::F(n) => {
            let mut s = string_of("F");
            push_decimal(&mut s, n as usize);
            s
        },
        KeyCode::Null => string_of("Null"),
        KeyCode::CapsLock => string_of("CapsLock"),
        KeyCode::ScrollLock => string_of("ScrollLock"),
        KeyCode::NumLock => string_of("NumLock"),
        KeyCode::PrintScreen => string_of("PrintScreen"),
        KeyCode::Pause => string_of("Pause"),
        KeyCode::Menu => string_of("Menu"),
        KeyCode::KeypadBegin => string_of("KeypadBegin"),
        KeyCode::Media(m) => wrapped_name("Media(", media_name_str(m)),
        KeyCode::Modifier(m) => wrapped_name("Modifier(", modifier_key_name_str(m)),
    }
}

impl KeySpec {
    /// Whether this specification matches the key event.
    pub fn matches(&self, event: &KeyEvent) -> (r: bool)
        ensures
            r == key_matches(*self, *event),
    {
        match *self {
            KeySpec::Char(c) => event.code == KeyCode::Char(c) && event.modifiers.is_empty(),
            KeySpec::Key(code) => event.code == code && event.modifiers.is_empty(),
            KeySpec::Modified { modifiers, code } => event.code == code
                && event.modifiers.contains(modifiers),
        }
    }

    /// Parses a key specification such as "q", "ctrl+c", "Left", "F5".
    pub fn parse(s: &str) -> (r: Result<KeySpec, String>)
        ensures
            match r {
                Ok(k) => parse_spec(s@) == Ok::<KeySpec, Seq<char>>(k),
                Err(e) => parse_spec(s@) == Err::<KeySpec, Seq<char>>(e@),
            },
    {
        let t = trim(s);
        let v = chars_of(t.as_str());
        match find_char(&v, '+') {
            None => {
                assert(!t@.contains('+'));
                match parse_key_code(t.as_str()) {
                    Some(code) => Ok(KeySpec::Key(code)),
                    None => {
                        if v.len() == 1 {
                            Ok(KeySpec::Char(v[0]))
                        } else {
                            let mut msg = string_of("Unknown key: ");
                            msg.append(t.as_str());
                            Err(msg)
                        }
                    },
                }
            },
            Some(p) => {
                assert(t@.contains('+')) by {
                    assert(t@[p as int] == '+');
                }
                proof {
                    lemma_first_index(t@, '+', p as int);
                }
                let head = string_from_chars(&v, 0, p);
                assert(head@ == t@.take(p as int));
                let lowered = to_lowercase(head.as_str());
                let mods = match parse_modifier(lowered.as_str()) {
                    Ok(m) => m,
                    Err(e) => {
                        return Err(e);
                    },
                };
                let key = string_from_chars(&v, p + 1, v.len());
                assert(key@ == t@.skip(p + 1));
                let kv = chars_of(key.as_str());
                match parse_key_code(key.as_str()) {
                    Some(code) => Ok(KeySpec::Modified { modifiers: mods, code }),
                    None => {
                        if kv.len() == 1 {
                            Ok(KeySpec::Modified { modifiers: mods, code: KeyCode::Char(kv[0]) })
                        } else {
                            let mut msg = string_of("Unknown key after modifier: ");
                            msg.append(key.as_str());
                            Err(msg)
                        }
                    },
                }
            },
        }
    }

    /// The written form of this specification (what `parse` reads back).
    pub fn to_string(&self) -> (r: String)
        ensures
            r@ == display_spec(*self),
    {
        match *self {
            KeySpec::Char(c) => {
                let mut s = String::new();
                push_char(&mut s, c);
                assert(s@ == seq![c]);
                s
            },
            KeySpec::Key(code) => key_code_to_str(&code),
            KeySpec::Modified { modifiers, code } => {
                let word = if modifiers.bits & 2 == 2 {
                    "ctrl"
                } else if modifiers.bits & 4 == 4 {
                    "alt"
                } else if modifiers.bits & 1 == 1 {
                    "shift"
                } else {
                    "unknown"
                };
                let mut s = string_of(word);
                s.append("+");
                let rest = key_code_to_str(&code);
                s.append(rest.as_str());
                s
            },
        }
    }
}

/// A single keybinding rule.
#[derive(Debug, Clone, PartialEq, Eq)]
pub struct KeyBinding {
    pub key: KeySpec,
    pub action: TuiAction,
    /// Optional context guard (e.g. "sidebar_focused", "chat_active").
    pub context: Option<String>,
}

/// A binding without a context guard.
pub open spec fn bound(key: KeySpec, action: TuiAction) -> KeyBinding {
    KeyBinding { key, action, context: None }
}

impl KeyBinding {
    pub fn new(key: KeySpec, action: TuiAction) -> (b: KeyBinding)
        ensures
            b == bound(key, action),
    {
        KeyBinding { key, action, context: None }
    }

    pub fn with_context(key: KeySpec, action: TuiAction, ctx: &str) -> (b: KeyBinding)
        ensures
            b.key == key,
            b.action == action,
            b.context is Some,
            b.context->0@ == ctx@,
    {
        KeyBinding { key, action, context: Some(string_of(ctx)) }
    }
}

/// All configurable keybindings, organized by input mode.
#[derive(Debug, Clone)]
pub struct KeybindingConfig {
    pub normal: Vec<KeyBinding>,
    pub chat: Vec<KeyBinding>,
}

/// The action of the first binding whose key matches the event.
pub open spec fn first_match(bs: Seq<KeyBinding>, e: KeyEvent) -> Option<TuiAction>
    decreases bs.len(),
{
    if bs.len() == 0 {
        None
    } else if key_matches(bs[0].key, e) {
        Some(bs[0].action)
    } else {
        first_match(bs.drop_first(), e)
    }
}

/// The bindings of a mode: "normal" and "chat" have their lists; any other
/// mode has none.
pub open spec fn lookup_spec(cfg: KeybindingConfig, mode: Seq<char>, e: KeyEvent) -> Option<TuiAction> {
    if mode == "normal"@ {
        first_match(cfg.normal@, e)
    } else if mode == "chat"@ {
        first_match(cfg.chat@, e)
    } else {
        None
    }
}

fn first_match_in(bs: &Vec<KeyBinding>, event: &KeyEvent) -> (r: Option<TuiAction>)
    ensures
        r == first_match(bs@, *event),
{
    let mut i: usize = 0;
    assert(bs@.skip(0) == bs@);
    while i < bs.len()
        invariant
            i <= bs.len(),
            first_match(bs@, *event) == first_match(bs@.skip(i as int), *event),
        decreases bs.len() - i,
    {
        assert(bs@.skip(i as int)[0] == bs@[i as int]);
        assert(bs@.skip(i as int).drop_first() == bs@.skip(i + 1));
        if bs[i].key.matches(event) {
            return Some(bs[i].action);
        }
        i = i + 1;
    }
    None
}

impl KeybindingConfig {
    /// The action bound to a key event in the given mode: the first matching
    /// binding's, or none.
    pub fn lookup(&self, mode: &str, event: &KeyEvent) -> (r: Option<TuiAction>)
        ensures
            r == lookup_spec(*self, mode@, *event),
    {
        if str_eq(mode, "normal") {
            first_match_in(&self.normal, event)
        } else if str_eq(mode, "chat") {
            first_match_in(&self.chat, event)
        } else {
            None
        }
    }
}

/// The bindings of normal mode, in order of precedence.
pub open spec fn default_normal_bindings() -> Seq<KeyBinding> {
    seq![
        bound(KeySpec::Char('q'), TuiAction::Quit),
        bound(KeySpec::Key(KeyCode::Up), TuiAction::NavUp),
        bound(KeySpec::Char('k'), TuiAction::NavUp),
        bound(KeySpec::Key(KeyCode::Down), TuiAction::NavDown),
        bound(KeySpec::Char('j'), TuiAction::NavDown),
        bound(KeySpec::Key(KeyCode::Left), TuiAction::NavLeft),
        bound(KeySpec::Char('h'), TuiAction::NavLeft),
        bound(KeySpec::Key(KeyCode::Right), TuiAction::NavRight),
        bound(KeySpec::Char('l'), TuiAction::NavRight),
        bound(KeySpec::Key(KeyCode::Enter), TuiAction::Enter),
        bound(KeySpec::Key(KeyCode::Esc), TuiAction::Escape),
        bound(KeySpec::Char('1'), TuiAction::JumpToSection(1)),
        bound(KeySpec::Char('2'), TuiAction::JumpToSection(2)),
        bound(KeySpec::Char('3'), TuiAction::JumpToSection(3)),
        bound(KeySpec::Char('4'), TuiAction::JumpToSection(4)),
        bound(KeySpec::Char('5'), TuiAction::JumpToSection(5)),
        bound(KeySpec::Char('6'), TuiAction::JumpToSection(6)),
        bound(KeySpec::Char('7'), TuiAction::JumpToSection(7)),
        bound(KeySpec::Modified { modifiers: KeyModifiers { bits: 1 }, code: KeyCode::Char('[') }, TuiAction::PrevTab),
        bound(KeySpec::Modified { modifiers: KeyModifiers { bits: 1 }, code: KeyCode::Char(']') }, TuiAction::NextTab),
        bound(KeySpec::Key(KeyCode::BackTab), TuiAction::PrevTab),
        bound(KeySpec::Key(KeyCode::PageUp), TuiAction::ScrollUp),
        bound(KeySpec::Modified { modifiers: KeyModifiers { bits: 2 }, code: KeyCode::Char('b') }, TuiAction::ScrollUp),
        bound(KeySpec::Key(KeyCode::PageDown), TuiAction::ScrollDown),
        bound(KeySpec::Modified { modifiers: KeyModifiers { bits: 2 }, code: KeyCode::Char('f') }, TuiAction::ScrollDown),
        bound(KeySpec::Key(KeyCode::End), TuiAction::ScrollEnd),
        bound(KeySpec::Char('G'), TuiAction::ScrollEnd),
        bound(KeySpec::Char('a'), TuiAction::Add),
        bound(KeySpec::Char('d'), TuiAction::Delete),
        bound(KeySpec::Char('r'), TuiAction::Refresh),
        bound(KeySpec::Key(KeyCode::F(5)), TuiAction::Refresh),
        bound(KeySpec::Char('v'), TuiAction::View),
        bound(KeySpec::Char('c'), TuiAction::Chat),
        bound(KeySpec::Char('e'), TuiAction::Edit),
        bound(KeySpec::Char('n'), TuiAction::NewSession),
        bound(KeySpec::Char('s'), TuiAction::StartGateway),
        bound(KeySpec::Char('S'), TuiAction::StopGateway),
        bound(KeySpec::Char('i'), TuiAction::InitVault),
        bound(KeySpec::Char('u'), TuiAction::UnlockVault),
        bound(KeySpec::Char('f'), TuiAction::ContextFiles),
        bound(KeySpec::Char('p'), TuiAction::Permissions),
        bound(KeySpec::Char('t'), TuiAction::TestAction),
        bound(KeySpec::Char('?'), TuiAction::OpenContextMenu),
        bound(KeySpec::Modified { modifiers: KeyModifiers { bits: 4 }, code: KeyCode::Left }, TuiAction::CardLeft),
        bound(KeySpec::Modified { modifiers: KeyModifiers { bits: 4 }, code: KeyCode::Right }, TuiAction::CardRight),
        bound(KeySpec::Modified { modifiers: KeyModifiers { bits: 4 }, code: KeyCode::Up }, TuiAction::CardUp),
        bound(KeySpec::Modified { modifiers: KeyModifiers { bits: 4 }, code: KeyCode::Down }, TuiAction::CardDown),
        bound(KeySpec::Modified { modifiers: KeyModifiers { bits: 4 }, code: KeyCode::Enter }, TuiAction::CardActivate),
        bound(KeySpec::Modified { modifiers: KeyModifiers { bits: 4 }, code: KeyCode::Char('v') }, TuiAction::OpenVault),
        bound(KeySpec::Modified { modifiers: KeyModifiers { bits: 4 }, code: KeyCode::Char('s') }, TuiAction::OpenSettings),
        bound(KeySpec::Modified { modifiers: KeyModifiers { bits: 4 }, code: KeyCode::Char('m') }, TuiAction::OpenModels),
        bound(KeySpec::Modified { modifiers: KeyModifiers { bits: 4 }, code: KeyCode::Char('c') }, TuiAction::OpenCron)
    ]
}

/// The bindings of chat input mode, in order of precedence.
pub open spec fn default_chat_bindings() -> Seq<KeyBinding> {
    seq![
        bound(KeySpec::Key(KeyCode::Enter), TuiAction::Enter),
        bound(KeySpec::Key(KeyCode::Esc), TuiAction::Escape),
        bound(KeySpec::Key(KeyCode::Up), TuiAction::ScrollUp),
        bound(KeySpec::Key(KeyCode::Down), TuiAction::ScrollDown),
        bound(KeySpec::Key(KeyCode::PageUp), TuiAction::ScrollUp),
        bound(KeySpec::Key(KeyCode::PageDown), TuiAction::ScrollDown),
        bound(KeySpec::Modified { modifiers: KeyModifiers { bits: 4 }, code: KeyCode::Left }, TuiAction::CardLeft),
        bound(KeySpec::Modified { modifiers: KeyModifiers { bits: 4 }, code: KeyCode::Right }, TuiAction::CardRight),
        bound(KeySpec::Modified { modifiers: KeyModifiers { bits: 4 }, code: KeyCode::Up }, TuiAction::CardUp),
        bound(KeySpec::Modified { modifiers: KeyModifiers { bits: 4 }, code: KeyCode::Down }, TuiAction::CardDown),
        bound(KeySpec::Modified { modifiers: KeyModifiers { bits: 4 }, code: KeyCode::Enter }, TuiAction::CardActivate),
        bound(KeySpec::Modified { modifiers: KeyModifiers { bits: 4 }, code: KeyCode::Char('v') }, TuiAction::OpenVault),
        bound(KeySpec::Modified { modifiers: KeyModifiers { bits: 4 }, code: KeyCode::Char('s') }, TuiAction::OpenSettings),
        bound(KeySpec::Modified { modifiers: KeyModifiers { bits: 4 }, code: KeyCode::Char('m') }, TuiAction::OpenModels),
        bound(KeySpec::Modified { modifiers: KeyModifiers { bits: 4 }, code: KeyCode::Char('c') }, TuiAction::OpenCron)
    ]
}

#[verifier::rlimit(60)]
fn make_normal_bindings() -> (v: Vec<KeyBinding>)
    ensures
        v@ == default_normal_bindings(),
{
    let mut v: Vec<KeyBinding> = Vec::new();
        v.push(KeyBinding::new(KeySpec::Char('q'), TuiAction::Quit));
        v.push(KeyBinding::new(KeySpec::Key(KeyCode::Up), TuiAction::NavUp));
        v.push(KeyBinding::new(KeySpec::Char('k'), TuiAction::NavUp));
        v.push(KeyBinding::new(KeySpec::Key(KeyCode::Down), TuiAction::NavDown));
        v.push(KeyBinding::new(KeySpec::Char('j'), TuiAction::NavDown));
        v.push(KeyBinding::new(KeySpec::Key(KeyCode::Left), TuiAction::NavLeft));
        v.push(KeyBinding::new(KeySpec::Char('h'), TuiAction::NavLeft));
        v.push(KeyBinding::new(KeySpec::Key(KeyCode::Right), TuiAction::NavRight));
        v.push(KeyBinding::new(KeySpec::Char('l'), TuiAction::NavRight));
        v.push(KeyBinding::new(KeySpec::Key(KeyCode::Enter), TuiAction::Enter));
        v.push(KeyBinding::new(KeySpec::Key(KeyCode::Esc), TuiAction::Escape));
        v.push(KeyBinding::new(KeySpec::Char('1'), TuiAction::JumpToSection(1)));
        v.push(KeyBinding::new(KeySpec::Char('2'), TuiAction::JumpToSection(2)));
        v.push(KeyBinding::new(KeySpec::Char('3'), TuiAction::JumpToSection(3)));
        v.push(KeyBinding::new(KeySpec::Char('4'), TuiAction::JumpToSection(4)));
        v.push(KeyBinding::new(KeySpec::Char('5'), TuiAction::JumpToSection(5)));
        v.push(KeyBinding::new(KeySpec::Char('6'), TuiAction::JumpToSection(6)));
        v.push(KeyBinding::new(KeySpec::Char('7'), TuiAction::JumpToSection(7)));
        v.push(KeyBinding::new(KeySpec::Modified { modifiers: KeyModifiers::shift(), code: KeyCode::Char('[') }, TuiAction::PrevTab));
        v.push(KeyBinding::new(KeySpec::Modified { modifiers: KeyModifiers::shift(), code: KeyCode::Char(']') }, TuiAction::NextTab));
        v.push(KeyBinding::new(KeySpec::Key(KeyCode::BackTab), TuiAction::PrevTab));
        v.push(KeyBinding::new(KeySpec::Key(KeyCode::PageUp), TuiAction::ScrollUp));
        v.push(KeyBinding::new(KeySpec::Modified { modifiers: KeyModifiers::control(), code: KeyCode::Char('b') }, TuiAction::ScrollUp));
        v.push(KeyBinding::new(KeySpec::Key(KeyCode::PageDown), TuiAction::ScrollDown));
        v.push(KeyBinding::new(KeySpec::Modified { modifiers: KeyModifiers::control(), code: KeyCode::Char('f') }, TuiAction::ScrollDown));
        v.push(KeyBinding::new(KeySpec::Key(KeyCode::End), TuiAction::ScrollEnd));
        v.push(KeyBinding::new(KeySpec::Char('G'), TuiAction::ScrollEnd));
        v.push(KeyBinding::new(KeySpec::Char('a'), TuiAction::Add));
        v.push(KeyBinding::new(KeySpec::Char('d'), TuiAction::Delete));
        v.push(KeyBinding::new(KeySpec::Char('r'), TuiAction::Refresh));
        v.push(KeyBinding::new(KeySpec::Key(KeyCode::F(5)), TuiAction::Refresh));
        v.push(KeyBinding::new(KeySpec::Char('v'), TuiAction::View));
        v.push(KeyBinding::new(KeySpec::Char('c'), TuiAction::Chat));
        v.push(KeyBinding::new(KeySpec::Char('e'), TuiAction::Edit));
        v.push(KeyBinding::new(KeySpec::Char('n'), TuiAction::NewSession));
        v.push(KeyBinding::new(KeySpec::Char('s'), TuiAction::StartGateway));
        v.push(KeyBinding::new(KeySpec::Char('S'), TuiAction::StopGateway));
        v.push(KeyBinding::new(KeySpec::Char('i'), TuiAction::InitVault));
        v.push(KeyBinding::new(KeySpec::Char('u'), TuiAction::UnlockVault));
        v.push(KeyBinding::new(KeySpec::Char('f'), TuiAction::ContextFiles));
        v.push(KeyBinding::new(KeySpec::Char('p'), TuiAction::Permissions));
        v.push(KeyBinding::new(KeySpec::Char('t'), TuiAction::TestAction));
        v.push(KeyBinding::new(KeySpec::Char('?'), TuiAction::OpenContextMenu));
        v.push(KeyBinding::new(KeySpec::Modified { modifiers: KeyModifiers::alt(), code: KeyCode::Left }, TuiAction::CardLeft));
        v.push(KeyBinding::new(KeySpec::Modified { modifiers: KeyModifiers::alt(), code: KeyCode::Right }, TuiAction::CardRight));
        v.push(KeyBinding::new(KeySpec::Modified { modifiers: KeyModifiers::alt(), code: KeyCode::Up }, TuiAction::CardUp));
        v.push(KeyBinding::new(KeySpec::Modified { modifiers: KeyModifiers::alt(), code: KeyCode::Down }, TuiAction::CardDown));
        v.push(KeyBinding::new(KeySpec::Modified { modifiers: KeyModifiers::alt(), code: KeyCode::Enter }, TuiAction::CardActivate));
        v.push(KeyBinding::new(KeySpec::Modified { modifiers: KeyModifiers::alt(), code: KeyCode::Char('v') }, TuiAction::OpenVault));
        v.push(KeyBinding::new(KeySpec::Modified { modifiers: KeyModifiers::alt(), code: KeyCode::Char('s') }, TuiAction::OpenSettings));
        v.push(KeyBinding::new(KeySpec::Modified { modifiers: KeyModifiers::alt(), code: KeyCode::Char('m') }, TuiAction::OpenModels));
        v.push(KeyBinding::new(KeySpec::Modified { modifiers: KeyModifiers::alt(), code: KeyCode::Char('c') }, TuiAction::OpenCron));
    assert(v@ =~= default_normal_bindings());
    v
}

fn make_chat_bindings() -> (v: Vec<KeyBinding>)
    ensures
        v@ == default_chat_bindings(),
{
    let mut v: Vec<KeyBinding> = Vec::new();
        v.push(KeyBinding::new(KeySpec::Key(KeyCode::Enter), TuiAction::Enter));
        v.push(KeyBinding::new(KeySpec::Key(KeyCode::Esc), TuiAction::Escape));
        v.push(KeyBinding::new(KeySpec::Key(KeyCode::Up), TuiAction::ScrollUp));
        v.push(KeyBinding::new(KeySpec::Key(KeyCode::Down), TuiAction::ScrollDown));
        v.push(KeyBinding::new(KeySpec::Key(KeyCode::PageUp), TuiAction::ScrollUp));
        v.push(KeyBinding::new(KeySpec::Key(KeyCode::PageDown), TuiAction::ScrollDown));
        v.push(KeyBinding::new(KeySpec::Modified { modifiers: KeyModifiers::alt(), code: KeyCode::Left }, TuiAction::CardLeft));
        v.push(KeyBinding::new(KeySpec::Modified { modifiers: KeyModifiers::alt(), code: KeyCode::Right }, TuiAction::CardRight));
        v.push(KeyBinding::new(KeySpec::Modified { modifiers: KeyModifiers::alt(), code: KeyCode::Up }, TuiAction::CardUp));
        v.push(KeyBinding::new(KeySpec::Modified { modifiers: KeyModifiers::alt(), code: KeyCode::Down }, TuiAction::CardDown));
        v.push(KeyBinding::new(KeySpec::Modified { modifiers: KeyModifiers::alt(), code: KeyCode::Enter }, TuiAction::CardActivate));
        v.push(KeyBinding::new(KeySpec::Modified { modifiers: KeyModifiers::alt(), code: KeyCode::Char('v') }, TuiAction::OpenVault));
        v.push(KeyBinding::new(KeySpec::Modified { modifiers: KeyModifiers::alt(), code: KeyCode::Char('s') }, TuiAction::OpenSettings));
        v.push(KeyBinding::new(KeySpec::Modified { modifiers: KeyModifiers::alt(), code: KeyCode::Char('m') }, TuiAction::OpenModels));
        v.push(KeyBinding::new(KeySpec::Modified { modifiers: KeyModifiers::alt(), code: KeyCode::Char('c') }, TuiAction::OpenCron));
    assert(v@ =~= default_chat_bindings());
    v
}

impl Default for KeybindingConfig {
    fn default() -> (c: KeybindingConfig)
        ensures
            c.normal@ == default_normal_bindings(),
            c.chat@ == default_chat_bindings(),
    {
        KeybindingConfig { normal: make_normal_bindings(), chat: make_chat_bindings() }
    }
}

/// Keys that have a name in the grammar.
pub open spec fn is_named_key(c: KeyCode) -> bool {
    match c {
        KeyCode::Up | KeyCode::Down | KeyCode::Left | KeyCode::Right | KeyCode::Enter
        | KeyCode::Esc | KeyCode::Tab | KeyCode::BackTab | KeyCode::Backspace | KeyCode::Delete
        | KeyCode::Insert | KeyCode::Home | KeyCode::End | KeyCode::PageUp | KeyCode::PageDown
        | KeyCode::F(_) => true,
        _ => false,
    }
}

/// Key specifications in the form that `to_string` writes and `parse` reads:
/// a character that is neither white space nor `+`; a named key; or a named
/// key or non-blank character under exactly one of control, alt or shift.
pub open spec fn is_canonical(k: KeySpec) -> bool {
    match k {
        KeySpec::Char(c) => !is_white_space(c) && c != '+',
        KeySpec::Key(code) => is_named_key(code),
        KeySpec::Modified { modifiers, code } => (modifiers.bits == 1 || modifiers.bits == 2
            || modifiers.bits == 4) && (is_named_key(code) || (code is Char && !is_white_space(
            code->Char_0,
        ))),
    }
}

/// A sequence with no white space and no `+`.
pub open spec fn plain_text(s: Seq<char>) -> bool {
    forall|i: int| 0 <= i < s.len() ==> !is_white_space(#[trigger] s[i]) && s[i] != '+'
}

proof fn lemma_named_key_text(code: KeyCode)
    requires
        is_named_key(code),
    ensures
        key_code_spec(key_code_text(code)) == Some(code),
        key_code_text(code).len() > 1,
        plain_text(key_code_text(code)),
{
    reveal_strlit("F");
        reveal_strlit("Up");
        reveal_strlit("up");
        reveal_strlit("Down");
        reveal_strlit("down");
        reveal_strlit("Left");
        reveal_strlit("left");
        reveal_strlit("Right");
        reveal_strlit("right");
        reveal_strlit("Enter");
        reveal_strlit("enter");
        reveal_strlit("Return");
        reveal_strlit("return");
        reveal_strlit("Esc");
        reveal_strlit("esc");
        reveal_strlit("Escape");
        reveal_strlit("escape");
        reveal_strlit("Tab");
        reveal_strlit("tab");
        reveal_strlit("BackTab");
        reveal_strlit("backtab");
        reveal_strlit("ShiftTab");
        reveal_strlit("shifttab");
        reveal_strlit("Backspace");
        reveal_strlit("backspace");
        reveal_strlit("Delete");
        reveal_strlit("delete");
        reveal_strlit("Del");
        reveal_strlit("del");
        reveal_strlit("Insert");
        reveal_strlit("insert");
        reveal_strlit("Ins");
        reveal_strlit("ins");
        reveal_strlit("Home");
        reveal_strlit("home");
        reveal_strlit("End");
        reveal_strlit("end");
        reveal_strlit("PageUp");
        reveal_strlit("pageup");
        reveal_strlit("PgUp");
        reveal_strlit("pgup");
        reveal_strlit("PageDown");
        reveal_strlit("pagedown");
        reveal_strlit("PgDown");
        reveal_strlit("pgdown");
    match code {
        KeyCode::F(n) => {
            let d = decimal(n as nat);
            lemma_decimal_digits(n as nat);
            lemma_parse_u8_decimal(n);
            let t = "F"@ + d;
            assert(t.drop_first() =~= d);
            assert forall|i: int| 0 <= i < t.len() implies !is_white_space(#[trigger] t[i]) && t[i] != '+' by {
                if i > 0 {
                    assert(t[i] == d[i - 1]);
                    assert(is_ascii_digit(d[i - 1]));
                }
            }
        },
        _ => {},
    }
}

proof fn lemma_single_char_not_named(c: char)
    ensures
        key_code_spec(seq![c]) == None::<KeyCode>,
{
        reveal_strlit("Up");
        reveal_strlit("up");
        reveal_strlit("Down");
        reveal_strlit("down");
        reveal_strlit("Left");
        reveal_strlit("left");
        reveal_strlit("Right");
        reveal_strlit("right");
        reveal_strlit("Enter");
        reveal_strlit("enter");
        reveal_strlit("Return");
        reveal_strlit("return");
        reveal_strlit("Esc");
        reveal_strlit("esc");
        reveal_strlit("Escape");
        reveal_strlit("escape");
        reveal_strlit("Tab");
        reveal_strlit("tab");
        reveal_strlit("BackTab");
        reveal_strlit("backtab");
        reveal_strlit("ShiftTab");
        reveal_strlit("shifttab");
        reveal_strlit("Backspace");
        reveal_strlit("backspace");
        reveal_strlit("Delete");
        reveal_strlit("delete");
        reveal_strlit("Del");
        reveal_strlit("del");
        reveal_strlit("Insert");
        reveal_strlit("insert");
        reveal_strlit("Ins");
        reveal_strlit("ins");
        reveal_strlit("Home");
        reveal_strlit("home");
        reveal_strlit("End");
        reveal_strlit("end");
        reveal_strlit("PageUp");
        reveal_strlit("pageup");
        reveal_strlit("PgUp");
        reveal_strlit("pgup");
        reveal_strlit("PageDown");
        reveal_strlit("pagedown");
        reveal_strlit("PgDown");
        reveal_strlit("pgdown");
    assert(seq![c].drop_first() =~= Seq::<char>::empty());
}

pub(crate) proof fn lemma_trim_plain(s: Seq<char>)
    requires
        s.len() > 0,
        !is_white_space(s[0]),
        !is_white_space(s.last()),
    ensures
        trim_spec(s) == s,
{
}

proof fn lemma_lower_word(w: Seq<char>)
    requires
        w == "ctrl"@ || w == "alt"@ || w == "shift"@,
    ensures
        lowercase_of(w) == w,
        plain_text(w),
        w.len() > 0,
{
    reveal_strlit("ctrl");
    reveal_strlit("alt");
    reveal_strlit("shift");
    assert(all_ascii(w));
    assert(w.map_values(|c: char| ascii_lower(c)) =~= w);
}

/// Writing a canonical key specification and parsing the text back gives the
/// same specification.
pub proof fn lemma_display_parse_roundtrip(k: KeySpec)
    requires
        is_canonical(k),
    ensures
        parse_spec(display_spec(k)) == Ok::<KeySpec, Seq<char>>(k),
{
    let s = display_spec(k);
    match k {
        KeySpec::Char(c) => {
            assert(s == seq![c]);
            lemma_trim_plain(s);
            assert(trim_spec(s) == s);
            assert(!s.contains('+'));
            lemma_single_char_not_named(c);
            assert(key_code_spec(s) == None::<KeyCode>);
            assert(s.len() == 1);
            assert(parse_spec(s) == Ok::<KeySpec, Seq<char>>(KeySpec::Char(s[0])));
            assert(s[0] == c);
            assert(parse_spec(s) == Ok::<KeySpec, Seq<char>>(k));
        },
        KeySpec::Key(code) => {
            lemma_named_key_text(code);
            lemma_trim_plain(s);
            assert(!s.contains('+'));
            assert(parse_spec(s) == Ok::<KeySpec, Seq<char>>(k));
        },
        KeySpec::Modified { modifiers, code } => {
            reveal_strlit("ctrl");
            reveal_strlit("alt");
            reveal_strlit("shift");
            reveal_strlit("control");
            reveal_strlit("+");
            assert(1u8 & 2u8 == 0u8) by (bit_vector);
            assert(1u8 & 4u8 == 0u8) by (bit_vector);
            assert(1u8 & 1u8 == 1u8) by (bit_vector);
            assert(2u8 & 2u8 == 2u8) by (bit_vector);
            assert(4u8 & 2u8 == 0u8) by (bit_vector);
            assert(4u8 & 4u8 == 4u8) by (bit_vector);
            let w = modifier_word(modifiers);
            lemma_lower_word(w);
            let t = key_code_text(code);
            if is_named_key(code) {
                lemma_named_key_text(code);
            } else {
                lemma_single_char_not_named(code->Char_0);
                assert(t == seq![code->Char_0]);
            }
            assert(t.len() > 0);
            assert(s == w + "+"@ + t);
            assert(s[0] == w[0]);
            assert(s.last() == t.last());
            lemma_trim_plain(s);
            let p = w.len() as int;
            assert(s[p] == '+');
            assert(s.contains('+'));
            assert forall|i: int| 0 <= i < p implies s[i] != '+' by {
                assert(s[i] == w[i]);
            }
            lemma_first_index(s, '+', p);
            assert(s.take(p) =~= w);
            assert(s.skip(p + 1) =~= t);
            assert(modifier_spec(w) == Some(modifiers));
            assert(parse_spec(s) == Ok::<KeySpec, Seq<char>>(k));
        },
    }
}

} // verus!
