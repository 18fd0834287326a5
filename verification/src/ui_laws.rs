//! What the keys, key names, access levels and context menus of the
//! interface mean, stated over all the inputs they apply to.

use vstd::prelude::*;
use crate::keybindings::{
    KeySpec, KeybindingConfig, TuiAction, default_normal_bindings, display_spec, first_match, lemma_trim_plain,
    lookup_spec, parse_spec,
};
use crate::text::is_white_space;
use crate::active_chat::active_key;
use crate::app_state::{AppState, chat_pos, prior_chat};
use crate::chat_input::{ChatKeyOutcome, chat_key_handled, input_ok, is_card_action};
use crate::editor::{byte_len, lemma_byte_len_take};
use crate::line_edit::{char_pos, lemma_boundary};
use crate::menu::MenuItem;
use crate::model::AccessLevel;
use crate::modes::ContextMenuAction;
use crate::navigation::context_entries;
use crate::permission_form::cycled_access;
use crate::keys::{KeyCode, KeyEvent, KeyModifiers};

verus! {

/// A key pressed with no modifier held.
pub open spec fn plain(code: KeyCode) -> KeyEvent {
    KeyEvent { code, modifiers: KeyModifiers { bits: 0 } }
}

/// In the default normal-mode bindings the vim keys move as the arrows do:
/// `k` and Up move up, `j` and Down move down, `h` and Left move left, `l`
/// and Right move right.
pub proof fn lemma_default_vim_keys(cfg: KeybindingConfig)
    requires
        cfg.normal@ == default_normal_bindings(),
    ensures
        lookup_spec(cfg, "normal"@, plain(KeyCode::Up)) == Some(TuiAction::NavUp),
        lookup_spec(cfg, "normal"@, plain(KeyCode::Char('k'))) == Some(TuiAction::NavUp),
        lookup_spec(cfg, "normal"@, plain(KeyCode::Down)) == Some(TuiAction::NavDown),
        lookup_spec(cfg, "normal"@, plain(KeyCode::Char('j'))) == Some(TuiAction::NavDown),
        lookup_spec(cfg, "normal"@, plain(KeyCode::Left)) == Some(TuiAction::NavLeft),
        lookup_spec(cfg, "normal"@, plain(KeyCode::Char('h'))) == Some(TuiAction::NavLeft),
        lookup_spec(cfg, "normal"@, plain(KeyCode::Right)) == Some(TuiAction::NavRight),
        lookup_spec(cfg, "normal"@, plain(KeyCode::Char('l'))) == Some(TuiAction::NavRight),
{
    reveal_with_fuel(first_match, 10);
}

/// A four-or-more letter ASCII word with no `+` parses as the key it names.
proof fn lemma_word_parses(w: Seq<char>)
    requires
        w.len() > 1,
        forall|i: int| 0 <= i < w.len() ==> #[trigger] w[i] != '+' && !is_white_space(w[i]),
    ensures
        parse_spec(w) == match crate::keybindings::key_code_spec(w) {
            Some(code) => Ok::<KeySpec, Seq<char>>(KeySpec::Key(code)),
            None => Err("Unknown key: "@ + w),
        },
{
    lemma_trim_plain(w);
    assert(!w.contains('+'));
}

/// Aliases of a key name parse to the same key as the name the key is
/// written with, which parses to that key: `PgUp`, `pgup` and `pageup` are `PageUp`.
pub proof fn lemma_key_aliases_pageup()
    ensures
        parse_spec(display_spec(KeySpec::Key(KeyCode::PageUp))) == Ok::<KeySpec, Seq<char>>(KeySpec::Key(KeyCode::PageUp)),
        parse_spec("PgUp"@) == parse_spec(display_spec(KeySpec::Key(KeyCode::PageUp))),
        parse_spec("pgup"@) == parse_spec(display_spec(KeySpec::Key(KeyCode::PageUp))),
        parse_spec("pageup"@) == parse_spec(display_spec(KeySpec::Key(KeyCode::PageUp))),
{
    crate::keybindings::lemma_display_parse_roundtrip(KeySpec::Key(KeyCode::PageUp));
    reveal_strlit("F");
    reveal_strlit("Up");
    reveal_strlit("up");
    reveal_strlit("Down");
    reveal_strlit("down");
    reveal_strlit("Left");
    reveal_strlit("left");
    reveal_strlit("Right");
    reveal_strlit("right");
    reveal_strlit("Enter");
    reveal_strlit("enter");
    reveal_strlit("Return");
    reveal_strlit("return");
    reveal_strlit("Esc");
    reveal_strlit("esc");
    reveal_strlit("Escape");
    reveal_strlit("escape");
    reveal_strlit("Tab");
    reveal_strlit("tab");
    reveal_strlit("BackTab");
    reveal_strlit("backtab");
    reveal_strlit("ShiftTab");
    reveal_strlit("shifttab");
    reveal_strlit("Backspace");
    reveal_strlit("backspace");
    reveal_strlit("Delete");
    reveal_strlit("delete");
    reveal_strlit("Del");
    reveal_strlit("del");
    reveal_strlit("Insert");
    reveal_strlit("insert");
    reveal_strlit("Ins");
    reveal_strlit("ins");
    reveal_strlit("Home");
    reveal_strlit("home");
    reveal_strlit("End");
    reveal_strlit("end");
    reveal_strlit("PageUp");
    reveal_strlit("pageup");
    reveal_strlit("PgUp");
    reveal_strlit("pgup");
    reveal_strlit("PageDown");
    reveal_strlit("pagedown");
    reveal_strlit("PgDown");
    reveal_strlit("pgdown");
    lemma_word_parses("PgUp"@);
    lemma_word_parses("pgup"@);
    lemma_word_parses("pageup"@);
}

/// Aliases of a key name parse to the same key as the name the key is
/// written with, which parses to that key: `PgDown`, `pgdown` and `pagedown` are `PageDown`.
pub proof fn lemma_key_aliases_pagedown()
    ensures
        parse_spec(display_spec(KeySpec::Key(KeyCode::PageDown))) == Ok::<KeySpec, Seq<char>>(KeySpec::Key(KeyCode::PageDown)),
        parse_spec("PgDown"@) == parse_spec(display_spec(KeySpec::Key(KeyCode::PageDown))),
        parse_spec("pgdown"@) == parse_spec(display_spec(KeySpec::Key(KeyCode::PageDown))),
        parse_spec("pagedown"@) == parse_spec(display_spec(KeySpec::Key(KeyCode::PageDown))),
{
    crate::keybindings::lemma_display_parse_roundtrip(KeySpec::Key(KeyCode::PageDown));
    reveal_strlit("F");
    reveal_strlit("Up");
    reveal_strlit("up");
    reveal_strlit("Down");
    reveal_strlit("down");
    reveal_strlit("Left");
    reveal_strlit("left");
    reveal_strlit("Right");
    reveal_strlit("right");
    reveal_strlit("Enter");
    reveal_strlit("enter");
    reveal_strlit("Return");
    reveal_strlit("return");
    reveal_strlit("Esc");
    reveal_strlit("esc");
    reveal_strlit("Escape");
    reveal_strlit("escape");
    reveal_strlit("Tab");
    reveal_strlit("tab");
    reveal_strlit("BackTab");
    reveal_strlit("backtab");
    reveal_strlit("ShiftTab");
    reveal_strlit("shifttab");
    reveal_strlit("Backspace");
    reveal_strlit("backspace");
    reveal_strlit("Delete");
    reveal_strlit("delete");
    reveal_strlit("Del");
    reveal_strlit("del");
    reveal_strlit("Insert");
    reveal_strlit("insert");
    reveal_strlit("Ins");
    reveal_strlit("ins");
    reveal_strlit("Home");
    reveal_strlit("home");
    reveal_strlit("End");
    reveal_strlit("end");
    reveal_strlit("PageUp");
    reveal_strlit("pageup");
    reveal_strlit("PgUp");
    reveal_strlit("pgup");
    reveal_strlit("PageDown");
    reveal_strlit("pagedown");
    reveal_strlit("PgDown");
    reveal_strlit("pgdown");
    lemma_word_parses("PgDown"@);
    lemma_word_parses("pgdown"@);
    lemma_word_parses("pagedown"@);
}

/// Aliases of a key name parse to the same key as the name the key is
/// written with, which parses to that key: `Del` and `del` are `Delete`.
pub proof fn lemma_key_aliases_delete()
    ensures
        parse_spec(display_spec(KeySpec::Key(KeyCode::Delete))) == Ok::<KeySpec, Seq<char>>(KeySpec::Key(KeyCode::Delete)),
        parse_spec("Del"@) == parse_spec(display_spec(KeySpec::Key(KeyCode::Delete))),
        parse_spec("del"@) == parse_spec(display_spec(KeySpec::Key(KeyCode::Delete))),
{
    crate::keybindings::lemma_display_parse_roundtrip(KeySpec::Key(KeyCode::Delete));
    reveal_strlit("F");
    reveal_strlit("Up");
    reveal_strlit("up");
    reveal_strlit("Down");
    reveal_strlit("down");
    reveal_strlit("Left");
    reveal_strlit("left");
    reveal_strlit("Right");
    reveal_strlit("right");
    reveal_strlit("Enter");
    reveal_strlit("enter");
    reveal_strlit("Return");
    reveal_strlit("return");
    reveal_strlit("Esc");
    reveal_strlit("esc");
    reveal_strlit("Escape");
    reveal_strlit("escape");
    reveal_strlit("Tab");
    reveal_strlit("tab");
    reveal_strlit("BackTab");
    reveal_strlit("backtab");
    reveal_strlit("ShiftTab");
    reveal_strlit("shifttab");
    reveal_strlit("Backspace");
    reveal_strlit("backspace");
    reveal_strlit("Delete");
    reveal_strlit("delete");
    reveal_strlit("Del");
    reveal_strlit("del");
    reveal_strlit("Insert");
    reveal_strlit("insert");
    reveal_strlit("Ins");
    reveal_strlit("ins");
    reveal_strlit("Home");
    reveal_strlit("home");
    reveal_strlit("End");
    reveal_strlit("end");
    reveal_strlit("PageUp");
    reveal_strlit("pageup");
    reveal_strlit("PgUp");
    reveal_strlit("pgup");
    reveal_strlit("PageDown");
    reveal_strlit("pagedown");
    reveal_strlit("PgDown");
    reveal_strlit("pgdown");
    lemma_word_parses("Del"@);
    lemma_word_parses("del"@);
}

/// Aliases of a key name parse to the same key as the name the key is
/// written with, which parses to that key: `Ins` and `ins` are `Insert`.
pub proof fn lemma_key_aliases_insert()
    ensures
        parse_spec(display_spec(KeySpec::Key(KeyCode::Insert))) == Ok::<KeySpec, Seq<char>>(KeySpec::Key(KeyCode::Insert)),
        parse_spec("Ins"@) == parse_spec(display_spec(KeySpec::Key(KeyCode::Insert))),
        parse_spec("ins"@) == parse_spec(display_spec(KeySpec::Key(KeyCode::Insert))),
{
    crate::keybindings::lemma_display_parse_roundtrip(KeySpec::Key(KeyCode::Insert));
    reveal_strlit("F");
    reveal_strlit("Up");
    reveal_strlit("up");
    reveal_strlit("Down");
    reveal_strlit("down");
    reveal_strlit("Left");
    reveal_strlit("left");
    reveal_strlit("Right");
    reveal_strlit("right");
    reveal_strlit("Enter");
    reveal_strlit("enter");
    reveal_strlit("Return");
    reveal_strlit("return");
    reveal_strlit("Esc");
    reveal_strlit("esc");
    reveal_strlit("Escape");
    reveal_strlit("escape");
    reveal_strlit("Tab");
    reveal_strlit("tab");
    reveal_strlit("BackTab");
    reveal_strlit("backtab");
    reveal_strlit("ShiftTab");
    reveal_strlit("shifttab");
    reveal_strlit("Backspace");
    reveal_strlit("backspace");
    reveal_strlit("Delete");
    reveal_strlit("delete");
    reveal_strlit("Del");
    reveal_strlit("del");
    reveal_strlit("Insert");
    reveal_strlit("insert");
    reveal_strlit("Ins");
    reveal_strlit("ins");
    reveal_strlit("Home");
    reveal_strlit("home");
    reveal_strlit("End");
    reveal_strlit("end");
    reveal_strlit("PageUp");
    reveal_strlit("pageup");
    reveal_strlit("PgUp");
    reveal_strlit("pgup");
    reveal_strlit("PageDown");
    reveal_strlit("pagedown");
    reveal_strlit("PgDown");
    reveal_strlit("pgdown");
    lemma_word_parses("Ins"@);
    lemma_word_parses("ins"@);
}

/// Aliases of a key name parse to the same key as the name the key is
/// written with, which parses to that key: `Return` and `return` are `Enter`.
pub proof fn lemma_key_aliases_enter()
    ensures
        parse_spec(display_spec(KeySpec::Key(KeyCode::Enter))) == Ok::<KeySpec, Seq<char>>(KeySpec::Key(KeyCode::Enter)),
        parse_spec("Return"@) == parse_spec(display_spec(KeySpec::Key(KeyCode::Enter))),
        parse_spec("return"@) == parse_spec(display_spec(KeySpec::Key(KeyCode::Enter))),
{
    crate::keybindings::lemma_display_parse_roundtrip(KeySpec::Key(KeyCode::Enter));
    reveal_strlit("F");
    reveal_strlit("Up");
    reveal_strlit("up");
    reveal_strlit("Down");
    reveal_strlit("down");
    reveal_strlit("Left");
    reveal_strlit("left");
    reveal_strlit("Right");
    reveal_strlit("right");
    reveal_strlit("Enter");
    reveal_strlit("enter");
    reveal_strlit("Return");
    reveal_strlit("return");
    reveal_strlit("Esc");
    reveal_strlit("esc");
    reveal_strlit("Escape");
    reveal_strlit("escape");
    reveal_strlit("Tab");
    reveal_strlit("tab");
    reveal_strlit("BackTab");
    reveal_strlit("backtab");
    reveal_strlit("ShiftTab");
    reveal_strlit("shifttab");
    reveal_strlit("Backspace");
    reveal_strlit("backspace");
    reveal_strlit("Delete");
    reveal_strlit("delete");
    reveal_strlit("Del");
    reveal_strlit("del");
    reveal_strlit("Insert");
    reveal_strlit("insert");
    reveal_strlit("Ins");
    reveal_strlit("ins");
    reveal_strlit("Home");
    reveal_strlit("home");
    reveal_strlit("End");
    reveal_strlit("end");
    reveal_strlit("PageUp");
    reveal_strlit("pageup");
    reveal_strlit("PgUp");
    reveal_strlit("pgup");
    reveal_strlit("PageDown");
    reveal_strlit("pagedown");
    reveal_strlit("PgDown");
    reveal_strlit("pgdown");
    lemma_word_parses("Return"@);
    lemma_word_parses("return"@);
}

/// Aliases of a key name parse to the same key as the name the key is
/// written with, which parses to that key: `Escape` and `escape` are `Esc`.
pub proof fn lemma_key_aliases_esc()
    ensures
        parse_spec(display_spec(KeySpec::Key(KeyCode::Esc))) == Ok::<KeySpec, Seq<char>>(KeySpec::Key(KeyCode::Esc)),
        parse_spec("Escape"@) == parse_spec(display_spec(KeySpec::Key(KeyCode::Esc))),
        parse_spec("escape"@) == parse_spec(display_spec(KeySpec::Key(KeyCode::Esc))),
{
    crate::keybindings::lemma_display_parse_roundtrip(KeySpec::Key(KeyCode::Esc));
    reveal_strlit("F");
    reveal_strlit("Up");
    reveal_strlit("up");
    reveal_strlit("Down");
    reveal_strlit("down");
    reveal_strlit("Left");
    reveal_strlit("left");
    reveal_strlit("Right");
    reveal_strlit("right");
    reveal_strlit("Enter");
    reveal_strlit("enter");
    reveal_strlit("Return");
    reveal_strlit("return");
    reveal_strlit("Esc");
    reveal_strlit("esc");
    reveal_strlit("Escape");
    reveal_strlit("escape");
    reveal_strlit("Tab");
    reveal_strlit("tab");
    reveal_strlit("BackTab");
    reveal_strlit("backtab");
    reveal_strlit("ShiftTab");
    reveal_strlit("shifttab");
    reveal_strlit("Backspace");
    reveal_strlit("backspace");
    reveal_strlit("Delete");
    reveal_strlit("delete");
    reveal_strlit("Del");
    reveal_strlit("del");
    reveal_strlit("Insert");
    reveal_strlit("insert");
    reveal_strlit("Ins");
    reveal_strlit("ins");
    reveal_strlit("Home");
    reveal_strlit("home");
    reveal_strlit("End");
    reveal_strlit("end");
    reveal_strlit("PageUp");
    reveal_strlit("pageup");
    reveal_strlit("PgUp");
    reveal_strlit("pgup");
    reveal_strlit("PageDown");
    reveal_strlit("pagedown");
    reveal_strlit("PgDown");
    reveal_strlit("pgdown");
    lemma_word_parses("Escape"@);
    lemma_word_parses("escape"@);
}

/// Aliases of a key name parse to the same key as the name the key is
/// written with, which parses to that key: `ShiftTab`, `shifttab` and `backtab` are `BackTab`.
pub proof fn lemma_key_aliases_backtab()
    ensures
        parse_spec(display_spec(KeySpec::Key(KeyCode::BackTab))) == Ok::<KeySpec, Seq<char>>(KeySpec::Key(KeyCode::BackTab)),
        parse_spec("ShiftTab"@) == parse_spec(display_spec(KeySpec::Key(KeyCode::BackTab))),
        parse_spec("shifttab"@) == parse_spec(display_spec(KeySpec::Key(KeyCode::BackTab))),
        parse_spec("backtab"@) == parse_spec(display_spec(KeySpec::Key(KeyCode::BackTab))),
{
    crate::keybindings::lemma_display_parse_roundtrip(KeySpec::Key(KeyCode::BackTab));
    reveal_strlit("F");
    reveal_strlit("Up");
    reveal_strlit("up");
    reveal_strlit("Down");
    reveal_strlit("down");
    reveal_strlit("Left");
    reveal_strlit("left");
    reveal_strlit("Right");
    reveal_strlit("right");
    reveal_strlit("Enter");
    reveal_strlit("enter");
    reveal_strlit("Return");
    reveal_strlit("return");
    reveal_strlit("Esc");
    reveal_strlit("esc");
    reveal_strlit("Escape");
    reveal_strlit("escape");
    reveal_strlit("Tab");
    reveal_strlit("tab");
    reveal_strlit("BackTab");
    reveal_strlit("backtab");
    reveal_strlit("ShiftTab");
    reveal_strlit("shifttab");
    reveal_strlit("Backspace");
    reveal_strlit("backspace");
    reveal_strlit("Delete");
    reveal_strlit("delete");
    reveal_strlit("Del");
    reveal_strlit("del");
    reveal_strlit("Insert");
    reveal_strlit("insert");
    reveal_strlit("Ins");
    reveal_strlit("ins");
    reveal_strlit("Home");
    reveal_strlit("home");
    reveal_strlit("End");
    reveal_strlit("end");
    reveal_strlit("PageUp");
    reveal_strlit("pageup");
    reveal_strlit("PgUp");
    reveal_strlit("pgup");
    reveal_strlit("PageDown");
    reveal_strlit("pagedown");
    reveal_strlit("PgDown");
    reveal_strlit("pgdown");
    lemma_word_parses("ShiftTab"@);
    lemma_word_parses("shifttab"@);
    lemma_word_parses("backtab"@);
}

/// In the chat input, the plain Up arrow scrolls the selected session's
/// chat one line towards its start (from the bottom, if it was following
/// the latest content) and stops following; the plain Down arrow scrolls
/// one line towards the end, leaving a chat that follows the latest
/// content where it is. Nothing else changes, and the key is handled
/// there. This holds for any keybindings that do not hand the arrow to the
/// card bar.
pub proof fn lemma_chat_arrows_scroll(b: AppState, a: AppState, kb: KeybindingConfig, r: ChatKeyOutcome, up: bool)
    requires
        !(first_match(kb.chat@, plain(if up { KeyCode::Up } else { KeyCode::Down })) matches Some(act)
            && is_card_action(act)),
        chat_key_handled(b, a, plain(if up { KeyCode::Up } else { KeyCode::Down }), kb, r),
    ensures
        r == ChatKeyOutcome::Handled,
        match active_key(b) {
            Some(k) => {
                let p = chat_pos(b.session_chats@, k);
                let v = prior_chat(b.session_chats@, k);
                let w = a.session_chats@[p].state@;
                let start = if v.auto_scroll { v.max_scroll } else { v.scroll };
                &&& a == (AppState { session_chats: a.session_chats, ..b })
                &&& a.session_chats@[p].key@ == k
                &&& w.messages == v.messages && w.max_scroll == v.max_scroll && w.loading == v.loading
                &&& up ==> !w.auto_scroll && w.scroll == if start >= 1 { (start - 1) as nat } else { 0 }
                &&& !up && v.auto_scroll ==> w == v
                &&& !up && !v.auto_scroll && v.scroll < usize::MAX ==> w.scroll == v.scroll + 1
            },
            None => a == b,
        },
{
    assert(0u8 & 2u8 == 0u8) by (bit_vector);
    assert(0u8 & 1u8 == 0u8) by (bit_vector);
}

/// How much human involvement a level asks for, from none to refusal:
/// allow, allow after approval, allow after approval with a second
/// factor, deny.
pub open spec fn strictness(x: AccessLevel) -> int {
    match x {
        AccessLevel::Allow => 0,
        AccessLevel::AllowHil => 1,
        AccessLevel::AllowHil2fa => 2,
        AccessLevel::Deny => 3,
    }
}

/// Cycling a rule's access level forward steps to the next stricter level,
/// from deny round to allow; backward steps to the next laxer one, from
/// allow round to deny. So every level is reached from any other by as
/// many forward steps as it is stricter, round the four.
pub proof fn lemma_access_cycles_by_strictness(x: AccessLevel)
    ensures
        strictness(cycled_access(x, true)) == (strictness(x) + 1) % 4,
        strictness(cycled_access(x, false)) == (strictness(x) + 3) % 4,
        forall|y: AccessLevel| #[trigger] forward_steps(x, ((strictness(y) - strictness(x) + 4) % 4) as nat) == y,
{
    assert forall|y: AccessLevel| #[trigger] forward_steps(x, ((strictness(y) - strictness(x) + 4) % 4) as nat) == y by {
        let n: nat = ((strictness(y) - strictness(x) + 4) % 4) as nat;
        lemma_forward_steps(x, n);
    }
}

/// A level after `n` forward steps.
pub open spec fn forward_steps(x: AccessLevel, n: nat) -> AccessLevel
    decreases n,
{
    if n == 0 {
        x
    } else {
        cycled_access(forward_steps(x, (n - 1) as nat), true)
    }
}

proof fn lemma_forward_steps(x: AccessLevel, n: nat)
    ensures
        strictness(forward_steps(x, n)) == (strictness(x) + n) % 4,
    decreases n,
{
    if n > 0 {
        lemma_forward_steps(x, (n - 1) as nat);
        let y = forward_steps(x, (n - 1) as nat);
        assert(strictness(cycled_access(y, true)) == (strictness(y) + 1) % 4);
        assert((((strictness(x) + n - 1) % 4) + 1) % 4 == (strictness(x) + n) % 4) by (nonlinear_arith)
            requires n > 0, 0 <= strictness(x) < 4;
    }
}

/// The action each context-menu label names.
pub open spec fn action_named(label: Seq<char>) -> Option<ContextMenuAction> {
    if label == "Add Agent"@ {
        Some(ContextMenuAction::OpenAddAgent)
    } else if label == "Edit Agent"@ {
        Some(ContextMenuAction::OpenEditAgent)
    } else if label == "Delete Agent"@ {
        Some(ContextMenuAction::DeleteAgent)
    } else if label == "Context Files"@ {
        Some(ContextMenuAction::OpenContextFiles)
    } else if label == "Add Credential"@ {
        Some(ContextMenuAction::OpenAddCredential)
    } else if label == "New Session"@ {
        Some(ContextMenuAction::OpenCreateSession)
    } else if label == "Trigger Job"@ {
        Some(ContextMenuAction::TriggerCronJob)
    } else if label == "Refresh"@ {
        Some(ContextMenuAction::RefreshPage)
    } else {
        None
    }
}

/// On every page, each context-menu entry runs the action its label names
/// ("New Session" opens the create-session form, "Refresh" reloads the
/// page, and so on), every page offers a refresh, and no two entries of a
/// page share a key.
pub proof fn lemma_context_entries_do_what_they_say(m: MenuItem)
    ensures
        forall|i: int| 0 <= i < context_entries(m).len()
            ==> action_named(#[trigger] context_entries(m)[i].0) == Some(context_entries(m)[i].2),
        exists|i: int| 0 <= i < context_entries(m).len()
            && #[trigger] context_entries(m)[i].2 == ContextMenuAction::RefreshPage,
        forall|i: int, j: int| 0 <= i < j < context_entries(m).len()
            ==> #[trigger] context_entries(m)[i].1 != #[trigger] context_entries(m)[j].1,
{
    reveal_strlit("Add Agent");
    reveal_strlit("Edit Agent");
    reveal_strlit("Delete Agent");
    reveal_strlit("Context Files");
    reveal_strlit("Add Credential");
    reveal_strlit("New Session");
    reveal_strlit("Trigger Job");
    reveal_strlit("Refresh");
    assert("Add Agent"@.len() == 9);
    assert("Edit Agent"@.len() == 10);
    assert("Delete Agent"@.len() == 12);
    assert("Context Files"@.len() == 13);
    assert("Add Credential"@.len() == 14);
    assert("New Session"@.len() == 11);
    assert("Trigger Job"@.len() == 11);
    assert("Refresh"@.len() == 7);
    assert("New Session"@[0] != "Trigger Job"@[0]);
    let e = context_entries(m);
    assert(e[e.len() - 1].2 == ContextMenuAction::RefreshPage);
    assert forall|i: int| 0 <= i < e.len() implies action_named(#[trigger] e[i].0) == Some(e[i].2) by {
        match m {
            MenuItem::Agents => {
                if i == 0 {
                    assert(e[i].0 == "Add Agent"@);
                } else if i == 1 {
                    assert(e[i].0 == "Edit Agent"@);
                } else if i == 2 {
                    assert(e[i].0 == "Delete Agent"@);
                } else if i == 3 {
                    assert(e[i].0 == "Context Files"@);
                } else {
                    assert(e[i].0 == "Refresh"@);
                }
            },
            MenuItem::Credentials => {
                if i == 0 {
                    assert(e[i].0 == "Add Credential"@);
                } else {
                    assert(e[i].0 == "Refresh"@);
                }
            },
            MenuItem::Sessions => {
                if i == 0 {
                    assert(e[i].0 == "New Session"@);
                } else {
                    assert(e[i].0 == "Refresh"@);
                }
            },
            MenuItem::CronJobs => {
                if i == 0 {
                    assert(e[i].0 == "Trigger Job"@);
                } else {
                    assert(e[i].0 == "Refresh"@);
                }
            },
            _ => {
                assert(e[i].0 == "Refresh"@);
            },
        }
    }
}

/// In the chat input, the plain Left arrow moves the cursor back (by one
/// character) unless it is at the start, the plain Right arrow moves it on
/// unless it is at the end, Home puts it at the start and End at the end;
/// the text stays as it is and nothing else changes. This holds for any
/// keybindings that do not hand the key to the card bar.
pub proof fn lemma_chat_cursor_keys(b: AppState, a: AppState, kb: KeybindingConfig, r: ChatKeyOutcome, code: KeyCode)
    requires
        code == KeyCode::Left || code == KeyCode::Right || code == KeyCode::Home || code == KeyCode::End,
        input_ok(b),
        !(first_match(kb.chat@, plain(code)) matches Some(act) && is_card_action(act)),
        chat_key_handled(b, a, plain(code), kb, r),
    ensures
        r == ChatKeyOutcome::Handled,
        a == (AppState { input_buffer: a.input_buffer, input_cursor: a.input_cursor, ..b }),
        a.input_buffer@ == b.input_buffer@,
        code == KeyCode::Left && b.input_cursor > 0 ==> a.input_cursor < b.input_cursor,
        code == KeyCode::Left && b.input_cursor == 0 ==> a.input_cursor == 0,
        code == KeyCode::Right && b.input_cursor < byte_len(b.input_buffer@) ==> a.input_cursor > b.input_cursor,
        code == KeyCode::Right && b.input_cursor >= byte_len(b.input_buffer@) ==> a.input_cursor == b.input_cursor,
        code == KeyCode::Home ==> a.input_cursor == 0,
        code == KeyCode::End ==> a.input_cursor == byte_len(b.input_buffer@),
{
    assert(0u8 & 2u8 == 0u8) by (bit_vector);
    assert(0u8 & 1u8 == 0u8) by (bit_vector);
    let s = b.input_buffer@;
    let c = b.input_cursor as nat;
    lemma_boundary(s, c);
    let k = char_pos(s, c);
    if k > 0 {
        lemma_byte_len_take(s, k - 1);
        assert(s.take(k - 1 + 1) == s.take(k));
    } else {
        assert(s.take(0).len() == 0);
    }
}

} // verus!
