//! Small text pieces drawn by the interface: key hints, the tab bar, the
//! rotating "thinking" word and the height of the card bar.

use vstd::prelude::*;
use crate::text::string_of;

verus! {

broadcast use vstd::string::group_string_axioms;

/// Height, in rows, of one card of the slot bar.
pub const CARD_HEIGHT: u16 = 3;

/// Total height of the slot bar.
pub fn slot_bar_height() -> (h: u16)
    ensures
        h == CARD_HEIGHT,
{
    CARD_HEIGHT
}

/// `key:action ` as shown in the hint lines.
pub open spec fn key_hint_spec(key: Seq<char>, action: Seq<char>) -> Seq<char> {
    key + ":"@ + action + " "@
}

/// Text of a key hint: the key, a colon, the action and a trailing space.
pub fn key_hint(key: &str, action: &str) -> (r: String)
    ensures
        r@ == key_hint_spec(key@, action@),
{
    let mut r = string_of(key);
    r.append(":");
    r.append(action);
    r.append(" ");
    r
}

/// One tab of the tab bar: marked with arrows when active, padded otherwise.
pub open spec fn tab_label(tab: Seq<char>, active: bool) -> Seq<char> {
    if active {
        "▸ "@ + tab + " ◂"@
    } else {
        "  "@ + tab + "  "@
    }
}

/// The first `n` tabs, joined by `│`, the tab at `active` marked.
pub open spec fn tab_bar_prefix(tabs: Seq<Seq<char>>, active: int, n: nat) -> Seq<char>
    decreases n,
{
    if n == 0 {
        Seq::empty()
    } else if n == 1 {
        tab_label(tabs[0], active == 0)
    } else {
        tab_bar_prefix(tabs, active, (n - 1) as nat) + "│"@ + tab_label(
            tabs[n - 1],
            active == n - 1,
        )
    }
}

/// The whole tab bar.
pub open spec fn tab_bar_spec(tabs: Seq<Seq<char>>, active: int) -> Seq<char> {
    tab_bar_prefix(tabs, active, tabs.len())
}

/// The views of a slice of string slices.
pub open spec fn strs_view(tabs: Seq<&str>) -> Seq<Seq<char>> {
    tabs.map_values(|t: &str| t@)
}

/// Format a tab bar with an indicator around the active tab.
pub fn render_tab_bar(tabs: &[&str], active_index: usize) -> (r: String)
    ensures
        r@ == tab_bar_spec(strs_view(tabs@), active_index as int),
{
    let ghost views = strs_view(tabs@);
    let mut r = String::new();
    let mut i: usize = 0;
    while i < tabs.len()
        invariant
            i <= tabs.len(),
            views == strs_view(tabs@),
            r@ == tab_bar_prefix(views, active_index as int, i as nat),
        decreases tabs.len() - i,
    {
        if i > 0 {
            r.append("│");
        }
        if i == active_index {
            r.append("▸ ");
            r.append(tabs[i]);
            r.append(" ◂");
        } else {
            r.append("  ");
            r.append(tabs[i]);
            r.append("  ");
        }
        proof {
            assert(views[i as int] == tabs@[i as int]@);
            if i == 0 {
                assert(tab_bar_prefix(views, active_index as int, 0) == Seq::<char>::empty());
            }
        }
        i = i + 1;
    }
    r
}

/// The words that rotate while the model is processing.
pub open spec fn thinking_words(i: int) -> Seq<char> {
    if i == 0 {
        "thinking..."@
    } else if i == 1 {
        "reasoning..."@
    } else if i == 2 {
        "pondering..."@
    } else if i == 3 {
        "considering..."@
    } else if i == 4 {
        "analyzing..."@
    } else if i == 5 {
        "reflecting..."@
    } else if i == 6 {
        "processing..."@
    } else if i == 7 {
        "evaluating..."@
    } else if i == 8 {
        "deliberating..."@
    } else if i == 9 {
        "synthesizing..."@
    } else if i == 10 {
        "contemplating..."@
    } else {
        "formulating..."@
    }
}

/// How many thinking words there are.
pub const THINKING_WORD_COUNT: usize = 12;

/// The word shown at `tick`: a running tool is named, otherwise the word
/// changes every eight ticks.
pub open spec fn thinking_word_spec(tick: nat, tool_name: Option<Seq<char>>) -> Seq<char> {
    match tool_name {
        Some(name) => "running "@ + name + "..."@,
        None => thinking_words(((tick / 8) % (THINKING_WORD_COUNT as nat)) as int),
    }
}

fn thinking_word_at(i: usize) -> (r: String)
    ensures
        r@ == thinking_words(i as int),
{
    let w = if i == 0 {
        "thinking..."
    } else if i == 1 {
        "reasoning..."
    } else if i == 2 {
        "pondering..."
    } else if i == 3 {
        "considering..."
    } else if i == 4 {
        "analyzing..."
    } else if i == 5 {
        "reflecting..."
    } else if i == 6 {
        "processing..."
    } else if i == 7 {
        "evaluating..."
    } else if i == 8 {
        "deliberating..."
    } else if i == 9 {
        "synthesizing..."
    } else if i == 10 {
        "contemplating..."
    } else {
        "formulating..."
    };
    string_of(w)
}

/// Pick a thinking word from the tick count, or name the running tool.
pub fn thinking_word(tick: usize, tool_name: Option<&str>) -> (r: String)
    ensures
        r@ == thinking_word_spec(
            tick as nat,
            match tool_name {
                Some(n) => Some(n@),
                None => None,
            },
        ),
{
    match tool_name {
        Some(name) => {
            let mut r = string_of("running ");
            r.append(name);
            r.append("...");
            r
        },
        None => thinking_word_at((tick / 8) % THINKING_WORD_COUNT),
    }
}

} // verus!
