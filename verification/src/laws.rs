//! Properties that span several operations: moving a selection forward and
//! back, cycling permission levels, the alert limit and finishing a
//! streamed reply.

use vstd::prelude::*;
use crate::app_state::{AppState, MAX_ALERTS, Message, updated};
use crate::form_keys::agent_dropped;
use crate::chat_state::{ChatView, has_streamed, reply_received};
use crate::menu::{MenuItem, menu_at, menu_index};
use crate::model::{AccessLevel, ToolCallInfo};
use crate::navigation::{
    credential_selected_next, credential_selected_prev, credential_selection_in_range,
    menu_moved_next, menu_moved_prev, selected_next, selected_prev, selection_in_range};
use crate::permission_form::{EditPermissionState, cycled_access, source_view};
use crate::permission_rules::{
    RuleView, editor_endpoint_id, first_rule_for, lemma_first_rule_for, lemma_sorted_by_priority,
    permission_moved, permission_saved, permission_updated, priority_ordered, renumbered, rule_for,
};
use crate::slots::{next_wrap, prev_wrap};
use crate::editor::{
    EditContextFileState, byte_len, can_delete, can_insert, char_deleted, char_inserted, cursor_byte,
    lemma_byte_len_take, utf8_width,
};
use crate::editor::{
    char_at_byte, lemma_line_within, lemma_lines_total, line_bytes, line_start, moved_back, moved_forward, split_lines,
};
use crate::editor_lines::{
    col_chars, lemma_cursor_position, lemma_insert_cursor, lemma_position_bytes, lemma_prefix_lines, lf_count,
};
use crate::agent_form::{EditAgentState, next_model_of, prev_model_of};
use crate::session_form::{CreateSessionState, next_option_of, prev_option_of};
use crate::line_edit::{
    backspaced, char_pos, insert_at, lemma_boundary, lemma_char_at_prefix, lemma_typed, moved_left,
    moved_right, on_boundary, remove_at, typed};

verus! {

/// Stepping forward then back (or back then forward) among `n` positions
/// returns to the start, and both steps stay among the `n` positions.
pub proof fn lemma_wrap_inverse(i: nat, n: nat)
    requires
        i < n,
    ensures
        next_wrap(i, n) < n,
        prev_wrap(i, n) < n,
        prev_wrap(next_wrap(i, n), n) == i,
        next_wrap(prev_wrap(i, n), n) == i,
{
    if i + 1 < n {
        assert((i + 1) % n == i + 1) by (nonlinear_arith)
            requires
                i + 1 < n,
        ;
    } else {
        assert((i + 1) % n == 0) by (nonlinear_arith)
            requires
                i + 1 == n,
        ;
    }
    if i > 0 {
        assert(((i - 1) + 1) % (n as int) == i) by (nonlinear_arith)
            requires
                0 < i < n,
        ;
    } else {
        assert(((n - 1) + 1) % (n as int) == 0) by (nonlinear_arith)
            requires
                n > 0,
        ;
    }
}

/// The lists of a state are no longer than the largest index.
proof fn lemma_list_bounds(s: AppState)
    ensures
        s.agents@.len() <= usize::MAX,
        s.sessions@.len() <= usize::MAX,
        s.providers@.len() <= usize::MAX,
        s.endpoints@.len() <= usize::MAX,
        s.permissions@.len() <= usize::MAX,
        crate::navigation::category_count(s) <= usize::MAX,
{
    assert(s.agents.len() == s.agents@.len());
    assert(s.sessions.len() == s.sessions@.len());
    assert(s.providers.len() == s.providers@.len());
    assert(s.endpoints.len() == s.endpoints@.len());
    assert(s.permissions.len() == s.permissions@.len());
    assert(s.credential_schemas.len() == s.credential_schemas@.len());
    s.credential_schemas@.lemma_filter_len(
        |x: crate::schemas::CredentialSchemaInfo| crate::navigation::in_category(s.selected_category as nat, x.category@),
    );
}

/// On any page, moving the selection down and then up again gives back the
/// same state, when the selection was within its list.
pub proof fn lemma_select_next_then_prev(b: AppState, m: AppState, a: AppState)
    requires
        selection_in_range(b),
        selected_next(b, m),
        selected_prev(m, a),
    ensures
        a == b,
{
    lemma_list_bounds(b);
    match b.menu_item {
        MenuItem::Credentials => {
            lemma_wrap_inverse(b.credentials_tab as nat, 4);
        },
        MenuItem::Agents => {
            if b.agents@.len() > 0 {
                lemma_wrap_inverse(b.selected_agent as nat, b.agents@.len());
            }
        },
        MenuItem::Sessions => {
            if b.sessions@.len() > 0 {
                lemma_wrap_inverse(b.selected_session as nat, b.sessions@.len());
            }
        },
        MenuItem::CronJobs => {
            lemma_wrap_inverse(b.selected_cron_card as nat, 3);
        },
        MenuItem::Models => lemma_wrap_inverse(
            b.selected_provider as nat,
            if b.providers@.len() > 1 { b.providers@.len() } else { 1 },
        ),
        MenuItem::Settings => lemma_wrap_inverse(b.selected_settings_card as nat, 3),
        MenuItem::Dashboard => {
        },
    }
}

/// On any page, moving the selection up and then down again gives back the
/// same state, when the selection was within its list.
pub proof fn lemma_select_prev_then_next(b: AppState, m: AppState, a: AppState)
    requires
        selection_in_range(b),
        selected_prev(b, m),
        selected_next(m, a),
    ensures
        a == b,
{
    lemma_list_bounds(b);
    match b.menu_item {
        MenuItem::Credentials => lemma_wrap_inverse(b.credentials_tab as nat, 4),
        MenuItem::Agents => if b.agents@.len() > 0 {
            lemma_wrap_inverse(b.selected_agent as nat, b.agents@.len());
        },
        MenuItem::Sessions => if b.sessions@.len() > 0 {
            lemma_wrap_inverse(b.selected_session as nat, b.sessions@.len());
        },
        MenuItem::CronJobs => lemma_wrap_inverse(b.selected_cron_card as nat, 3),
        MenuItem::Models => lemma_wrap_inverse(
            b.selected_provider as nat,
            if b.providers@.len() > 1 { b.providers@.len() } else { 1 },
        ),
        MenuItem::Settings => lemma_wrap_inverse(b.selected_settings_card as nat, 3),
        MenuItem::Dashboard => {},
    }
}

/// Moving the selection keeps it within its list.
pub proof fn lemma_selection_stays_in_range(b: AppState, a: AppState)
    requires
        selection_in_range(b),
        selected_next(b, a) || selected_prev(b, a),
    ensures
        selection_in_range(a),
{
    lemma_list_bounds(b);
    match b.menu_item {
        MenuItem::Credentials => lemma_wrap_inverse(b.credentials_tab as nat, 4),
        MenuItem::Agents => if b.agents@.len() > 0 {
            lemma_wrap_inverse(b.selected_agent as nat, b.agents@.len());
        },
        MenuItem::Sessions => if b.sessions@.len() > 0 {
            lemma_wrap_inverse(b.selected_session as nat, b.sessions@.len());
        },
        MenuItem::CronJobs => lemma_wrap_inverse(b.selected_cron_card as nat, 3),
        MenuItem::Models => lemma_wrap_inverse(
            b.selected_provider as nat,
            if b.providers@.len() > 1 { b.providers@.len() } else { 1 },
        ),
        MenuItem::Settings => lemma_wrap_inverse(b.selected_settings_card as nat, 3),
        MenuItem::Dashboard => {},
    }
}

/// In the credential tabs, moving the selection down and then up again
/// gives back the same state, when the selection was within its list.
pub proof fn lemma_credential_next_then_prev(b: AppState, m: AppState, a: AppState)
    requires
        credential_selection_in_range(b),
        credential_selected_next(b, m),
        credential_selected_prev(m, a),
    ensures
        a == b,
{
    lemma_list_bounds(b);
    if b.credentials_tab == 0 && b.endpoints@.len() > 0 {
        lemma_wrap_inverse(b.selected_endpoint as nat, b.endpoints@.len());
    } else if b.credentials_tab == 1 && crate::navigation::category_count(b) > 0 {
        lemma_wrap_inverse(b.selected_provider_index as nat, crate::navigation::category_count(b));
    } else if b.credentials_tab == 2 && b.permissions@.len() > 0 {
        lemma_wrap_inverse(b.selected_permission as nat, b.permissions@.len());
    }
}

/// Going to the next page of the menu and back returns to the same state,
/// for a state on one of the six pages the menu cycles through.
pub proof fn lemma_menu_next_then_prev(b: AppState, m: AppState, a: AppState)
    requires
        b.menu_index < 6,
        b.menu_item == menu_at(b.menu_index as nat),
        menu_moved_next(b, m),
        menu_moved_prev(m, a),
    ensures
        a == b,
{
    lemma_wrap_inverse(b.menu_index as nat, 6);
}

/// Cycling a permission's access level forward and then backward (or
/// backward then forward) gives it back, and four steps forward go round.
pub proof fn lemma_access_cycle(x: AccessLevel)
    ensures
        cycled_access(cycled_access(x, true), false) == x,
        cycled_access(cycled_access(x, false), true) == x,
        cycled_access(cycled_access(cycled_access(cycled_access(x, true), true), true), true) == x,
{
}

/// However many messages are handled, no more alerts are kept than the
/// limit.
pub proof fn lemma_alerts_bounded(b: AppState, a: AppState, msg: Message)
    requires
        updated(b, a, msg),
        b.alerts@.len() <= MAX_ALERTS,
    ensures
        a.alerts@.len() <= MAX_ALERTS,
{
}

/// A reply that arrives while the same reply is being streamed finalizes
/// the streamed message instead of adding a second one, and the chat stops
/// loading.
pub proof fn lemma_reply_after_stream(
    b: ChatView,
    a: ChatView,
    content: Seq<char>,
    tools: Option<Seq<ToolCallInfo>>,
)
    requires
        has_streamed(b),
        reply_received(b, a, content, tools),
    ensures
        a.messages.len() == b.messages.len(),
        !a.loading,
{
}

/// Navigating to a page selects it in the menu: the menu index names it.
pub proof fn lemma_navigate_selects(b: AppState, a: AppState, item: MenuItem)
    requires
        updated(b, a, Message::Navigate(item)),
    ensures
        a.menu_item == item,
        a.menu_item == menu_at(a.menu_index as nat),
        a.slot_bar@.mode == a.menu_index,
        a.slot_bar@.active_slot < a.slot_bar@.slots.len(),
{
    crate::menu::lemma_menu_index_roundtrip(item, 0);
}

/// Typing a character and then deleting it with backspace gives back the
/// input line and its cursor.
pub proof fn lemma_type_then_backspace(s: Seq<char>, cursor: nat, c: char)
    requires
        on_boundary(s, cursor),
    ensures
        backspaced(typed(s, cursor, c).0, typed(s, cursor, c).1) == (s, cursor),
{
    lemma_typed(s, cursor, c);
    lemma_boundary(s, cursor);
    let k = char_pos(s, cursor);
    let t = insert_at(s, k, c);
    assert(t[k] == c);
    assert(remove_at(t, k) =~= s);
}

/// Moving the cursor right and then left returns it, inside the text.
pub proof fn lemma_right_then_left(s: Seq<char>, cursor: nat)
    requires
        on_boundary(s, cursor),
        cursor < byte_len(s),
    ensures
        moved_left(s, moved_right(s, cursor)) == cursor,
        on_boundary(s, moved_right(s, cursor)),
{
    lemma_boundary(s, cursor);
    let k = char_pos(s, cursor);
    if k == s.len() {
        assert(s.take(k) =~= s);
    }
    lemma_byte_len_take(s, k);
    lemma_char_at_prefix(s, (k + 1) as nat);
}

/// In the context-file editor, typing a one-byte character (a line feed
/// included) with the cursor on its line leaves backspace allowed.
pub proof fn lemma_editor_type_allows_backspace(s: EditContextFileState, m: EditContextFileState, c: char)
    requires
        can_insert(s),
        s.cursor_line < split_lines(s.content@).len(),
        utf8_width(c) == 1,
        char_inserted(s, m, c),
    ensures
        can_delete(m),
{
    let text = s.content@;
    let l = s.cursor_line as nat;
    let b = cursor_byte(text, l, s.cursor_col as nat);
    lemma_boundary(text, b);
    let k = char_pos(text, b);
    let t = insert_at(text, k, c);
    assert(m.content@ == t);
    lemma_typed(text, b, c);
    if c == '\n' {
        lemma_newline_cursor(text, l, s.cursor_col as nat);
    } else {
        lemma_insert_cursor(text, l, s.cursor_col as nat, c);
    }
}

/// After a line feed is typed at the cursor, the cursor at the start of the
/// next line sits one byte further, just after the line feed.
proof fn lemma_newline_cursor(text: Seq<char>, l: nat, col: nat)
    requires
        on_boundary(text, cursor_byte(text, l, col)),
        l < split_lines(text).len(),
    ensures
        ({
            let b = cursor_byte(text, l, col);
            let k = char_pos(text, b);
            let t = insert_at(text, k, '\n');
            &&& cursor_byte(t, l + 1, 0) == b + 1
            &&& char_at_byte(t, b + 1) == Some((k + 1) as nat)
            &&& t[k] == '\n'
        }),
{
    let b = cursor_byte(text, l, col);
    lemma_boundary(text, b);
    let k = char_pos(text, b);
    let t = insert_at(text, k, '\n');
    lemma_cursor_position(text, l, col);
    assert(t.take(k + 1) =~= text.take(k).push('\n'));
    assert(t.take(k + 1).drop_last() =~= text.take(k));
    assert(lf_count(t.take(k + 1)) == l + 1);
    assert(col_chars(t.take(k + 1)) == 0);
    lemma_position_bytes(t, k + 1);
    lemma_prefix_lines(t, k + 1);
    let yt = split_lines(t);
    assert(yt[(l + 1) as int].take(0) =~= Seq::<char>::empty());
    assert(byte_len(Seq::<char>::empty()) == 0);
    lemma_char_at_prefix(t, (k + 1) as nat);
}

/// In the context-file editor, typing a one-byte character other than a
/// line feed and then pressing backspace is allowed and gives back the text
/// and the cursor.
pub proof fn lemma_editor_type_then_backspace(
    s: EditContextFileState,
    m: EditContextFileState,
    a: EditContextFileState,
    c: char,
)
    requires
        can_insert(s),
        c != '\n',
        utf8_width(c) == 1,
        char_inserted(s, m, c),
        char_deleted(m, a),
    ensures
        can_delete(m),
        a.content@ == s.content@,
        a.cursor_line == s.cursor_line,
        a.cursor_col == s.cursor_col,
{
    let text = s.content@;
    let b = cursor_byte(text, s.cursor_line as nat, s.cursor_col as nat);
    lemma_insert_cursor(text, s.cursor_line as nat, s.cursor_col as nat, c);
    lemma_typed(text, b, c);
    lemma_boundary(text, b);
    let k = char_pos(text, b);
    let t = insert_at(text, k, c);
    assert(m.content@ == t);
    assert(t[k] == c);
    assert(t.take(k) + t.skip(k + 1) =~= text);
}

/// In the context-file editor, typing a line feed and then pressing
/// backspace is allowed and gives back the text; the cursor comes back too
/// when the line feed was typed at the end of its line (typed mid-line,
/// backspace leaves the cursor at the end of the joined line).
pub proof fn lemma_editor_newline_then_backspace(
    s: EditContextFileState,
    m: EditContextFileState,
    a: EditContextFileState,
)
    requires
        can_insert(s),
        s.cursor_line < split_lines(s.content@).len(),
        s.cursor_col <= line_bytes(s.content@, s.cursor_line as nat),
        char_inserted(s, m, '\n'),
        char_deleted(m, a),
    ensures
        can_delete(m),
        a.content@ == s.content@,
        a.cursor_line == s.cursor_line,
        a.cursor_col == line_bytes(s.content@, s.cursor_line as nat),
        s.cursor_col == line_bytes(s.content@, s.cursor_line as nat) ==> a.cursor_col == s.cursor_col,
{
    let text = s.content@;
    let l = s.cursor_line as nat;
    let b = cursor_byte(text, l, s.cursor_col as nat);
    lemma_newline_cursor(text, l, s.cursor_col as nat);
    lemma_boundary(text, b);
    let k = char_pos(text, b);
    let t = insert_at(text, k, '\n');
    assert(m.content@ == t);
    assert(t.take(k) + t.skip(k + 1) =~= text);
}

/// Saving a permission keeps the rules in priority order, loses or
/// duplicates none of the rules it does not replace, and leaves a rule for
/// the editor's endpoint and source with the editor's access level.
pub proof fn lemma_saved_permission(rules: Seq<RuleView>, st: EditPermissionState)
    requires
        st.selected_source < st.sources@.len(),
    ensures
        priority_ordered(permission_saved(rules, st)),
        permission_saved(rules, st).to_multiset() == permission_updated(rules, st).to_multiset(),
        exists|k: int|
            0 <= k < permission_saved(rules, st).len() && rule_for(
                #[trigger] permission_saved(rules, st)[k],
                editor_endpoint_id(st),
                source_view(st.sources@[st.selected_source as int]),
            ) && permission_saved(rules, st)[k].access == st.access,
{
    broadcast use vstd::seq_lib::to_multiset_contains;

    let id = editor_endpoint_id(st);
    let src = source_view(st.sources@[st.selected_source as int]);
    let u = permission_updated(rules, st);
    let saved = permission_saved(rules, st);
    lemma_sorted_by_priority(u);
    lemma_first_rule_for(rules, id, src);
    let e = if st.is_edit && first_rule_for(rules, id, src) is Some {
        let i = first_rule_for(rules, id, src)->0;
        assert(u[i as int] == (RuleView { access: st.access, ..rules[i as int] }));
        u[i as int]
    } else {
        assert(u.last() == u[u.len() - 1]);
        u.last()
    };
    assert(u.contains(e));
    assert(saved.to_multiset().count(e) > 0);
    assert(saved.contains(e));
}


/// Whether each rule's priority is its place in the list, from 1.
pub open spec fn positional(s: Seq<RuleView>) -> bool {
    forall|k: int| 0 <= k < s.len() ==> #[trigger] s[k].priority == k + 1
}

/// Moving a rule up in priority and then down again gives back the rules
/// and the selection, when each priority is the rule's place in the list.
pub proof fn lemma_move_up_then_down(s: Seq<RuleView>, i: nat)
    requires
        0 < i < s.len(),
        positional(s),
    ensures
        permission_moved(permission_moved(s, i, true).0, permission_moved(s, i, true).1, false) == (s, i),
{
    let (s1, j) = permission_moved(s, i, true);
    let (s2, k) = permission_moved(s1, j, false);
    assert(s2 =~= s) by {
        assert(s[i - 1].priority == i);
        assert(s[i as int].priority == i + 1);
    }
}

/// Moving keeps the rules' places as their priorities.
pub proof fn lemma_move_keeps_positions(s: Seq<RuleView>, i: nat, up: bool)
    requires
        positional(s),
    ensures
        positional(permission_moved(s, i, up).0),
        permission_moved(s, i, up).0.len() == s.len(),
        permission_moved(s, i, up).1 < s.len() || permission_moved(s, i, up).1 == i,
{
}

/// Removing a rule leaves one fewer, each priority its place in the list.
pub proof fn lemma_remove_renumbers(s: Seq<RuleView>, i: int)
    requires
        0 <= i < s.len(),
    ensures
        renumbered(s.remove(i)).len() == s.len() - 1,
        positional(renumbered(s.remove(i))),
{
}

/// After confirming that an agent be dropped, no listed agent has its id,
/// every other agent stays, and the selection is within the list.
pub proof fn lemma_dropped_agent_gone(b: AppState, a: AppState, id: Seq<char>, status: Seq<char>)
    requires
        agent_dropped(b, a, id, status),
    ensures
        forall|k: int| 0 <= k < a.agents@.len() ==> #[trigger] a.agents@[k].id@ != id,
        forall|k: int| 0 <= k < b.agents@.len() && b.agents@[k].id@ != id ==> a.agents@.contains(#[trigger] b.agents@[k]),
        a.agents@.len() > 0 ==> a.selected_agent < a.agents@.len(),
{
    broadcast use vstd::seq_lib::group_filter_ensures;

}

/// In the context-file editor, moving the cursor left undoes moving it
/// right, also across a line break, anywhere but at the very end of the
/// text (where moving right does nothing).
pub proof fn lemma_cursor_right_then_left(s: EditContextFileState, m: EditContextFileState, a: EditContextFileState)
    requires
        s.cursor_line < split_lines(s.content@).len(),
        s.cursor_col <= line_bytes(s.content@, s.cursor_line as nat),
        !(s.cursor_line + 1 == split_lines(s.content@).len()
            && s.cursor_col == line_bytes(s.content@, s.cursor_line as nat)),
        byte_len(s.content@) < usize::MAX,
        moved_forward(s, m),
        moved_back(m, a),
    ensures
        a == s,
{
    let text = s.content@;
    let lines = split_lines(text);
    lemma_lines_total(text);
    lemma_line_start_at_least(lines, (lines.len() - 1) as nat);
    lemma_line_within(text, s.cursor_line as nat);
    lemma_line_start_at_least(lines, s.cursor_line as nat);
}

/// Line `k` starts at least `k` bytes in: each earlier line ends in a line
/// feed.
proof fn lemma_line_start_at_least(lines: Seq<Seq<char>>, k: nat)
    ensures
        line_start(lines, k) >= k,
    decreases k,
{
    if k > 0 {
        lemma_line_start_at_least(lines, (k - 1) as nat);
    }
}

/// In the session form's picker, selecting the previous option undoes
/// selecting the next one, in either mode and round the end of the list.
pub proof fn lemma_next_then_prev_option(s: CreateSessionState)
    requires
        s.available_models@.len() > 0 ==> s.selected_model_index < s.available_models@.len(),
        s.available_agents@.len() > 0 ==> s.selected_agent_index < s.available_agents@.len(),
    ensures
        prev_option_of(next_option_of(s)) == s,
{
    assert(s.available_models.len() == s.available_models@.len());
    assert(s.available_agents.len() == s.available_agents@.len());
    if s.available_models@.len() > 0 {
        lemma_wrap_inverse(s.selected_model_index as nat, s.available_models@.len());
    }
    if s.available_agents@.len() > 0 {
        lemma_wrap_inverse(s.selected_agent_index as nat, s.available_agents@.len());
    }
}

/// In the agent form's model picker, which cycles over the models and then
/// the custom-text slot, selecting the previous model undoes selecting the
/// next one: the selection comes back.
pub proof fn lemma_next_then_prev_model(s: EditAgentState)
    requires
        s.available_models@.len() > 0,
        s.selected_model_index matches Some(i) ==> i < s.available_models@.len(),
    ensures
        prev_model_of(next_model_of(s)).selected_model_index == s.selected_model_index,
{
    assert(s.available_models.len() == s.available_models@.len());
}

} // verus!
