//! The list of permission rules: saving a rule from the editor, moving a
//! rule up or down in priority, and removing one. The list is kept in
//! priority order, rules of equal priority in the order they were in.

use vstd::prelude::*;
use crate::app_state::{AppState, status_is};
use crate::model::{AccessLevel, PermissionRule, same_source};
use crate::modes::InputMode;
use crate::permission_form::{EditPermissionState, SourceView, source_view};
use crate::text::{str_eq, string_of};

verus! {

broadcast use vstd::string::group_string_axioms;

/// A permission rule, as plain values.
pub struct RuleView {
    pub endpoint_id: Seq<char>,
    pub endpoint_name: Seq<char>,
    pub source: SourceView,
    pub access: AccessLevel,
    pub priority: nat,
}

pub open spec fn rule_view(r: PermissionRule) -> RuleView {
    RuleView {
        endpoint_id: r.endpoint_id@,
        endpoint_name: r.endpoint_name@,
        source: source_view(r.source),
        access: r.access,
        priority: r.priority as nat,
    }
}

/// The rules, as plain values.
pub open spec fn rules_view(v: Seq<PermissionRule>) -> Seq<RuleView> {
    v.map_values(|r: PermissionRule| rule_view(r))
}

/// The highest priority among the rules (0 for none).
pub open spec fn max_priority(s: Seq<RuleView>) -> nat
    decreases s.len(),
{
    if s.len() == 0 {
        0
    } else {
        let m = max_priority(s.drop_last());
        if s.last().priority > m { s.last().priority } else { m }
    }
}

/// Where `x` goes among `s` when placed after every rule from the end whose
/// priority is not above its own.
pub open spec fn insert_position(s: Seq<RuleView>, x: RuleView) -> nat
    decreases s.len(),
{
    if s.len() == 0 {
        0
    } else if s.last().priority <= x.priority {
        s.len()
    } else {
        insert_position(s.drop_last(), x)
    }
}

/// The rules sorted by priority, rules of equal priority keeping their
/// order.
pub open spec fn sorted_by_priority(s: Seq<RuleView>) -> Seq<RuleView>
    decreases s.len(),
{
    if s.len() == 0 {
        s
    } else {
        let t = sorted_by_priority(s.drop_last());
        t.insert(insert_position(t, s.last()) as int, s.last())
    }
}

/// Whether a rule is for this endpoint and source.
pub open spec fn rule_for(r: RuleView, id: Seq<char>, src: SourceView) -> bool {
    r.endpoint_id == id && r.source == src
}

/// The first rule for this endpoint and source, if any.
pub open spec fn first_rule_for(s: Seq<RuleView>, id: Seq<char>, src: SourceView) -> Option<nat>
    decreases s.len(),
{
    if s.len() == 0 {
        None
    } else {
        match first_rule_for(s.drop_last(), id, src) {
            Some(i) => Some(i),
            None => if rule_for(s.last(), id, src) { Some((s.len() - 1) as nat) } else { None },
        }
    }
}

/// The id of the endpoint the editor is on (empty if none).
pub open spec fn editor_endpoint_id(st: EditPermissionState) -> Seq<char> {
    if st.selected_endpoint < st.endpoints@.len() {
        st.endpoints@[st.selected_endpoint as int].0@
    } else {
        Seq::<char>::empty()
    }
}

/// The name of the endpoint the editor is on (empty if none).
pub open spec fn editor_endpoint_name(st: EditPermissionState) -> Seq<char> {
    if st.selected_endpoint < st.endpoints@.len() {
        st.endpoints@[st.selected_endpoint as int].1@
    } else {
        Seq::<char>::empty()
    }
}

/// The rule the editor describes, after the highest priority of `base`.
pub open spec fn editor_rule(st: EditPermissionState, base: Seq<RuleView>) -> RuleView {
    RuleView {
        endpoint_id: editor_endpoint_id(st),
        endpoint_name: editor_endpoint_name(st),
        source: source_view(st.sources@[st.selected_source as int]),
        access: st.access,
        priority: max_priority(base) + 1,
    }
}

/// The rules after saving the editor: an edited rule whose endpoint and
/// source are listed gets the new access level; otherwise (or for a new
/// rule, which replaces the rules for its endpoint and source) the rule
/// goes after the highest priority. The list is then sorted by priority.
pub open spec fn permission_saved(rules: Seq<RuleView>, st: EditPermissionState) -> Seq<RuleView> {
    sorted_by_priority(permission_updated(rules, st))
}

/// The rules with the editor's rule applied, before sorting.
pub open spec fn permission_updated(rules: Seq<RuleView>, st: EditPermissionState) -> Seq<RuleView> {
    let id = editor_endpoint_id(st);
    let src = source_view(st.sources@[st.selected_source as int]);
    if st.is_edit {
        match first_rule_for(rules, id, src) {
            Some(i) => rules.update(i as int, RuleView { access: st.access, ..rules[i as int] }),
            None => rules.push(editor_rule(st, rules)),
        }
    } else {
        let kept = rules.filter(|r: RuleView| !rule_for(r, id, src));
        kept.push(editor_rule(st, kept))
    }
}

/// The state after the editor's rule is saved: the rules as
/// `permission_saved` gives them, the editor closed, and the status line
/// saying "Permission set for '<endpoint>'".
pub open spec fn permission_save_done(b: AppState, a: AppState, st: EditPermissionState) -> bool {
    &&& a == (AppState {
        permissions: a.permissions,
        status_message: a.status_message,
        input_mode: InputMode::Normal,
        ..b
    })
    &&& rules_view(a.permissions@) == permission_saved(rules_view(b.permissions@), st)
    &&& status_is(a.status_message, "Permission set for '"@ + editor_endpoint_name(st) + "'"@, false)
}

/// The state after the rule at `index` is removed: the rest renumbered
/// 1, 2, ..., the view closed, and the status line saying "Removed rule
/// for '<endpoint>'"; an index past the end changes nothing.
pub open spec fn permission_removed(b: AppState, a: AppState, index: nat) -> bool {
    if index < b.permissions@.len() {
        &&& a == (AppState {
            permissions: a.permissions,
            status_message: a.status_message,
            input_mode: InputMode::Normal,
            ..b
        })
        &&& rules_view(a.permissions@) == renumbered(rules_view(b.permissions@).remove(index as int))
        &&& status_is(
            a.status_message,
            "Removed rule for '"@ + b.permissions@[index as int].endpoint_name@ + "'"@,
            false,
        )
    } else {
        a == b
    }
}

/// The rules renumbered 1, 2, ... in their order.
pub open spec fn renumbered(s: Seq<RuleView>) -> Seq<RuleView> {
    Seq::new(s.len(), |i: int| RuleView { priority: (i + 1) as nat, ..s[i] })
}

/// The rules after the one at `idx` trades places with its neighbour
/// above (`up`) or below, both taking the priorities of their new places;
/// at either end, or with fewer than two rules, nothing changes.
pub open spec fn permission_moved(s: Seq<RuleView>, idx: nat, up: bool) -> (Seq<RuleView>, nat) {
    if s.len() < 2 {
        (s, idx)
    } else if up && idx > 0 && idx < s.len() {
        (
            s.update(idx - 1, RuleView { priority: idx, ..s[idx as int] }).update(
                idx as int,
                RuleView { priority: idx + 1, ..s[idx - 1] },
            ),
            (idx - 1) as nat,
        )
    } else if !up && idx + 1 < s.len() {
        (
            s.update(idx as int, RuleView { priority: idx + 1, ..s[(idx + 1) as int] }).update(
                (idx + 1) as int,
                RuleView { priority: idx + 2, ..s[idx as int] },
            ),
            idx + 1,
        )
    } else {
        (s, idx)
    }
}

proof fn lemma_insert_position(s: Seq<RuleView>, x: RuleView)
    ensures
        insert_position(s, x) <= s.len(),
        forall|k: int| insert_position(s, x) <= k < s.len() ==> #[trigger] s[k].priority > x.priority,
        insert_position(s, x) > 0 ==> s[insert_position(s, x) - 1].priority <= x.priority,
    decreases s.len(),
{
    if s.len() > 0 && s.last().priority > x.priority {
        let t = s.drop_last();
        lemma_insert_position(t, x);
        assert forall|k: int| insert_position(s, x) <= k < s.len() implies #[trigger] s[k].priority > x.priority by {
            if k < t.len() {
                assert(t[k] == s[k]);
            }
        }
        if insert_position(s, x) > 0 {
            assert(t[insert_position(s, x) - 1] == s[insert_position(s, x) - 1]);
        }
    }
}

/// Whether the rules are in priority order.
pub open spec fn priority_ordered(s: Seq<RuleView>) -> bool {
    forall|i: int, j: int| 0 <= i < j < s.len() ==> #[trigger] s[i].priority <= #[trigger] s[j].priority
}

/// Sorting by priority orders the rules and keeps every rule, no more and
/// no fewer times.
pub proof fn lemma_sorted_by_priority(s: Seq<RuleView>)
    ensures
        priority_ordered(sorted_by_priority(s)),
        sorted_by_priority(s).to_multiset() == s.to_multiset(),
        sorted_by_priority(s).len() == s.len(),
    decreases s.len(),
{
    broadcast use vstd::seq_lib::to_multiset_build, vstd::seq_lib::to_multiset_insert;

    if s.len() > 0 {
        let t = sorted_by_priority(s.drop_last());
        let x = s.last();
        lemma_sorted_by_priority(s.drop_last());
        lemma_insert_position(t, x);
        let p = insert_position(t, x) as int;
        let r = t.insert(p, x);
        assert forall|i: int, j: int| 0 <= i < j < r.len() implies #[trigger] r[i].priority <= #[trigger] r[j].priority by {
            if j < p {
                assert(r[i] == t[i] && r[j] == t[j]);
            } else if j == p {
                assert(r[i] == t[i]);
                assert(t[i].priority <= t[p - 1].priority);
            } else if i == p {
                assert(r[j] == t[j - 1]);
            } else if i < p {
                assert(r[i] == t[i] && r[j] == t[j - 1]);
            } else {
                assert(r[i] == t[i - 1] && r[j] == t[j - 1]);
            }
        }
        assert(s.drop_last().push(x) =~= s);
    }
}

/// The first rule for an endpoint and source is one.
pub proof fn lemma_first_rule_for(s: Seq<RuleView>, id: Seq<char>, src: SourceView)
    ensures
        first_rule_for(s, id, src) matches Some(i) ==> i < s.len() && rule_for(s[i as int], id, src),
    decreases s.len(),
{
    if s.len() > 0 {
        lemma_first_rule_for(s.drop_last(), id, src);
    }
}

proof fn lemma_insert_position_take(s: Seq<RuleView>, x: RuleView, j: int)
    requires
        0 <= j <= s.len(),
        forall|k: int| j <= k < s.len() ==> #[trigger] s[k].priority > x.priority,
    ensures
        insert_position(s, x) == insert_position(s.take(j), x),
    decreases s.len() - j,
{
    if j < s.len() {
        assert(s.take(j + 1).drop_last() =~= s.take(j));
        lemma_insert_position_take(s, x, j + 1);
    } else {
        assert(s.take(j) =~= s);
    }
}

proof fn lemma_rules_view_push(v: Seq<PermissionRule>, r: PermissionRule)
    ensures
        rules_view(v.push(r)) =~= rules_view(v).push(rule_view(r)),
{
}

/// Where a rule of this priority goes in the sorted `v`.
fn find_insert_position(v: &Vec<PermissionRule>, priority: usize, x: Ghost<RuleView>) -> (j: usize)
    requires
        x@.priority == priority,
    ensures
        j == insert_position(rules_view(v@), x@),
        j <= v@.len(),
{
    let ghost s = rules_view(v@);
    let mut j: usize = v.len();
    while j > 0 && v[j - 1].priority > priority
        invariant
            j <= v@.len(),
            s == rules_view(v@),
            x@.priority == priority,
            forall|k: int| j <= k < s.len() ==> #[trigger] s[k].priority > x@.priority,
        decreases j,
    {
        j = j - 1;
    }
    proof {
        lemma_insert_position_take(s, x@, j as int);
        if j > 0 {
            assert(s.take(j as int).last() == s[j - 1]);
        }
    }
    j
}

/// The rules sorted by priority, keeping the order of equal ones.
fn sort_by_priority(v: Vec<PermissionRule>) -> (out: Vec<PermissionRule>)
    ensures
        rules_view(out@) == sorted_by_priority(rules_view(v@)),
{
    let ghost orig = v@;
    let mut rest = v;
    let total = rest.len();
    let mut out: Vec<PermissionRule> = Vec::new();
    let mut k: usize = 0;
    assert(rules_view(orig.take(0)) =~= Seq::<RuleView>::empty());
    while rest.len() > 0
        invariant
            k <= orig.len(),
            orig.len() == total,
            rest@ == orig.skip(k as int),
            rules_view(out@) == sorted_by_priority(rules_view(orig.take(k as int))),
        decreases rest@.len(),
    {
        let x = rest.remove(0);
        assert(orig[k as int] == x);
        let ghost xv = rule_view(x);
        let j = find_insert_position(&out, x.priority, Ghost(xv));
        let ghost before = rules_view(out@);
        out.insert(j, x);
        proof {
            assert(rules_view(out@) =~= before.insert(j as int, xv));
            assert(rules_view(orig.take(k + 1)).drop_last() =~= rules_view(orig.take(k as int)));
            assert(rules_view(orig.take(k + 1)).last() == xv);
            assert(orig.skip(k + 1) =~= orig.skip(k as int).drop_first());
        }
        k = k + 1;
    }
    proof {
        assert(orig.take(k as int) =~= orig);
    }
    out
}

/// The highest priority among the rules.
fn highest_priority(v: &Vec<PermissionRule>) -> (m: usize)
    ensures
        m == max_priority(rules_view(v@)),
{
    let mut m: usize = 0;
    let mut i: usize = 0;
    assert(rules_view(v@.take(0)) =~= Seq::<RuleView>::empty());
    while i < v.len()
        invariant
            i <= v@.len(),
            m == max_priority(rules_view(v@.take(i as int))),
        decreases v@.len() - i,
    {
        assert(rules_view(v@.take(i + 1)).drop_last() =~= rules_view(v@.take(i as int)));
        if v[i].priority > m {
            m = v[i].priority;
        }
        i = i + 1;
    }
    assert(v@.take(i as int) =~= v@);
    m
}

proof fn lemma_same_source_view(a: crate::model::PermissionSource, b: crate::model::PermissionSource)
    ensures
        same_source(a, b) <==> source_view(a) == source_view(b),
{
}

/// The first rule for this endpoint and source.
fn find_rule(v: &Vec<PermissionRule>, id: &str, src: &crate::model::PermissionSource) -> (r: Option<usize>)
    ensures
        match r {
            Some(i) => i < v@.len() && first_rule_for(rules_view(v@), id@, source_view(*src)) == Some(i as nat),
            None => first_rule_for(rules_view(v@), id@, source_view(*src)) is None,
        },
{
    let ghost s = rules_view(v@);
    let mut i: usize = 0;
    assert(s.take(0) =~= Seq::<RuleView>::empty());
    while i < v.len()
        invariant
            i <= v@.len(),
            s == rules_view(v@),
            first_rule_for(s.take(i as int), id@, source_view(*src)) is None,
        decreases v@.len() - i,
    {
        assert(s.take(i + 1).drop_last() =~= s.take(i as int));
        proof {
            lemma_same_source_view(v@[i as int].source, *src);
        }
        if str_eq(v[i].endpoint_id.as_str(), id) && v[i].source.same_as(src) {
            proof {
                lemma_first_rule_prefix(s, id@, source_view(*src), i as int);
            }
            return Some(i);
        }
        i = i + 1;
    }
    assert(s.take(i as int) =~= s);
    None
}

proof fn lemma_first_rule_prefix(s: Seq<RuleView>, id: Seq<char>, src: SourceView, i: int)
    requires
        0 <= i < s.len(),
        first_rule_for(s.take(i), id, src) is None,
        rule_for(s[i], id, src),
    ensures
        first_rule_for(s, id, src) == Some(i as nat),
    decreases s.len(),
{
    if s.len() == i + 1 {
        assert(s.drop_last() =~= s.take(i));
    } else {
        assert(s.drop_last().take(i) =~= s.take(i));
        lemma_first_rule_prefix(s.drop_last(), id, src, i);
    }
}

/// The rules not for this endpoint and source, in order.
fn rules_without(v: Vec<PermissionRule>, id: &str, src: &crate::model::PermissionSource) -> (out: Vec<PermissionRule>)
    ensures
        rules_view(out@) == rules_view(v@).filter(|r: RuleView| !rule_for(r, id@, source_view(*src))),
{
    let ghost orig = v@;
    let ghost pred = |r: RuleView| !rule_for(r, id@, source_view(*src));
    let mut rest = v;
    let total = rest.len();
    let mut out: Vec<PermissionRule> = Vec::new();
    let mut k: usize = 0;
    assert(rules_view(orig.take(0)) =~= Seq::<RuleView>::empty());
    while rest.len() > 0
        invariant
            k <= orig.len(),
            orig.len() == total,
            rest@ == orig.skip(k as int),
            pred == (|r: RuleView| !rule_for(r, id@, source_view(*src))),
            rules_view(out@) == rules_view(orig.take(k as int)).filter(pred),
        decreases rest@.len(),
    {
        let x = rest.remove(0);
        assert(orig[k as int] == x);
        proof {
            assert(rules_view(orig.take(k + 1)).drop_last() =~= rules_view(orig.take(k as int)));
            assert(rules_view(orig.take(k + 1)).last() == rule_view(x));
            assert(orig.skip(k + 1) =~= orig.skip(k as int).drop_first());
            reveal_with_fuel(Seq::filter, 1);
            lemma_same_source_view(x.source, *src);
        }
        if !(str_eq(x.endpoint_id.as_str(), id) && x.source.same_as(src)) {
            let ghost before = out@;
            out.push(x);
            proof {
                lemma_rules_view_push(before, x);
            }
        }
        k = k + 1;
    }
    proof {
        assert(orig.take(k as int) =~= orig);
    }
    out
}

/// The rules with the editor's rule applied.
fn apply_rule(perms: Vec<PermissionRule>, st: &EditPermissionState) -> (out: Vec<PermissionRule>)
    requires
        st.selected_source < st.sources@.len(),
        max_priority(rules_view(perms@)) < usize::MAX,
    ensures
        rules_view(out@) == permission_updated(rules_view(perms@), *st),
{
    let ghost rules = rules_view(perms@);
    let mut perms = perms;
    let id = st.selected_endpoint_id();
    let src = &st.sources[st.selected_source];
    if st.is_edit {
        match find_rule(&perms, id, src) {
            Some(i) => {
                let mut rule = perms.remove(i);
                rule.access = st.access;
                perms.insert(i, rule);
                proof {
                    assert(rules_view(perms@) =~= rules.update(i as int, RuleView { access: st.access, ..rules[i as int] }));
                }
            },
            None => {
                let next = highest_priority(&perms) + 1;
                let rule = st.to_rule(next);
                let ghost before = perms@;
                perms.push(rule);
                proof {
                    lemma_rules_view_push(before, rule);
                }
            },
        }
        perms
    } else {
        let mut kept = rules_without(perms, id, src);
        proof {
            lemma_max_priority_filter(rules, |r: RuleView| !rule_for(r, id@, source_view(*src)));
        }
        let next = highest_priority(&kept) + 1;
        let rule = st.to_rule(next);
        let ghost before = kept@;
        kept.push(rule);
        proof {
            lemma_rules_view_push(before, rule);
        }
        kept
    }
}

/// The rules after moving the one at `idx` up or down, and where it went.
fn moved_rules(v: Vec<PermissionRule>, idx: usize, up: bool) -> (r: (Vec<PermissionRule>, usize))
    requires
        idx + 2 <= usize::MAX,
    ensures
        (rules_view(r.0@), r.1 as nat) == permission_moved(rules_view(v@), idx as nat, up),
{
    let mut v = v;
    let len = v.len();
    if len < 2 {
        return (v, idx);
    }
    let ghost s = rules_view(v@);
    if up && idx > 0 && idx < len {
        let mut a = v.remove(idx);
        let mut b = v.remove(idx - 1);
        a.priority = idx;
        b.priority = idx + 1;
        v.insert(idx - 1, a);
        v.insert(idx, b);
        proof {
            assert(rules_view(v@) =~= s.update(idx - 1, RuleView { priority: idx as nat, ..s[idx as int] }).update(
                idx as int,
                RuleView { priority: (idx + 1) as nat, ..s[idx - 1] },
            ));
        }
        (v, idx - 1)
    } else if !up && idx + 1 < len {
        let mut b = v.remove(idx + 1);
        let mut a = v.remove(idx);
        b.priority = idx + 1;
        a.priority = idx + 2;
        v.insert(idx, b);
        v.insert(idx + 1, a);
        proof {
            assert(rules_view(v@) =~= s.update(idx as int, RuleView { priority: (idx + 1) as nat, ..s[idx + 1] }).update(
                idx + 1,
                RuleView { priority: (idx + 2) as nat, ..s[idx as int] },
            ));
        }
        (v, idx + 1)
    } else {
        (v, idx)
    }
}

impl AppState {
    /// Save the permission editor's rule, sort the rules by priority, and
    /// close the editor saying "Permission set for '<endpoint>'".
    pub fn save_permission(&mut self, st: EditPermissionState)
        requires
            st.selected_source < st.sources@.len(),
            max_priority(rules_view(old(self).permissions@)) < usize::MAX,
        ensures
            permission_save_done(*old(self), *final(self), st),
    {
        let mut perms: Vec<PermissionRule> = Vec::new();
        std::mem::swap(&mut perms, &mut self.permissions);
        let perms = apply_rule(perms, &st);
        self.permissions = sort_by_priority(perms);
        let mut msg = string_of("Permission set for '");
        msg.append(st.selected_endpoint_name());
        msg.append("'");
        self.status_message = Some((msg, false));
        self.input_mode = InputMode::Normal;
    }

    /// Move the selected rule up or down in priority, the selection
    /// following it.
    pub fn move_permission(&mut self, up: bool)
        requires
            old(self).selected_permission + 2 <= usize::MAX,
        ensures
            *final(self) == (AppState {
                permissions: final(self).permissions,
                selected_permission: final(self).selected_permission,
                ..*old(self)
            }),
            (rules_view(final(self).permissions@), final(self).selected_permission as nat) == permission_moved(
                rules_view(old(self).permissions@),
                old(self).selected_permission as nat,
                up,
            ),
    {
        let mut perms: Vec<PermissionRule> = Vec::new();
        std::mem::swap(&mut perms, &mut self.permissions);
        let (perms, sel) = moved_rules(perms, self.selected_permission, up);
        self.permissions = perms;
        self.selected_permission = sel;
    }

    /// Remove the rule at `index`, renumber the rest 1, 2, ... and close
    /// the view saying "Removed rule for '<endpoint>'"; an index past the
    /// end changes nothing.
    pub fn remove_permission(&mut self, index: usize)
        ensures
            permission_removed(*old(self), *final(self), index as nat),
    {
        if index >= self.permissions.len() {
            return;
        }
        let ghost s = rules_view(self.permissions@).remove(index as int);
        let removed = self.permissions.remove(index);
        assert(rules_view(self.permissions@) =~= s);
        let mut rest = Vec::new();
        std::mem::swap(&mut rest, &mut self.permissions);
        let mut out: Vec<PermissionRule> = Vec::new();
        let ghost orig = rest@;
        let total = rest.len();
        let mut k: usize = 0;
        while rest.len() > 0
            invariant
                k <= orig.len(),
                orig.len() == total,
                rest@ == orig.skip(k as int),
                s == rules_view(orig),
                out@.len() == k,
                forall|j: int| 0 <= j < k ==> #[trigger] rule_view(out@[j]) == (RuleView { priority: (j + 1) as nat, ..s[j] }),
            decreases rest@.len(),
        {
            let mut x = rest.remove(0);
            assert(orig[k as int] == x);
            assert(orig.skip(k + 1) =~= orig.skip(k as int).drop_first());
            x.priority = k + 1;
            out.push(x);
            k = k + 1;
        }
        assert(rules_view(out@) =~= renumbered(s));
        self.permissions = out;
        let mut msg = string_of("Removed rule for '");
        msg.append(removed.endpoint_name.as_str());
        msg.append("'");
        self.status_message = Some((msg, false));
        self.input_mode = InputMode::Normal;
    }
}

proof fn lemma_max_priority_filter(s: Seq<RuleView>, pred: spec_fn(RuleView) -> bool)
    ensures
        max_priority(s.filter(pred)) <= max_priority(s),
    decreases s.len(),
{
    if s.len() > 0 {
        lemma_max_priority_filter(s.drop_last(), pred);
        reveal_with_fuel(Seq::filter, 1);
        assert(s.filter(pred) == if pred(s.last()) {
            s.drop_last().filter(pred).push(s.last())
        } else {
            s.drop_last().filter(pred)
        });
        if pred(s.last()) {
            assert(s.drop_last().filter(pred).push(s.last()).drop_last() =~= s.drop_last().filter(pred));
        }
    }
}

} // verus!
