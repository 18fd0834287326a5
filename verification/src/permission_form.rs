//! The permission editor: which source may use which credential endpoint,
//! and at what access level.

use vstd::prelude::*;
use crate::model::{AccessLevel, AgentInfo, EndpointInfo, PermissionRule, PermissionSource, same_source};
use crate::slots::{next_wrap, prev_wrap};
use crate::text::{str_eq, string_of};

verus! {

broadcast use vstd::string::group_string_axioms;

/// State for the permission editor modal.
#[derive(Debug, Clone, PartialEq, Eq)]
pub struct EditPermissionState {
    /// Endpoints to assign permissions to: (id, name)
    pub endpoints: Vec<(String, String)>,
    pub selected_endpoint: usize,
    /// Sources: any, system, then each agent
    pub sources: Vec<PermissionSource>,
    pub selected_source: usize,
    pub access: AccessLevel,
    /// 0 = endpoint, 1 = source, 2 = access
    pub field_index: usize,
    /// Whether an existing rule is edited (rather than a new one made)
    pub is_edit: bool,
}

/// A permission source, as text.
pub enum SourceView {
    Any,
    System,
    Agent(Seq<char>),
}

pub open spec fn source_view(s: PermissionSource) -> SourceView {
    match s {
        PermissionSource::Any => SourceView::Any,
        PermissionSource::System => SourceView::System,
        PermissionSource::Agent(id) => SourceView::Agent(id@),
    }
}

/// The sources offered for these agents: any, system, then each agent.
pub open spec fn sources_for(agents: Seq<AgentInfo>) -> Seq<SourceView> {
    seq![SourceView::Any, SourceView::System] + agents.map_values(|a: AgentInfo| SourceView::Agent(a.id@))
}

/// The (id, name) pairs of endpoints.
pub open spec fn endpoint_pairs(endpoints: Seq<EndpointInfo>) -> Seq<(Seq<char>, Seq<char>)> {
    endpoints.map_values(|e: EndpointInfo| (e.id@, e.name@))
}

/// The texts of (id, name) pairs.
pub open spec fn pairs_text(v: Seq<(String, String)>) -> Seq<(Seq<char>, Seq<char>)> {
    v.map_values(|p: (String, String)| (p.0@, p.1@))
}

/// The texts of sources.
pub open spec fn sources_text(v: Seq<PermissionSource>) -> Seq<SourceView> {
    v.map_values(|s: PermissionSource| source_view(s))
}

/// The first position, from `i` on, of an endpoint with this id.
pub open spec fn endpoint_position(endpoints: Seq<EndpointInfo>, id: Seq<char>, i: int) -> Option<nat>
    decreases endpoints.len() - i,
{
    if i < 0 || i >= endpoints.len() {
        None
    } else if endpoints[i].id@ == id {
        Some(i as nat)
    } else {
        endpoint_position(endpoints, id, i + 1)
    }
}

/// The first position, from `i` on, of a source equal to this one.
pub open spec fn source_position(sources: Seq<PermissionSource>, s: PermissionSource, i: int) -> Option<nat>
    decreases sources.len() - i,
{
    if i < 0 || i >= sources.len() {
        None
    } else if same_source(sources[i], s) {
        Some(i as nat)
    } else {
        source_position(sources, s, i + 1)
    }
}

/// The access level after `a`, going forward (Allow, HIL, HIL+2FA, Deny,
/// round) or backward.
pub open spec fn cycled_access(a: AccessLevel, forward: bool) -> AccessLevel {
    match (a, forward) {
        (AccessLevel::Allow, true) => AccessLevel::AllowHil,
        (AccessLevel::AllowHil, true) => AccessLevel::AllowHil2fa,
        (AccessLevel::AllowHil2fa, true) => AccessLevel::Deny,
        (AccessLevel::Deny, true) => AccessLevel::Allow,
        (AccessLevel::Allow, false) => AccessLevel::Deny,
        (AccessLevel::AllowHil, false) => AccessLevel::Allow,
        (AccessLevel::AllowHil2fa, false) => AccessLevel::AllowHil,
        (AccessLevel::Deny, false) => AccessLevel::AllowHil2fa,
    }
}

/// A new-rule editor over these endpoints and agents, on the given
/// endpoint (else the first), source "any", access "allow with HIL".
pub open spec fn is_new_rule_editor(
    s: EditPermissionState,
    endpoints: Seq<EndpointInfo>,
    agents: Seq<AgentInfo>,
    preselect: Option<usize>,
) -> bool {
    &&& pairs_text(s.endpoints@) == endpoint_pairs(endpoints)
    &&& s.selected_endpoint == match preselect {
        Some(i) => i,
        None => 0,
    }
    &&& sources_text(s.sources@) == sources_for(agents)
    &&& s.selected_source == 0
    &&& s.access == AccessLevel::AllowHil
    &&& s.field_index == 0
    &&& !s.is_edit
}

/// An editor for an existing rule: on the rule's endpoint (else the
/// first), its source (else "any") and its access level.
pub open spec fn is_rule_editor(s: EditPermissionState, rule: PermissionRule, endpoints: Seq<EndpointInfo>, agents: Seq<AgentInfo>) -> bool {
    &&& pairs_text(s.endpoints@) == endpoint_pairs(endpoints)
    &&& s.selected_endpoint == match endpoint_position(endpoints, rule.endpoint_id@, 0) {
        Some(i) => i,
        None => 0,
    }
    &&& sources_text(s.sources@) == sources_for(agents)
    &&& s.selected_source == match source_position(s.sources@, rule.source, 0) {
        Some(i) => i,
        None => 0,
    }
    &&& s.access == rule.access
    &&& s.field_index == 0
    &&& s.is_edit
}

fn clone_source(s: &PermissionSource) -> (r: PermissionSource)
    ensures
        source_view(r) == source_view(*s),
{
    match s {
        PermissionSource::Any => PermissionSource::Any,
        PermissionSource::System => PermissionSource::System,
        PermissionSource::Agent(id) => PermissionSource::Agent(id.clone()),
    }
}

impl EditPermissionState {
    /// A new-rule editor over these endpoints and agents, on the given
    /// endpoint (else the first), source "any", access "allow with HIL".
    pub fn new(endpoints: &Vec<EndpointInfo>, agents: &Vec<AgentInfo>, preselect_endpoint: Option<usize>) -> (s: EditPermissionState)
        ensures
            is_new_rule_editor(s, endpoints@, agents@, preselect_endpoint),
    {
        let mut eps: Vec<(String, String)> = Vec::new();
        let mut i: usize = 0;
        while i < endpoints.len()
            invariant
                i <= endpoints.len(),
                pairs_text(eps@) == endpoint_pairs(endpoints@.take(i as int)),
            decreases endpoints.len() - i,
        {
            let ghost before = pairs_text(eps@);
            eps.push((endpoints[i].id.clone(), endpoints[i].name.clone()));
            assert(pairs_text(eps@) =~= before.push((endpoints@[i as int].id@, endpoints@[i as int].name@)));
            assert(endpoints@.take(i + 1) == endpoints@.take(i as int).push(endpoints@[i as int]));
            assert(endpoint_pairs(endpoints@.take(i + 1)) =~= endpoint_pairs(endpoints@.take(i as int)).push((endpoints@[i as int].id@, endpoints@[i as int].name@)));
            i = i + 1;
        }
        assert(endpoints@.take(i as int) == endpoints@);
        let mut sources: Vec<PermissionSource> = Vec::new();
        sources.push(PermissionSource::Any);
        sources.push(PermissionSource::System);
        let mut j: usize = 0;
        assert(agents@.take(0).map_values(|a: AgentInfo| SourceView::Agent(a.id@)) =~= Seq::<SourceView>::empty());
        assert(sources_text(sources@) =~= seq![SourceView::Any, SourceView::System]);
        while j < agents.len()
            invariant
                j <= agents.len(),
                sources_text(sources@) == seq![SourceView::Any, SourceView::System] + agents@.take(j as int).map_values(|a: AgentInfo| SourceView::Agent(a.id@)),
            decreases agents.len() - j,
        {
            let ghost before = sources_text(sources@);
            sources.push(PermissionSource::Agent(agents[j].id.clone()));
            assert(sources_text(sources@) =~= before.push(SourceView::Agent(agents@[j as int].id@)));
            assert(agents@.take(j + 1) == agents@.take(j as int).push(agents@[j as int]));
            assert(agents@.take(j + 1).map_values(|a: AgentInfo| SourceView::Agent(a.id@)) =~= agents@.take(j as int).map_values(|a: AgentInfo| SourceView::Agent(a.id@)).push(SourceView::Agent(agents@[j as int].id@)));
            j = j + 1;
        }
        assert(agents@.take(j as int) == agents@);
        EditPermissionState {
            endpoints: eps,
            selected_endpoint: match preselect_endpoint { Some(i) => i, None => 0 },
            sources,
            selected_source: 0,
            access: AccessLevel::AllowHil,
            field_index: 0,
            is_edit: false,
        }
    }

    /// An editor for an existing rule: on the rule's endpoint (else the
    /// first), its source (else "any") and its access level.
    pub fn from_rule(rule: &PermissionRule, endpoints: &Vec<EndpointInfo>, agents: &Vec<AgentInfo>) -> (s: EditPermissionState)
        ensures
            is_rule_editor(s, *rule, endpoints@, agents@),
    {
        let mut ep_index: usize = 0;
        let mut i: usize = 0;
        while i < endpoints.len()
            invariant
                i <= endpoints.len(),
                endpoint_position(endpoints@, rule.endpoint_id@, 0) == endpoint_position(endpoints@, rule.endpoint_id@, i as int),
            ensures
                endpoint_position(endpoints@, rule.endpoint_id@, 0) == if i < endpoints.len() { Some(i as nat) } else { None },
            decreases endpoints.len() - i,
        {
            if str_eq(endpoints[i].id.as_str(), rule.endpoint_id.as_str()) {
                break;
            }
            i = i + 1;
        }
        if i < endpoints.len() {
            ep_index = i;
        }
        let mut state = EditPermissionState::new(endpoints, agents, Some(ep_index));
        state.access = rule.access;
        state.is_edit = true;
        let mut k: usize = 0;
        while k < state.sources.len()
            invariant
                k <= state.sources.len(),
                state.selected_source == 0,
                source_position(state.sources@, rule.source, 0) == source_position(state.sources@, rule.source, k as int),
            ensures
                source_position(state.sources@, rule.source, 0) == if k < state.sources.len() { Some(k as nat) } else { None },
                state.selected_source == 0,
            decreases state.sources.len() - k,
        {
            if state.sources[k].same_as(&rule.source) {
                break;
            }
            k = k + 1;
        }
        if k < state.sources.len() {
            state.selected_source = k;
        }
        state
    }

    /// Select the next (or previous) endpoint, round the list.
    pub fn cycle_endpoint(&mut self, forward: bool)
        requires
            forward && old(self).endpoints@.len() > 0 ==> old(self).selected_endpoint < usize::MAX,
        ensures
            *final(self) == if old(self).endpoints@.len() == 0 {
                *old(self)
            } else {
                EditPermissionState {
                    selected_endpoint: (if forward {
                        next_wrap(old(self).selected_endpoint as nat, old(self).endpoints@.len())
                    } else {
                        prev_wrap(old(self).selected_endpoint as nat, old(self).endpoints@.len())
                    }) as usize,
                    ..*old(self)
                }
            },
    {
        if self.endpoints.len() == 0 {
            return;
        }
        if forward {
            self.selected_endpoint = (self.selected_endpoint + 1) % self.endpoints.len();
        } else {
            self.selected_endpoint = if self.selected_endpoint == 0 {
                self.endpoints.len() - 1
            } else {
                self.selected_endpoint - 1
            };
        }
    }

    /// Select the next (or previous) source, round the list.
    pub fn cycle_source(&mut self, forward: bool)
        requires
            forward && old(self).sources@.len() > 0 ==> old(self).selected_source < usize::MAX,
        ensures
            *final(self) == if old(self).sources@.len() == 0 {
                *old(self)
            } else {
                EditPermissionState {
                    selected_source: (if forward {
                        next_wrap(old(self).selected_source as nat, old(self).sources@.len())
                    } else {
                        prev_wrap(old(self).selected_source as nat, old(self).sources@.len())
                    }) as usize,
                    ..*old(self)
                }
            },
    {
        if self.sources.len() == 0 {
            return;
        }
        if forward {
            self.selected_source = (self.selected_source + 1) % self.sources.len();
        } else {
            self.selected_source = if self.selected_source == 0 {
                self.sources.len() - 1
            } else {
                self.selected_source - 1
            };
        }
    }

    /// Step the access level forward or backward round its four values.
    pub fn cycle_access(&mut self, forward: bool)
        ensures
            *final(self) == (EditPermissionState { access: cycled_access(old(self).access, forward), ..*old(self) }),
    {
        self.access = match (self.access, forward) {
            (AccessLevel::Allow, true) => AccessLevel::AllowHil,
            (AccessLevel::AllowHil, true) => AccessLevel::AllowHil2fa,
            (AccessLevel::AllowHil2fa, true) => AccessLevel::Deny,
            (AccessLevel::Deny, true) => AccessLevel::Allow,
            (AccessLevel::Allow, false) => AccessLevel::Deny,
            (AccessLevel::AllowHil, false) => AccessLevel::Allow,
            (AccessLevel::AllowHil2fa, false) => AccessLevel::AllowHil,
            (AccessLevel::Deny, false) => AccessLevel::AllowHil2fa,
        };
    }

    /// Id of the selected endpoint (empty if out of range).
    pub fn selected_endpoint_id(&self) -> (r: &str)
        ensures
            r@ == if self.selected_endpoint < self.endpoints@.len() {
                self.endpoints@[self.selected_endpoint as int].0@
            } else {
                Seq::<char>::empty()
            },
    {
        if self.selected_endpoint < self.endpoints.len() {
            self.endpoints[self.selected_endpoint].0.as_str()
        } else {
            proof {
                reveal_strlit("");
            }
            ""
        }
    }

    /// Name of the selected endpoint (empty if out of range).
    pub fn selected_endpoint_name(&self) -> (r: &str)
        ensures
            r@ == if self.selected_endpoint < self.endpoints@.len() {
                self.endpoints@[self.selected_endpoint as int].1@
            } else {
                Seq::<char>::empty()
            },
    {
        if self.selected_endpoint < self.endpoints.len() {
            self.endpoints[self.selected_endpoint].1.as_str()
        } else {
            proof {
                reveal_strlit("");
            }
            ""
        }
    }

    /// The rule this editor describes, at the given priority.
    pub fn to_rule(&self, priority: usize) -> (r: PermissionRule)
        requires
            self.selected_source < self.sources@.len(),
        ensures
            r.endpoint_id@ == if self.selected_endpoint < self.endpoints@.len() {
                self.endpoints@[self.selected_endpoint as int].0@
            } else {
                Seq::<char>::empty()
            },
            r.endpoint_name@ == if self.selected_endpoint < self.endpoints@.len() {
                self.endpoints@[self.selected_endpoint as int].1@
            } else {
                Seq::<char>::empty()
            },
            source_view(r.source) == source_view(self.sources@[self.selected_source as int]),
            r.access == self.access,
            r.priority == priority,
    {
        PermissionRule {
            endpoint_id: string_of(self.selected_endpoint_id()),
            endpoint_name: string_of(self.selected_endpoint_name()),
            source: clone_source(&self.sources[self.selected_source]),
            access: self.access,
            priority,
        }
    }
}

} // verus!
