//! Agents as the gateway lists them, turned into the agent rows.

use vstd::prelude::*;
use crate::schemas::opt_view;
use crate::model::{AgentInfo, AgentStatus};
use crate::text::{chars_of, str_eq};

verus! {

broadcast use vstd::string::group_string_axioms;

/// One entry of the gateway's agent list, each field as found there:
/// `None` when absent or of another JSON type. The temperature is kept as
/// the text it is shown with.
#[derive(Debug, Clone, PartialEq, Eq)]
pub struct AgentRecord {
    pub id: Option<String>,
    pub model: Option<String>,
    pub parent_id: Option<String>,
    pub system_prompt: Option<String>,
    pub workspace: Option<String>,
    pub max_tool_calls: Option<u64>,
    pub temperature: Option<String>,
    pub max_tokens: Option<u64>,
    pub enabled: Option<bool>,
    pub session_count: Option<u64>,
    pub status: Option<String>,
}

/// An agent's status: as the gateway names it, else disabled when the agent
/// is, else active.
pub open spec fn status_of(status: Option<Seq<char>>, enabled: bool) -> AgentStatus {
    if status == Some("active"@) {
        AgentStatus::Active
    } else if status == Some("pending"@) {
        AgentStatus::Pending
    } else if status == Some("error"@) {
        AgentStatus::Error
    } else if status == Some("disabled"@) {
        AgentStatus::Disabled
    } else if !enabled {
        AgentStatus::Disabled
    } else {
        AgentStatus::Active
    }
}

/// Entries without an id are skipped.
pub open spec fn agent_has_id(r: AgentRecord) -> bool {
    r.id is Some && r.id->0@.len() > 0
}

/// The entries that are shown, in order.
pub open spec fn kept_agents(s: Seq<AgentRecord>) -> Seq<AgentRecord>
    decreases s.len(),
{
    if s.len() == 0 {
        Seq::empty()
    } else if agent_has_id(s.last()) {
        kept_agents(s.drop_last()).push(s.last())
    } else {
        kept_agents(s.drop_last())
    }
}

pub open spec fn narrowed(n: Option<u64>) -> Option<u32> {
    match n {
        Some(x) => Some(x as u32),
        None => None,
    }
}

/// The row for an entry: enabled unless it says otherwise, no sessions
/// unless counted, counts narrowed to 32 bits as the gateway's numbers are.
pub open spec fn agent_row(r: AgentRecord, a: AgentInfo) -> bool {
    let enabled = match r.enabled {
        Some(e) => e,
        None => true,
    };
    &&& a.id@ == r.id->0@
    &&& opt_view(a.model) == opt_view(r.model)
    &&& a.status == status_of(opt_view(r.status), enabled)
    &&& a.session_count == (match r.session_count {
        Some(c) => c,
        None => 0,
    }) as usize
    &&& opt_view(a.parent_id) == opt_view(r.parent_id)
    &&& opt_view(a.system_prompt) == opt_view(r.system_prompt)
    &&& opt_view(a.workspace) == opt_view(r.workspace)
    &&& a.max_tool_calls == narrowed(r.max_tool_calls)
    &&& opt_view(a.temperature) == opt_view(r.temperature)
    &&& a.max_tokens == narrowed(r.max_tokens)
    &&& a.enabled == enabled
}

fn opt_clone(o: &Option<String>) -> (r: Option<String>)
    ensures
        opt_view(r) == opt_view(*o),
{
    match o {
        Some(s) => Some(s.clone()),
        None => None,
    }
}

fn narrow(n: Option<u64>) -> (r: Option<u32>)
    ensures
        r == narrowed(n),
{
    match n {
        Some(x) => Some(x as u32),
        None => None,
    }
}

fn named(status: &Option<String>, name: &str) -> (r: bool)
    ensures
        r == (opt_view(*status) == Some(name@)),
{
    match status {
        Some(s) => str_eq(s.as_str(), name),
        None => false,
    }
}

/// An agent's status from the gateway's name for it (see `status_of`).
pub fn agent_status_of(status: &Option<String>, enabled: bool) -> (s: AgentStatus)
    ensures
        s == status_of(opt_view(*status), enabled),
{
    if named(status, "active") {
        AgentStatus::Active
    } else if named(status, "pending") {
        AgentStatus::Pending
    } else if named(status, "error") {
        AgentStatus::Error
    } else if named(status, "disabled") {
        AgentStatus::Disabled
    } else if !enabled {
        AgentStatus::Disabled
    } else {
        AgentStatus::Active
    }
}

/// The agent rows for the gateway's agent list: entries without an id are
/// skipped, the others kept in order (see `agent_row`).
pub fn agents_from_records(records: &Vec<AgentRecord>) -> (agents: Vec<AgentInfo>)
    ensures
        agents@.len() == kept_agents(records@).len(),
        forall|i: int| 0 <= i < agents@.len() ==> agent_row(kept_agents(records@)[i], #[trigger] agents@[i]),
{
    let mut agents: Vec<AgentInfo> = Vec::new();
    let mut i: usize = 0;
    while i < records.len()
        invariant
            i <= records@.len(),
            agents@.len() == kept_agents(records@.take(i as int)).len(),
            forall|k: int| 0 <= k < agents@.len() ==> agent_row(kept_agents(records@.take(i as int))[k], #[trigger] agents@[k]),
        decreases records@.len() - i,
    {
        let r = &records[i];
        proof {
            assert(records@.take(i + 1).drop_last() == records@.take(i as int));
            assert(records@.take(i + 1).last() == records@[i as int]);
        }
        let id = match &r.id {
            Some(id) => if chars_of(id.as_str()).len() > 0 { Some(id.clone()) } else { None },
            None => None,
        };
        match id {
            Some(id) => {
                let enabled = match r.enabled {
                    Some(e) => e,
                    None => true,
                };
                let count: u64 = match r.session_count {
                    Some(c) => c,
                    None => 0,
                };
                agents.push(AgentInfo {
                    id,
                    model: opt_clone(&r.model),
                    status: agent_status_of(&r.status, enabled),
                    session_count: count as usize,
                    parent_id: opt_clone(&r.parent_id),
                    system_prompt: opt_clone(&r.system_prompt),
                    workspace: opt_clone(&r.workspace),
                    max_tool_calls: narrow(r.max_tool_calls),
                    temperature: opt_clone(&r.temperature),
                    max_tokens: narrow(r.max_tokens),
                    enabled,
                });
            },
            None => {},
        }
        i = i + 1;
    }
    assert(records@.take(i as int) == records@);
    agents
}

} // verus!
