//! The text of the dashboard's card detail: gateway, agents and vault.

use vstd::prelude::*;
use crate::app_state::AppState;
use crate::model::{AgentInfo, AgentStatus};
use crate::text::{decimal, push_char, push_decimal, push_decimal_u64, str_eq, string_of};

verus! {

broadcast use vstd::string::group_string_axioms;

/// One line of a detail panel: a highlighted key, its value, and a dimmed
/// note after it (often empty).
#[derive(Debug, Clone, PartialEq, Eq)]
pub struct DetailLine {
    pub key: String,
    pub value: String,
    pub note: String,
}

/// The name of an agent status as shown.
pub open spec fn status_name(s: AgentStatus) -> Seq<char> {
    match s {
        AgentStatus::Active => "Active"@,
        AgentStatus::Pending => "Pending"@,
        AgentStatus::Error => "Error"@,
        AgentStatus::Disabled => "Disabled"@,
    }
}

/// `n` spaces.
pub open spec fn spaces(n: nat) -> Seq<char>
    decreases n,
{
    if n == 0 {
        Seq::empty()
    } else {
        spaces((n - 1) as nat).push(' ')
    }
}

/// Text padded with spaces on the right to at least `w` characters.
pub open spec fn padded(t: Seq<char>, w: nat) -> Seq<char> {
    if t.len() < w {
        t + spaces((w - t.len()) as nat)
    } else {
        t
    }
}

/// Whether `l` is the line `key`, `value`, `note`.
pub open spec fn line_is(l: DetailLine, key: Seq<char>, value: Seq<char>, note: Seq<char>) -> bool {
    l.key@ == key && l.value@ == value && l.note@ == note
}

/// The line of an agent: its id padded to 16 characters, its status, and
/// its number of sessions.
pub open spec fn agent_line(a: AgentInfo, l: DetailLine) -> bool {
    line_is(l, padded(a.id@, 16), " "@ + status_name(a.status), "  "@ + decimal(a.session_count as nat) + " sess"@)
}

/// The gateway's lines: online or offline, the version and uptime when
/// known, the active sessions and the number of agents.
pub open spec fn gateway_lines(s: AppState, ls: Seq<DetailLine>) -> bool {
    let g = s.gateway;
    let v: int = if g.version is Some { 1 } else { 0 };
    let u: int = if g.uptime_secs is Some { 1 } else { 0 };
    &&& ls.len() == 3 + v + u
    &&& line_is(ls[0], "Status: "@, if g.connected { "Online"@ } else { "Offline"@ }, Seq::empty())
    &&& g.version matches Some(ver) ==> line_is(ls[1], "Version: "@, ver@, Seq::empty())
    &&& g.uptime_secs matches Some(up) ==> line_is(
        ls[1 + v],
        "Uptime: "@,
        decimal((up / 3600) as nat) + "h "@ + decimal(((up % 3600) / 60) as nat) + "m"@,
        Seq::empty(),
    )
    &&& line_is(ls[1 + v + u], "Sessions: "@, decimal(g.active_sessions as nat), Seq::empty())
    &&& line_is(ls[2 + v + u], "Agents: "@, decimal(s.agents@.len()), Seq::empty())
}

/// The agents' lines, one per agent, or a note that there are none.
pub open spec fn agents_lines(s: AppState, ls: Seq<DetailLine>) -> bool {
    if s.agents@.len() == 0 {
        ls.len() == 1 && line_is(ls[0], "No agents configured"@, Seq::empty(), Seq::empty())
    } else {
        &&& ls.len() == s.agents@.len()
        &&& forall|i: int| 0 <= i < ls.len() ==> agent_line(s.agents@[i], #[trigger] ls[i])
    }
}

/// The vault's lines: its state and number of endpoints.
pub open spec fn vault_lines(s: AppState, ls: Seq<DetailLine>) -> bool {
    &&& ls.len() == 2
    &&& line_is(
        ls[0],
        "Status: "@,
        if !s.vault.initialized {
            "Not Initialized"@
        } else if s.vault.locked {
            "Locked"@
        } else {
            "Unlocked"@
        },
        Seq::empty(),
    )
    &&& line_is(ls[1], "Endpoints: "@, decimal(s.vault.endpoint_count as nat), Seq::empty())
}

/// The detail text for the dashboard card with this label. `None` for the
/// client, noise and execution cards, whose figures (latency, executors,
/// tool counts) this state does not hold; any other unknown card has a
/// single line saying there is nothing more to show.
pub open spec fn dashboard_detail_shown(s: AppState, label: Seq<char>, r: Option<Vec<DetailLine>>) -> bool {
    if label == "Gateway"@ {
        r matches Some(ls) && gateway_lines(s, ls@)
    } else if label == "Agents"@ {
        r matches Some(ls) && agents_lines(s, ls@)
    } else if label == "Vault"@ {
        r matches Some(ls) && vault_lines(s, ls@)
    } else if label == "Client"@ || label == "Noise"@ || label == "Exec"@ {
        r is None
    } else {
        r matches Some(ls) && ls@.len() == 1
            && line_is(ls@[0], "No additional details available."@, Seq::empty(), Seq::empty())
    }
}

fn line(key: &str, value: String) -> (l: DetailLine)
    ensures
        line_is(l, key@, value@, Seq::empty()),
{
    DetailLine { key: string_of(key), value, note: String::new() }
}

fn decimal_text(n: usize) -> (s: String)
    ensures
        s@ == decimal(n as nat),
{
    let mut s = String::new();
    push_decimal(&mut s, n);
    assert(Seq::<char>::empty() + decimal(n as nat) == decimal(n as nat));
    s
}

fn pad_to(t: &str, w: usize) -> (r: String)
    ensures
        r@ == padded(t@, w as nat),
{
    let mut r = string_of(t);
    let n = crate::text::chars_of(t).len();
    if n < w {
        let mut k: usize = n;
        while k < w
            invariant
                n <= k <= w,
                n == t@.len(),
                r@ == t@ + spaces((k - n) as nat),
            decreases w - k,
        {
            push_char(&mut r, ' ');
            assert(spaces((k + 1 - n) as nat) == spaces((k - n) as nat).push(' '));
            assert(t@ + spaces((k + 1 - n) as nat) == (t@ + spaces((k - n) as nat)).push(' '));
            k = k + 1;
        }
    } else {
        assert(r@ == padded(t@, w as nat));
    }
    r
}

fn agent_detail_line(a: &AgentInfo) -> (l: DetailLine)
    ensures
        agent_line(*a, l),
{
    let mut value = string_of(" ");
    value.append(a.status.label());
    let mut note = string_of("  ");
    push_decimal(&mut note, a.session_count);
    note.append(" sess");
    DetailLine { key: pad_to(a.id.as_str(), 16), value, note }
}

impl AppState {
    /// The detail text of the dashboard card with this label (see
    /// `dashboard_detail_shown`).
    pub fn dashboard_detail(&self, label: &str) -> (r: Option<Vec<DetailLine>>)
        ensures
            dashboard_detail_shown(*self, label@, r),
    {
        let mut ls: Vec<DetailLine> = Vec::new();
        if str_eq(label, "Gateway") {
            let g = &self.gateway;
            ls.push(line("Status: ", if g.connected { string_of("Online") } else { string_of("Offline") }));
            match &g.version {
                Some(v) => ls.push(line("Version: ", v.clone())),
                None => {},
            }
            match g.uptime_secs {
                Some(up) => {
                    let mut t = String::new();
                    push_decimal_u64(&mut t, up / 3600);
                    t.append("h ");
                    push_decimal_u64(&mut t, (up % 3600) / 60);
                    t.append("m");
                    assert(Seq::<char>::empty() + decimal((up / 3600) as nat) == decimal((up / 3600) as nat));
                    ls.push(line("Uptime: ", t));
                },
                None => {},
            }
            ls.push(line("Sessions: ", decimal_text(g.active_sessions)));
            ls.push(line("Agents: ", decimal_text(self.agents.len())));
            Some(ls)
        } else if str_eq(label, "Agents") {
            if self.agents.len() == 0 {
                ls.push(line("No agents configured", String::new()));
            } else {
                let mut i: usize = 0;
                while i < self.agents.len()
                    invariant
                        i <= self.agents@.len(),
                        ls@.len() == i,
                        forall|k: int| 0 <= k < i ==> agent_line(self.agents@[k], #[trigger] ls@[k]),
                    decreases self.agents@.len() - i,
                {
                    ls.push(agent_detail_line(&self.agents[i]));
                    i = i + 1;
                }
            }
            Some(ls)
        } else if str_eq(label, "Vault") {
            let status = if !self.vault.initialized {
                string_of("Not Initialized")
            } else if self.vault.locked {
                string_of("Locked")
            } else {
                string_of("Unlocked")
            };
            ls.push(line("Status: ", status));
            ls.push(line("Endpoints: ", decimal_text(self.vault.endpoint_count)));
            Some(ls)
        } else if str_eq(label, "Client") || str_eq(label, "Noise") || str_eq(label, "Exec") {
            None
        } else {
            ls.push(line("No additional details available.", String::new()));
            Some(ls)
        }
    }
}

} // verus!
