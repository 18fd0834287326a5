//! Sessions and session messages as the gateway lists them, turned into
//! the session rows and chat messages.

use vstd::prelude::*;
use crate::model::{ChatMessage, ChatRole, SessionInfo};
use crate::schemas::opt_view;
use crate::text::{str_eq, string_of};

verus! {

broadcast use vstd::string::group_string_axioms;

/// One entry of the gateway's session list; entries lacking any of the
/// first three fields are dropped while reading.
#[derive(Debug, Clone, PartialEq, Eq)]
pub struct SessionRecord {
    pub id: String,
    pub agent_id: String,
    pub session_key: String,
    pub created_at: Option<String>,
    /// `metadata.model`
    pub model: Option<String>,
}

/// The first eight bytes of a key, or the whole key when no character
/// starts at the eighth byte (also when it is shorter).
pub open spec fn key_head(k: Seq<char>) -> Seq<char> {
    let b = vstd::utf8::encode_utf8(k);
    if vstd::utf8::is_char_boundary(b, 8) {
        vstd::utf8::decode_utf8(b.subrange(0, 8))
    } else {
        k
    }
}

/// The row of a session: an ad-hoc session is named by the head of its key
/// and reached through its model; any other through its agent.
pub open spec fn session_row(r: SessionRecord, s: SessionInfo) -> bool {
    let ad_hoc = r.agent_id@ == "ad-hoc"@;
    &&& s.key@ == r.id@
    &&& s.agent_id@ == if ad_hoc { "ad-hoc ("@ + key_head(r.session_key@) + ")"@ } else { r.agent_id@ }
    &&& opt_view(s.channel) == if ad_hoc {
        match r.model {
            Some(m) => Some("model:"@ + m@),
            None => None,
        }
    } else {
        Some("agent:"@ + r.agent_id@)
    }
    &&& opt_view(s.started_at) == opt_view(r.created_at)
    &&& s.message_count == 0
    &&& opt_view(s.model) == opt_view(r.model)
}

fn opt_clone(o: &Option<String>) -> (r: Option<String>)
    ensures
        opt_view(r) == opt_view(*o),
{
    match o {
        Some(s) => Some(s.clone()),
        None => None,
    }
}

fn head_of(k: &str) -> (r: String)
    ensures
        r@ == key_head(k@),
{
    proof {
        vstd::utf8::encode_utf8_valid_utf8(k@);
    }
    if k.is_char_boundary(8) {
        let (head, _rest) = k.split_at(8);
        proof {
            vstd::utf8::encode_utf8_decode_utf8(head@);
            assert(vstd::utf8::encode_utf8(head@) == vstd::utf8::encode_utf8(k@).subrange(0, 8));
            assert(vstd::utf8::is_char_boundary(vstd::utf8::encode_utf8(k@), 8));
            assert(key_head(k@) == vstd::utf8::decode_utf8(vstd::utf8::encode_utf8(k@).subrange(0, 8)));
            assert(key_head(k@) == head@);
        }
        string_of(head)
    } else {
        assert(key_head(k@) == k@);
        string_of(k)
    }
}

/// The session row for an entry (see `session_row`).
pub fn session_from_record(r: &SessionRecord) -> (s: SessionInfo)
    ensures
        session_row(*r, s),
{
    let ad_hoc = str_eq(r.agent_id.as_str(), "ad-hoc");
    let channel = if ad_hoc {
        match &r.model {
            Some(m) => {
                let mut c = string_of("model:");
                c.append(m.as_str());
                Some(c)
            },
            None => None,
        }
    } else {
        let mut c = string_of("agent:");
        c.append(r.agent_id.as_str());
        Some(c)
    };
    let agent_id = if ad_hoc {
        let mut a = string_of("ad-hoc (");
        let head = head_of(r.session_key.as_str());
        a.append(head.as_str());
        a.append(")");
        a
    } else {
        r.agent_id.clone()
    };
    SessionInfo {
        key: r.id.clone(),
        agent_id,
        channel,
        started_at: opt_clone(&r.created_at),
        message_count: 0,
        model: opt_clone(&r.model),
    }
}

/// The session rows for the gateway's session list, in order.
pub fn sessions_from_records(records: &Vec<SessionRecord>) -> (rows: Vec<SessionInfo>)
    ensures
        rows@.len() == records@.len(),
        forall|i: int| 0 <= i < rows@.len() ==> session_row(records@[i], #[trigger] rows@[i]),
{
    let mut rows: Vec<SessionInfo> = Vec::new();
    let mut i: usize = 0;
    while i < records.len()
        invariant
            i <= records@.len(),
            rows@.len() == i,
            forall|k: int| 0 <= k < i ==> session_row(records@[k], #[trigger] rows@[k]),
        decreases records@.len() - i,
    {
        rows.push(session_from_record(&records[i]));
        i = i + 1;
    }
    rows
}

/// The role of a stored message from its name: assistant or system as
/// named, a user otherwise (also when unnamed).
pub open spec fn role_named(name: Option<Seq<char>>) -> ChatRole {
    if name == Some("assistant"@) {
        ChatRole::Assistant
    } else if name == Some("system"@) {
        ChatRole::System
    } else {
        ChatRole::User
    }
}

/// A stored message of a session: its text (a plain string, or the `text`
/// of an object), its role's name and its time; read as `None` when it has
/// no text.
pub fn stored_message(text: String, role: &Option<String>, created_at: Option<String>) -> (m: ChatMessage)
    ensures
        m.role == role_named(opt_view(*role)),
        m.content@ == text@,
        opt_view(m.timestamp) == opt_view(created_at),
        m.tool_calls@.len() == 0,
{
    let r = match role {
        Some(n) => if str_eq(n.as_str(), "assistant") {
            ChatRole::Assistant
        } else if str_eq(n.as_str(), "system") {
            ChatRole::System
        } else {
            ChatRole::User
        },
        None => ChatRole::User,
    };
    ChatMessage { role: r, content: text, timestamp: created_at, tool_calls: Vec::new() }
}

} // verus!
