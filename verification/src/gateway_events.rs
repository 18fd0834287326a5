//! Events pushed by the gateway over its WebSocket, and the state messages
//! each one turns into.

use vstd::prelude::*;
use crate::app_state::Message;
use crate::codec::{truncate_tool_result, truncated_spec};
use crate::model::{GatewayStatus, ToolCallInfo};
use crate::schemas::opt_view;
use crate::text::{chars_of, decimal, push_decimal_u64, string_of};

verus! {

broadcast use vstd::string::group_string_axioms;

/// A tool call reported with an agent's response.
#[derive(Debug, Clone, PartialEq, Eq)]
pub struct GatewayToolCall {
    pub tool_name: String,
    pub result: String,
    pub success: bool,
    pub duration_ms: u64,
    /// Where the tool ran, when not on the gateway.
    pub locality: Option<String>,
}

/// Token counts of one response.
#[derive(Debug, Clone, Copy, PartialEq, Eq, Structural)]
pub struct TokenCounts {
    pub prompt_tokens: u64,
    pub completion_tokens: u64,
    pub total_tokens: u64,
}

/// An event from the gateway's WebSocket.
#[derive(Debug, Clone, PartialEq, Eq)]
pub enum GatewayEvent {
    StreamChunk { session_key: String, delta: String },
    ToolCall { tool_name: String },
    ToolResult {
        session_key: String,
        tool_name: String,
        result: String,
        success: bool,
        duration_ms: u64,
        locality: Option<String>,
    },
    AgentResponse {
        session_key: String,
        content: String,
        tool_calls: Vec<GatewayToolCall>,
        tokens_used: Option<TokenCounts>,
        processing_time_ms: Option<u64>,
    },
    AgentError { session_key: String, error: String },
    TokenUsage {
        session_key: String,
        prompt_tokens: u64,
        completion_tokens: u64,
        total_tokens: u64,
        cumulative_total: u64,
    },
    ThinkingStatus {
        session_key: String,
        phase: String,
        tool_name: Option<String>,
        iteration: Option<usize>,
    },
    Pong,
    HealthStatus {
        version: Option<String>,
        uptime_secs: Option<u64>,
        active_sessions: usize,
        pending_agents: usize,
    },
    Connected,
    ClientIdentityAssigned { client_uuid: String, hostname: String, label: Option<String> },
    Disconnected { reason: String },
    Error { message: String },
}

/// What an event asks of the interface: state messages, in order, and
/// whether the client should now identify itself to the gateway.
#[derive(Debug, Clone)]
pub struct GatewayEventOutcome {
    pub messages: Vec<Message>,
    pub identify_client: bool,
}

/// Where a tool ran, as `, executed on: <where>` (empty on the gateway).
pub open spec fn locality_suffix(locality: Option<Seq<char>>) -> Seq<char> {
    match locality {
        Some(l) => ", executed on: "@ + l,
        None => Seq::empty(),
    }
}

/// The status line of a finished tool: a tick or a cross, its name, and
/// how long it took and where.
pub open spec fn tool_status_text(tool: Seq<char>, success: bool, duration_ms: nat, locality: Option<Seq<char>>) -> Seq<char> {
    (if success { "✓"@ } else { "✗"@ }) + " "@ + tool + " ("@ + decimal(duration_ms) + "ms"@
        + locality_suffix(locality) + ")"@
}

/// The chat chunk that shows a tool's output under a header with its name
/// (and where it ran), addressed to the session.
pub open spec fn tool_chunk_text(key: Seq<char>, tool: Seq<char>, result: Seq<char>, locality: Option<Seq<char>>) -> Seq<char> {
    key + ":"@ + match locality {
        Some(l) => "\n["@ + tool + " | executed on: "@ + l + "]\n"@,
        None => "\n["@ + tool + "]\n"@,
    } + result
}

/// The status line with a response's token counts and, when known, its
/// processing time.
pub open spec fn token_status_text(t: TokenCounts, time_ms: Option<u64>) -> Seq<char> {
    let base = "Tokens: "@ + decimal(t.total_tokens as nat) + " ("@ + decimal(t.prompt_tokens as nat)
        + " prompt + "@ + decimal(t.completion_tokens as nat) + " completion)"@;
    match time_ms {
        Some(ms) => base + " | "@ + decimal(ms as nat) + "ms"@,
        None => base,
    }
}

/// How a reported tool call is shown: no arguments, its result cut to 500
/// bytes, folded.
pub open spec fn tool_call_shown(c: GatewayToolCall, t: ToolCallInfo) -> bool {
    &&& t.tool_name@ == c.tool_name@
    &&& t.arguments@.len() == 0
    &&& t.result@ == truncated_spec(c.result@, 500)
    &&& t.success == c.success
    &&& t.duration_ms == c.duration_ms
    &&& !t.expanded
}

/// A tool result can be cut at 500 bytes: it is no longer, or a character
/// starts there.
pub open spec fn cuttable(s: Seq<char>) -> bool {
    vstd::utf8::encode_utf8(s).len() <= 500 || vstd::utf8::is_char_boundary(vstd::utf8::encode_utf8(s), 500)
}

/// The tool results of an agent response can all be cut at 500 bytes.
pub open spec fn event_ok(e: GatewayEvent) -> bool {
    match e {
        GatewayEvent::AgentResponse { tool_calls, .. } => forall|i: int|
            0 <= i < tool_calls@.len() ==> cuttable(#[trigger] tool_calls@[i].result@),
        _ => true,
    }
}

/// Whether message `m` is the status line `text`, error or not.
pub open spec fn is_status(m: Message, text: Seq<char>, is_error: bool) -> bool {
    m matches Message::SetStatus(t, e) && t@ == text && e == is_error
}

/// Whether message `m` is the chat chunk `text`.
pub open spec fn is_chunk(m: Message, text: Seq<char>) -> bool {
    m matches Message::ChatStreamChunk(t) && t@ == text
}

/// The messages an event turns into.
pub open spec fn event_handled(e: GatewayEvent, r: GatewayEventOutcome) -> bool {
    let ms = r.messages@;
    &&& r.identify_client == (e is Connected)
    &&& match e {
        GatewayEvent::StreamChunk { session_key, delta } => {
            &&& ms.len() == 1
            &&& is_chunk(ms[0], session_key@ + ":"@ + delta@)
        },
        GatewayEvent::ToolCall { tool_name } => {
            &&& ms.len() == 1
            &&& is_status(ms[0], "Running: "@ + tool_name@ + "..."@, false)
        },
        GatewayEvent::ToolResult { session_key, tool_name, result, success, duration_ms, locality } => {
            let shown = result@.len() > 0 && session_key@.len() > 0;
            &&& ms.len() == if shown { 2nat } else { 1nat }
            &&& is_status(ms[0], tool_status_text(tool_name@, success, duration_ms as nat, opt_view(locality)), !success)
            &&& shown ==> is_chunk(ms[1], tool_chunk_text(session_key@, tool_name@, result@, opt_view(locality)))
        },
        GatewayEvent::AgentResponse { session_key, content, tool_calls, tokens_used, processing_time_ms } => {
            let counted = tokens_used is Some && tokens_used->0.total_tokens > 0;
            &&& ms.len() == if counted { 2nat } else { 1nat }
            &&& if tool_calls@.len() == 0 {
                ms[0] matches Message::ChatResponse(k, c) && k@ == session_key@ && c@ == content@
            } else {
                &&& ms[0] matches Message::ChatAgentResponse(k, c, calls)
                &&& k@ == session_key@ && c@ == content@
                &&& calls@.len() == tool_calls@.len()
                &&& forall|i: int| 0 <= i < calls@.len() ==> tool_call_shown(tool_calls@[i], #[trigger] calls@[i])
            }
            &&& counted ==> is_status(ms[1], token_status_text(tokens_used->0, processing_time_ms), false)
        },
        GatewayEvent::AgentError { session_key, error } => {
            &&& ms.len() == 1
            &&& ms[0] matches Message::ChatError(k, x) && k@ == session_key@ && x@ == error@
        },
        GatewayEvent::TokenUsage { session_key, prompt_tokens, completion_tokens, total_tokens, cumulative_total } => {
            &&& ms.len() == 1
            &&& ms[0] matches Message::ChatTokenUsage { session_key: k, prompt_tokens: p, completion_tokens: c, total_tokens: t, cumulative_total: u }
            &&& k@ == session_key@ && p == prompt_tokens && c == completion_tokens && t == total_tokens && u == cumulative_total
        },
        GatewayEvent::ThinkingStatus { session_key, phase, tool_name, iteration } => {
            &&& ms.len() == 1
            &&& ms[0] matches Message::ChatThinkingStatus { session_key: k, phase: p, tool_name: t, iteration: n }
            &&& k@ == session_key@ && p@ == phase@ && opt_view(t) == opt_view(tool_name) && n == iteration
        },
        GatewayEvent::HealthStatus { version, uptime_secs, active_sessions, pending_agents } => {
            &&& ms.len() == 1
            &&& ms[0] matches Message::GatewayStatus(g)
            &&& g.connected && opt_view(g.version) == opt_view(version) && g.uptime_secs == uptime_secs
            &&& g.active_sessions == active_sessions && g.pending_agents == pending_agents
        },
        GatewayEvent::ClientIdentityAssigned { client_uuid, hostname, label } => {
            let display = match label {
                Some(l) => l@,
                None => hostname@,
            };
            &&& ms.len() == 1
            &&& is_status(ms[0], "Connected as "@ + display + " ("@ + client_uuid@ + ")"@, false)
        },
        GatewayEvent::Disconnected { reason } => {
            &&& ms.len() == 1
            &&& is_status(ms[0], "WebSocket disconnected: "@ + reason@, false)
        },
        _ => ms.len() == 0,
    }
}

fn clone_opt(o: &Option<String>) -> (r: Option<String>)
    ensures
        opt_view(r) == opt_view(*o),
{
    match o {
        Some(s) => Some(s.clone()),
        None => None,
    }
}

fn tool_status(tool: &str, success: bool, duration_ms: u64, locality: &Option<String>) -> (r: String)
    ensures
        r@ == tool_status_text(tool@, success, duration_ms as nat, opt_view(*locality)),
{
    let mut t = if success { string_of("✓") } else { string_of("✗") };
    t.append(" ");
    t.append(tool);
    t.append(" (");
    push_decimal_u64(&mut t, duration_ms);
    t.append("ms");
    match locality {
        Some(l) => {
            t.append(", executed on: ");
            t.append(l.as_str());
        },
        None => {},
    }
    t.append(")");
    t
}

fn tool_chunk(key: &str, tool: &str, result: &str, locality: &Option<String>) -> (r: String)
    ensures
        r@ == tool_chunk_text(key@, tool@, result@, opt_view(*locality)),
{
    let mut t = string_of(key);
    t.append(":\n[");
    t.append(tool);
    match locality {
        Some(l) => {
            t.append(" | executed on: ");
            t.append(l.as_str());
        },
        None => {},
    }
    t.append("]\n");
    t.append(result);
    proof {
        reveal_strlit(":\n[");
        reveal_strlit(":");
        reveal_strlit("\n[");
        assert(":\n["@ == ":"@ + "\n["@);
    }
    t
}

fn token_status(t: TokenCounts, time_ms: Option<u64>) -> (r: String)
    ensures
        r@ == token_status_text(t, time_ms),
{
    let mut s = string_of("Tokens: ");
    push_decimal_u64(&mut s, t.total_tokens);
    s.append(" (");
    push_decimal_u64(&mut s, t.prompt_tokens);
    s.append(" prompt + ");
    push_decimal_u64(&mut s, t.completion_tokens);
    s.append(" completion)");
    match time_ms {
        Some(ms) => {
            s.append(" | ");
            push_decimal_u64(&mut s, ms);
            s.append("ms");
        },
        None => {},
    }
    s
}

fn shown_tool_calls(calls: &Vec<GatewayToolCall>) -> (r: Vec<ToolCallInfo>)
    requires
        forall|i: int| 0 <= i < calls@.len() ==> cuttable(#[trigger] calls@[i].result@),
    ensures
        r@.len() == calls@.len(),
        forall|i: int| 0 <= i < r@.len() ==> tool_call_shown(calls@[i], #[trigger] r@[i]),
{
    let mut r: Vec<ToolCallInfo> = Vec::new();
    let mut i: usize = 0;
    while i < calls.len()
        invariant
            i <= calls@.len(),
            r@.len() == i,
            forall|k: int| 0 <= k < calls@.len() ==> cuttable(#[trigger] calls@[k].result@),
            forall|k: int| 0 <= k < i ==> tool_call_shown(calls@[k], #[trigger] r@[k]),
        decreases calls@.len() - i,
    {
        let c = &calls[i];
        assert(cuttable(calls@[i as int].result@));
        let result = truncate_tool_result(c.result.as_str(), 500);
        r.push(ToolCallInfo {
            tool_name: c.tool_name.clone(),
            arguments: String::new(),
            result,
            success: c.success,
            duration_ms: c.duration_ms,
            expanded: false,
        });
        i = i + 1;
    }
    r
}

/// The state messages for a gateway event (see `event_handled`).
pub fn gateway_event_messages(event: &GatewayEvent) -> (r: GatewayEventOutcome)
    requires
        event_ok(*event),
    ensures
        event_handled(*event, r),
{
    let mut ms: Vec<Message> = Vec::new();
    let mut identify_client = false;
    match event {
        GatewayEvent::StreamChunk { session_key, delta } => {
            let mut t = session_key.clone();
            t.append(":");
            t.append(delta.as_str());
            ms.push(Message::ChatStreamChunk(t));
        },
        GatewayEvent::ToolCall { tool_name } => {
            let mut t = string_of("Running: ");
            t.append(tool_name.as_str());
            t.append("...");
            ms.push(Message::SetStatus(t, false));
        },
        GatewayEvent::ToolResult { session_key, tool_name, result, success, duration_ms, locality } => {
            ms.push(Message::SetStatus(tool_status(tool_name.as_str(), *success, *duration_ms, locality), !*success));
            if chars_of(result.as_str()).len() > 0 && chars_of(session_key.as_str()).len() > 0 {
                ms.push(Message::ChatStreamChunk(tool_chunk(session_key.as_str(), tool_name.as_str(), result.as_str(), locality)));
            }
        },
        GatewayEvent::AgentResponse { session_key, content, tool_calls, tokens_used, processing_time_ms } => {
            if tool_calls.len() == 0 {
                ms.push(Message::ChatResponse(session_key.clone(), content.clone()));
            } else {
                let calls = shown_tool_calls(tool_calls);
                ms.push(Message::ChatAgentResponse(session_key.clone(), content.clone(), calls));
            }
            match tokens_used {
                Some(t) => {
                    if t.total_tokens > 0 {
                        ms.push(Message::SetStatus(token_status(*t, *processing_time_ms), false));
                    }
                },
                None => {},
            }
        },
        GatewayEvent::AgentError { session_key, error } => {
            ms.push(Message::ChatError(session_key.clone(), error.clone()));
        },
        GatewayEvent::TokenUsage { session_key, prompt_tokens, completion_tokens, total_tokens, cumulative_total } => {
            ms.push(Message::ChatTokenUsage {
                session_key: session_key.clone(),
                prompt_tokens: *prompt_tokens,
                completion_tokens: *completion_tokens,
                total_tokens: *total_tokens,
                cumulative_total: *cumulative_total,
            });
        },
        GatewayEvent::ThinkingStatus { session_key, phase, tool_name, iteration } => {
            ms.push(Message::ChatThinkingStatus {
                session_key: session_key.clone(),
                phase: phase.clone(),
                tool_name: clone_opt(tool_name),
                iteration: *iteration,
            });
        },
        GatewayEvent::HealthStatus { version, uptime_secs, active_sessions, pending_agents } => {
            ms.push(Message::GatewayStatus(GatewayStatus {
                connected: true,
                version: clone_opt(version),
                uptime_secs: *uptime_secs,
                active_sessions: *active_sessions,
                pending_agents: *pending_agents,
            }));
        },
        GatewayEvent::Connected => {
            identify_client = true;
        },
        GatewayEvent::ClientIdentityAssigned { client_uuid, hostname, label } => {
            let mut t = string_of("Connected as ");
            match label {
                Some(l) => t.append(l.as_str()),
                None => t.append(hostname.as_str()),
            }
            t.append(" (");
            t.append(client_uuid.as_str());
            t.append(")");
            ms.push(Message::SetStatus(t, false));
        },
        GatewayEvent::Disconnected { reason } => {
            let mut t = string_of("WebSocket disconnected: ");
            t.append(reason.as_str());
            ms.push(Message::SetStatus(t, false));
        },
        _ => {},
    }
    GatewayEventOutcome { messages: ms, identify_client }
}

} // verus!
