//! Plain data shown by the interface: gateway, agents, sessions, chat,
//! vault, endpoints, permissions and model providers.

use vstd::prelude::*;
use crate::text::{str_eq, string_of};

verus! {

broadcast use vstd::string::group_string_axioms;

/// Gateway connection status.
#[derive(Debug, Clone)]
pub struct GatewayStatus {
    pub connected: bool,
    pub version: Option<String>,
    pub uptime_secs: Option<u64>,
    pub active_sessions: usize,
    pub pending_agents: usize,
}

impl Default for GatewayStatus {
    fn default() -> (g: GatewayStatus)
        ensures
            !g.connected,
            g.version is None,
            g.uptime_secs is None,
            g.active_sessions == 0,
            g.pending_agents == 0,
    {
        GatewayStatus {
            connected: false,
            version: None,
            uptime_secs: None,
            active_sessions: 0,
            pending_agents: 0,
        }
    }
}

/// State of an agent.
#[derive(Debug, Clone, Copy, PartialEq, Eq, Structural)]
pub enum AgentStatus {
    Active,
    Pending,
    Error,
    Disabled,
}

impl AgentStatus {
    pub fn label(&self) -> (r: &'static str)
        ensures
            r@ == match *self {
                AgentStatus::Active => "Active"@,
                AgentStatus::Pending => "Pending"@,
                AgentStatus::Error => "Error"@,
                AgentStatus::Disabled => "Disabled"@,
            },
    {
        match self {
            AgentStatus::Active => "Active",
            AgentStatus::Pending => "Pending",
            AgentStatus::Error => "Error",
            AgentStatus::Disabled => "Disabled",
        }
    }
}

/// Agent information. The temperature is held as the decimal text that
/// the configured floating-point value is displayed as.
#[derive(Debug)]
pub struct AgentInfo {
    pub id: String,
    pub model: Option<String>,
    pub status: AgentStatus,
    pub session_count: usize,
    pub parent_id: Option<String>,
    pub system_prompt: Option<String>,
    pub workspace: Option<String>,
    pub max_tool_calls: Option<u32>,
    pub temperature: Option<String>,
    pub max_tokens: Option<u32>,
    pub enabled: bool,
}

impl Clone for AgentInfo {
    fn clone(&self) -> (r: AgentInfo)
        ensures
            r == *self,
    {
        AgentInfo {
            id: self.id.clone(),
            model: self.model.clone(),
            status: self.status,
            session_count: self.session_count,
            parent_id: self.parent_id.clone(),
            system_prompt: self.system_prompt.clone(),
            workspace: self.workspace.clone(),
            max_tool_calls: self.max_tool_calls,
            temperature: self.temperature.clone(),
            max_tokens: self.max_tokens,
            enabled: self.enabled,
        }
    }
}

/// Cron job information.
#[derive(Debug)]
pub struct CronJobInfo {
    pub id: String,
    pub name: String,
    pub enabled: bool,
    pub agent_id: Option<String>,
    pub schedule: String,
    pub last_run: Option<String>,
    pub last_status: Option<String>,
    pub next_run: Option<String>,
}

impl Clone for CronJobInfo {
    fn clone(&self) -> (r: CronJobInfo)
        ensures
            r == *self,
    {
        CronJobInfo {
            id: self.id.clone(),
            name: self.name.clone(),
            enabled: self.enabled,
            agent_id: self.agent_id.clone(),
            schedule: self.schedule.clone(),
            last_run: self.last_run.clone(),
            last_status: self.last_status.clone(),
            next_run: self.next_run.clone(),
        }
    }
}

/// Session information.
#[derive(Debug, Clone)]
pub struct SessionInfo {
    pub key: String,
    pub agent_id: String,
    pub channel: Option<String>,
    pub started_at: Option<String>,
    pub message_count: usize,
    pub model: Option<String>,
}

/// Chat message role.
#[derive(Debug, Clone, Copy, PartialEq, Eq, Structural)]
pub enum ChatRole {
    User,
    Assistant,
    System,
}

/// Tool call information for display.
#[derive(Debug, Clone)]
pub struct ToolCallInfo {
    pub tool_name: String,
    pub arguments: String,
    pub result: String,
    pub success: bool,
    pub duration_ms: u64,
    pub expanded: bool,
}

/// A message in a chat session.
#[derive(Debug, Clone)]
pub struct ChatMessage {
    pub role: ChatRole,
    pub content: String,
    pub timestamp: Option<String>,
    pub tool_calls: Vec<ToolCallInfo>,
}

/// A local wall-clock time written `HH:MM:SS`.
pub open spec fn is_clock_time(s: Seq<char>) -> bool {
    &&& s.len() == 8
    &&& s[2] == ':'
    &&& s[5] == ':'
    &&& forall|i: int|
        0 <= i < 8 && i != 2 && i != 5 ==> 48 <= (#[trigger] s[i] as u32) <= 57
}

/// The current local time, formatted `%H:%M:%S` by chrono. Trusted: the
/// text is two digits, a colon, two digits, a colon and two digits, as
/// chrono documents for that format; which time it is depends on the clock
/// and is not stated.
#[verifier::external_body]
fn local_clock_time() -> (r: String)
    ensures
        is_clock_time(r@),
{
    chrono::Local::now().format("%H:%M:%S").to_string()
}

impl ChatMessage {
    /// A message from the user, stamped with the local time.
    pub fn user(content: String) -> (m: ChatMessage)
        ensures
            m.role == ChatRole::User,
            m.content == content,
            m.timestamp is Some && is_clock_time(m.timestamp->0@),
            m.tool_calls@.len() == 0,
    {
        ChatMessage {
            role: ChatRole::User,
            content,
            timestamp: Some(local_clock_time()),
            tool_calls: Vec::new(),
        }
    }

    /// A reply from the assistant, stamped with the local time.
    pub fn assistant(content: String) -> (m: ChatMessage)
        ensures
            m.role == ChatRole::Assistant,
            m.content == content,
            m.timestamp is Some && is_clock_time(m.timestamp->0@),
            m.tool_calls@.len() == 0,
    {
        ChatMessage {
            role: ChatRole::Assistant,
            content,
            timestamp: Some(local_clock_time()),
            tool_calls: Vec::new(),
        }
    }

    /// A reply from the assistant with the tool calls it made.
    pub fn assistant_with_tools(content: String, tool_calls: Vec<ToolCallInfo>) -> (m: ChatMessage)
        ensures
            m.role == ChatRole::Assistant,
            m.content == content,
            m.timestamp is Some && is_clock_time(m.timestamp->0@),
            m.tool_calls == tool_calls,
    {
        ChatMessage {
            role: ChatRole::Assistant,
            content,
            timestamp: Some(local_clock_time()),
            tool_calls,
        }
    }

    /// A system notice, without a timestamp.
    pub fn system(content: String) -> (m: ChatMessage)
        ensures
            m.role == ChatRole::System,
            m.content == content,
            m.timestamp is None,
            m.tool_calls@.len() == 0,
    {
        ChatMessage { role: ChatRole::System, content, timestamp: None, tool_calls: Vec::new() }
    }
}

/// How the vault is unlocked.
#[derive(Debug, Clone, PartialEq, Eq)]
pub enum UnlockMethod {
    Unknown,
    Password,
    Keyfile { path: Option<String> },
    Age { public_key: Option<String> },
    SshKey { path: Option<String> },
}

impl Default for UnlockMethod {
    fn default() -> (m: UnlockMethod)
        ensures
            m is Unknown,
    {
        UnlockMethod::Unknown
    }
}

impl UnlockMethod {
    pub fn label(&self) -> (r: &'static str)
        ensures
            r@ == match *self {
                UnlockMethod::Unknown => "Unknown"@,
                UnlockMethod::Password => "Password"@,
                UnlockMethod::Keyfile { .. } => "Keyfile"@,
                UnlockMethod::Age { .. } => "Age"@,
                UnlockMethod::SshKey { .. } => "SSH Key"@,
            },
    {
        match self {
            UnlockMethod::Unknown => "Unknown",
            UnlockMethod::Password => "Password",
            UnlockMethod::Keyfile { .. } => "Keyfile",
            UnlockMethod::Age { .. } => "Age",
            UnlockMethod::SshKey { .. } => "SSH Key",
        }
    }

    /// Whether unlocking asks for typed input (a password or an age identity).
    pub fn requires_input(&self) -> (r: bool)
        ensures
            r == (*self is Password || *self is Age),
    {
        match self {
            UnlockMethod::Password => true,
            UnlockMethod::Age { .. } => true,
            _ => false,
        }
    }
}

/// Vault status.
#[derive(Debug, Clone)]
pub struct VaultStatus {
    pub enabled: bool,
    pub initialized: bool,
    pub locked: bool,
    pub endpoint_count: usize,
    pub unlock_method: UnlockMethod,
}

impl Default for VaultStatus {
    fn default() -> (v: VaultStatus)
        ensures
            !v.enabled,
            !v.initialized,
            !v.locked,
            v.endpoint_count == 0,
            v.unlock_method is Unknown,
    {
        VaultStatus {
            enabled: false,
            initialized: false,
            locked: false,
            endpoint_count: 0,
            unlock_method: UnlockMethod::Unknown,
        }
    }
}

/// Endpoint information.
#[derive(Debug, Clone)]
pub struct EndpointInfo {
    pub id: String,
    pub name: String,
    pub endpoint_type: String,
    pub base_url: String,
    pub has_credential: bool,
    pub expiration: Option<String>,
}

/// Access level for a credential permission rule.
#[derive(Debug, Clone, Copy, PartialEq, Eq, Structural)]
pub enum AccessLevel {
    /// Execute immediately without human involvement
    Allow,
    /// Human-in-the-loop: requires approval before each access
    AllowHil,
    /// Human-in-the-loop with 2FA verification
    AllowHil2fa,
    /// Reject request and log attempt
    Deny,
}

impl Default for AccessLevel {
    fn default() -> (a: AccessLevel)
        ensures
            a == AccessLevel::AllowHil,
    {
        AccessLevel::AllowHil
    }
}

impl AccessLevel {
    pub fn label(&self) -> (r: &'static str)
        ensures
            r@ == match *self {
                AccessLevel::Allow => "Allow"@,
                AccessLevel::AllowHil => "Allow HIL"@,
                AccessLevel::AllowHil2fa => "Allow HIL+2FA"@,
                AccessLevel::Deny => "Deny"@,
            },
    {
        match self {
            AccessLevel::Allow => "Allow",
            AccessLevel::AllowHil => "Allow HIL",
            AccessLevel::AllowHil2fa => "Allow HIL+2FA",
            AccessLevel::Deny => "Deny",
        }
    }

    pub fn short_label(&self) -> (r: &'static str)
        ensures
            r@ == match *self {
                AccessLevel::Allow => "ALLOW"@,
                AccessLevel::AllowHil => "HIL"@,
                AccessLevel::AllowHil2fa => "2FA"@,
                AccessLevel::Deny => "DENY"@,
            },
    {
        match self {
            AccessLevel::Allow => "ALLOW",
            AccessLevel::AllowHil => "HIL",
            AccessLevel::AllowHil2fa => "2FA",
            AccessLevel::Deny => "DENY",
        }
    }
}

/// Source that can access a credential.
#[derive(Debug, Clone, PartialEq, Eq)]
pub enum PermissionSource {
    /// Any source (wildcard)
    Any,
    /// The gateway/system itself
    System,
    /// A specific agent
    Agent(String),
}

/// Equality of permission sources, agents compared by id.
pub open spec fn same_source(a: PermissionSource, b: PermissionSource) -> bool {
    match (a, b) {
        (PermissionSource::Any, PermissionSource::Any) => true,
        (PermissionSource::System, PermissionSource::System) => true,
        (PermissionSource::Agent(x), PermissionSource::Agent(y)) => x@ == y@,
        _ => false,
    }
}

impl PermissionSource {
    pub fn label(&self) -> (r: String)
        ensures
            r@ == match *self {
                PermissionSource::Any => "Any Source"@,
                PermissionSource::System => "System / Gateway"@,
                PermissionSource::Agent(id) => "Agent: "@ + id@,
            },
    {
        match self {
            PermissionSource::Any => string_of("Any Source"),
            PermissionSource::System => string_of("System / Gateway"),
            PermissionSource::Agent(id) => {
                let mut s = string_of("Agent: ");
                s.append(id.as_str());
                s
            },
        }
    }

    pub fn short_label(&self) -> (r: String)
        ensures
            r@ == match *self {
                PermissionSource::Any => "*"@,
                PermissionSource::System => "system"@,
                PermissionSource::Agent(id) => id@,
            },
    {
        match self {
            PermissionSource::Any => string_of("*"),
            PermissionSource::System => string_of("system"),
            PermissionSource::Agent(id) => id.clone(),
        }
    }

    /// Whether two sources are the same.
    pub fn same_as(&self, other: &PermissionSource) -> (r: bool)
        ensures
            r == same_source(*self, *other),
    {
        match (self, other) {
            (PermissionSource::Any, PermissionSource::Any) => true,
            (PermissionSource::System, PermissionSource::System) => true,
            (PermissionSource::Agent(x), PermissionSource::Agent(y)) => str_eq(x.as_str(), y.as_str()),
            _ => false,
        }
    }
}

/// A permission rule granting a source access to a credential endpoint.
/// Rules are evaluated in order of priority (lowest first).
#[derive(Debug, Clone)]
pub struct PermissionRule {
    pub endpoint_id: String,
    pub endpoint_name: String,
    pub source: PermissionSource,
    pub access: AccessLevel,
    pub priority: usize,
}

/// Model provider information.
#[derive(Debug, Clone)]
pub struct ModelProvider {
    pub id: String,
    pub name: String,
    pub available: bool,
    pub auth_type: String,
    pub models: Vec<ModelProviderModel>,
    pub supports_streaming: bool,
    pub supports_tools: bool,
    pub supports_vision: bool,
}

/// A model offered by a provider.
#[derive(Debug, Clone)]
pub struct ModelProviderModel {
    pub id: String,
    pub name: String,
    pub description: String,
    pub context_window: u32,
    pub max_output_tokens: Option<u32>,
}

} // verus!
