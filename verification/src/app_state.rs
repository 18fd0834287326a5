//! The application state: what every page shows, which item each list has
//! selected, the per-session chats, the alerts and the input mode, and how
//! messages from the gateway and key presses change it.

use vstd::prelude::*;
use crate::chat_state::{
    ChatView, SessionChatState, chunk_received, error_received, fresh_chat,
    reply_received, status_recorded, usage_recorded, butler_chunk_received,
    butler_done_received, opt_chars};
use crate::keybindings::KeybindingConfig;
use crate::menu::{MenuItem, menu_index, menu_title};
use crate::model::{
    AgentInfo, ChatMessage, CronJobInfo, EndpointInfo, GatewayStatus, ModelProvider,
    PermissionRule, SessionInfo, ToolCallInfo, VaultStatus};
use crate::modes::{ContextFileInfo, InputMode, ViewContextFilesState};
use crate::schemas::CredentialSchemaInfo;
use crate::slots::{AlertSeverity, SlottedCardBar, clamped_slot, rebuilt_slots, relabeled};
use crate::text::{chars_of, find_char, first_index, lemma_first_index, str_eq, string_from_chars, string_of};
use crate::editor::EditContextFileState;

verus! {

broadcast use vstd::string::group_string_axioms;

/// Milliseconds since the Unix epoch, from chrono's `Utc::now()`.
/// Trusted; the value depends on the clock, so nothing is stated of it.
#[verifier::external_body]
fn utc_now_millis() -> (r: i64) {
    chrono::Utc::now().timestamp_millis()
}

/// A single alert item.
#[derive(Debug, Clone)]
pub struct AlertItem {
    pub severity: AlertSeverity,
    pub message: String,
    pub source: String,
    /// When the alert was raised, in milliseconds since the Unix epoch (UTC).
    pub timestamp: i64,
}

/// How many alerts are kept: the most recent ones.
pub const MAX_ALERTS: usize = 100;

/// Number of credential categories (All, Model, Communication, Tool).
pub const CREDENTIAL_CATEGORY_COUNT: usize = 4;

/// The chat state of one session, under its key.
#[derive(Debug, Clone)]
pub struct SessionChatEntry {
    pub key: String,
    pub state: SessionChatState,
}

/// Messages that update the application state.
#[derive(Debug, Clone)]
pub enum Message {
    // Navigation
    Navigate(MenuItem),
    ToggleSidebar,
    // Gateway status
    GatewayStatus(GatewayStatus),
    GatewayStatusError(String),
    // Agents
    AgentsLoaded(Vec<AgentInfo>),
    AgentsError(String),
    ReloadAgents,
    /// Agent id
    AgentSaved(String),
    AgentSaveError(String),
    // Sessions
    SessionsLoaded(Vec<SessionInfo>),
    SessionsError(String),
    ReloadSessions,
    /// Session id
    SessionCreated(String),
    SessionCreateError(String),
    // Vault and credentials
    VaultStatus(VaultStatus),
    VaultUnlocked,
    VaultLocked,
    VaultError(String),
    EndpointsLoaded(Vec<EndpointInfo>),
    /// Endpoint name
    CredentialAdded(String),
    CredentialAddError(String),
    // Models
    ModelsLoaded(Vec<ModelProvider>),
    ReloadProviders,
    // Credential schemas from the gateway
    CredentialSchemasLoaded(Vec<CredentialSchemaInfo>),
    // Chat
    /// Session key and reply text
    ChatResponse(String, String),
    /// Session key, reply text and tool calls
    ChatAgentResponse(String, String, Vec<ToolCallInfo>),
    /// Session key and error text
    ChatError(String, String),
    /// Streaming chunk: "session_key:text"
    ChatStreamChunk(String),
    ChatTokenUsage {
        session_key: String,
        prompt_tokens: u64,
        completion_tokens: u64,
        total_tokens: u64,
        cumulative_total: u64,
    },
    ChatThinkingStatus {
        session_key: String,
        phase: String,
        tool_name: Option<String>,
        iteration: Option<usize>,
    },
    /// Session key and its history
    SessionMessagesLoaded(String, Vec<ChatMessage>),
    // Cron jobs
    CronJobsLoaded(Vec<CronJobInfo>),
    /// Job id and its new enabled state
    CronJobToggled(String, bool),
    /// Job id
    CronJobDeleted(String),
    CronJobError(String),
    // Context files
    /// Agent id and its files
    ContextFilesLoaded(String, Vec<ContextFileInfo>),
    /// Agent id, file name and content
    ContextFileLoaded(String, String, String),
    /// Agent id and file name
    ContextFileSaved(String, String),
    ContextFileError(String),
    // Feedback
    /// Message and whether it is an error
    SetStatus(String, bool),
    ClearStatus,
    // Tick for animations and refresh
    Tick,
    // Exit
    Quit,
    /// Keybinding configuration reloaded from the vault
    KeybindingsReloaded(Box<KeybindingConfig>),
    // Butler chat
    ButlerChunk(String),
    ButlerDone(String),
    ButlerError(String),
}

/// The whole state of the interface.
pub struct AppState {
    // Navigation
    pub menu_item: MenuItem,
    pub menu_index: usize,
    pub slot_bar: SlottedCardBar,
    // Paths
    pub config_path: String,
    pub vault_path: String,
    pub launch_dir: String,
    // Gateway connection (WebSocket URL, and HTTP URL for the REST API)
    pub gateway_url: String,
    pub gateway_http_url: String,
    // Gateway
    pub gateway: GatewayStatus,
    pub gateway_loading: bool,
    pub gateway_error: Option<String>,
    // Agents
    pub agents: Vec<AgentInfo>,
    pub agents_loading: bool,
    pub agents_error: Option<String>,
    pub selected_agent: usize,
    // Sessions
    pub sessions: Vec<SessionInfo>,
    pub sessions_loading: bool,
    pub sessions_error: Option<String>,
    pub selected_session: usize,
    // Butler chat (always visible)
    pub butler_chat: SessionChatState,
    // Chat state per session, each key at most once
    pub session_chats: Vec<SessionChatEntry>,
    pub chat_model: Option<String>,
    pub chat_agent_id: Option<String>,
    // Vault and credentials
    pub vault: VaultStatus,
    pub vault_loading: bool,
    pub endpoints: Vec<EndpointInfo>,
    pub selected_endpoint: usize,
    pub selected_category: usize,
    pub selected_provider_index: usize,
    pub provider_list_focus: bool,
    pub credentials_tab: usize,
    pub permissions: Vec<PermissionRule>,
    pub selected_permission: usize,
    // Models
    pub providers: Vec<ModelProvider>,
    pub selected_provider: usize,
    // Cron jobs
    pub cron_jobs: Vec<CronJobInfo>,
    pub cron_loading: bool,
    pub selected_cron_job: usize,
    pub selected_cron_card: usize,
    // History buffers for sparkline widgets
    pub gateway_load_history: std::collections::VecDeque<u64>,
    pub client_msg_history: std::collections::VecDeque<u64>,
    // Settings card selection (General=0, Paths=1, About=2)
    pub selected_settings_card: usize,
    // Field selected on the theme card and on the font card of the settings overlay
    pub selected_settings_field: usize,
    pub selected_font_field: usize,
    // Credential schemas from the gateway
    pub credential_schemas: Vec<CredentialSchemaInfo>,
    // Alerts
    pub alerts: Vec<AlertItem>,
    // Status line: message and whether it is an error
    pub status_message: Option<(String, bool)>,
    pub should_exit: bool,
    pub tick_count: usize,
    // Input
    pub input_mode: InputMode,
    pub input_buffer: String,
    /// Cursor byte position within the input buffer
    pub input_cursor: usize,
}

/// The keys of the session chats, in order.
pub open spec fn chat_keys(c: Seq<SessionChatEntry>) -> Seq<Seq<char>> {
    c.map_values(|e: SessionChatEntry| e.key@)
}

/// No key occurs twice.
pub open spec fn keys_unique(c: Seq<SessionChatEntry>) -> bool {
    forall|i: int, j: int|
        0 <= i < j < c.len() ==> #[trigger] c[i].key@ != #[trigger] c[j].key@
}

/// Where the chat of `key` is, or where it will be added.
pub open spec fn chat_pos(c: Seq<SessionChatEntry>, key: Seq<char>) -> int {
    if exists|i: int| 0 <= i < c.len() && #[trigger] c[i].key@ == key {
        choose|i: int| 0 <= i < c.len() && #[trigger] c[i].key@ == key
    } else {
        c.len() as int
    }
}

/// The chat of `key` as it stands, a fresh chat if it has none yet.
pub open spec fn prior_chat(c: Seq<SessionChatEntry>, key: Seq<char>) -> ChatView {
    if chat_pos(c, key) < c.len() {
        c[chat_pos(c, key)].state@
    } else {
        fresh_chat()
    }
}

/// The chats after the chat of `key` (made if missing) went through `step`;
/// the others are untouched.
pub open spec fn chat_changed(
    b: Seq<SessionChatEntry>,
    a: Seq<SessionChatEntry>,
    key: Seq<char>,
    step: spec_fn(ChatView, ChatView) -> bool,
) -> bool {
    let p = chat_pos(b, key);
    &&& a.len() == if p < b.len() { b.len() } else { b.len() + 1 }
    &&& forall|j: int| 0 <= j < b.len() && j != p ==> #[trigger] a[j] == b[j]
    &&& a[p].key@ == key
    &&& step(prior_chat(b, key), a[p].state@)
}

/// A status line with this text and error flag.
pub open spec fn status_is(s: Option<(String, bool)>, text: Seq<char>, is_error: bool) -> bool {
    match s {
        Some((t, e)) => t@ == text && e == is_error,
        None => false,
    }
}

/// The alerts after one was raised: it is last, and the oldest is dropped
/// when there are more than the limit.
pub open spec fn alert_pushed(
    b: Seq<AlertItem>,
    a: Seq<AlertItem>,
    severity: AlertSeverity,
    source: Seq<char>,
    message: Seq<char>,
) -> bool {
    let dropped: int = if b.len() + 1 > MAX_ALERTS { 1 } else { 0 };
    &&& a.len() == b.len() + 1 - dropped
    &&& a.take(a.len() - 1) =~= b.skip(dropped)
    &&& a.last().severity == severity
    &&& a.last().source@ == source
    &&& a.last().message@ == message
}

/// Text made of two pieces.
pub fn prefixed(a: &str, b: &str) -> (r: String)
    ensures
        r@ == a@ + b@,
{
    let mut r = string_of(a);
    r.append(b);
    r
}

/// Text made of three pieces.
pub fn joined(a: &str, b: &str, c: &str) -> (r: String)
    ensures
        r@ == a@ + b@ + c@,
{
    let mut r = string_of(a);
    r.append(b);
    r.append(c);
    r
}

/// Where the first job with this id is, or the number of jobs.
pub open spec fn job_pos(jobs: Seq<CronJobInfo>, id: Seq<char>) -> int {
    if exists|i: int|
        0 <= i < jobs.len() && #[trigger] jobs[i].id@ == id && forall|k: int| 0 <= k < i ==> jobs[k].id@ != id {
        choose|i: int|
            0 <= i < jobs.len() && #[trigger] jobs[i].id@ == id && forall|k: int| 0 <= k < i ==> jobs[k].id@ != id
    } else {
        jobs.len() as int
    }
}

/// The jobs whose id is not `id`, in order.
pub open spec fn jobs_without(jobs: Seq<CronJobInfo>, id: Seq<char>) -> Seq<CronJobInfo> {
    jobs.filter(|j: CronJobInfo| j.id@ != id)
}

/// The state after a streamed chunk "key:text": the text goes to the chat of
/// the key before the first colon; a chunk without a colon changes nothing.
pub open spec fn chunk_applied(b: AppState, a: AppState, chunk: Seq<char>) -> bool {
    if chunk.contains(':') {
        let p = first_index(chunk, ':');
        &&& a == (AppState { session_chats: a.session_chats, ..b })
        &&& chat_changed(
            b.session_chats@,
            a.session_chats@,
            chunk.take(p),
            |pv: ChatView, av: ChatView| chunk_received(pv, av, chunk.skip(p + 1)),
        )
    } else {
        a == b
    }
}

/// Position of the first job with this id.
fn find_job(jobs: &Vec<CronJobInfo>, id: &str) -> (r: Option<usize>)
    ensures
        match r {
            Some(i) => i == job_pos(jobs@, id@) && i < jobs@.len(),
            None => job_pos(jobs@, id@) == jobs@.len(),
        },
{
    let mut i: usize = 0;
    while i < jobs.len()
        invariant
            i <= jobs@.len(),
            forall|k: int| 0 <= k < i ==> #[trigger] jobs@[k].id@ != id@,
        decreases jobs@.len() - i,
    {
        if str_eq(jobs[i].id.as_str(), id) {
            proof {
                let q = job_pos(jobs@, id@);
                assert(jobs@[i as int].id@ == id@);
                assert(0 <= q < jobs@.len() && jobs@[q].id@ == id@ && forall|k: int| 0 <= k < q ==> jobs@[k].id@ != id@);
                if q < i {
                    assert(jobs@[q].id@ != id@);
                } else if q > i {
                    assert(jobs@[i as int].id@ != id@);
                }
            }
            return Some(i);
        }
        i = i + 1;
    }
    proof {
        assert(!exists|q: int| 0 <= q < jobs@.len() && #[trigger] jobs@[q].id@ == id@ && forall|k: int| 0 <= k < q ==> jobs@[k].id@ != id@);
    }
    None
}

/// Which part of the update handles a message.
pub open spec fn message_group_spec(msg: Message) -> nat {
    match msg {
        Message::GatewayStatus(..) => 0,
        Message::GatewayStatusError(..) => 0,
        Message::AgentsLoaded(..) => 0,
        Message::AgentsError(..) => 0,
        Message::ReloadAgents => 0,
        Message::AgentSaved(..) => 0,
        Message::AgentSaveError(..) => 0,
        Message::SessionsLoaded(..) => 0,
        Message::SessionsError(..) => 0,
        Message::ReloadSessions => 0,
        Message::SessionCreated(..) => 0,
        Message::SessionCreateError(..) => 0,
        Message::VaultStatus(..) => 1,
        Message::VaultUnlocked => 1,
        Message::VaultLocked => 1,
        Message::VaultError(..) => 1,
        Message::EndpointsLoaded(..) => 1,
        Message::CredentialAdded(..) => 1,
        Message::CredentialAddError(..) => 1,
        Message::ModelsLoaded(..) => 1,
        Message::ReloadProviders => 1,
        Message::CredentialSchemasLoaded(..) => 1,
        Message::ChatResponse(..) => 2,
        Message::ChatAgentResponse(..) => 2,
        Message::ChatError(..) => 2,
        Message::ChatStreamChunk(..) => 2,
        Message::ChatTokenUsage { .. } => 2,
        Message::ChatThinkingStatus { .. } => 2,
        Message::SessionMessagesLoaded(..) => 2,
        Message::ButlerChunk(..) => 2,
        Message::ButlerDone(..) => 2,
        Message::ButlerError(..) => 2,
        Message::Navigate(..) => 3,
        Message::ToggleSidebar => 3,
        Message::CronJobsLoaded(..) => 3,
        Message::CronJobToggled(..) => 3,
        Message::CronJobDeleted(..) => 3,
        Message::CronJobError(..) => 3,
        Message::ContextFilesLoaded(..) => 3,
        Message::ContextFileLoaded(..) => 3,
        Message::ContextFileSaved(..) => 3,
        Message::ContextFileError(..) => 3,
        Message::SetStatus(..) => 3,
        Message::ClearStatus => 3,
        Message::Tick => 3,
        Message::Quit => 3,
        Message::KeybindingsReloaded(..) => 3,
    }
}

fn message_group(msg: &Message) -> (g: u8)
    ensures
        g == message_group_spec(*msg),
{
    match msg {
        Message::GatewayStatus(..) => 0,
        Message::GatewayStatusError(..) => 0,
        Message::AgentsLoaded(..) => 0,
        Message::AgentsError(..) => 0,
        Message::ReloadAgents => 0,
        Message::AgentSaved(..) => 0,
        Message::AgentSaveError(..) => 0,
        Message::SessionsLoaded(..) => 0,
        Message::SessionsError(..) => 0,
        Message::ReloadSessions => 0,
        Message::SessionCreated(..) => 0,
        Message::SessionCreateError(..) => 0,
        Message::VaultStatus(..) => 1,
        Message::VaultUnlocked => 1,
        Message::VaultLocked => 1,
        Message::VaultError(..) => 1,
        Message::EndpointsLoaded(..) => 1,
        Message::CredentialAdded(..) => 1,
        Message::CredentialAddError(..) => 1,
        Message::ModelsLoaded(..) => 1,
        Message::ReloadProviders => 1,
        Message::CredentialSchemasLoaded(..) => 1,
        Message::ChatResponse(..) => 2,
        Message::ChatAgentResponse(..) => 2,
        Message::ChatError(..) => 2,
        Message::ChatStreamChunk(..) => 2,
        Message::ChatTokenUsage { .. } => 2,
        Message::ChatThinkingStatus { .. } => 2,
        Message::SessionMessagesLoaded(..) => 2,
        Message::ButlerChunk(..) => 2,
        Message::ButlerDone(..) => 2,
        Message::ButlerError(..) => 2,
        Message::Navigate(..) => 3,
        Message::ToggleSidebar => 3,
        Message::CronJobsLoaded(..) => 3,
        Message::CronJobToggled(..) => 3,
        Message::CronJobDeleted(..) => 3,
        Message::CronJobError(..) => 3,
        Message::ContextFilesLoaded(..) => 3,
        Message::ContextFileLoaded(..) => 3,
        Message::ContextFileSaved(..) => 3,
        Message::ContextFileError(..) => 3,
        Message::SetStatus(..) => 3,
        Message::ClearStatus => 3,
        Message::Tick => 3,
        Message::Quit => 3,
        Message::KeybindingsReloaded(..) => 3,
    }
}

/// The state `a` after state `b` handled `msg`.
pub open spec fn updated(b: AppState, a: AppState, msg: Message) -> bool {
    match msg {
        Message::Navigate(item) => {
            &&& a == (AppState {
                menu_item: item,
                menu_index: menu_index(item) as usize,
                slot_bar: a.slot_bar,
                ..b
            })
            &&& a.slot_bar@.mode == menu_index(item)
            &&& a.slot_bar@.slots == rebuilt_slots(
                b.slot_bar@.slots.update(0, relabeled(b.slot_bar@.slots[0], menu_title(item))),
                item,
                b.agents@,
                b.sessions@,
            )
            &&& a.slot_bar@.active_slot == clamped_slot(b.slot_bar@.active_slot, a.slot_bar@.slots.len())
        },
        Message::ToggleSidebar => a == b,
        Message::GatewayStatus(status) => a == (AppState {
            gateway: status,
            gateway_loading: false,
            gateway_error: None,
            ..b
        }),
        Message::GatewayStatusError(err) => {
            &&& a == (AppState {
                gateway_loading: false,
                gateway_error: Some(err),
                alerts: a.alerts,
                ..b
            })
            &&& alert_pushed(b.alerts@, a.alerts@, AlertSeverity::Warning, "gateway"@, err@)
        },
        Message::AgentsLoaded(agents) => a == (AppState {
            agents,
            agents_loading: false,
            agents_error: None,
            ..b
        }),
        Message::AgentsError(err) => {
            &&& a == (AppState {
                agents_loading: false,
                agents_error: Some(err),
                alerts: a.alerts,
                ..b
            })
            &&& alert_pushed(b.alerts@, a.alerts@, AlertSeverity::Error, "agents"@, err@)
        },
        Message::ReloadAgents => a == (AppState { agents_loading: true, ..b }),
        Message::AgentSaved(id) => {
            &&& a == (AppState { status_message: a.status_message, ..b })
            &&& status_is(a.status_message, "Agent '"@ + id@ + "' saved"@, false)
        },
        Message::AgentSaveError(err) => {
            &&& a == (AppState { status_message: a.status_message, ..b })
            &&& status_is(a.status_message, "Failed to save agent: "@ + err@, true)
        },
        Message::SessionsLoaded(sessions) => a == (AppState {
            sessions,
            sessions_loading: false,
            sessions_error: None,
            ..b
        }),
        Message::SessionsError(err) => {
            &&& a == (AppState {
                sessions_loading: false,
                sessions_error: Some(err),
                alerts: a.alerts,
                ..b
            })
            &&& alert_pushed(b.alerts@, a.alerts@, AlertSeverity::Error, "sessions"@, err@)
        },
        Message::ReloadSessions => a == (AppState { sessions_loading: true, ..b }),
        Message::SessionCreated(id) => {
            &&& a == (AppState { status_message: a.status_message, ..b })
            &&& status_is(a.status_message, "Session '"@ + id@ + "' created"@, false)
        },
        Message::SessionCreateError(err) => {
            &&& a == (AppState { status_message: a.status_message, ..b })
            &&& status_is(a.status_message, "Failed to create session: "@ + err@, true)
        },
        Message::VaultStatus(status) => a == (AppState { vault: status, vault_loading: false, ..b }),
        Message::VaultUnlocked => a == (AppState { vault: VaultStatus { locked: false, ..b.vault }, ..b }),
        Message::VaultLocked => a == (AppState { vault: VaultStatus { locked: true, ..b.vault }, ..b }),
        Message::VaultError(err) => {
            &&& a == (AppState {
                vault_loading: false,
                alerts: a.alerts,
                status_message: a.status_message,
                ..b
            })
            &&& alert_pushed(b.alerts@, a.alerts@, AlertSeverity::Error, "vault"@, err@)
            &&& status_is(a.status_message, err@, true)
        },
        Message::EndpointsLoaded(endpoints) => a == (AppState { endpoints, ..b }),
        Message::CredentialAdded(name) => {
            &&& a == (AppState { status_message: a.status_message, ..b })
            &&& status_is(a.status_message, "✅ Added: "@ + name@, false)
        },
        Message::CredentialAddError(err) => {
            &&& a == (AppState { status_message: a.status_message, ..b })
            &&& status_is(a.status_message, "❌ Failed: "@ + err@, true)
        },
        Message::ModelsLoaded(providers) => a == (AppState { providers, ..b }),
        Message::ReloadProviders => a == b,
        Message::CredentialSchemasLoaded(credential_schemas) => a == (AppState { credential_schemas, ..b }),
        Message::ChatResponse(key, content) => {
            &&& a == (AppState { session_chats: a.session_chats, ..b })
            &&& chat_changed(
                b.session_chats@,
                a.session_chats@,
                key@,
                |pv: ChatView, av: ChatView| reply_received(pv, av, content@, None),
            )
        },
        Message::ChatAgentResponse(key, content, tool_calls) => {
            &&& a == (AppState { session_chats: a.session_chats, ..b })
            &&& chat_changed(
                b.session_chats@,
                a.session_chats@,
                key@,
                |pv: ChatView, av: ChatView| reply_received(pv, av, content@, Some(tool_calls@)),
            )
        },
        Message::ChatError(key, err) => {
            &&& a == (AppState { session_chats: a.session_chats, ..b })
            &&& chat_changed(
                b.session_chats@,
                a.session_chats@,
                key@,
                |pv: ChatView, av: ChatView| error_received(pv, av, "Error: "@ + err@),
            )
        },
        Message::ChatStreamChunk(chunk) => chunk_applied(b, a, chunk@),
        Message::ChatTokenUsage { session_key, prompt_tokens, completion_tokens, total_tokens, cumulative_total } => {
            &&& a == (AppState { session_chats: a.session_chats, ..b })
            &&& chat_changed(
                b.session_chats@,
                a.session_chats@,
                session_key@,
                |pv: ChatView, av: ChatView|
                    usage_recorded(pv, av, prompt_tokens, completion_tokens, cumulative_total),
            )
        },
        Message::ChatThinkingStatus { session_key, phase, tool_name, iteration } => {
            &&& a == (AppState { session_chats: a.session_chats, ..b })
            &&& chat_changed(
                b.session_chats@,
                a.session_chats@,
                session_key@,
                |pv: ChatView, av: ChatView|
                    status_recorded(pv, av, phase@, opt_chars(tool_name), iteration),
            )
        },
        Message::SessionMessagesLoaded(key, messages) => {
            &&& a == (AppState { session_chats: a.session_chats, ..b })
            &&& chat_changed(
                b.session_chats@,
                a.session_chats@,
                key@,
                |pv: ChatView, av: ChatView| av == (ChatView { messages: messages@, loaded: true, ..pv }),
            )
        },
        Message::CronJobsLoaded(cron_jobs) => a == (AppState { cron_jobs, cron_loading: false, ..b }),
        Message::CronJobToggled(id, enabled) => {
            let p = job_pos(b.cron_jobs@, id@);
            &&& a == (AppState { cron_jobs: a.cron_jobs, status_message: a.status_message, ..b })
            &&& a.cron_jobs@ == if p < b.cron_jobs@.len() {
                b.cron_jobs@.update(p, CronJobInfo { enabled, ..b.cron_jobs@[p] })
            } else {
                b.cron_jobs@
            }
            &&& status_is(
                a.status_message,
                "Cron job "@ + if enabled { "enabled"@ } else { "disabled"@ },
                false,
            )
        },
        Message::CronJobDeleted(id) => {
            &&& a == (AppState { cron_jobs: a.cron_jobs, status_message: a.status_message, ..b })
            &&& a.cron_jobs@ == jobs_without(b.cron_jobs@, id@)
            &&& status_is(a.status_message, "Cron job deleted"@, false)
        },
        Message::CronJobError(err) => {
            &&& a == (AppState {
                cron_loading: false,
                alerts: a.alerts,
                status_message: a.status_message,
                ..b
            })
            &&& alert_pushed(b.alerts@, a.alerts@, AlertSeverity::Error, "cron"@, err@)
            &&& status_is(a.status_message, err@, true)
        },
        Message::ContextFilesLoaded(agent_id, files) => match b.input_mode {
            InputMode::ViewContextFiles(st) => if st.agent_id@ == agent_id@ {
                a == (AppState {
                    input_mode: InputMode::ViewContextFiles(
                        ViewContextFilesState { files, loading: false, ..st },
                    ),
                    ..b
                })
            } else {
                a == b
            },
            _ => a == b,
        },
        Message::ContextFileLoaded(agent_id, filename, content) => a == (AppState {
            input_mode: InputMode::EditContextFile(
                EditContextFileState {
                    agent_id,
                    filename,
                    content,
                    cursor_line: 0,
                    cursor_col: 0,
                    scroll_offset: 0,
                    is_dirty: false,
                    is_loading: false,
                    is_new_file: content@.len() == 0,
                },
            ),
            ..b
        }),
        Message::ContextFileSaved(agent_id, filename) => {
            &&& status_is(a.status_message, "Saved "@ + filename@, false)
            &&& match b.input_mode {
                InputMode::EditContextFile(st) => if st.agent_id@ == agent_id@ && st.filename@ == filename@ {
                    a == (AppState {
                        input_mode: InputMode::EditContextFile(
                            EditContextFileState { is_dirty: false, is_new_file: false, ..st },
                        ),
                        status_message: a.status_message,
                        ..b
                    })
                } else {
                    a == (AppState { status_message: a.status_message, ..b })
                },
                _ => a == (AppState { status_message: a.status_message, ..b }),
            }
        },
        Message::ContextFileError(err) => a == (AppState { status_message: Some((err, true)), ..b }),
        Message::SetStatus(text, is_error) => a == (AppState { status_message: Some((text, is_error)), ..b }),
        Message::ClearStatus => a == (AppState { status_message: None, ..b }),
        Message::Tick => a == (AppState {
            tick_count: if b.tick_count == usize::MAX { 0 } else { (b.tick_count + 1) as usize },
            ..b
        }),
        Message::Quit => a == (AppState { should_exit: true, ..b }),
        Message::KeybindingsReloaded(_) => a == b,
        Message::ButlerChunk(text) => {
            &&& a == (AppState { butler_chat: a.butler_chat, ..b })
            &&& butler_chunk_received(b.butler_chat@, a.butler_chat@, text@)
        },
        Message::ButlerDone(text) => {
            &&& a == (AppState { butler_chat: a.butler_chat, ..b })
            &&& butler_done_received(b.butler_chat@, a.butler_chat@, text@)
        },
        Message::ButlerError(err) => {
            &&& a == (AppState { butler_chat: a.butler_chat, ..b })
            &&& error_received(b.butler_chat@, a.butler_chat@, "Butler error: "@ + err@)
        },
    }
}

impl AppState {
    /// The card bar has its mode card and no chat key occurs twice.
    pub open spec fn wf(&self) -> bool {
        &&& self.slot_bar.slots@.len() >= 1
        &&& keys_unique(self.session_chats@)
    }

    /// A fresh state on the dashboard, waiting for the gateway, agents and
    /// vault to load.
    pub fn new(
        config_path: String,
        vault_path: String,
        launch_dir: String,
        gateway_url: String,
        gateway_http_url: String,
    ) -> (s: AppState)
        ensures
            s.wf(),
            s.menu_item == MenuItem::Dashboard,
            s.menu_index == 0,
            s.slot_bar@.mode == 0,
            s.slot_bar@.active_slot == 0,
            s.config_path == config_path,
            s.vault_path == vault_path,
            s.launch_dir == launch_dir,
            s.gateway_url == gateway_url,
            s.gateway_http_url == gateway_http_url,
            !s.gateway.connected,
            s.gateway_loading,
            s.gateway_error is None,
            s.agents@.len() == 0,
            s.agents_loading,
            s.agents_error is None,
            s.selected_agent == 0,
            s.sessions@.len() == 0,
            !s.sessions_loading,
            s.sessions_error is None,
            s.selected_session == 0,
            s.butler_chat@ == fresh_chat(),
            s.session_chats@.len() == 0,
            s.chat_model is None,
            s.chat_agent_id is None,
            s.vault_loading,
            s.endpoints@.len() == 0,
            s.selected_endpoint == 0,
            s.selected_category == 0,
            s.selected_provider_index == 0,
            !s.provider_list_focus,
            s.credentials_tab == 0,
            s.permissions@.len() == 0,
            s.selected_permission == 0,
            s.providers@.len() == 0,
            s.selected_provider == 0,
            s.cron_jobs@.len() == 0,
            !s.cron_loading,
            s.selected_cron_job == 0,
            s.selected_cron_card == 0,
            s.gateway_load_history@.len() == 0,
            s.client_msg_history@.len() == 0,
            s.selected_settings_card == 0,
            s.selected_settings_field == 0,
            s.selected_font_field == 0,
            s.credential_schemas@.len() == 0,
            s.alerts@.len() == 0,
            s.status_message is None,
            !s.should_exit,
            s.tick_count == 0,
            s.input_mode is Normal,
            s.input_buffer@.len() == 0,
            s.input_cursor == 0,
    {
        let slot_bar = SlottedCardBar::new();
        assert(slot_bar.slots@.len() == slot_bar@.slots.len());
        AppState {
            menu_item: MenuItem::Dashboard,
            menu_index: 0,
            slot_bar,
            config_path,
            vault_path,
            launch_dir,
            gateway_url,
            gateway_http_url,
            gateway: GatewayStatus::default(),
            gateway_loading: true,
            gateway_error: None,
            agents: Vec::new(),
            agents_loading: true,
            agents_error: None,
            selected_agent: 0,
            sessions: Vec::new(),
            sessions_loading: false,
            sessions_error: None,
            selected_session: 0,
            butler_chat: SessionChatState::default(),
            session_chats: Vec::new(),
            chat_model: None,
            chat_agent_id: None,
            vault: VaultStatus::default(),
            vault_loading: true,
            endpoints: Vec::new(),
            selected_endpoint: 0,
            selected_category: 0,
            selected_provider_index: 0,
            provider_list_focus: false,
            credentials_tab: 0,
            permissions: Vec::new(),
            selected_permission: 0,
            providers: Vec::new(),
            selected_provider: 0,
            cron_jobs: Vec::new(),
            cron_loading: false,
            selected_cron_job: 0,
            selected_cron_card: 0,
            gateway_load_history: std::collections::VecDeque::new(),
            client_msg_history: std::collections::VecDeque::new(),
            selected_settings_card: 0,
            selected_settings_field: 0,
            selected_font_field: 0,
            credential_schemas: Vec::new(),
            alerts: Vec::new(),
            status_message: None,
            should_exit: false,
            tick_count: 0,
            input_mode: InputMode::Normal,
            input_buffer: String::new(),
            input_cursor: 0,
        }
    }

    /// Raise an alert; only the most recent ones are kept.
    pub fn push_alert(&mut self, severity: AlertSeverity, source: &str, message: String)
        ensures
            *final(self) == (AppState { alerts: final(self).alerts, ..*old(self) }),
            alert_pushed(old(self).alerts@, final(self).alerts@, severity, source@, message@),
    {
        let timestamp = utc_now_millis();
        self.alerts.push(AlertItem { severity, message, source: string_of(source), timestamp });
        if self.alerts.len() > MAX_ALERTS {
            self.alerts.remove(0);
        }
    }

    /// Position of the chat of `key`, adding a fresh chat for it if it has
    /// none.
    pub fn chat_entry(&mut self, key: &str) -> (p: usize)
        requires
            old(self).wf(),
        ensures
            final(self).wf(),
            p == chat_pos(old(self).session_chats@, key@),
            p < final(self).session_chats@.len(),
            *final(self) == (AppState { session_chats: final(self).session_chats, ..*old(self) }),
            final(self).session_chats@[p as int].key@ == key@,
            final(self).session_chats@[p as int].state@ == prior_chat(old(self).session_chats@, key@),
            final(self).session_chats@.len() == if p < old(self).session_chats@.len() {
                old(self).session_chats@.len()
            } else {
                old(self).session_chats@.len() + 1
            },
            forall|j: int|
                0 <= j < old(self).session_chats@.len() ==> #[trigger] final(self).session_chats@[j]
                    == old(self).session_chats@[j],
    {
        let mut i: usize = 0;
        while i < self.session_chats.len()
            invariant
                i <= self.session_chats@.len(),
                *self == *old(self),
                self.wf(),
                forall|j: int| 0 <= j < i ==> #[trigger] self.session_chats@[j].key@ != key@,
            decreases self.session_chats@.len() - i,
        {
            if str_eq(self.session_chats[i].key.as_str(), key) {
                proof {
                    let c = self.session_chats@;
                    assert(c[i as int].key@ == key@);
                    let q = choose|q: int| 0 <= q < c.len() && #[trigger] c[q].key@ == key@;
                    assert(c[q].key@ == key@);
                    if q < i {
                        assert(false);
                    } else if q > i {
                        assert(c[i as int].key@ != c[q].key@);
                    }
                }
                return i;
            }
            i = i + 1;
        }
        proof {
            assert(!exists|q: int| 0 <= q < self.session_chats@.len() && #[trigger] self.session_chats@[q].key@ == key@);
        }
        let entry = SessionChatEntry { key: string_of(key), state: SessionChatState::default() };
        self.session_chats.push(entry);
        proof {
            let c = self.session_chats@;
            assert forall|a: int, b: int| 0 <= a < b < c.len() implies #[trigger] c[a].key@ != #[trigger] c[b].key@ by {
                if b == c.len() - 1 {
                    assert(old(self).session_chats@[a].key@ != key@);
                }
            }
        }
        i
    }
}

/// Changing the chat at `p` without touching its key keeps keys unique.
pub(crate) proof fn lemma_keys_kept(b: Seq<SessionChatEntry>, a: Seq<SessionChatEntry>, p: int)
    requires
        keys_unique(b),
        a.len() == b.len(),
        0 <= p < b.len(),
        a[p].key == b[p].key,
        forall|j: int| 0 <= j < b.len() && j != p ==> #[trigger] a[j] == b[j],
    ensures
        keys_unique(a),
{
    assert forall|i: int, j: int| 0 <= i < j < a.len() implies #[trigger] a[i].key@ != #[trigger] a[j].key@ by {
        assert(b[i].key@ != b[j].key@);
        if i == p {
            assert(a[j] == b[j]);
        } else if j == p {
            assert(a[i] == b[i]);
        } else {
            assert(a[i] == b[i]);
            assert(a[j] == b[j]);
        }
    }
}

impl AppState {
    /// Show `text` on the status line.
    fn set_status(&mut self, text: String, is_error: bool)
        ensures
            *final(self) == (AppState { status_message: Some((text, is_error)), ..*old(self) }),
    {
        self.status_message = Some((text, is_error));
    }

    /// Go to a page: the menu and the card bar follow it.
    pub(crate) fn navigate(&mut self, item: MenuItem)
        requires
            old(self).wf(),
        ensures
            final(self).wf(),
            updated(*old(self), *final(self), Message::Navigate(item)),
    {
        let ghost b = *self;
        self.menu_item = item;
        self.menu_index = item.index();
        self.slot_bar.mode = item.index();
        self.slot_bar.slots[0].label = string_of(item.title());
        proof {
            assert(self.slot_bar@.slots =~= b.slot_bar@.slots.update(
                0,
                relabeled(b.slot_bar@.slots[0], menu_title(item)),
            ));
            crate::menu::lemma_menu_index_roundtrip(item, 0);
        }
        self.slot_bar.rebuild_content_slots(&self.agents, &self.sessions);
        proof {
            assert(self.slot_bar.slots@.len() == self.slot_bar@.slots.len());
        }
    }

    /// Apply an update to the chat of `key`, made if missing.
    fn chat_updated_at(&mut self, key: &str) -> (p: usize)
        requires
            old(self).wf(),
        ensures
            final(self).wf(),
            p == chat_pos(old(self).session_chats@, key@),
            p < final(self).session_chats@.len(),
            *final(self) == (AppState { session_chats: final(self).session_chats, ..*old(self) }),
            final(self).session_chats@[p as int].key@ == key@,
            final(self).session_chats@[p as int].state@ == prior_chat(old(self).session_chats@, key@),
            final(self).session_chats@.len() == if p < old(self).session_chats@.len() {
                old(self).session_chats@.len()
            } else {
                old(self).session_chats@.len() + 1
            },
            forall|j: int|
                0 <= j < old(self).session_chats@.len() ==> #[trigger] final(self).session_chats@[j]
                    == old(self).session_chats@[j],
    {
        self.chat_entry(key)
    }

    /// Apply `msg` to the state.
    pub fn update(&mut self, msg: Message)
        requires
            old(self).wf(),
        ensures
            final(self).wf(),
            updated(*old(self), *final(self), msg),
    {
        let g = message_group(&msg);
        if g == 0 {
            self.update_gateway(msg);
        } else if g == 1 {
            self.update_vault(msg);
        } else if g == 2 {
            self.update_chat(msg);
        } else {
            self.update_other(msg);
        }
    }

    /// Messages about the gateway, agents and sessions.
    #[verifier::rlimit(40)]
    fn update_gateway(&mut self, msg: Message)
        requires
            old(self).wf(),
            message_group_spec(msg) == 0,
        ensures
            final(self).wf(),
            updated(*old(self), *final(self), msg),
    {
        match msg {
            Message::GatewayStatus(status) => {
                self.gateway = status;
                self.gateway_loading = false;
                self.gateway_error = None;
            },
            Message::GatewayStatusError(err) => {
                self.gateway_loading = false;
                self.push_alert(AlertSeverity::Warning, "gateway", err.clone());
                self.gateway_error = Some(err);
            },
            Message::AgentsLoaded(agents) => {
                self.agents = agents;
                self.agents_loading = false;
                self.agents_error = None;
            },
            Message::AgentsError(err) => {
                self.agents_loading = false;
                self.push_alert(AlertSeverity::Error, "agents", err.clone());
                self.agents_error = Some(err);
            },
            Message::ReloadAgents => {
                self.agents_loading = true;
            },
            Message::AgentSaved(id) => {
                self.set_status(joined("Agent '", id.as_str(), "' saved"), false);
            },
            Message::AgentSaveError(err) => {
                self.set_status(prefixed("Failed to save agent: ", err.as_str()), true);
            },
            Message::SessionsLoaded(sessions) => {
                self.sessions = sessions;
                self.sessions_loading = false;
                self.sessions_error = None;
            },
            Message::SessionsError(err) => {
                self.sessions_loading = false;
                self.push_alert(AlertSeverity::Error, "sessions", err.clone());
                self.sessions_error = Some(err);
            },
            Message::ReloadSessions => {
                self.sessions_loading = true;
            },
            Message::SessionCreated(id) => {
                self.set_status(joined("Session '", id.as_str(), "' created"), false);
            },
            Message::SessionCreateError(err) => {
                self.set_status(prefixed("Failed to create session: ", err.as_str()), true);
            },
            _ => {},
        }
    }

    /// Messages about the vault, credentials and models.
    #[verifier::rlimit(40)]
    fn update_vault(&mut self, msg: Message)
        requires
            old(self).wf(),
            message_group_spec(msg) == 1,
        ensures
            final(self).wf(),
            updated(*old(self), *final(self), msg),
    {
        match msg {
            Message::ReloadProviders => {},
            Message::VaultStatus(status) => {
                self.vault = status;
                self.vault_loading = false;
            },
            Message::VaultUnlocked => {
                self.vault.locked = false;
            },
            Message::VaultLocked => {
                self.vault.locked = true;
            },
            Message::VaultError(err) => {
                self.vault_loading = false;
                self.push_alert(AlertSeverity::Error, "vault", err.clone());
                self.set_status(err, true);
            },
            Message::EndpointsLoaded(endpoints) => {
                self.endpoints = endpoints;
            },
            Message::CredentialAdded(name) => {
                self.set_status(prefixed("✅ Added: ", name.as_str()), false);
            },
            Message::CredentialAddError(err) => {
                self.set_status(prefixed("❌ Failed: ", err.as_str()), true);
            },
            Message::ModelsLoaded(providers) => {
                self.providers = providers;
            },
            Message::CredentialSchemasLoaded(schemas) => {
                self.credential_schemas = schemas;
            },
            _ => {},
        }
    }

    /// Messages about the chats.
    #[verifier::rlimit(40)]
    fn update_chat(&mut self, msg: Message)
        requires
            old(self).wf(),
            message_group_spec(msg) == 2,
        ensures
            final(self).wf(),
            updated(*old(self), *final(self), msg),
    {
        match msg {
            Message::ChatResponse(key, content) => {
                self.chat_reply(key.as_str(), content, None);
            },
            Message::ChatAgentResponse(key, content, tool_calls) => {
                self.chat_reply(key.as_str(), content, Some(tool_calls));
            },
            Message::ChatError(key, err) => {
                self.chat_error(key.as_str(), err.as_str());
            },
            Message::ChatStreamChunk(chunk) => {
                self.chat_chunk(chunk.as_str());
            },
            Message::ChatTokenUsage {
                session_key,
                prompt_tokens,
                completion_tokens,
                total_tokens,
                cumulative_total,
            } => {
                self.chat_usage(session_key.as_str(), prompt_tokens, completion_tokens, cumulative_total);
            },
            Message::ChatThinkingStatus { session_key, phase, tool_name, iteration } => {
                self.chat_status(session_key.as_str(), phase, tool_name, iteration);
            },
            Message::SessionMessagesLoaded(key, messages) => {
                self.chat_history(key.as_str(), messages);
            },
            Message::ButlerChunk(text) => {
                self.butler_chat.butler_chunk(text);
            },
            Message::ButlerDone(text) => {
                self.butler_chat.butler_done(text);
            },
            Message::ButlerError(err) => {
                self.butler_chat.receive_error("Butler error: ", err.as_str());
            },

            _ => {},
        }
    }

    /// Navigation, cron jobs, context files, the status line and the rest.
    #[verifier::rlimit(40)]
    fn update_other(&mut self, msg: Message)
        requires
            old(self).wf(),
            message_group_spec(msg) == 3,
        ensures
            final(self).wf(),
            updated(*old(self), *final(self), msg),
    {
        match msg {
            Message::Navigate(item) => {
                self.navigate(item);
            },
            Message::ToggleSidebar => {},
            Message::ContextFilesLoaded(agent_id, files) => {
                self.context_files_loaded(agent_id, files);
            },
            Message::ContextFileLoaded(agent_id, filename, content) => {
                self.input_mode = InputMode::EditContextFile(
                    EditContextFileState::new(agent_id, filename, content),
                );
            },
            Message::ContextFileSaved(agent_id, filename) => {
                self.context_file_saved(agent_id, filename);
            },
            Message::ContextFileError(err) => {
                self.set_status(err, true);
            },
            Message::CronJobsLoaded(jobs) => {
                self.cron_jobs = jobs;
                self.cron_loading = false;
            },
            Message::CronJobToggled(job_id, enabled) => {
                self.cron_job_toggled(job_id.as_str(), enabled);
            },
            Message::CronJobDeleted(job_id) => {
                self.cron_job_deleted(job_id.as_str());
            },
            Message::CronJobError(err) => {
                self.cron_loading = false;
                self.push_alert(AlertSeverity::Error, "cron", err.clone());
                self.set_status(err, true);
            },
            Message::SetStatus(text, is_error) => {
                self.set_status(text, is_error);
            },
            Message::ClearStatus => {
                self.status_message = None;
            },
            Message::Tick => {
                self.tick_count = self.tick_count.wrapping_add(1);
            },
            Message::Quit => {
                self.should_exit = true;
            },
            Message::KeybindingsReloaded(_) => {},
            _ => {},
        }
    }
}

impl AppState {
    /// A reply arrived for the chat of `key`.
    fn chat_reply(&mut self, key: &str, content: String, tool_calls: Option<Vec<ToolCallInfo>>)
        requires
            old(self).wf(),
        ensures
            final(self).wf(),
            *final(self) == (AppState { session_chats: final(self).session_chats, ..*old(self) }),
            chat_changed(
                old(self).session_chats@,
                final(self).session_chats@,
                key@,
                |pv: ChatView, av: ChatView|
                    reply_received(
                        pv,
                        av,
                        content@,
                        match tool_calls {
                            Some(t) => Some(t@),
                            None => None,
                        },
                    ),
            ),
    {
        let p = self.chat_updated_at(key);
        let ghost mid = self.session_chats@;
        self.session_chats[p].state.receive_reply(content, tool_calls);
        proof {
            lemma_keys_kept(mid, self.session_chats@, p as int);
        }
    }

    /// An error arrived for the chat of `key`.
    fn chat_error(&mut self, key: &str, err: &str)
        requires
            old(self).wf(),
        ensures
            final(self).wf(),
            *final(self) == (AppState { session_chats: final(self).session_chats, ..*old(self) }),
            chat_changed(
                old(self).session_chats@,
                final(self).session_chats@,
                key@,
                |pv: ChatView, av: ChatView| error_received(pv, av, "Error: "@ + err@),
            ),
    {
        let p = self.chat_updated_at(key);
        let ghost mid = self.session_chats@;
        self.session_chats[p].state.receive_error("Error: ", err);
        proof {
            lemma_keys_kept(mid, self.session_chats@, p as int);
        }
    }

    /// A streamed chunk "key:text" arrived.
    fn chat_chunk(&mut self, chunk: &str)
        requires
            old(self).wf(),
        ensures
            final(self).wf(),
            chunk_applied(*old(self), *final(self), chunk@),
    {
        let chars = chars_of(chunk);
        match find_char(&chars, ':') {
            Some(p) => {
                proof {
                    lemma_first_index(chunk@, ':', p as int);
                    assert(chunk@.contains(':'));
                }
                let key = string_from_chars(&chars, 0, p);
                let text = string_from_chars(&chars, p + 1, chars.len());
                proof {
                    assert(key@ =~= chunk@.take(p as int));
                    assert(text@ =~= chunk@.skip(p + 1));
                }
                let q = self.chat_updated_at(key.as_str());
                let ghost mid = self.session_chats@;
                self.session_chats[q].state.receive_chunk(text.as_str());
                proof {
                    lemma_keys_kept(mid, self.session_chats@, q as int);
                }
            },
            None => {
                proof {
                    if chunk@.contains(':') {
                        let k = choose|k: int| 0 <= k < chunk@.len() && chunk@[k] == ':';
                        assert(chars@[k] == ':');
                    }
                }
            },
        }
    }

    /// A token usage report arrived for the chat of `key`.
    fn chat_usage(&mut self, key: &str, prompt_tokens: u64, completion_tokens: u64, cumulative_total: u64)
        requires
            old(self).wf(),
        ensures
            final(self).wf(),
            *final(self) == (AppState { session_chats: final(self).session_chats, ..*old(self) }),
            chat_changed(
                old(self).session_chats@,
                final(self).session_chats@,
                key@,
                |pv: ChatView, av: ChatView|
                    usage_recorded(pv, av, prompt_tokens, completion_tokens, cumulative_total),
            ),
    {
        let p = self.chat_updated_at(key);
        let ghost mid = self.session_chats@;
        self.session_chats[p].state.record_token_usage(prompt_tokens, completion_tokens, cumulative_total);
        proof {
            lemma_keys_kept(mid, self.session_chats@, p as int);
        }
    }

    /// A processing phase report arrived for the chat of `key`.
    fn chat_status(&mut self, key: &str, phase: String, tool_name: Option<String>, iteration: Option<usize>)
        requires
            old(self).wf(),
        ensures
            final(self).wf(),
            *final(self) == (AppState { session_chats: final(self).session_chats, ..*old(self) }),
            chat_changed(
                old(self).session_chats@,
                final(self).session_chats@,
                key@,
                |pv: ChatView, av: ChatView|
                    status_recorded(pv, av, phase@, opt_chars(tool_name), iteration),
            ),
    {
        let p = self.chat_updated_at(key);
        let ghost mid = self.session_chats@;
        self.session_chats[p].state.record_thinking_status(phase, tool_name, iteration);
        proof {
            lemma_keys_kept(mid, self.session_chats@, p as int);
        }
    }

    /// The history of the chat of `key` arrived.
    fn chat_history(&mut self, key: &str, messages: Vec<ChatMessage>)
        requires
            old(self).wf(),
        ensures
            final(self).wf(),
            *final(self) == (AppState { session_chats: final(self).session_chats, ..*old(self) }),
            chat_changed(
                old(self).session_chats@,
                final(self).session_chats@,
                key@,
                |pv: ChatView, av: ChatView| av == (ChatView { messages: messages@, loaded: true, ..pv }),
            ),
    {
        let p = self.chat_updated_at(key);
        let ghost mid = self.session_chats@;
        self.session_chats[p].state.messages = messages;
        self.session_chats[p].state.loaded = true;
        proof {
            lemma_keys_kept(mid, self.session_chats@, p as int);
        }
    }

    /// The context files of an agent arrived: shown if its file browser is open.
    fn context_files_loaded(&mut self, agent_id: String, files: Vec<ContextFileInfo>)
        ensures
            updated(*old(self), *final(self), Message::ContextFilesLoaded(agent_id, files)),
    {
        match &mut self.input_mode {
            InputMode::ViewContextFiles(state) => {
                if state.agent_id == agent_id {
                    state.files = files;
                    state.loading = false;
                }
            },
            _ => {},
        }
    }

    /// A context file was saved: noted, and its editor is clean if open.
    fn context_file_saved(&mut self, agent_id: String, filename: String)
        ensures
            updated(*old(self), *final(self), Message::ContextFileSaved(agent_id, filename)),
    {
        self.set_status(prefixed("Saved ", filename.as_str()), false);
        match &mut self.input_mode {
            InputMode::EditContextFile(state) => {
                if state.agent_id == agent_id && state.filename == filename {
                    state.is_dirty = false;
                    state.is_new_file = false;
                }
            },
            _ => {},
        }
    }

    /// A cron job was enabled or disabled.
    fn cron_job_toggled(&mut self, job_id: &str, enabled: bool)
        ensures
            *final(self) == (AppState {
                cron_jobs: final(self).cron_jobs,
                status_message: final(self).status_message,
                ..*old(self)
            }),
            final(self).cron_jobs@ == if job_pos(old(self).cron_jobs@, job_id@) < old(self).cron_jobs@.len() {
                old(self).cron_jobs@.update(
                    job_pos(old(self).cron_jobs@, job_id@),
                    CronJobInfo { enabled, ..old(self).cron_jobs@[job_pos(old(self).cron_jobs@, job_id@)] },
                )
            } else {
                old(self).cron_jobs@
            },
            status_is(
                final(self).status_message,
                "Cron job "@ + if enabled { "enabled"@ } else { "disabled"@ },
                false,
            ),
    {
        let found = find_job(&self.cron_jobs, job_id);
        match found {
            Some(i) => {
                self.cron_jobs[i].enabled = enabled;
            },
            None => {},
        }
        let label = if enabled { "enabled" } else { "disabled" };
        self.set_status(prefixed("Cron job ", label), false);
    }

    /// A cron job was deleted.
    fn cron_job_deleted(&mut self, job_id: &str)
        ensures
            *final(self) == (AppState {
                cron_jobs: final(self).cron_jobs,
                status_message: final(self).status_message,
                ..*old(self)
            }),
            final(self).cron_jobs@ == jobs_without(old(self).cron_jobs@, job_id@),
            status_is(final(self).status_message, "Cron job deleted"@, false),
    {
        let ghost jobs = self.cron_jobs@;
        let mut kept: Vec<CronJobInfo> = Vec::new();
        let mut old_jobs: Vec<CronJobInfo> = Vec::new();
        std::mem::swap(&mut old_jobs, &mut self.cron_jobs);
        let mut i: usize = 0;
        while i < old_jobs.len()
            invariant
                i <= old_jobs@.len(),
                old_jobs@ == jobs,
                kept@ == jobs_without(jobs.take(i as int), job_id@),
            decreases old_jobs@.len() - i,
        {
            proof {
                assert(jobs.take(i + 1).drop_last() =~= jobs.take(i as int));
                reveal_with_fuel(Seq::filter, 1);
            }
            if !str_eq(old_jobs[i].id.as_str(), job_id) {
                kept.push(old_jobs[i].clone());
            }
            i = i + 1;
        }
        proof {
            assert(jobs.take(jobs.len() as int) =~= jobs);
        }
        self.cron_jobs = kept;
        self.set_status(string_of("Cron job deleted"), false);
    }
}

} // verus!
