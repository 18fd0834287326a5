//! The page actions of normal mode (add, delete, edit, view, kill,
//! permissions, chat, refresh and the vault actions): which dialog each
//! opens on the current page, and what it hands to the caller.

use vstd::prelude::*;
use crate::agent_form::{EditAgentState, is_agent_edit_form, is_new_agent_form, models_populated};
use crate::app_state::{AppState, chat_changed, chat_pos, status_is};
use crate::chat_state::ChatView;
use crate::credential_forms::{AddCredentialState, AddCredentialView, endpoint_fields};
use crate::effect::{Effect, ReloadTarget};
use crate::form_keys::first_agent_model;
use crate::schemas::opt_view;
use crate::menu::MenuItem;
use crate::model::{AgentInfo, ModelProvider};
use crate::modes::{ConfirmAction, InputMode, PasswordAction};
use crate::permission_form::{EditPermissionState, is_new_rule_editor, is_rule_editor};
use crate::provider_form::{EditProviderState, is_builtin_provider_form, is_schema_form};
use crate::schemas::CredentialSchemaInfo;
use crate::session_form::{CreateSessionState, is_new_session_form};
use crate::text::{blank_values, chars_of, starts_with, str_eq, string_from_chars, string_of};
use crate::editor::{
    byte_len, char_at_byte, char_at_byte_from, char_width, lemma_byte_len_monotone, lemma_byte_len_take,
};
use crate::model::UnlockMethod;

verus! {

broadcast use vstd::string::group_string_axioms;

/// Whether any model provider is available.
pub open spec fn any_provider(providers: Seq<ModelProvider>) -> bool {
    exists|i: int| 0 <= i < providers.len() && #[trigger] providers[i].available
}

/// The status shown when no model provider is available.
pub open spec fn no_provider_text() -> Seq<char> {
    "No LLM providers available — configure one in Models or Credentials → Providers"@
}

/// The state after asking for a new session: the session form opens when
/// a model provider is available, else the status line says there is none.
pub open spec fn new_session_opened(b: AppState, a: AppState) -> bool {
    if any_provider(b.providers@) {
        &&& a == (AppState { input_mode: a.input_mode, ..b })
        &&& a.input_mode matches InputMode::CreateSession(c) && is_new_session_form(c, b.providers@, b.agents@)
    } else {
        a == (AppState { status_message: a.status_message, ..b }) && status_is(a.status_message, no_provider_text(), true)
    }
}

/// A new-agent form with the providers' models in its picker.
pub open spec fn is_new_agent_picker(e: EditAgentState, providers: Seq<ModelProvider>) -> bool {
    exists|f: EditAgentState| is_new_agent_form(f) && #[trigger] models_populated(f, e, providers)
}

/// An agent's edit form with the providers' models in its picker.
pub open spec fn is_agent_edit_picker(e: EditAgentState, agent: AgentInfo, providers: Seq<ModelProvider>) -> bool {
    exists|f: EditAgentState| is_agent_edit_form(f, agent) && #[trigger] models_populated(f, e, providers)
}

/// The generic add-credential form: API key service, on the type selector.
pub open spec fn is_api_key_form(v: AddCredentialView) -> bool {
    v == (AddCredentialView {
        field_index: 1,
        name: Seq::<char>::empty(),
        endpoint_type: 3,
        field_values: blank_values(endpoint_fields(3).len()),
    })
}

/// The state after the add action: on Agents a new-agent form; on
/// Sessions a new session; on Credentials with the vault open, the
/// selected provider's form on the providers tab (when it has a schema),
/// else the generic credential form. Elsewhere nothing changes.
pub open spec fn add_done(b: AppState, a: AppState) -> bool {
    match b.menu_item {
        MenuItem::Agents => {
            &&& a == (AppState { input_mode: a.input_mode, ..b })
            &&& a.input_mode matches InputMode::AddAgent(e) && is_new_agent_picker(e, b.providers@)
        },
        MenuItem::Sessions => new_session_opened(b, a),
        MenuItem::Credentials => if b.vault.initialized && !b.vault.locked {
            &&& a == (AppState { input_mode: a.input_mode, ..b })
            &&& if b.credentials_tab == 1 && b.selected_provider_index < b.credential_schemas@.len() {
                a.input_mode matches InputMode::EditProvider(e) && is_schema_form(
                    e@,
                    b.credential_schemas@[b.selected_provider_index as int],
                    b.selected_provider_index as nat,
                )
            } else {
                a.input_mode matches InputMode::AddCredential(e) && is_api_key_form(e@)
            }
        } else {
            a == b
        },
        _ => a == b,
    }
}

/// A confirmation asking `text` before `action`.
pub open spec fn asks(m: InputMode, text: Seq<char>, action: spec_fn(ConfirmAction) -> bool) -> bool {
    m matches InputMode::Confirm { message, action: act } && message@ == text && action(act)
}

/// The state after the delete action: a confirmation for the selected
/// endpoint, agent, session or cron job; without one, or elsewhere,
/// nothing changes.
pub open spec fn delete_done(b: AppState, a: AppState) -> bool {
    let framed = a == (AppState { input_mode: a.input_mode, ..b });
    match b.menu_item {
        MenuItem::Credentials => if b.selected_endpoint < b.endpoints@.len() {
            let ep = b.endpoints@[b.selected_endpoint as int];
            framed && asks(
                a.input_mode,
                "Delete '"@ + ep.name@ + "'?"@,
                |c: ConfirmAction| c matches ConfirmAction::DeleteEndpoint(id) && id@ == ep.id@,
            )
        } else {
            a == b
        },
        MenuItem::Agents => if b.selected_agent < b.agents@.len() {
            let ag = b.agents@[b.selected_agent as int];
            framed && asks(
                a.input_mode,
                "Disable agent '"@ + ag.id@ + "'?"@,
                |c: ConfirmAction| c matches ConfirmAction::DeleteAgent(id) && id@ == ag.id@,
            )
        } else {
            a == b
        },
        MenuItem::Sessions => if b.selected_session < b.sessions@.len() {
            let se = b.sessions@[b.selected_session as int];
            framed && asks(
                a.input_mode,
                "Archive session '"@ + se.key@ + "'?"@,
                |c: ConfirmAction| c matches ConfirmAction::KillSession(k) && k@ == se.key@,
            )
        } else {
            a == b
        },
        MenuItem::CronJobs => if b.selected_cron_job < b.cron_jobs@.len() {
            let job = b.cron_jobs@[b.selected_cron_job as int];
            framed && asks(
                a.input_mode,
                "Delete cron job '"@ + job.name@ + "'?"@,
                |c: ConfirmAction| c matches ConfirmAction::DeleteCronJob(id) && id@ == job.id@,
            )
        } else {
            a == b
        },
        _ => a == b,
    }
}

/// The credential schema whose provider id is `id`, if any: the first.
pub open spec fn schema_for(schemas: Seq<CredentialSchemaInfo>, id: Seq<char>) -> Option<CredentialSchemaInfo>
    decreases schemas.len(),
{
    if schemas.len() == 0 {
        None
    } else if schemas[0].provider_id@ == id {
        Some(schemas[0])
    } else {
        schema_for(schemas.drop_first(), id)
    }
}

/// The state and action after the edit action: on Agents the selected
/// agent's form; on Cron Jobs the selected job is switched on or off by the
/// caller; on Models the selected provider's form, from its schema when it
/// has one. Elsewhere, or without a selection, nothing changes.
pub open spec fn edit_done(b: AppState, a: AppState, r: Effect) -> bool {
    match b.menu_item {
        MenuItem::Agents => if b.selected_agent < b.agents@.len() {
            &&& r == Effect::Nothing
            &&& a == (AppState { input_mode: a.input_mode, ..b })
            &&& a.input_mode matches InputMode::EditAgent(e) && is_agent_edit_picker(
                e,
                b.agents@[b.selected_agent as int],
                b.providers@,
            )
        } else {
            r == Effect::Nothing && a == b
        },
        MenuItem::CronJobs => if b.selected_cron_job < b.cron_jobs@.len() {
            let job = b.cron_jobs@[b.selected_cron_job as int];
            a == b && (r matches Effect::ToggleCronJob(id, on) && id@ == job.id@ && on == !job.enabled)
        } else {
            r == Effect::Nothing && a == b
        },
        MenuItem::Models => {
            let idx = b.selected_provider;
            let schema = if idx < b.providers@.len() {
                schema_for(b.credential_schemas@, b.providers@[idx as int].id@)
            } else {
                None
            };
            &&& r == Effect::Nothing
            &&& a == (AppState { input_mode: a.input_mode, ..b })
            &&& a.input_mode matches InputMode::EditProvider(e) && match schema {
                Some(s) => is_schema_form(e@, s, idx as nat),
                None => is_builtin_provider_form(e@, idx as nat),
            }
        },
        _ => r == Effect::Nothing && a == b,
    }
}

/// The state and action after the view action: on Sessions the selected
/// session's details open and are loaded by the caller, or the status line
/// says none is selected. Elsewhere nothing changes.
pub open spec fn view_done(b: AppState, a: AppState, r: Effect) -> bool {
    if b.menu_item == MenuItem::Sessions {
        if b.selected_session < b.sessions@.len() {
            let key = b.sessions@[b.selected_session as int].key@;
            &&& a == (AppState { input_mode: a.input_mode, ..b })
            &&& a.input_mode matches InputMode::ViewSession { session_key } && session_key@ == key
            &&& r matches Effect::LoadSessionDetails(k) && k@ == key
        } else {
            &&& r == Effect::Nothing
            &&& a == (AppState { status_message: a.status_message, ..b })
            &&& status_is(a.status_message, "No session selected"@, true)
        }
    } else {
        r == Effect::Nothing && a == b
    }
}

/// The state after the kill action: on Sessions a confirmation for the
/// selected session, or the status line says none is selected. Elsewhere
/// nothing changes.
pub open spec fn kill_done(b: AppState, a: AppState) -> bool {
    if b.menu_item == MenuItem::Sessions {
        if b.selected_session < b.sessions@.len() {
            let se = b.sessions@[b.selected_session as int];
            &&& a == (AppState { input_mode: a.input_mode, ..b })
            &&& asks(
                a.input_mode,
                "Kill session '"@ + se.key@ + "'?"@,
                |c: ConfirmAction| c matches ConfirmAction::KillSession(k) && k@ == se.key@,
            )
        } else {
            a == (AppState { status_message: a.status_message, ..b }) && status_is(
                a.status_message,
                "No session selected"@,
                true,
            )
        }
    } else {
        a == b
    }
}

/// The state after the permissions action, on Credentials with endpoints:
/// on the permissions tab the selected rule opens in the editor; elsewhere
/// a new rule opens, on the selected endpoint when on the endpoints tab.
/// Otherwise nothing changes.
pub open spec fn permission_action_done(b: AppState, a: AppState) -> bool {
    if b.menu_item != MenuItem::Credentials || b.endpoints@.len() == 0 {
        a == b
    } else if b.credentials_tab == 2 && b.permissions@.len() > 0 {
        if b.selected_permission < b.permissions@.len() {
            &&& a == (AppState { input_mode: a.input_mode, ..b })
            &&& a.input_mode matches InputMode::EditPermission(e) && is_rule_editor(
                e,
                b.permissions@[b.selected_permission as int],
                b.endpoints@,
                b.agents@,
            )
        } else {
            a == b
        }
    } else {
        &&& a == (AppState { input_mode: a.input_mode, ..b })
        &&& a.input_mode matches InputMode::EditPermission(e) && is_new_rule_editor(
            e,
            b.endpoints@,
            b.agents@,
            if b.credentials_tab == 0 { Some(b.selected_endpoint) } else { None },
        )
    }
}

/// The state and action after a refresh: the status line says what is
/// reloaded, and the caller reloads it: on Settings the gateway restarts;
/// on Agents, Sessions and Cron Jobs their lists; elsewhere everything.
pub open spec fn refresh_done(b: AppState, a: AppState, r: Effect) -> bool {
    let (text, target) = match b.menu_item {
        MenuItem::Settings => ("Restarting gateway..."@, ReloadTarget::RestartGateway),
        MenuItem::Agents => ("Reloading agents..."@, ReloadTarget::Agents),
        MenuItem::Sessions => ("Reloading sessions..."@, ReloadTarget::Sessions),
        MenuItem::CronJobs => ("Reloading cron jobs..."@, ReloadTarget::CronJobs),
        _ => ("Refreshing..."@, ReloadTarget::Everything),
    };
    &&& a == (AppState { status_message: a.status_message, ..b })
    &&& status_is(a.status_message, text, false)
    &&& r == Effect::Reload(target)
}

/// The model a chat with a session uses: the session's own, else its
/// agent's configured model; a session without an agent keeps `current`.
pub open spec fn session_model(
    se: crate::model::SessionInfo,
    agents: Seq<AgentInfo>,
    current: Option<Seq<char>>,
) -> Option<Seq<char>> {
    match se.model {
        Some(m) => Some(m@),
        None => if se.agent_id@.len() > 0 {
            first_agent_model(agents, se.agent_id@)
        } else {
            current
        },
    }
}

/// The state after the chat action: without a model provider the status
/// line says so; else the Sessions page shows, and the selected session's
/// chat opens on an empty input line with the session's model (its chat
/// made if it has none), or, without a session, a new session is asked
/// for.
pub open spec fn chat_opened(b: AppState, a: AppState) -> bool {
    if !any_provider(b.providers@) {
        a == (AppState { status_message: a.status_message, ..b }) && status_is(a.status_message, no_provider_text(), true)
    } else if b.selected_session < b.sessions@.len() {
        let se = b.sessions@[b.selected_session as int];
        &&& a == (AppState {
            menu_item: MenuItem::Sessions,
            chat_model: a.chat_model,
            session_chats: a.session_chats,
            input_mode: InputMode::ChatInput,
            input_buffer: a.input_buffer,
            input_cursor: 0,
            ..b
        })
        &&& opt_view(a.chat_model) == session_model(se, b.agents@, opt_view(b.chat_model))
        &&& chat_changed(b.session_chats@, a.session_chats@, se.key@, |pv: ChatView, av: ChatView| av == pv)
        &&& a.input_buffer@.len() == 0
        &&& a.wf()
    } else {
        new_session_opened(AppState { menu_item: MenuItem::Sessions, ..b }, a)
    }
}

/// The state and action after the session selection changed: the chat
/// model follows the selected session (its own, else its agent's), the
/// chat is bound to its agent unless it has none or is ad hoc, and its
/// messages are loaded by the caller unless its chat has them. Without a
/// selected session nothing changes.
pub open spec fn session_selected(b: AppState, a: AppState, r: Effect) -> bool {
    if b.selected_session < b.sessions@.len() {
        let se = b.sessions@[b.selected_session as int];
        let p = chat_pos(b.session_chats@, se.key@);
        let loaded = p < b.session_chats@.len() && b.session_chats@[p].state.loaded;
        &&& a == (AppState { chat_model: a.chat_model, chat_agent_id: a.chat_agent_id, ..b })
        &&& opt_view(a.chat_model) == session_model(se, b.agents@, None)
        &&& opt_view(a.chat_agent_id) == if se.agent_id@.len() > 0 && !(6 <= se.agent_id@.len()
            && se.agent_id@.take(6) == "ad-hoc"@) {
            Some(se.agent_id@)
        } else {
            None
        }
        &&& if loaded {
            r == Effect::Nothing
        } else {
            r matches Effect::LoadSessionMessages(k) && k@ == se.key@
        }
    } else {
        r == Effect::Nothing && a == b
    }
}

/// Bytes of an Age public key shown in the unlock prompt.
pub const AGE_KEY_SHOWN_BYTES: usize = 20;

/// The number of characters of an Age public key that make up its first
/// twenty bytes (all of a shorter key), if that falls between characters.
pub open spec fn age_key_shown(pk: Seq<char>) -> Option<nat> {
    char_at_byte(pk, if byte_len(pk) < AGE_KEY_SHOWN_BYTES { byte_len(pk) } else { AGE_KEY_SHOWN_BYTES as nat })
}

/// The unlock prompt opens with `text`, masked or not, on an empty line.
pub open spec fn unlock_prompted(b: AppState, a: AppState, text: Seq<char>, masked: bool) -> bool {
    &&& a == (AppState { input_mode: a.input_mode, input_buffer: a.input_buffer, input_cursor: 0, ..b })
    &&& a.input_buffer@.len() == 0
    &&& a.input_mode matches InputMode::PasswordInput { prompt, masked: m, action } && prompt@ == text && m
        == masked && action == PasswordAction::UnlockVault
}

/// The state and action after the unlock action on a locked vault: a
/// password prompt (for a password or an unknown method), a key file unlock
/// handed to the caller, a prompt for an Age identity showing the start of
/// the public key, or a status line saying SSH unlock is not there yet.
/// Otherwise nothing changes.
pub open spec fn unlock_done(b: AppState, a: AppState, r: Effect) -> bool {
    if !b.vault.initialized || !b.vault.locked {
        r == Effect::Nothing && a == b
    } else {
        match b.vault.unlock_method {
            UnlockMethod::Password => r == Effect::Nothing && unlock_prompted(b, a, "Enter vault password:"@, true),
            UnlockMethod::Unknown => r == Effect::Nothing && unlock_prompted(b, a, "Enter vault password:"@, true),
            UnlockMethod::Keyfile { path } => a == b && (r matches Effect::UnlockWithKeyfile(p) && opt_view(p)
                == opt_view(path)),
            UnlockMethod::Age { public_key } => r == Effect::Nothing && unlock_prompted(
                b,
                a,
                match public_key {
                    Some(pk) => "Enter Age identity (pub: "@ + pk@.take(age_key_shown(pk@)->0 as int) + "...):"@,
                    None => "Enter Age identity:"@,
                },
                false,
            ),
            UnlockMethod::SshKey { path } => {
                &&& r == Effect::Nothing
                &&& a == (AppState { status_message: a.status_message, ..b })
                &&& status_is(
                    a.status_message,
                    "SSH unlock not yet implemented (key: "@ + match path {
                        Some(p) => p@,
                        None => "~/.ssh/id_ed25519"@,
                    } + ")"@,
                    true,
                )
            },
        }
    }
}

/// The unlock action can run: an Age public key's first twenty bytes end
/// between characters.
pub open spec fn unlock_action_ok(b: AppState) -> bool {
    b.vault.unlock_method matches UnlockMethod::Age { public_key: Some(pk) } ==> age_key_shown(pk@) is Some
}

proof fn lemma_char_at_byte_found(s: Seq<char>, b: nat, j: nat, i: nat)
    requires
        j <= i <= s.len(),
        forall|m: int| j <= m < i ==> byte_len(#[trigger] s.take(m)) != b,
        byte_len(s.take(i as int)) == b,
    ensures
        char_at_byte_from(s, b, j) == Some(i),
    decreases i - j,
{
    if j < i {
        lemma_char_at_byte_found(s, b, j + 1, i);
    }
}

proof fn lemma_char_at_byte_some(s: Seq<char>, b: nat, j: nat)
    ensures
        char_at_byte_from(s, b, j) matches Some(k) ==> j <= k <= s.len() && byte_len(s.take(k as int)) == b,
    decreases s.len() - j,
{
    if j < s.len() && byte_len(s.take(j as int)) != b {
        lemma_char_at_byte_some(s, b, j + 1);
    }
}

/// The first characters of `pk` that make up its first twenty bytes.
fn age_key_start(pk: &str) -> (r: String)
    requires
        age_key_shown(pk@) is Some,
    ensures
        r@ == pk@.take(age_key_shown(pk@)->0 as int),
{
    let v = chars_of(pk);
    let mut bytes: usize = 0;
    let mut i: usize = 0;
    while i < v.len() && bytes < AGE_KEY_SHOWN_BYTES
        invariant
            i <= v@.len(),
            v@ == pk@,
            bytes == byte_len(v@.take(i as int)),
            forall|m: int| 0 <= m < i ==> byte_len(#[trigger] v@.take(m)) < AGE_KEY_SHOWN_BYTES,
        decreases v@.len() - i,
    {
        proof {
            lemma_byte_len_take(v@, i as int);
        }
        bytes = bytes + char_width(v[i]);
        i = i + 1;
    }
    proof {
        let s = v@;
        let total = byte_len(s);
        let target: nat = if total < AGE_KEY_SHOWN_BYTES { total } else { AGE_KEY_SHOWN_BYTES as nat };
        lemma_byte_len_monotone(s, i as int, s.len() as int);
        assert(s.take(s.len() as int) =~= s);
        let k = age_key_shown(pk@)->0;
        lemma_char_at_byte_some(s, target, 0);
        if k > i {
            lemma_byte_len_monotone(s, i as int, k as int);
        }
        if k < i {
            assert(byte_len(s.take(k as int)) < AGE_KEY_SHOWN_BYTES);
            lemma_byte_len_monotone(s, k as int, i as int);
        }
        assert forall|m: int| 0 <= m < i implies byte_len(#[trigger] s.take(m)) != target by {
            if target < AGE_KEY_SHOWN_BYTES {
                lemma_byte_len_monotone(s, m, i as int);
            }
        }
        lemma_char_at_byte_found(s, target, 0, i as nat);
    }
    string_from_chars(&v, 0, i)
}

/// The state and action after the test action: on Models the connection
/// of the selected provider (the last, past the end) is tested; on Cron
/// Jobs the selected job runs now. The status line says so. Otherwise
/// nothing changes.
pub open spec fn test_done(b: AppState, a: AppState, r: Effect) -> bool {
    if b.menu_item == MenuItem::Models {
        let n = b.providers@.len();
        let idx = if b.selected_provider as nat <= (if n > 0 { n - 1 } else { 0 }) {
            b.selected_provider as int
        } else {
            n - 1
        };
        if n > 0 {
            let p = b.providers@[idx];
            &&& a == (AppState { status_message: a.status_message, ..b })
            &&& status_is(a.status_message, "Testing "@ + p.name@ + " connection..."@, false)
            &&& r matches Effect::TestProvider(id, name) && id@ == p.id@ && name@ == p.name@
        } else {
            r == Effect::Nothing && a == b
        }
    } else if b.menu_item == MenuItem::CronJobs {
        if b.selected_cron_job < b.cron_jobs@.len() {
            let job = b.cron_jobs@[b.selected_cron_job as int];
            &&& a == (AppState { status_message: a.status_message, ..b })
            &&& status_is(a.status_message, "Triggering '"@ + job.name@ + "'..."@, false)
            &&& r matches Effect::TriggerCronJob(id) && id@ == job.id@
        } else {
            r == Effect::Nothing && a == b
        }
    } else {
        r == Effect::Nothing && a == b
    }
}

/// The state and action after the start (`start`) or stop action: on
/// Settings the gateway is started (stopped) unless it already runs (is
/// already stopped), the status line saying which. Otherwise nothing
/// changes.
pub open spec fn gateway_control_done(b: AppState, a: AppState, start: bool, r: Effect) -> bool {
    if b.menu_item == MenuItem::Settings {
        &&& a == (AppState { status_message: a.status_message, ..b })
        &&& if start {
            if b.gateway.connected {
                status_is(a.status_message, "Gateway already running"@, false) && r == Effect::Nothing
            } else {
                status_is(a.status_message, "Starting gateway..."@, false) && r == Effect::StartGateway
            }
        } else {
            if !b.gateway.connected {
                status_is(a.status_message, "Gateway not running"@, false) && r == Effect::Nothing
            } else {
                status_is(a.status_message, "Stopping gateway..."@, false) && r == Effect::StopGateway
            }
        }
    } else {
        r == Effect::Nothing && a == b
    }
}

/// The state after asking to create the vault: a password prompt when it
/// does not exist yet, on an empty line; otherwise nothing changes.
pub open spec fn init_vault_done(b: AppState, a: AppState) -> bool {
    if !b.vault.initialized {
        &&& a == (AppState { input_mode: a.input_mode, input_buffer: a.input_buffer, input_cursor: 0, ..b })
        &&& a.input_buffer@.len() == 0
        &&& a.input_mode matches InputMode::PasswordInput { prompt, masked, action } && prompt@
            == "Create vault password (min 8 chars):"@ && masked && action == PasswordAction::InitVault
    } else {
        a == b
    }
}

/// The state after asking to lock the vault: an open vault locks, the
/// status line saying so; otherwise nothing changes.
pub open spec fn lock_vault_done(b: AppState, a: AppState) -> bool {
    if b.vault.initialized && !b.vault.locked {
        &&& a == (AppState {
            vault: crate::model::VaultStatus { locked: true, ..b.vault },
            status_message: a.status_message,
            ..b
        })
        &&& status_is(a.status_message, "Vault locked"@, false)
    } else {
        a == b
    }
}

/// Whether any provider is available.
fn has_available_provider(providers: &Vec<ModelProvider>) -> (r: bool)
    ensures
        r == any_provider(providers@),
{
    let mut i: usize = 0;
    while i < providers.len()
        invariant
            i <= providers@.len(),
            forall|j: int| 0 <= j < i ==> !(#[trigger] providers@[j]).available,
        decreases providers@.len() - i,
    {
        if providers[i].available {
            return true;
        }
        i = i + 1;
    }
    false
}

/// The position of the schema whose provider id is `id`, if any: the first.
fn find_schema(schemas: &Vec<CredentialSchemaInfo>, id: &str) -> (r: Option<usize>)
    ensures
        match r {
            Some(i) => i < schemas@.len() && schema_for(schemas@, id@) == Some(schemas@[i as int]),
            None => schema_for(schemas@, id@) is None,
        },
{
    let mut i: usize = 0;
    assert(schemas@.skip(0) == schemas@);
    while i < schemas.len()
        invariant
            i <= schemas@.len(),
            schema_for(schemas@, id@) == schema_for(schemas@.skip(i as int), id@),
        decreases schemas@.len() - i,
    {
        assert(schemas@.skip(i as int).drop_first() == schemas@.skip(i + 1));
        if str_eq(schemas[i].provider_id.as_str(), id) {
            return Some(i);
        }
        i = i + 1;
    }
    None
}

/// "<a><b><c>".
pub(crate) fn text3(a: &str, b: &str, c: &str) -> (r: String)
    ensures
        r@ == a@ + b@ + c@,
{
    let mut r = string_of(a);
    r.append(b);
    r.append(c);
    r
}

impl AppState {
    /// Open the session form, or say that no model provider is available.
    pub fn new_session_action(&mut self)
        ensures
            new_session_opened(*old(self), *final(self)),
    {
        if !has_available_provider(&self.providers) {
            self.status_message = Some((
                string_of("No LLM providers available — configure one in Models or Credentials → Providers"),
                true,
            ));
            return;
        }
        let form = CreateSessionState::new(&self.providers, &self.agents);
        self.input_mode = InputMode::CreateSession(form);
    }

    /// The add action of the current page.
    pub fn add_action(&mut self)
        ensures
            add_done(*old(self), *final(self)),
    {
        match self.menu_item {
            MenuItem::Agents => {
                let mut form = EditAgentState::new();
                let ghost f = form;
                form.populate_models(&self.providers);
                assert(models_populated(f, form, self.providers@));
                self.input_mode = InputMode::AddAgent(form);
            },
            MenuItem::Sessions => {
                self.new_session_action();
            },
            MenuItem::Credentials => {
                if self.vault.initialized && !self.vault.locked {
                    if self.credentials_tab == 1 && self.selected_provider_index < self.credential_schemas.len() {
                        let idx = self.selected_provider_index;
                        let form = EditProviderState::from_schema(&self.credential_schemas[idx], idx);
                        self.input_mode = InputMode::EditProvider(form);
                        return;
                    }
                    let mut form = AddCredentialState::new();
                    form.endpoint_type = 3;
                    form.reset_fields_for_type();
                    assert(form@.name =~= Seq::<char>::empty());
                    self.input_mode = InputMode::AddCredential(form);
                }
            },
            _ => {},
        }
    }

    /// The delete action of the current page.
    pub fn delete_action(&mut self)
        ensures
            delete_done(*old(self), *final(self)),
    {
        match self.menu_item {
            MenuItem::Credentials => {
                if self.selected_endpoint < self.endpoints.len() {
                    let ep = &self.endpoints[self.selected_endpoint];
                    let message = text3("Delete '", ep.name.as_str(), "'?");
                    self.input_mode = InputMode::Confirm {
                        message,
                        action: ConfirmAction::DeleteEndpoint(ep.id.clone()),
                    };
                }
            },
            MenuItem::Agents => {
                if self.selected_agent < self.agents.len() {
                    let ag = &self.agents[self.selected_agent];
                    let message = text3("Disable agent '", ag.id.as_str(), "'?");
                    self.input_mode = InputMode::Confirm { message, action: ConfirmAction::DeleteAgent(ag.id.clone()) };
                }
            },
            MenuItem::Sessions => {
                if self.selected_session < self.sessions.len() {
                    let se = &self.sessions[self.selected_session];
                    let message = text3("Archive session '", se.key.as_str(), "'?");
                    self.input_mode = InputMode::Confirm { message, action: ConfirmAction::KillSession(se.key.clone()) };
                }
            },
            MenuItem::CronJobs => {
                if self.selected_cron_job < self.cron_jobs.len() {
                    let job = &self.cron_jobs[self.selected_cron_job];
                    let message = text3("Delete cron job '", job.name.as_str(), "'?");
                    self.input_mode = InputMode::Confirm {
                        message,
                        action: ConfirmAction::DeleteCronJob(job.id.clone()),
                    };
                }
            },
            _ => {},
        }
    }

    /// The edit action of the current page.
    pub fn edit_action(&mut self) -> (r: Effect)
        ensures
            edit_done(*old(self), *final(self), r),
    {
        match self.menu_item {
            MenuItem::Agents => {
                if self.selected_agent < self.agents.len() {
                    let mut form = EditAgentState::from_agent(&self.agents[self.selected_agent]);
                    let ghost f = form;
                    form.populate_models(&self.providers);
                    assert(models_populated(f, form, self.providers@));
                    self.input_mode = InputMode::EditAgent(form);
                }
                Effect::Nothing
            },
            MenuItem::CronJobs => {
                if self.selected_cron_job < self.cron_jobs.len() {
                    let job = &self.cron_jobs[self.selected_cron_job];
                    Effect::ToggleCronJob(job.id.clone(), !job.enabled)
                } else {
                    Effect::Nothing
                }
            },
            MenuItem::Models => {
                let idx = self.selected_provider;
                let found = if idx < self.providers.len() {
                    find_schema(&self.credential_schemas, self.providers[idx].id.as_str())
                } else {
                    None
                };
                let form = match found {
                    Some(i) => EditProviderState::from_schema(&self.credential_schemas[i], idx),
                    None => EditProviderState::new(idx),
                };
                self.input_mode = InputMode::EditProvider(form);
                Effect::Nothing
            },
            _ => Effect::Nothing,
        }
    }

    /// The view action of the current page.
    pub fn view_action(&mut self) -> (r: Effect)
        ensures
            view_done(*old(self), *final(self), r),
    {
        if self.menu_item == MenuItem::Sessions {
            if self.selected_session < self.sessions.len() {
                let key = self.sessions[self.selected_session].key.clone();
                self.input_mode = InputMode::ViewSession { session_key: key.clone() };
                Effect::LoadSessionDetails(key)
            } else {
                self.status_message = Some((string_of("No session selected"), true));
                Effect::Nothing
            }
        } else {
            Effect::Nothing
        }
    }

    /// The kill action of the current page.
    pub fn kill_action(&mut self)
        ensures
            kill_done(*old(self), *final(self)),
    {
        if self.menu_item == MenuItem::Sessions {
            if self.selected_session < self.sessions.len() {
                let se = &self.sessions[self.selected_session];
                let message = text3("Kill session '", se.key.as_str(), "'?");
                self.input_mode = InputMode::Confirm { message, action: ConfirmAction::KillSession(se.key.clone()) };
            } else {
                self.status_message = Some((string_of("No session selected"), true));
            }
        }
    }

    /// The permissions action of the current page.
    pub fn permission_action(&mut self)
        ensures
            permission_action_done(*old(self), *final(self)),
    {
        if self.menu_item != MenuItem::Credentials || self.endpoints.len() == 0 {
            return;
        }
        if self.credentials_tab == 2 && self.permissions.len() > 0 {
            if self.selected_permission < self.permissions.len() {
                let form = EditPermissionState::from_rule(
                    &self.permissions[self.selected_permission],
                    &self.endpoints,
                    &self.agents,
                );
                self.input_mode = InputMode::EditPermission(form);
            }
        } else {
            let preselect = if self.credentials_tab == 0 { Some(self.selected_endpoint) } else { None };
            let form = EditPermissionState::new(&self.endpoints, &self.agents, preselect);
            self.input_mode = InputMode::EditPermission(form);
        }
    }

    /// Ask for a password to create the vault, if it does not exist yet.
    pub fn init_vault_action(&mut self)
        ensures
            init_vault_done(*old(self), *final(self)),
    {
        if !self.vault.initialized {
            self.input_mode = InputMode::PasswordInput {
                prompt: string_of("Create vault password (min 8 chars):"),
                masked: true,
                action: PasswordAction::InitVault,
            };
            self.clear_input();
        }
    }

    /// Lock an open vault.
    pub fn lock_vault_action(&mut self)
        ensures
            lock_vault_done(*old(self), *final(self)),
    {
        if self.vault.initialized && !self.vault.locked {
            self.vault.locked = true;
            self.status_message = Some((string_of("Vault locked"), false));
        }
    }

    /// The chat action.
    pub fn chat_action(&mut self)
        requires
            old(self).wf(),
        ensures
            chat_opened(*old(self), *final(self)),
    {
        if !has_available_provider(&self.providers) {
            self.status_message = Some((
                string_of("No LLM providers available — configure one in Models or Credentials → Providers"),
                true,
            ));
            return;
        }
        self.menu_item = MenuItem::Sessions;
        if self.selected_session < self.sessions.len() {
            let se = &self.sessions[self.selected_session];
            let key = se.key.clone();
            match &se.model {
                Some(m) => {
                    self.chat_model = Some(m.clone());
                },
                None => {
                    if !se.agent_id.as_str().is_empty() {
                        self.chat_model = crate::form_keys::agent_model(&self.agents, se.agent_id.as_str());
                    }
                },
            }
            self.chat_entry(key.as_str());
            self.input_mode = InputMode::ChatInput;
            self.clear_input();
        } else {
            self.new_session_action();
        }
    }

    /// Follow a change of the selected session.
    pub fn session_selection_changed(&mut self) -> (r: Effect)
        requires
            old(self).wf(),
        ensures
            session_selected(*old(self), *final(self), r),
    {
        if self.selected_session < self.sessions.len() {
            let se = &self.sessions[self.selected_session];
            let key = se.key.clone();
            self.chat_model = match &se.model {
                Some(m) => Some(m.clone()),
                None => if se.agent_id.as_str().is_empty() {
                    None
                } else {
                    crate::form_keys::agent_model(&self.agents, se.agent_id.as_str())
                },
            };
            self.chat_agent_id = if !se.agent_id.as_str().is_empty() && !starts_with(se.agent_id.as_str(), "ad-hoc") {
                Some(se.agent_id.clone())
            } else {
                None
            };
            proof {
                reveal_strlit("ad-hoc");
            }
            let loaded = match self.find_chat(key.as_str()) {
                Some(p) => self.session_chats[p].state.loaded,
                None => false,
            };
            if loaded {
                Effect::Nothing
            } else {
                Effect::LoadSessionMessages(key)
            }
        } else {
            Effect::Nothing
        }
    }

    /// The unlock action.
    pub fn unlock_action(&mut self) -> (r: Effect)
        requires
            unlock_action_ok(*old(self)),
        ensures
            unlock_done(*old(self), *final(self), r),
    {
        if !self.vault.initialized || !self.vault.locked {
            return Effect::Nothing;
        }
        let (prompt, masked) = match &self.vault.unlock_method {
            UnlockMethod::Password | UnlockMethod::Unknown => (string_of("Enter vault password:"), true),
            UnlockMethod::Keyfile { path } => {
                return Effect::UnlockWithKeyfile(
                    match path {
                        Some(p) => Some(p.clone()),
                        None => None,
                    },
                );
            },
            UnlockMethod::Age { public_key } => {
                let text = match public_key {
                    Some(pk) => {
                        let start = age_key_start(pk.as_str());
                        text3("Enter Age identity (pub: ", start.as_str(), "...):")
                    },
                    None => string_of("Enter Age identity:"),
                };
                (text, false)
            },
            UnlockMethod::SshKey { path } => {
                let key: &str = match path {
                    Some(p) => p.as_str(),
                    None => "~/.ssh/id_ed25519",
                };
                let msg = text3("SSH unlock not yet implemented (key: ", key, ")");
                self.status_message = Some((msg, true));
                return Effect::Nothing;
            },
        };
        self.input_mode = InputMode::PasswordInput { prompt, masked, action: PasswordAction::UnlockVault };
        self.clear_input();
        Effect::Nothing
    }

    /// The test action of the current page.
    pub fn test_action(&mut self) -> (r: Effect)
        ensures
            test_done(*old(self), *final(self), r),
    {
        if self.menu_item == MenuItem::Models {
            let n = self.providers.len();
            let last = if n > 0 { n - 1 } else { 0 };
            let idx = if self.selected_provider <= last { self.selected_provider } else { last };
            if idx < n {
                let p = &self.providers[idx];
                let msg = text3("Testing ", p.name.as_str(), " connection...");
                let r = Effect::TestProvider(p.id.clone(), p.name.clone());
                self.status_message = Some((msg, false));
                r
            } else {
                Effect::Nothing
            }
        } else if self.menu_item == MenuItem::CronJobs {
            if self.selected_cron_job < self.cron_jobs.len() {
                let job = &self.cron_jobs[self.selected_cron_job];
                let msg = text3("Triggering '", job.name.as_str(), "'...");
                let r = Effect::TriggerCronJob(job.id.clone());
                self.status_message = Some((msg, false));
                r
            } else {
                Effect::Nothing
            }
        } else {
            Effect::Nothing
        }
    }

    /// The start-gateway action.
    pub fn start_action(&mut self) -> (r: Effect)
        ensures
            gateway_control_done(*old(self), *final(self), true, r),
    {
        if self.menu_item == MenuItem::Settings {
            if self.gateway.connected {
                self.status_message = Some((string_of("Gateway already running"), false));
                Effect::Nothing
            } else {
                self.status_message = Some((string_of("Starting gateway..."), false));
                Effect::StartGateway
            }
        } else {
            Effect::Nothing
        }
    }

    /// The stop-gateway action.
    pub fn stop_action(&mut self) -> (r: Effect)
        ensures
            gateway_control_done(*old(self), *final(self), false, r),
    {
        if self.menu_item == MenuItem::Settings {
            if !self.gateway.connected {
                self.status_message = Some((string_of("Gateway not running"), false));
                Effect::Nothing
            } else {
                self.status_message = Some((string_of("Stopping gateway..."), false));
                Effect::StopGateway
            }
        } else {
            Effect::Nothing
        }
    }

    /// The refresh action of the current page.
    pub fn refresh_action(&mut self) -> (r: Effect)
        ensures
            refresh_done(*old(self), *final(self), r),
    {
        let (text, target) = match self.menu_item {
            MenuItem::Settings => ("Restarting gateway...", ReloadTarget::RestartGateway),
            MenuItem::Agents => ("Reloading agents...", ReloadTarget::Agents),
            MenuItem::Sessions => ("Reloading sessions...", ReloadTarget::Sessions),
            MenuItem::CronJobs => ("Reloading cron jobs...", ReloadTarget::CronJobs),
            _ => ("Refreshing...", ReloadTarget::Everything),
        };
        self.status_message = Some((string_of(text), false));
        Effect::Reload(target)
    }
}

} // verus!
