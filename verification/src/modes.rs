//! The modal states the interface can be in: text prompts, the form
//! modals, confirmations, the context menu and card details.

use vstd::prelude::*;
use crate::agent_form::EditAgentState;
use crate::credential_forms::{AddCredentialState, EditCredentialState};
use crate::editor::EditContextFileState;
use crate::menu::MenuItem;
use crate::permission_form::EditPermissionState;
use crate::provider_form::EditProviderState;
use crate::session_form::CreateSessionState;

verus! {

/// What a password prompt is for.
#[derive(Debug, Clone, Copy, PartialEq, Eq, Structural)]
pub enum PasswordAction {
    InitVault,
    UnlockVault,
}

/// Info about a context file in an agent's directory.
#[derive(Debug, Clone, PartialEq, Eq)]
pub struct ContextFileInfo {
    pub name: String,
    pub exists: bool,
    pub size_bytes: u64,
    pub well_known: bool,
}

/// State for browsing an agent's context files.
#[derive(Debug, Clone, PartialEq, Eq)]
pub struct ViewContextFilesState {
    pub agent_id: String,
    pub files: Vec<ContextFileInfo>,
    pub selected: usize,
    pub loading: bool,
}

/// What a confirmation dialog confirms.
#[derive(Debug, Clone, PartialEq, Eq)]
pub enum ConfirmAction {
    /// Delete the endpoint with this id
    DeleteEndpoint(String),
    /// Delete the agent with this id
    DeleteAgent(String),
    /// Kill the session with this key
    KillSession(String),
    /// Disable the agent with this id in the configuration
    DisableAgent(String),
    /// Delete the cron job with this id
    DeleteCronJob(String),
    /// Discard edits and return to this file browser
    DiscardContextFile(ViewContextFilesState),
}

/// State for a card detail overlay.
#[derive(Debug, Clone, PartialEq, Eq)]
pub struct CardDetailState {
    /// Which mode the card belongs to.
    pub mode: MenuItem,
    /// Which slot index (1+) was activated.
    pub slot_index: usize,
    /// Scroll offset within the detail content.
    pub scroll: usize,
}

/// Actions the context menu can dispatch.
#[derive(Debug, Clone, Copy, PartialEq, Eq, Structural)]
pub enum ContextMenuAction {
    OpenAddAgent,
    OpenEditAgent,
    DeleteAgent,
    OpenAddCredential,
    OpenCreateSession,
    OpenContextFiles,
    TriggerCronJob,
    RefreshPage,
}

/// One entry of the context menu.
#[derive(Debug, Clone, PartialEq, Eq)]
pub struct ContextMenuItem {
    pub label: String,
    pub key: char,
    pub action: ContextMenuAction,
}

/// State for the context menu overlay.
#[derive(Debug, PartialEq, Eq)]
pub struct ContextMenuState {
    pub items: Vec<ContextMenuItem>,
    pub selected: usize,
    pub position: (u16, u16),
}

impl Clone for ContextMenuState {
    fn clone(&self) -> (r: ContextMenuState)
        ensures
            r.items@.len() == self.items@.len(),
            r.selected == self.selected,
            r.position == self.position,
    {
        ContextMenuState { items: self.items.clone(), selected: self.selected, position: self.position }
    }
}

/// Input modes for capturing text and modal interactions.
#[derive(Debug, Clone, PartialEq, Eq)]
pub enum InputMode {
    Normal,
    /// Password input for the vault
    PasswordInput { prompt: String, masked: bool, action: PasswordAction },
    /// Add credential modal
    AddCredential(AddCredentialState),
    /// Edit credential modal
    EditCredential(EditCredentialState),
    /// Edit model provider modal
    EditProvider(EditProviderState),
    /// Add agent modal
    AddAgent(EditAgentState),
    /// Edit agent modal
    EditAgent(EditAgentState),
    /// Create session modal
    CreateSession(CreateSessionState),
    /// Confirmation dialog
    Confirm { message: String, action: ConfirmAction },
    /// Chat input
    ChatInput,
    /// View session details
    ViewSession { session_key: String },
    /// View endpoint details
    ViewEndpoint { endpoint_index: usize },
    /// View provider details
    ViewProvider { provider_index: usize },
    /// View the full model list of a provider
    ViewModelList { provider_index: usize, scroll: usize },
    /// View permission rule details
    ViewPermission { permission_index: usize },
    /// Edit the permission of a credential endpoint
    EditPermission(EditPermissionState),
    /// Browse the context files of an agent
    ViewContextFiles(ViewContextFilesState),
    /// Edit a context file
    EditContextFile(EditContextFileState),
    /// Context menu with page-specific actions
    ContextMenu(ContextMenuState),
    /// Card detail overlay
    CardDetail(CardDetailState),
    /// Vault overlay: endpoints, providers, permissions and vault status
    VaultOverlay,
    /// Settings overlay
    SettingsOverlay,
    /// Models overlay: a provider's models, scrolled
    ModelsOverlay { provider_index: usize, scroll: usize },
    /// Cron jobs overlay, scrolled
    CronOverlay { scroll: usize },
}

impl Default for InputMode {
    fn default() -> (m: InputMode)
        ensures
            m is Normal,
    {
        InputMode::Normal
    }
}

/// Fields of the "Add Credential" form, from before the form kept a field
/// index instead.
#[derive(Debug, Clone, Copy, PartialEq, Eq, Structural)]
pub enum AddCredentialField {
    Name,
    EndpointType,
    Url,
    Secret,
    Expiration,
}

impl Default for AddCredentialField {
    fn default() -> (f: AddCredentialField)
        ensures
            f == AddCredentialField::Name,
    {
        AddCredentialField::Name
    }
}

} // verus!
