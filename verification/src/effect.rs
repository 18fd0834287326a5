//! Work handed to the caller.

use vstd::prelude::*;
use crate::agent_form::EditAgentState;
use crate::modes::ContextMenuAction;
use crate::provider_form::EditProviderState;

verus! {

/// Work that a key or an action leaves to the caller: the calls to the
/// gateway, the vault and the configuration file that the library does not
/// make itself.
#[derive(Debug, Clone, PartialEq, Eq)]
pub enum Effect {
    /// Nothing more.
    Nothing,
    /// Run a context-menu action.
    Dispatch(ContextMenuAction),
    /// Fetch the list of an agent's context files.
    FetchContextFiles(String),
    /// Fetch a context file's content: agent id and file name.
    FetchContextFile(String, String),
    /// Save a context file: agent id, file name and content.
    SaveContextFile(String, String, String),
    /// Write an agent form into the configuration.
    SaveAgent(EditAgentState),
    /// Create a session: the agent it is bound to and its model.
    CreateSession(Option<String>, Option<String>),
    /// Store the open add-credential form in the vault.
    StoreNewCredential,
    /// Store the open edit-credential form's changes in the vault.
    StoreCredentialChanges,
    /// Delete the endpoint with this id from the vault.
    DeleteEndpoint(String),
    /// Kill the session with this key.
    KillSession(String),
    /// Delete the cron job with this id.
    DeleteCronJob(String),
    /// Save a provider form's credentials and configuration.
    SaveProvider(EditProviderState),
    /// Store a provider's credentials through the gateway: provider name,
    /// endpoint type, base URL and secret.
    StoreProviderCredentials(String, String, String, String),
    /// Decrypt the secret of the endpoint with this id for the open form's
    /// field with this id.
    FillSecret(String, String),
    /// Create the vault with this password.
    InitVault(String),
    /// Unlock the vault with this password.
    UnlockVault(String),
    /// Unlock the vault with a key file: the configured path, if any.
    UnlockWithKeyfile(Option<String>),
    /// Turn the cron job with this id on or off.
    ToggleCronJob(String, bool),
    /// Load the details of the session with this key.
    LoadSessionDetails(String),
    /// Load the messages of the session with this key.
    LoadSessionMessages(String),
    /// Reload data from the gateway.
    Reload(ReloadTarget),
    /// Test the connection of the model provider with this id and name.
    TestProvider(String, String),
    /// Run the cron job with this id now.
    TriggerCronJob(String),
    /// Start the gateway.
    StartGateway,
    /// Stop the gateway.
    StopGateway,
    /// Set the settings overlay's colour picker from the current theme.
    SyncSettingsPicker,
}

/// What a refresh reloads.
#[derive(Debug, Clone, Copy, PartialEq, Eq, Structural)]
pub enum ReloadTarget {
    /// Restart the gateway.
    RestartGateway,
    /// The agents.
    Agents,
    /// The sessions.
    Sessions,
    /// The cron jobs.
    CronJobs,
    /// The gateway status, agents, vault and sessions.
    Everything,
}

} // verus!
