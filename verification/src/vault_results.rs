//! What the interface shows once the vault has done the work a credential
//! dialog handed over: the refreshed endpoint list, the default permission
//! of a new endpoint, and the status line.

use vstd::prelude::*;
use crate::app_state::{AppState, status_is};
use crate::form_keys::clamped;
use crate::model::{AccessLevel, EndpointInfo, PermissionRule, PermissionSource, UnlockMethod, VaultStatus};
use crate::modes::InputMode;
use crate::text::{str_eq, string_of};

verus! {

broadcast use vstd::string::group_string_axioms;

/// The first endpoint with this name, if any.
pub open spec fn first_endpoint_named(eps: Seq<EndpointInfo>, name: Seq<char>) -> Option<EndpointInfo>
    decreases eps.len(),
{
    if eps.len() == 0 {
        None
    } else if eps[0].name@ == name {
        Some(eps[0])
    } else {
        first_endpoint_named(eps.drop_first(), name)
    }
}

/// The rule a new endpoint gets: any source, with a human in the loop,
/// after the existing rules.
pub open spec fn default_rule(ep: EndpointInfo, priority: nat) -> PermissionRule {
    PermissionRule {
        endpoint_id: ep.id,
        endpoint_name: ep.name,
        source: PermissionSource::Any,
        access: AccessLevel::AllowHil,
        priority: priority as usize,
    }
}

/// The state after a credential was stored for the endpoint `name`: the
/// endpoint list is the vault's, the endpoint gets the default rule, and
/// the dialog closes saying "Added: <name>".
pub open spec fn credential_added(b: AppState, a: AppState, endpoints: Seq<EndpointInfo>, name: Seq<char>) -> bool {
    &&& a == (AppState {
        endpoints: a.endpoints,
        vault: VaultStatus { endpoint_count: endpoints.len() as usize, ..b.vault },
        permissions: a.permissions,
        status_message: a.status_message,
        input_mode: InputMode::Normal,
        ..b
    })
    &&& a.endpoints@ == endpoints
    &&& a.permissions@ == match first_endpoint_named(endpoints, name) {
        Some(ep) => b.permissions@.push(default_rule(ep, b.permissions@.len() + 1)),
        None => b.permissions@,
    }
    &&& status_is(a.status_message, "Added: "@ + name, false)
}

/// The first endpoint with this name, if any.
fn find_endpoint(eps: &Vec<EndpointInfo>, name: &str) -> (r: Option<usize>)
    ensures
        match r {
            Some(i) => i < eps@.len() && first_endpoint_named(eps@, name@) == Some(eps@[i as int]),
            None => first_endpoint_named(eps@, name@) is None,
        },
{
    let mut i: usize = 0;
    assert(eps@.skip(0) == eps@);
    while i < eps.len()
        invariant
            i <= eps@.len(),
            first_endpoint_named(eps@, name@) == first_endpoint_named(eps@.skip(i as int), name@),
        decreases eps@.len() - i,
    {
        assert(eps@.skip(i as int).drop_first() == eps@.skip(i + 1));
        if str_eq(eps[i].name.as_str(), name) {
            return Some(i);
        }
        i = i + 1;
    }
    None
}

impl AppState {
    /// A credential was stored in the vault for the endpoint `name`, which
    /// now lists `endpoints`.
    pub fn credential_stored(&mut self, endpoints: Vec<EndpointInfo>, name: &str)
        requires
            old(self).permissions@.len() + 1 <= usize::MAX,
        ensures
            credential_added(*old(self), *final(self), endpoints@, name@),
    {
        let found = find_endpoint(&endpoints, name);
        match found {
            Some(i) => {
                let priority = self.permissions.len() + 1;
                let rule = PermissionRule {
                    endpoint_id: endpoints[i].id.clone(),
                    endpoint_name: endpoints[i].name.clone(),
                    source: PermissionSource::Any,
                    access: AccessLevel::AllowHil,
                    priority,
                };
                self.permissions.push(rule);
            },
            None => {},
        }
        self.vault.endpoint_count = endpoints.len();
        self.endpoints = endpoints;
        let mut msg = string_of("Added: ");
        msg.append(name);
        self.status_message = Some((msg, false));
        self.input_mode = InputMode::Normal;
    }

    /// A credential was updated in the vault for the endpoint `name`, which
    /// now lists `endpoints`.
    pub fn credential_changed(&mut self, endpoints: Vec<EndpointInfo>, name: &str)
        ensures
            *final(self) == (AppState {
                endpoints: final(self).endpoints,
                vault: VaultStatus { endpoint_count: endpoints@.len() as usize, ..old(self).vault },
                status_message: final(self).status_message,
                input_mode: InputMode::Normal,
                ..*old(self)
            }),
            final(self).endpoints@ == endpoints@,
            status_is(final(self).status_message, "Updated: "@ + name@, false),
    {
        self.vault.endpoint_count = endpoints.len();
        self.endpoints = endpoints;
        let mut msg = string_of("Updated: ");
        msg.append(name);
        self.status_message = Some((msg, false));
        self.input_mode = InputMode::Normal;
    }

    /// An endpoint was deleted from the vault, which now lists `endpoints`;
    /// the selection stays in range.
    pub fn endpoint_removed(&mut self, endpoints: Vec<EndpointInfo>)
        ensures
            *final(self) == (AppState {
                endpoints: final(self).endpoints,
                vault: VaultStatus { endpoint_count: endpoints@.len() as usize, ..old(self).vault },
                selected_endpoint: clamped(old(self).selected_endpoint as nat, endpoints@.len()) as usize,
                status_message: final(self).status_message,
                ..*old(self)
            }),
            final(self).endpoints@ == endpoints@,
            status_is(final(self).status_message, "✅ Deleted endpoint"@, false),
    {
        self.vault.endpoint_count = endpoints.len();
        self.endpoints = endpoints;
        if self.selected_endpoint >= self.endpoints.len() {
            self.selected_endpoint = if self.endpoints.len() > 0 { self.endpoints.len() - 1 } else { 0 };
        }
        self.status_message = Some((string_of("✅ Deleted endpoint"), false));
    }

    /// The vault refused to store a credential form: the form stays open
    /// saying "Failed: <error>".
    pub fn credential_store_failed(&mut self, form: InputMode, error: &str)
        ensures
            *final(self) == (AppState { input_mode: form, status_message: final(self).status_message, ..*old(self) }),
            status_is(final(self).status_message, "Failed: "@ + error@, true),
    {
        let mut msg = string_of("Failed: ");
        msg.append(error);
        self.status_message = Some((msg, true));
        self.input_mode = form;
    }
}

impl AppState {
    /// The vault was created with a password: it is initialized, unlocked
    /// by password, and the status line says so.
    pub fn vault_created(&mut self)
        ensures
            *final(self) == (AppState {
                vault: VaultStatus {
                    initialized: true,
                    locked: false,
                    unlock_method: UnlockMethod::Password,
                    ..old(self).vault
                },
                status_message: final(self).status_message,
                ..*old(self)
            }),
            status_is(final(self).status_message, "✅ Vault initialized!"@, false),
    {
        self.vault.initialized = true;
        self.vault.locked = false;
        self.vault.unlock_method = UnlockMethod::Password;
        self.status_message = Some((string_of("✅ Vault initialized!"), false));
    }

    /// The vault was unlocked and lists `endpoints`.
    pub fn vault_opened(&mut self, endpoints: Vec<EndpointInfo>)
        ensures
            *final(self) == (AppState {
                vault: VaultStatus { locked: false, endpoint_count: endpoints@.len() as usize, ..old(self).vault },
                endpoints: final(self).endpoints,
                status_message: final(self).status_message,
                ..*old(self)
            }),
            final(self).endpoints@ == endpoints@,
            status_is(final(self).status_message, "✅ Vault unlocked"@, false),
    {
        self.vault.locked = false;
        self.vault.endpoint_count = endpoints.len();
        self.endpoints = endpoints;
        self.status_message = Some((string_of("✅ Vault unlocked"), false));
    }
}

impl AppState {
    /// The vault was unlocked with its key file and lists `endpoints`.
    pub fn vault_opened_with_keyfile(&mut self, endpoints: Vec<EndpointInfo>)
        ensures
            *final(self) == (AppState {
                vault: VaultStatus { locked: false, endpoint_count: endpoints@.len() as usize, ..old(self).vault },
                endpoints: final(self).endpoints,
                status_message: final(self).status_message,
                ..*old(self)
            }),
            final(self).endpoints@ == endpoints@,
            status_is(final(self).status_message, "✅ Unlocked with keyfile"@, false),
    {
        self.vault.locked = false;
        self.vault.endpoint_count = endpoints.len();
        self.endpoints = endpoints;
        self.status_message = Some((string_of("✅ Unlocked with keyfile"), false));
    }
}

} // verus!
