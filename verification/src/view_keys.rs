//! Keys in the detail views (of a session, an endpoint, a provider, its
//! model list and a permission rule) and in the permission editor.

use vstd::prelude::*;
use crate::app_state::AppState;
use crate::credential_forms::{EditCredentialState, EditCredentialView, endpoint_fields, field_position};
use crate::text::blank_values;
use crate::keys::{KeyCode, KeyEvent, KeyModifiers, mods_contain};
use crate::effect::Effect;
use crate::model::EndpointInfo;
use crate::modes::InputMode;
use crate::permission_form::{EditPermissionState, cycled_access, is_rule_editor};
use crate::permission_rules::{
    max_priority, permission_moved, permission_removed, permission_save_done, rules_view,
};
use crate::provider_form::{EditProviderState, is_schema_form};
use crate::slots::{next_wrap, prev_wrap};
use crate::text::{str_eq, string_of};

verus! {

broadcast use vstd::string::group_string_axioms;

/// The form's endpoint type for a vault endpoint type name: Home Assistant
/// 0, generic REST 1, generic OAuth2 2, anything else 3.
pub open spec fn endpoint_type_index(name: Seq<char>) -> nat {
    if name == "HomeAssistant"@ {
        0
    } else if name == "GenericRest"@ {
        1
    } else if name == "GenericOAuth2"@ {
        2
    } else {
        3
    }
}

/// The field a decrypted secret goes into, for each endpoint type.
pub open spec fn secret_field(endpoint_type: nat) -> Option<Seq<char>> {
    if endpoint_type == 0 || endpoint_type == 1 || endpoint_type == 5 {
        Some("token"@)
    } else if endpoint_type == 3 {
        Some("api_key"@)
    } else if endpoint_type == 4 {
        Some("password"@)
    } else if endpoint_type == 2 {
        Some("client_secret"@)
    } else {
        None
    }
}

/// The edit form for an endpoint: its id, name, type and URL, and its id
/// again as the credential to rotate if it has one.
pub open spec fn is_endpoint_form(v: EditCredentialView, ep: EndpointInfo) -> bool {
    let t = endpoint_type_index(ep.endpoint_type@);
    &&& v.endpoint_id == ep.id@
    &&& v.field_index == 0
    &&& v.name == ep.name@
    &&& v.endpoint_type == t
    &&& v.base_url == ep.base_url@
    &&& v.field_values == blank_values(endpoint_fields(t as int).len()).update(0, ep.base_url@)
    &&& !v.secret_modified
    &&& v.credential_id == if ep.has_credential { Some(ep.id@) } else { None }
}

/// The state and action after opening the edit form of endpoint `index`:
/// the form opens and the caller is asked for the secret that goes into it;
/// past the end nothing changes.
pub open spec fn endpoint_edit_opened(b: AppState, a: AppState, index: nat, r: Effect) -> bool {
    if index < b.endpoints@.len() {
        let ep = b.endpoints@[index as int];
        &&& a == (AppState { input_mode: a.input_mode, ..b })
        &&& a.input_mode matches InputMode::EditCredential(e) && is_endpoint_form(e@, ep)
        &&& match secret_field(endpoint_type_index(ep.endpoint_type@)) {
            Some(f) => r matches Effect::FillSecret(id, field) && id@ == ep.id@ && field@ == f,
            None => r == Effect::Nothing,
        }
    } else {
        r == Effect::Nothing && a == b
    }
}

fn endpoint_type_of(name: &str) -> (t: usize)
    ensures
        t == endpoint_type_index(name@),
{
    if str_eq(name, "HomeAssistant") {
        0
    } else if str_eq(name, "GenericRest") {
        1
    } else if str_eq(name, "GenericOAuth2") {
        2
    } else {
        3
    }
}

fn secret_field_of(endpoint_type: usize) -> (r: Option<&'static str>)
    ensures
        match r {
            Some(f) => secret_field(endpoint_type as nat) == Some(f@),
            None => secret_field(endpoint_type as nat) is None,
        },
{
    if endpoint_type == 0 || endpoint_type == 1 || endpoint_type == 5 {
        Some("token")
    } else if endpoint_type == 3 {
        Some("api_key")
    } else if endpoint_type == 4 {
        Some("password")
    } else if endpoint_type == 2 {
        Some("client_secret")
    } else {
        None
    }
}

/// The state after a key in a session's detail view: Esc, Enter or `q`
/// closes it; other keys change nothing.
pub open spec fn session_view_keyed(b: AppState, a: AppState, key: KeyEvent) -> bool {
    if key.code == KeyCode::Esc || key.code == KeyCode::Enter || key.code == KeyCode::Char('q') {
        a == (AppState { input_mode: InputMode::Normal, ..b })
    } else {
        a == b
    }
}

/// The state and action after a key in an endpoint's detail view: Esc or
/// `q` closes it, `e` opens its edit form. Other keys change nothing.
pub open spec fn endpoint_view_keyed(b: AppState, a: AppState, key: KeyEvent, index: nat, r: Effect) -> bool {
    let code = key.code;
    if code == KeyCode::Esc || code == KeyCode::Char('q') {
        r == Effect::Nothing && a == (AppState { input_mode: InputMode::Normal, ..b })
    } else if code == KeyCode::Char('e') {
        endpoint_edit_opened(b, a, index, r)
    } else {
        r == Effect::Nothing && a == b
    }
}

/// The state after a key in a provider's detail view: Esc or `q` closes
/// it, `e` opens the provider's form from its credential schema (or just
/// closes the view when there is none). Other keys change nothing.
pub open spec fn provider_view_keyed(b: AppState, a: AppState, key: KeyEvent, index: nat) -> bool {
    let code = key.code;
    if code == KeyCode::Esc || code == KeyCode::Char('q') {
        a == (AppState { input_mode: InputMode::Normal, ..b })
    } else if code == KeyCode::Char('e') {
        if index < b.credential_schemas@.len() {
            &&& a == (AppState { input_mode: a.input_mode, ..b })
            &&& a.input_mode matches InputMode::EditProvider(e) && is_schema_form(
                e@,
                b.credential_schemas@[index as int],
                index,
            )
        } else {
            a == (AppState { input_mode: InputMode::Normal, ..b })
        }
    } else {
        a == b
    }
}

/// The number of models of provider `index` (0 past the end).
pub open spec fn model_count(b: AppState, index: nat) -> nat {
    if index < b.providers@.len() {
        b.providers@[index as int].models@.len()
    } else {
        0
    }
}

/// The state after a key in a provider's model list: Esc, `q` or Enter
/// closes it; Down/`j` and Up/`k` scroll within the models.
pub open spec fn model_list_keyed(b: AppState, a: AppState, key: KeyEvent, index: usize, scroll: usize) -> bool {
    let code = key.code;
    if code == KeyCode::Esc || code == KeyCode::Char('q') || code == KeyCode::Enter {
        a == (AppState { input_mode: InputMode::Normal, ..b })
    } else if code == KeyCode::Down || code == KeyCode::Char('j') {
        if scroll + 1 < model_count(b, index as nat) {
            a == (AppState {
                input_mode: InputMode::ViewModelList { provider_index: index, scroll: (scroll + 1) as usize },
                ..b
            })
        } else {
            a == b
        }
    } else if code == KeyCode::Up || code == KeyCode::Char('k') {
        if scroll > 0 {
            a == (AppState {
                input_mode: InputMode::ViewModelList { provider_index: index, scroll: (scroll - 1) as usize },
                ..b
            })
        } else {
            a == b
        }
    } else {
        a == b
    }
}

/// The state after a key in a permission rule's detail view: Esc or `q`
/// closes it; `e` opens the rule in the editor; `+`/`K` and `-`/`J` move
/// it up or down in priority, the view following it; `d` removes it.
/// Other keys change nothing.
pub open spec fn permission_view_keyed(b: AppState, a: AppState, key: KeyEvent, index: usize) -> bool {
    let code = key.code;
    if code == KeyCode::Esc || code == KeyCode::Char('q') {
        a == (AppState { input_mode: InputMode::Normal, ..b })
    } else if code == KeyCode::Char('e') {
        if index < b.permissions@.len() {
            &&& a == (AppState { input_mode: a.input_mode, ..b })
            &&& a.input_mode matches InputMode::EditPermission(e) && is_rule_editor(
                e,
                b.permissions@[index as int],
                b.endpoints@,
                b.agents@,
            )
        } else {
            a == b
        }
    } else if code == KeyCode::Char('+') || code == KeyCode::Char('K') || code == KeyCode::Char('-')
        || code == KeyCode::Char('J') {
        let up = code == KeyCode::Char('+') || code == KeyCode::Char('K');
        let moved = permission_moved(rules_view(b.permissions@), index as nat, up);
        &&& a == (AppState {
            permissions: a.permissions,
            selected_permission: a.selected_permission,
            input_mode: InputMode::ViewPermission { permission_index: a.selected_permission },
            ..b
        })
        &&& rules_view(a.permissions@) == moved.0
        &&& a.selected_permission == moved.1
    } else if code == KeyCode::Char('d') {
        permission_removed(b, a, index as nat)
    } else {
        a == b
    }
}

/// The permission editor after Left (backward) or Right (forward): the
/// endpoint, the source or the access level steps round its list,
/// depending on the field.
pub open spec fn permission_cycled(st: EditPermissionState, forward: bool) -> EditPermissionState {
    if st.field_index == 0 {
        if st.endpoints@.len() == 0 {
            st
        } else {
            EditPermissionState {
                selected_endpoint: (if forward {
                    next_wrap(st.selected_endpoint as nat, st.endpoints@.len())
                } else {
                    prev_wrap(st.selected_endpoint as nat, st.endpoints@.len())
                }) as usize,
                ..st
            }
        }
    } else if st.field_index == 1 {
        if st.sources@.len() == 0 {
            st
        } else {
            EditPermissionState {
                selected_source: (if forward {
                    next_wrap(st.selected_source as nat, st.sources@.len())
                } else {
                    prev_wrap(st.selected_source as nat, st.sources@.len())
                }) as usize,
                ..st
            }
        }
    } else {
        EditPermissionState { access: cycled_access(st.access, forward), ..st }
    }
}

/// The state after a key in the permission editor: Esc closes it;
/// Tab/Down and BackTab/Up move round its three fields; Left and Right
/// step the current field; Ctrl+S and Enter save the rule. Other keys
/// leave the editor as it is.
pub open spec fn permission_form_keyed(b: AppState, a: AppState, key: KeyEvent, st: EditPermissionState) -> bool {
    let code = key.code;
    if code == KeyCode::Esc {
        a == (AppState { input_mode: InputMode::Normal, ..b })
    } else if code == KeyCode::Tab || code == KeyCode::Down {
        a == (AppState {
            input_mode: InputMode::EditPermission(
                EditPermissionState { field_index: ((st.field_index + 1) % 3) as usize, ..st },
            ),
            ..b
        })
    } else if code == KeyCode::BackTab || code == KeyCode::Up {
        a == (AppState {
            input_mode: InputMode::EditPermission(
                EditPermissionState {
                    field_index: if st.field_index == 0 { 2 } else { (st.field_index - 1) as usize },
                    ..st
                },
            ),
            ..b
        })
    } else if code == KeyCode::Left || code == KeyCode::Right {
        a == (AppState {
            input_mode: InputMode::EditPermission(permission_cycled(st, code == KeyCode::Right)),
            ..b
        })
    } else if (code == KeyCode::Char('s') && mods_contain(key.modifiers, KeyModifiers { bits: 2 })) || code
        == KeyCode::Enter {
        permission_save_done(b, a, st)
    } else {
        a == (AppState { input_mode: InputMode::EditPermission(st), ..b })
    }
}

/// The permission editor can take the key: counters stay below the
/// largest index, and a save has a selected source and room for one more
/// priority.
pub open spec fn permission_form_key_ok(b: AppState, key: KeyEvent, st: EditPermissionState) -> bool {
    &&& st.field_index < usize::MAX
    &&& key.code == KeyCode::Right && st.field_index == 0 && st.endpoints@.len() > 0
        ==> st.selected_endpoint < usize::MAX
    &&& key.code == KeyCode::Right && st.field_index == 1 && st.sources@.len() > 0
        ==> st.selected_source < usize::MAX
    &&& ((key.code == KeyCode::Char('s') && mods_contain(key.modifiers, KeyModifiers { bits: 2 })) || key.code
        == KeyCode::Enter) ==> st.selected_source < st.sources@.len() && max_priority(
        rules_view(b.permissions@),
    ) < usize::MAX
}

impl AppState {
    /// Handle a key in a session's detail view: Esc, Enter or `q` closes
    /// it; other keys change nothing.
    pub fn session_view_key(&mut self, key: KeyEvent)
        ensures
            session_view_keyed(*old(self), *final(self), key),
    {
        match key.code {
            KeyCode::Esc | KeyCode::Enter | KeyCode::Char('q') => {
                self.input_mode = InputMode::Normal;
            },
            _ => {},
        }
    }

    /// Open the edit form of endpoint `index`.
    pub fn edit_endpoint_at(&mut self, index: usize) -> (r: Effect)
        ensures
            endpoint_edit_opened(*old(self), *final(self), index as nat, r),
    {
        if index < self.endpoints.len() {
            let ep = &self.endpoints[index];
            let t = endpoint_type_of(ep.endpoint_type.as_str());
            let credential: Option<&str> = if ep.has_credential { Some(ep.id.as_str()) } else { None };
            let form = EditCredentialState::from_endpoint(
                ep.id.as_str(),
                ep.name.as_str(),
                t,
                ep.base_url.as_str(),
                credential,
            );
            let r = match secret_field_of(t) {
                Some(f) => Effect::FillSecret(ep.id.clone(), string_of(f)),
                None => Effect::Nothing,
            };
            self.input_mode = InputMode::EditCredential(form);
            r
        } else {
            Effect::Nothing
        }
    }

    /// A decrypted secret arrived for the open credential form: it goes
    /// into the first field with this id.
    pub fn secret_filled(&mut self, field_id: &str, secret: &str)
        ensures
            match old(self).input_mode {
                InputMode::EditCredential(st) => {
                    &&& *final(self) == (AppState { input_mode: final(self).input_mode, ..*old(self) })
                    &&& final(self).input_mode matches InputMode::EditCredential(e) && e@ == (EditCredentialView {
                        field_values: match field_position(endpoint_fields(st@.endpoint_type as int), field_id@, 0) {
                            Some(i) => if i < st@.field_values.len() {
                                st@.field_values.update(i, secret@)
                            } else {
                                st@.field_values
                            },
                            None => st@.field_values,
                        },
                        ..st@
                    })
                },
                _ => *final(self) == *old(self),
            },
    {
        let mut mode = InputMode::Normal;
        std::mem::swap(&mut mode, &mut self.input_mode);
        match mode {
            InputMode::EditCredential(st) => {
                let mut st = st;
                st.set_secret(field_id, secret);
                self.input_mode = InputMode::EditCredential(st);
            },
            other => {
                self.input_mode = other;
            },
        }
    }

    /// Handle a key in an endpoint's detail view.
    pub fn endpoint_view_key(&mut self, key: KeyEvent, index: usize) -> (r: Effect)
        ensures
            endpoint_view_keyed(*old(self), *final(self), key, index as nat, r),
    {
        match key.code {
            KeyCode::Esc | KeyCode::Char('q') => {
                self.input_mode = InputMode::Normal;
                Effect::Nothing
            },
            KeyCode::Char('e') => self.edit_endpoint_at(index),
            _ => Effect::Nothing,
        }
    }

    /// Handle a key in a provider's detail view.
    pub fn provider_view_key(&mut self, key: KeyEvent, index: usize)
        ensures
            provider_view_keyed(*old(self), *final(self), key, index as nat),
    {
        match key.code {
            KeyCode::Esc | KeyCode::Char('q') => {
                self.input_mode = InputMode::Normal;
            },
            KeyCode::Char('e') => {
                self.input_mode = InputMode::Normal;
                if index < self.credential_schemas.len() {
                    let form = EditProviderState::from_schema(&self.credential_schemas[index], index);
                    self.input_mode = InputMode::EditProvider(form);
                }
            },
            _ => {},
        }
    }

    /// Handle a key in a provider's model list.
    pub fn model_list_key(&mut self, key: KeyEvent, index: usize, scroll: usize)
        ensures
            model_list_keyed(*old(self), *final(self), key, index, scroll),
    {
        match key.code {
            KeyCode::Esc | KeyCode::Char('q') | KeyCode::Enter => {
                self.input_mode = InputMode::Normal;
            },
            KeyCode::Down | KeyCode::Char('j') => {
                let count = if index < self.providers.len() { self.providers[index].models.len() } else { 0 };
                if scroll < count && scroll + 1 < count {
                    self.input_mode = InputMode::ViewModelList { provider_index: index, scroll: scroll + 1 };
                }
            },
            KeyCode::Up | KeyCode::Char('k') => {
                if scroll > 0 {
                    self.input_mode = InputMode::ViewModelList { provider_index: index, scroll: scroll - 1 };
                }
            },
            _ => {},
        }
    }

    /// Open the rule at `index` in the permission editor.
    pub fn edit_permission_at(&mut self, index: usize)
        ensures
            if index < old(self).permissions@.len() {
                &&& *final(self) == (AppState { input_mode: final(self).input_mode, ..*old(self) })
                &&& final(self).input_mode matches InputMode::EditPermission(e) && is_rule_editor(
                    e,
                    old(self).permissions@[index as int],
                    old(self).endpoints@,
                    old(self).agents@,
                )
            } else {
                *final(self) == *old(self)
            },
    {
        if index < self.permissions.len() {
            let form = EditPermissionState::from_rule(&self.permissions[index], &self.endpoints, &self.agents);
            self.input_mode = InputMode::EditPermission(form);
        }
    }

    /// Handle a key in a permission rule's detail view.
    pub fn permission_view_key(&mut self, key: KeyEvent, index: usize)
        requires
            index + 2 <= usize::MAX,
        ensures
            permission_view_keyed(*old(self), *final(self), key, index),
    {
        match key.code {
            KeyCode::Esc | KeyCode::Char('q') => {
                self.input_mode = InputMode::Normal;
            },
            KeyCode::Char('e') => {
                self.edit_permission_at(index);
            },
            KeyCode::Char('+') | KeyCode::Char('K') => {
                self.selected_permission = index;
                self.move_permission(true);
                self.input_mode = InputMode::ViewPermission { permission_index: self.selected_permission };
            },
            KeyCode::Char('-') | KeyCode::Char('J') => {
                self.selected_permission = index;
                self.move_permission(false);
                self.input_mode = InputMode::ViewPermission { permission_index: self.selected_permission };
            },
            KeyCode::Char('d') => {
                self.remove_permission(index);
            },
            _ => {},
        }
    }

    /// Handle a key in the permission editor.
    pub fn permission_form_key(&mut self, key: KeyEvent, state: EditPermissionState)
        requires
            permission_form_key_ok(*old(self), key, state),
        ensures
            permission_form_keyed(*old(self), *final(self), key, state),
    {
        let mut st = state;
        match key.code {
            KeyCode::Esc => {
                self.input_mode = InputMode::Normal;
            },
            KeyCode::Tab | KeyCode::Down => {
                st.field_index = (st.field_index + 1) % 3;
                self.input_mode = InputMode::EditPermission(st);
            },
            KeyCode::BackTab | KeyCode::Up => {
                st.field_index = if st.field_index == 0 { 2 } else { st.field_index - 1 };
                self.input_mode = InputMode::EditPermission(st);
            },
            KeyCode::Left => {
                if st.field_index == 0 {
                    st.cycle_endpoint(false);
                } else if st.field_index == 1 {
                    st.cycle_source(false);
                } else {
                    st.cycle_access(false);
                }
                self.input_mode = InputMode::EditPermission(st);
            },
            KeyCode::Right => {
                if st.field_index == 0 {
                    st.cycle_endpoint(true);
                } else if st.field_index == 1 {
                    st.cycle_source(true);
                } else {
                    st.cycle_access(true);
                }
                self.input_mode = InputMode::EditPermission(st);
            },
            KeyCode::Char('s') if key.modifiers.contains(KeyModifiers::control()) => {
                self.save_permission(st);
            },
            KeyCode::Enter => {
                self.save_permission(st);
            },
            _ => {
                self.input_mode = InputMode::EditPermission(st);
            },
        }
    }
}

} // verus!
