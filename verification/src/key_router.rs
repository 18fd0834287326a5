//! Where a key goes: Ctrl+C and Ctrl+Q quit from anywhere; otherwise the
//! input mode picks the handler.

use vstd::prelude::*;
use crate::app_state::{AppState, status_is};
use crate::chat_input::{ChatKeyOutcome, chat_key_handled, input_ok};
use crate::effect::Effect;
use crate::form_keys::{
    add_credential_keyed, agent_form_key_ok, agent_form_keyed, confirm_keyed, edit_credential_keyed,
    password_keyed, provider_form_key_ok, provider_form_keyed, session_form_key_ok, session_form_keyed,
};
use crate::keybindings::KeybindingConfig;
use crate::keys::{KeyCode, KeyEvent, KeyModifiers, mods_contain};
use crate::modal_keys::{browser_keyed, context_menu_keyed, editor_key_ok, editor_keyed};
use crate::modes::{CardDetailState, InputMode};
use crate::text::string_of;
use crate::dispatch::{normal_key_ok, normal_keyed};
use crate::overlay_keys::{
    SettingsKeyOutcome, cron_overlay_keyed, models_overlay_keyed, settings_keyed, vault_overlay_key_ok,
    vault_overlay_keyed,
};
use crate::view_keys::{
    endpoint_view_keyed, model_list_keyed, permission_form_key_ok, permission_form_keyed,
    permission_view_keyed, provider_view_keyed, session_view_keyed,
};

verus! {

broadcast use vstd::string::group_string_axioms;

/// What became of a key.
#[derive(Debug, Clone, PartialEq, Eq)]
pub enum KeyOutcome {
    /// A dialog or view took it; the caller does the work it hands over.
    Done(Effect),
    /// The chat input took it.
    Chat(ChatKeyOutcome),
    /// The settings overlay took it; a theme or font step is the caller's.
    Settings(SettingsKeyOutcome),
}

/// Ctrl+C or Ctrl+Q.
pub open spec fn is_quit_key(key: KeyEvent) -> bool {
    mods_contain(key.modifiers, KeyModifiers { bits: 2 }) && (key.code == KeyCode::Char('c') || key.code
        == KeyCode::Char('q'))
}

/// The state after a key in a card's detail overlay: Esc closes it saying
/// "Cancelled"; other keys leave it as it is.
pub open spec fn card_detail_keyed(b: AppState, a: AppState, key: KeyEvent, d: CardDetailState) -> bool {
    if key.code == KeyCode::Esc {
        a == (AppState { input_mode: InputMode::Normal, status_message: a.status_message, ..b }) && status_is(
            a.status_message,
            "Cancelled"@,
            false,
        )
    } else {
        a == (AppState { input_mode: InputMode::CardDetail(d), ..b })
    }
}

/// What the handler of the current mode needs of the state and the key.
pub open spec fn key_ok(b: AppState, key: KeyEvent, kb: KeybindingConfig) -> bool {
    is_quit_key(key) || match b.input_mode {
        InputMode::Normal => normal_key_ok(b, key, kb),
        InputMode::VaultOverlay => vault_overlay_key_ok(b, key),
        InputMode::CronOverlay { .. } => (key.code == KeyCode::Tab ==> b.selected_cron_card < usize::MAX) && (
        (key.code == KeyCode::Down || key.code == KeyCode::Char('j')) ==> b.selected_cron_job < usize::MAX),
        InputMode::ChatInput => input_ok(b),
        InputMode::AddAgent(st) => agent_form_key_ok(key, st),
        InputMode::EditAgent(st) => agent_form_key_ok(key, st),
        InputMode::CreateSession(st) => session_form_key_ok(st),
        InputMode::AddCredential(st) => st.field_index < usize::MAX && st.endpoint_type < usize::MAX,
        InputMode::EditCredential(st) => st.field_index < usize::MAX,
        InputMode::EditProvider(st) => provider_form_key_ok(st),
        InputMode::EditPermission(st) => permission_form_key_ok(b, key, st),
        InputMode::ViewPermission { permission_index } => permission_index + 2 <= usize::MAX,
        InputMode::EditContextFile(st) => editor_key_ok(key, st),
        InputMode::ContextMenu(m) => key.code == KeyCode::Enter ==> m.selected < m.items@.len(),
        _ => true,
    }
}

/// The state and outcome after a key: Ctrl+C and Ctrl+Q ask to exit;
/// otherwise the handler of the current input mode takes it (normal mode
/// running the action bound to the key), the dialogs working on the state
/// with their mode taken out; the settings overlay is left to the caller.
pub open spec fn key_handled(b: AppState, a: AppState, key: KeyEvent, kb: KeybindingConfig, r: KeyOutcome) -> bool {
    if is_quit_key(key) {
        r == KeyOutcome::Done(Effect::Nothing) && a == (AppState { should_exit: true, ..b })
    } else {
        let mid = AppState { input_mode: InputMode::Normal, ..b };
        match b.input_mode {
            InputMode::Normal => r matches KeyOutcome::Done(e) && normal_keyed(b, a, key, kb, e),
            InputMode::VaultOverlay => r matches KeyOutcome::Done(e) && vault_overlay_keyed(b, a, key, e),
            InputMode::CronOverlay { scroll } => r matches KeyOutcome::Done(e) && cron_overlay_keyed(b, a, key, scroll, e),
            InputMode::ModelsOverlay { provider_index, scroll } => r matches KeyOutcome::Done(e) && models_overlay_keyed(
                b,
                a,
                key,
                provider_index,
                scroll,
                e,
            ),
            InputMode::SettingsOverlay => r matches KeyOutcome::Settings(o) && settings_keyed(b, a, key, o),
            InputMode::ChatInput => r matches KeyOutcome::Chat(o) && chat_key_handled(b, a, key, kb, o),
            InputMode::ViewSession { .. } => r == KeyOutcome::Done(Effect::Nothing) && session_view_keyed(b, a, key),
            InputMode::ViewEndpoint { endpoint_index } => r matches KeyOutcome::Done(e) && endpoint_view_keyed(
                b,
                a,
                key,
                endpoint_index as nat,
                e,
            ),
            InputMode::ViewProvider { provider_index } => r == KeyOutcome::Done(Effect::Nothing)
                && provider_view_keyed(b, a, key, provider_index as nat),
            InputMode::ViewModelList { provider_index, scroll } => r == KeyOutcome::Done(Effect::Nothing)
                && model_list_keyed(b, a, key, provider_index, scroll),
            InputMode::ViewPermission { permission_index } => r == KeyOutcome::Done(Effect::Nothing)
                && permission_view_keyed(b, a, key, permission_index),
            InputMode::PasswordInput { prompt, masked, action } => r matches KeyOutcome::Done(e) && password_keyed(
                mid,
                a,
                key,
                prompt,
                masked,
                action,
                e,
            ),
            InputMode::AddCredential(st) => r matches KeyOutcome::Done(e) && add_credential_keyed(mid, a, key, st, e),
            InputMode::EditCredential(st) => r matches KeyOutcome::Done(e) && edit_credential_keyed(mid, a, key, st, e),
            InputMode::EditProvider(st) => r matches KeyOutcome::Done(e) && provider_form_keyed(mid, a, key, st, e),
            InputMode::AddAgent(st) => r matches KeyOutcome::Done(e) && agent_form_keyed(mid, a, key, st, e),
            InputMode::EditAgent(st) => r matches KeyOutcome::Done(e) && agent_form_keyed(mid, a, key, st, e),
            InputMode::CreateSession(st) => r matches KeyOutcome::Done(e) && session_form_keyed(mid, a, key, st, e),
            InputMode::Confirm { message, action } => r matches KeyOutcome::Done(e) && confirm_keyed(
                mid,
                a,
                key,
                message,
                action,
                e,
            ),
            InputMode::EditPermission(st) => r == KeyOutcome::Done(Effect::Nothing) && permission_form_keyed(
                mid,
                a,
                key,
                st,
            ),
            InputMode::ViewContextFiles(st) => r matches KeyOutcome::Done(e) && browser_keyed(mid, a, key, st, e),
            InputMode::EditContextFile(st) => r matches KeyOutcome::Done(e) && editor_keyed(mid, a, key, st, e),
            InputMode::ContextMenu(m) => r matches KeyOutcome::Done(e) && context_menu_keyed(mid, a, key, m, e),
            InputMode::CardDetail(d) => r == KeyOutcome::Done(Effect::Nothing) && card_detail_keyed(mid, a, key, d),
        }
    }
}

impl AppState {
    /// Handle a key in a card's detail overlay.
    pub fn card_detail_key(&mut self, key: KeyEvent, detail: CardDetailState)
        ensures
            card_detail_keyed(*old(self), *final(self), key, detail),
    {
        match key.code {
            KeyCode::Esc => {
                self.input_mode = InputMode::Normal;
                self.status_message = Some((string_of("Cancelled"), false));
            },
            _ => {
                self.input_mode = InputMode::CardDetail(detail);
            },
        }
    }

    /// Handle a key: quit on Ctrl+C or Ctrl+Q, else hand it to the current
    /// input mode's handler.
    pub fn handle_key(&mut self, key: KeyEvent, keybindings: &KeybindingConfig) -> (r: KeyOutcome)
        requires
            old(self).wf(),
            key_ok(*old(self), key, *keybindings),
        ensures
            key_handled(*old(self), *final(self), key, *keybindings, r),
    {
        if key.modifiers.contains(KeyModifiers::control()) {
            match key.code {
                KeyCode::Char('c') | KeyCode::Char('q') => {
                    self.should_exit = true;
                    return KeyOutcome::Done(Effect::Nothing);
                },
                _ => {},
            }
        }
        match &self.input_mode {
            InputMode::Normal => {
                return KeyOutcome::Done(self.normal_mode_key(key, keybindings));
            },
            InputMode::VaultOverlay => {
                return KeyOutcome::Done(self.vault_overlay_key(key));
            },
            InputMode::CronOverlay { scroll } => {
                let s = *scroll;
                return KeyOutcome::Done(self.cron_overlay_key(key, s));
            },
            InputMode::ModelsOverlay { provider_index, scroll } => {
                let i = *provider_index;
                let s = *scroll;
                return KeyOutcome::Done(self.models_overlay_key(key, i, s));
            },
            InputMode::SettingsOverlay => {
                return KeyOutcome::Settings(self.settings_overlay_key(key));
            },
            InputMode::ChatInput => {
                return KeyOutcome::Chat(self.handle_chat_key(key, keybindings));
            },
            InputMode::ViewSession { .. } => {
                self.session_view_key(key);
                return KeyOutcome::Done(Effect::Nothing);
            },
            InputMode::ViewEndpoint { endpoint_index } => {
                let i = *endpoint_index;
                return KeyOutcome::Done(self.endpoint_view_key(key, i));
            },
            InputMode::ViewProvider { provider_index } => {
                let i = *provider_index;
                self.provider_view_key(key, i);
                return KeyOutcome::Done(Effect::Nothing);
            },
            InputMode::ViewModelList { provider_index, scroll } => {
                let i = *provider_index;
                let s = *scroll;
                self.model_list_key(key, i, s);
                return KeyOutcome::Done(Effect::Nothing);
            },
            InputMode::ViewPermission { permission_index } => {
                let i = *permission_index;
                self.permission_view_key(key, i);
                return KeyOutcome::Done(Effect::Nothing);
            },
            _ => {},
        }
        let mut mode = InputMode::Normal;
        std::mem::swap(&mut mode, &mut self.input_mode);
        match mode {
            InputMode::PasswordInput { prompt, masked, action } => KeyOutcome::Done(
                self.password_key(key, prompt, masked, action),
            ),
            InputMode::AddCredential(st) => KeyOutcome::Done(self.add_credential_key(key, st)),
            InputMode::EditCredential(st) => KeyOutcome::Done(self.edit_credential_key(key, st)),
            InputMode::EditProvider(st) => KeyOutcome::Done(self.provider_form_key(key, st)),
            InputMode::AddAgent(st) => KeyOutcome::Done(self.agent_form_key(key, st)),
            InputMode::EditAgent(st) => KeyOutcome::Done(self.agent_form_key(key, st)),
            InputMode::CreateSession(st) => KeyOutcome::Done(self.session_form_key(key, st)),
            InputMode::Confirm { message, action } => KeyOutcome::Done(self.confirm_key(key, message, action)),
            InputMode::EditPermission(st) => {
                self.permission_form_key(key, st);
                KeyOutcome::Done(Effect::Nothing)
            },
            InputMode::ViewContextFiles(st) => KeyOutcome::Done(self.context_files_key(key, st)),
            InputMode::EditContextFile(st) => KeyOutcome::Done(self.context_file_editor_key(key, st)),
            InputMode::ContextMenu(m) => KeyOutcome::Done(self.context_menu_key(key, m)),
            InputMode::CardDetail(d) => {
                self.card_detail_key(key, d);
                KeyOutcome::Done(Effect::Nothing)
            },
            other => {
                self.input_mode = other;
                KeyOutcome::Done(Effect::Nothing)
            },
        }
    }
}

} // verus!
