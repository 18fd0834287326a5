use rockbot_tui::app_state::AppState;
use rockbot_tui::chat_input::ChatKeyOutcome;
use rockbot_tui::effect::{Effect, ReloadTarget};
use rockbot_tui::key_router::KeyOutcome;
use rockbot_tui::keybindings::KeybindingConfig;
use rockbot_tui::keys::{KeyCode, KeyEvent, KeyModifiers};
use rockbot_tui::menu::MenuItem;
use rockbot_tui::model::{
    AccessLevel, AgentInfo, AgentStatus, CronJobInfo, EndpointInfo, ModelProvider, PermissionRule,
    PermissionSource, SessionInfo, UnlockMethod,
};
use rockbot_tui::modes::{CardDetailState, ConfirmAction, InputMode, PasswordAction};
use rockbot_tui::permission_form::EditPermissionState;

fn state() -> AppState {
    AppState::new(
        "c".to_string(),
        "v".to_string(),
        "l".to_string(),
        "ws://gw".to_string(),
        "http://gw".to_string(),
    )
}

fn key(code: KeyCode) -> KeyEvent {
    KeyEvent::new(code, KeyModifiers::none())
}

fn endpoint(id: &str, name: &str, kind: &str) -> EndpointInfo {
    EndpointInfo {
        id: id.to_string(),
        name: name.to_string(),
        endpoint_type: kind.to_string(),
        base_url: "http://x".to_string(),
        has_credential: true,
        expiration: None,
    }
}

fn rule(id: &str, source: PermissionSource, access: AccessLevel, priority: usize) -> PermissionRule {
    PermissionRule {
        endpoint_id: id.to_string(),
        endpoint_name: id.to_uppercase(),
        source,
        access,
        priority,
    }
}

fn agent(id: &str) -> AgentInfo {
    AgentInfo {
        id: id.to_string(),
        model: Some("m/x".to_string()),
        status: AgentStatus::Active,
        session_count: 0,
        parent_id: None,
        system_prompt: None,
        workspace: None,
        max_tool_calls: None,
        temperature: None,
        max_tokens: None,
        enabled: true,
    }
}

fn session(key: &str, agent_id: &str) -> SessionInfo {
    SessionInfo {
        key: key.to_string(),
        agent_id: agent_id.to_string(),
        channel: None,
        started_at: None,
        message_count: 0,
        model: None,
    }
}

fn provider(available: bool) -> ModelProvider {
    ModelProvider {
        id: "p".to_string(),
        name: "P".to_string(),
        available,
        auth_type: "api_key".to_string(),
        models: vec![],
        supports_streaming: false,
        supports_tools: false,
        supports_vision: false,
    }
}

#[test]
fn saving_a_new_permission_replaces_and_sorts() {
    let mut s = state();
    s.endpoints = vec![endpoint("e1", "One", "GenericRest"), endpoint("e2", "Two", "GenericRest")];
    s.permissions = vec![
        rule("e2", PermissionSource::Any, AccessLevel::Deny, 5),
        rule("e1", PermissionSource::Any, AccessLevel::Allow, 1),
    ];
    let mut editor = EditPermissionState::new(&s.endpoints, &s.agents, Some(1));
    editor.access = AccessLevel::AllowHil2fa;
    s.save_permission(editor);
    let got: Vec<(String, AccessLevel, usize)> =
        s.permissions.iter().map(|r| (r.endpoint_id.clone(), r.access, r.priority)).collect();
    assert_eq!(got, vec![("e1".to_string(), AccessLevel::Allow, 1), ("e2".to_string(), AccessLevel::AllowHil2fa, 2)]);
    assert_eq!(s.status_message, Some(("Permission set for 'Two'".to_string(), false)));
    assert_eq!(s.input_mode, InputMode::Normal);
}

#[test]
fn saving_an_edited_permission_updates_its_access() {
    let mut s = state();
    s.endpoints = vec![endpoint("e1", "One", "GenericRest")];
    s.permissions = vec![
        rule("e1", PermissionSource::System, AccessLevel::Allow, 3),
        rule("e1", PermissionSource::Any, AccessLevel::Allow, 1),
    ];
    let mut editor = EditPermissionState::from_rule(&s.permissions[0], &s.endpoints, &s.agents);
    editor.access = AccessLevel::Deny;
    s.save_permission(editor);
    assert_eq!(s.permissions.len(), 2);
    assert_eq!(s.permissions[0].priority, 1);
    assert_eq!(s.permissions[1].source, PermissionSource::System);
    assert_eq!(s.permissions[1].access, AccessLevel::Deny);
}

#[test]
fn moving_and_removing_rules_renumbers_them() {
    let mut s = state();
    s.permissions = vec![
        rule("a", PermissionSource::Any, AccessLevel::Allow, 1),
        rule("b", PermissionSource::Any, AccessLevel::Allow, 2),
        rule("c", PermissionSource::Any, AccessLevel::Allow, 3),
    ];
    s.permission_view_key(key(KeyCode::Char('K')), 2);
    assert_eq!(s.selected_permission, 1);
    assert_eq!(s.input_mode, InputMode::ViewPermission { permission_index: 1 });
    let order: Vec<(&str, usize)> = s.permissions.iter().map(|r| (r.endpoint_id.as_str(), r.priority)).collect();
    assert_eq!(order, vec![("a", 1), ("c", 2), ("b", 3)]);
    s.permission_view_key(key(KeyCode::Char('-')), 2);
    assert_eq!(s.selected_permission, 2);
    s.permission_view_key(key(KeyCode::Char('d')), 0);
    let order: Vec<(&str, usize)> = s.permissions.iter().map(|r| (r.endpoint_id.as_str(), r.priority)).collect();
    assert_eq!(order, vec![("c", 1), ("b", 2)]);
    assert_eq!(s.status_message, Some(("Removed rule for 'A'".to_string(), false)));
}

#[test]
fn permission_editor_cycles_and_saves() {
    let mut s = state();
    s.endpoints = vec![endpoint("e1", "One", "GenericRest"), endpoint("e2", "Two", "GenericRest")];
    let editor = EditPermissionState::new(&s.endpoints, &s.agents, None);
    s.permission_form_key(key(KeyCode::Right), editor);
    let editor = match &s.input_mode {
        InputMode::EditPermission(e) => e.clone(),
        other => panic!("{:?}", other),
    };
    assert_eq!(editor.selected_endpoint, 1);
    s.permission_form_key(key(KeyCode::Tab), editor);
    let editor = match &s.input_mode {
        InputMode::EditPermission(e) => e.clone(),
        other => panic!("{:?}", other),
    };
    s.permission_form_key(key(KeyCode::Tab), editor);
    let editor = match &s.input_mode {
        InputMode::EditPermission(e) => e.clone(),
        other => panic!("{:?}", other),
    };
    s.permission_form_key(key(KeyCode::Left), editor);
    let editor = match &s.input_mode {
        InputMode::EditPermission(e) => e.clone(),
        other => panic!("{:?}", other),
    };
    assert_eq!(editor.access, AccessLevel::Allow);
    s.permission_form_key(key(KeyCode::Enter), editor);
    assert_eq!(s.permissions.len(), 1);
    assert_eq!(s.permissions[0].endpoint_id, "e2");
    assert_eq!(s.permissions[0].priority, 1);
}

#[test]
fn endpoint_view_opens_the_edit_form_and_asks_for_the_secret() {
    let mut s = state();
    s.endpoints = vec![endpoint("e9", "Home", "HomeAssistant")];
    let r = s.endpoint_view_key(key(KeyCode::Char('e')), 0);
    assert_eq!(r, Effect::FillSecret("e9".to_string(), "token".to_string()));
    s.secret_filled("token", "s3cret");
    match &s.input_mode {
        InputMode::EditCredential(f) => {
            assert_eq!(f.endpoint_type, 0);
            assert_eq!(f.field_values, vec!["http://x".to_string(), "s3cret".to_string()]);
            assert_eq!(f.credential_id, Some("e9".to_string()));
        },
        other => panic!("{:?}", other),
    }
    s.endpoint_view_key(key(KeyCode::Char('q')), 0);
    assert_eq!(s.input_mode, InputMode::Normal);
}

#[test]
fn model_list_scrolls_within_the_models() {
    let mut s = state();
    s.model_list_key(key(KeyCode::Down), 0, 0);
    assert_eq!(s.input_mode, InputMode::Normal);
    s.input_mode = InputMode::ViewModelList { provider_index: 0, scroll: 3 };
    s.model_list_key(key(KeyCode::Char('k')), 0, 3);
    assert_eq!(s.input_mode, InputMode::ViewModelList { provider_index: 0, scroll: 2 });
    s.model_list_key(key(KeyCode::Enter), 0, 2);
    assert_eq!(s.input_mode, InputMode::Normal);
}

#[test]
fn delete_action_asks_for_the_selected_item() {
    let mut s = state();
    s.menu_item = MenuItem::CronJobs;
    s.cron_jobs = vec![CronJobInfo {
        id: "j1".to_string(),
        name: "nightly".to_string(),
        enabled: true,
        agent_id: None,
        schedule: "0 0 * * *".to_string(),
        last_run: None,
        last_status: None,
        next_run: None,
    }];
    s.delete_action();
    assert_eq!(
        s.input_mode,
        InputMode::Confirm {
            message: "Delete cron job 'nightly'?".to_string(),
            action: ConfirmAction::DeleteCronJob("j1".to_string()),
        }
    );
    s.input_mode = InputMode::Normal;
    assert_eq!(s.edit_action(), Effect::ToggleCronJob("j1".to_string(), false));
}

#[test]
fn view_and_kill_need_a_selected_session() {
    let mut s = state();
    s.menu_item = MenuItem::Sessions;
    assert_eq!(s.view_action(), Effect::Nothing);
    assert_eq!(s.status_message, Some(("No session selected".to_string(), true)));
    s.sessions = vec![session("k1", "main")];
    assert_eq!(s.view_action(), Effect::LoadSessionDetails("k1".to_string()));
    assert_eq!(s.input_mode, InputMode::ViewSession { session_key: "k1".to_string() });
    s.kill_action();
    assert_eq!(
        s.input_mode,
        InputMode::Confirm {
            message: "Kill session 'k1'?".to_string(),
            action: ConfirmAction::KillSession("k1".to_string()),
        }
    );
}

#[test]
fn refresh_says_what_it_reloads() {
    let mut s = state();
    assert_eq!(s.refresh_action(), Effect::Reload(ReloadTarget::Everything));
    assert_eq!(s.status_message, Some(("Refreshing...".to_string(), false)));
    s.menu_item = MenuItem::Settings;
    assert_eq!(s.refresh_action(), Effect::Reload(ReloadTarget::RestartGateway));
    assert_eq!(s.status_message, Some(("Restarting gateway...".to_string(), false)));
}

#[test]
fn chat_action_needs_a_provider_and_opens_the_chat() {
    let mut s = state();
    s.sessions = vec![session("k1", "ops")];
    s.agents = vec![agent("ops")];
    s.chat_action();
    assert_eq!(
        s.status_message,
        Some(("No LLM providers available — configure one in Models or Credentials → Providers".to_string(), true))
    );
    s.providers = vec![provider(true)];
    s.chat_action();
    assert_eq!(s.menu_item, MenuItem::Sessions);
    assert_eq!(s.input_mode, InputMode::ChatInput);
    assert_eq!(s.chat_model, Some("m/x".to_string()));
    assert!(s.session_chats.iter().any(|c| c.key == "k1"));
}

#[test]
fn session_selection_follows_the_session() {
    let mut s = state();
    s.agents = vec![agent("ops")];
    s.sessions = vec![session("k1", "ops"), session("k2", "ad-hoc-7")];
    assert_eq!(s.session_selection_changed(), Effect::LoadSessionMessages("k1".to_string()));
    assert_eq!(s.chat_agent_id, Some("ops".to_string()));
    s.selected_session = 1;
    s.session_selection_changed();
    assert_eq!(s.chat_agent_id, None);
}

#[test]
fn unlock_action_prompts_by_method() {
    let mut s = state();
    s.vault.initialized = true;
    s.vault.locked = true;
    s.vault.unlock_method = UnlockMethod::Age { public_key: Some("age1qqqqqqqqqqqqqqqqqqqqqqqqqqqq".to_string()) };
    assert_eq!(s.unlock_action(), Effect::Nothing);
    assert_eq!(
        s.input_mode,
        InputMode::PasswordInput {
            prompt: "Enter Age identity (pub: age1qqqqqqqqqqqqqqqq...):".to_string(),
            masked: false,
            action: PasswordAction::UnlockVault,
        }
    );
    s.vault.unlock_method = UnlockMethod::Keyfile { path: None };
    assert_eq!(s.unlock_action(), Effect::UnlockWithKeyfile(None));
    s.vault.unlock_method = UnlockMethod::SshKey { path: None };
    s.unlock_action();
    assert_eq!(
        s.status_message,
        Some(("SSH unlock not yet implemented (key: ~/.ssh/id_ed25519)".to_string(), true))
    );
    s.vault.locked = false;
    s.input_mode = InputMode::Normal;
    assert_eq!(s.unlock_action(), Effect::Nothing);
    assert_eq!(s.input_mode, InputMode::Normal);
}

#[test]
fn vault_results_update_the_lists() {
    let mut s = state();
    s.credential_stored(vec![endpoint("e1", "one", "GenericRest"), endpoint("e2", "two", "GenericRest")], "two");
    assert_eq!(s.vault.endpoint_count, 2);
    assert_eq!(s.permissions.len(), 1);
    assert_eq!(s.permissions[0].endpoint_id, "e2");
    assert_eq!(s.permissions[0].access, AccessLevel::AllowHil);
    assert_eq!(s.permissions[0].priority, 1);
    assert_eq!(s.status_message, Some(("Added: two".to_string(), false)));
    s.selected_endpoint = 1;
    s.endpoint_removed(vec![endpoint("e1", "one", "GenericRest")]);
    assert_eq!(s.selected_endpoint, 0);
    assert_eq!(s.status_message, Some(("✅ Deleted endpoint".to_string(), false)));
    s.vault_created();
    assert!(s.vault.initialized && !s.vault.locked);
    assert_eq!(s.vault.unlock_method, UnlockMethod::Password);
}

#[test]
fn keys_go_to_the_current_mode() {
    let mut s = state();
    let kb = KeybindingConfig::default();
    assert_eq!(s.handle_key(key(KeyCode::Char('x')), &kb), KeyOutcome::Done(Effect::Nothing));
    s.input_mode = InputMode::CardDetail(CardDetailState { mode: MenuItem::Agents, slot_index: 1, scroll: 0 });
    assert_eq!(s.handle_key(key(KeyCode::Char('x')), &kb), KeyOutcome::Done(Effect::Nothing));
    assert!(matches!(s.input_mode, InputMode::CardDetail(_)));
    s.handle_key(key(KeyCode::Esc), &kb);
    assert_eq!(s.input_mode, InputMode::Normal);
    assert_eq!(s.status_message, Some(("Cancelled".to_string(), false)));
    s.input_mode = InputMode::ChatInput;
    s.sessions = vec![session("k1", "main")];
    assert_eq!(s.handle_key(key(KeyCode::Char('h')), &kb), KeyOutcome::Chat(ChatKeyOutcome::Handled));
    assert_eq!(s.input_buffer, "h");
    let quit = KeyEvent::new(KeyCode::Char('q'), KeyModifiers::control());
    assert_eq!(s.handle_key(quit, &kb), KeyOutcome::Done(Effect::Nothing));
    assert!(s.should_exit);
}
