use rockbot_tui::agent_form::EditAgentState;
use rockbot_tui::app_state::AppState;
use rockbot_tui::credential_forms::{AddCredentialState, EditCredentialState};
use rockbot_tui::effect::Effect;
use rockbot_tui::keys::{KeyCode, KeyEvent, KeyModifiers};
use rockbot_tui::model::{AgentInfo, AgentStatus, ModelProvider, ModelProviderModel};
use rockbot_tui::modes::{ConfirmAction, InputMode, PasswordAction, ViewContextFilesState};
use rockbot_tui::session_form::{CreateSessionState, SessionMode};

fn state() -> AppState {
    AppState::new(
        "c".to_string(),
        "v".to_string(),
        "l".to_string(),
        "ws://gw".to_string(),
        "http://gw".to_string(),
    )
}

fn key(code: KeyCode) -> KeyEvent {
    KeyEvent::new(code, KeyModifiers::none())
}

fn ctrl_s() -> KeyEvent {
    KeyEvent::new(KeyCode::Char('s'), KeyModifiers::control())
}

fn agent(id: &str, model: Option<&str>) -> AgentInfo {
    AgentInfo {
        id: id.to_string(),
        model: model.map(|m| m.to_string()),
        status: AgentStatus::Active,
        session_count: 0,
        parent_id: None,
        system_prompt: None,
        workspace: None,
        max_tool_calls: None,
        temperature: None,
        max_tokens: None,
        enabled: true,
    }
}

fn provider() -> ModelProvider {
    ModelProvider {
        id: "anthropic".to_string(),
        name: "Anthropic".to_string(),
        available: true,
        auth_type: "api_key".to_string(),
        models: vec![
            ModelProviderModel {
                id: "a1".to_string(),
                name: "A1".to_string(),
                description: String::new(),
                context_window: 1000,
                max_output_tokens: None,
            },
            ModelProviderModel {
                id: "a2".to_string(),
                name: "A2".to_string(),
                description: String::new(),
                context_window: 1000,
                max_output_tokens: None,
            },
        ],
        supports_streaming: true,
        supports_tools: true,
        supports_vision: false,
    }
}

fn agent_form_of(s: &AppState) -> EditAgentState {
    match &s.input_mode {
        InputMode::AddAgent(e) | InputMode::EditAgent(e) => e.clone(),
        other => panic!("not an agent form: {:?}", other),
    }
}

#[test]
fn agent_form_types_and_saves_a_new_agent() {
    let mut s = state();
    let mut form = EditAgentState::new();
    for c in "bot".chars() {
        s.agent_form_key(key(KeyCode::Char(c)), form);
        form = agent_form_of(&s);
    }
    assert_eq!(form.id, "bot");
    s.agent_form_key(key(KeyCode::Backspace), form);
    form = agent_form_of(&s);
    assert_eq!(form.id, "bo");
    s.agent_form_key(key(KeyCode::Tab), form);
    form = agent_form_of(&s);
    assert_eq!(form.field_index, 1);
    let r = s.agent_form_key(ctrl_s(), form);
    match r {
        Effect::SaveAgent(saved) => assert_eq!(saved.id, "bo"),
        other => panic!("expected a save, got {:?}", other),
    }
    assert_eq!(s.input_mode, InputMode::Normal);
}

#[test]
fn agent_form_refuses_a_duplicate_or_invalid_id() {
    let mut s = state();
    s.agents = vec![agent("main", None)];
    let mut form = EditAgentState::new();
    form.id = "main".to_string();
    assert_eq!(s.agent_form_key(ctrl_s(), form), Effect::Nothing);
    assert_eq!(s.status_message, Some(("Agent 'main' already exists".to_string(), true)));
    let mut form = EditAgentState::new();
    form.id = "a b".to_string();
    s.agent_form_key(ctrl_s(), form);
    assert_eq!(s.status_message, Some(("Agent ID cannot contain spaces or slashes".to_string(), true)));
    assert!(matches!(s.input_mode, InputMode::AddAgent(_)));
}

#[test]
fn agent_form_system_prompt_takes_at_most_nine_line_feeds() {
    let mut s = state();
    let mut form = EditAgentState::new();
    form.field_index = 7;
    for _ in 0..12 {
        s.agent_form_key(key(KeyCode::Enter), form);
        form = agent_form_of(&s);
    }
    assert_eq!(form.system_prompt.matches('\n').count(), 9);
    assert_eq!(form.field_index, 7);
}

#[test]
fn agent_form_picks_models_and_escapes() {
    let mut s = state();
    let mut form = EditAgentState::new();
    form.populate_models(&vec![provider()]);
    form.field_index = 1;
    s.agent_form_key(key(KeyCode::Right), form);
    let form = agent_form_of(&s);
    assert_eq!(form.model, "anthropic/a1");
    assert_eq!(form.selected_model_index, Some(0));
    s.agent_form_key(key(KeyCode::Left), form);
    let form = agent_form_of(&s);
    assert_eq!(form.selected_model_index, None);
    s.agent_form_key(key(KeyCode::Esc), form);
    assert_eq!(s.input_mode, InputMode::Normal);
    assert_eq!(s.status_message, Some(("Cancelled".to_string(), false)));
}

#[test]
fn session_form_opens_an_ad_hoc_chat() {
    let mut s = state();
    s.input_buffer = "draft".to_string();
    s.input_cursor = 5;
    let form = CreateSessionState::new(&vec![provider()], &vec![]);
    s.session_form_key(key(KeyCode::Right), form);
    let form = match &s.input_mode {
        InputMode::CreateSession(f) => f.clone(),
        other => panic!("{:?}", other),
    };
    assert_eq!(form.selected_model_index, 1);
    let r = s.session_form_key(key(KeyCode::Enter), form);
    assert_eq!(r, Effect::CreateSession(None, Some("anthropic/a2".to_string())));
    assert_eq!(s.chat_model, Some("anthropic/a2".to_string()));
    assert_eq!(s.input_mode, InputMode::ChatInput);
    assert_eq!(s.input_buffer, "");
    assert_eq!(s.input_cursor, 0);
}

#[test]
fn session_form_binds_an_agent_with_its_model() {
    let mut s = state();
    s.agents = vec![agent("ops", Some("openai/gpt"))];
    let mut form = CreateSessionState::new(&vec![], &s.agents.clone());
    form.field_index = 0;
    s.session_form_key(key(KeyCode::Left), form);
    let mut form = match &s.input_mode {
        InputMode::CreateSession(f) => f.clone(),
        other => panic!("{:?}", other),
    };
    assert_eq!(form.mode, SessionMode::AgentBound);
    form.field_index = 1;
    let r = s.session_form_key(key(KeyCode::Enter), form);
    assert_eq!(r, Effect::CreateSession(Some("ops".to_string()), Some("openai/gpt".to_string())));
    assert_eq!(s.chat_agent_id, Some("ops".to_string()));
}

#[test]
fn session_form_without_models_says_so() {
    let mut s = state();
    let form = CreateSessionState::new(&vec![], &vec![]);
    assert_eq!(s.session_form_key(key(KeyCode::Enter), form), Effect::Nothing);
    assert_eq!(s.status_message, Some(("No model available".to_string(), true)));
}

#[test]
fn add_credential_form_cycles_types_and_validates() {
    let mut s = state();
    let mut form = AddCredentialState::new();
    form.field_index = 1;
    s.add_credential_key(key(KeyCode::Left), form);
    let form = match &s.input_mode {
        InputMode::AddCredential(f) => f.clone(),
        other => panic!("{:?}", other),
    };
    assert_eq!(form.endpoint_type, 5);
    assert_eq!(form.field_values.len(), 2);
    s.add_credential_key(key(KeyCode::Right), form);
    let form = match &s.input_mode {
        InputMode::AddCredential(f) => f.clone(),
        other => panic!("{:?}", other),
    };
    assert_eq!(form.endpoint_type, 0);
    assert_eq!(s.add_credential_key(ctrl_s(), form), Effect::Nothing);
    assert!(s.status_message.as_ref().unwrap().1);
}

#[test]
fn add_credential_form_types_into_fields_and_submits() {
    let mut s = state();
    let mut form = AddCredentialState::new();
    for c in "ha".chars() {
        s.add_credential_key(key(KeyCode::Char(c)), form);
        form = match &s.input_mode {
            InputMode::AddCredential(f) => f.clone(),
            other => panic!("{:?}", other),
        };
    }
    assert_eq!(form.name, "ha");
    form.field_values = vec!["http://ha.local".to_string(), "tok".to_string()];
    let r = s.add_credential_key(ctrl_s(), form.clone());
    assert_eq!(r, Effect::StoreNewCredential);
    assert_eq!(s.input_mode, InputMode::AddCredential(form));
}

#[test]
fn edit_credential_typing_a_secret_marks_it_modified() {
    let mut s = state();
    let form = EditCredentialState::from_endpoint("e1", "ha", 0, "http://ha", Some("e1"));
    s.edit_credential_key(key(KeyCode::Down), form);
    let form = match &s.input_mode {
        InputMode::EditCredential(f) => f.clone(),
        other => panic!("{:?}", other),
    };
    s.edit_credential_key(key(KeyCode::Down), form);
    let form = match &s.input_mode {
        InputMode::EditCredential(f) => f.clone(),
        other => panic!("{:?}", other),
    };
    assert_eq!(form.field_index, 2);
    s.edit_credential_key(key(KeyCode::Char('x')), form);
    let form = match &s.input_mode {
        InputMode::EditCredential(f) => f.clone(),
        other => panic!("{:?}", other),
    };
    assert!(form.secret_modified);
    assert_eq!(form.field_values[1], "x");
    assert_eq!(s.edit_credential_key(key(KeyCode::Enter), form), Effect::StoreCredentialChanges);
}

#[test]
fn confirm_dialog_drops_agents_and_hands_over_deletions() {
    let mut s = state();
    s.agents = vec![agent("a", None), agent("b", None)];
    s.selected_agent = 1;
    let r = s.confirm_key(key(KeyCode::Char('y')), "?".to_string(), ConfirmAction::DeleteAgent("b".to_string()));
    assert_eq!(r, Effect::Nothing);
    assert_eq!(s.agents.len(), 1);
    assert_eq!(s.selected_agent, 0);
    assert_eq!(s.status_message, Some(("Disabled agent: b (edit config to persist)".to_string(), false)));
    let r = s.confirm_key(key(KeyCode::Char('Y')), "?".to_string(), ConfirmAction::KillSession("k".to_string()));
    assert_eq!(r, Effect::KillSession("k".to_string()));
    assert_eq!(s.input_mode, InputMode::Normal);
    s.confirm_key(key(KeyCode::Char('n')), "?".to_string(), ConfirmAction::DeleteCronJob("j".to_string()));
    assert_eq!(s.status_message, Some(("Cancelled".to_string(), false)));
    let browser = ViewContextFilesState { agent_id: "a".to_string(), files: vec![], selected: 0, loading: true };
    s.confirm_key(key(KeyCode::Char('y')), "?".to_string(), ConfirmAction::DiscardContextFile(browser.clone()));
    assert_eq!(s.input_mode, InputMode::ViewContextFiles(browser));
    s.confirm_key(key(KeyCode::Tab), "Sure?".to_string(), ConfirmAction::DisableAgent("a".to_string()));
    assert_eq!(
        s.input_mode,
        InputMode::Confirm { message: "Sure?".to_string(), action: ConfirmAction::DisableAgent("a".to_string()) }
    );
}

#[test]
fn password_prompt_checks_the_password() {
    let mut s = state();
    let prompt = "Create vault password (min 8 chars):".to_string();
    for c in "short".chars() {
        s.password_key(key(KeyCode::Char(c)), prompt.clone(), true, PasswordAction::InitVault);
    }
    assert_eq!(s.input_buffer, "short");
    s.password_key(key(KeyCode::Enter), prompt.clone(), true, PasswordAction::InitVault);
    assert_eq!(s.status_message, Some(("Password must be at least 8 characters".to_string(), true)));
    assert_eq!(s.input_buffer, "");
    s.password_key(key(KeyCode::Enter), prompt.clone(), true, PasswordAction::UnlockVault);
    assert_eq!(s.status_message, Some(("Password cannot be empty".to_string(), true)));
    for c in "long enough".chars() {
        s.password_key(key(KeyCode::Char(c)), prompt.clone(), true, PasswordAction::InitVault);
    }
    s.password_key(key(KeyCode::Backspace), prompt.clone(), true, PasswordAction::InitVault);
    let r = s.password_key(key(KeyCode::Enter), prompt, true, PasswordAction::InitVault);
    assert_eq!(r, Effect::InitVault("long enoug".to_string()));
    assert_eq!(s.input_mode, InputMode::Normal);
}
