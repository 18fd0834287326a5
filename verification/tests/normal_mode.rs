use rockbot_tui::app_state::AppState;
use rockbot_tui::effect::{Effect, ReloadTarget};
use rockbot_tui::key_router::KeyOutcome;
use rockbot_tui::overlay_keys::SettingsKeyOutcome;
use rockbot_tui::keybindings::{KeybindingConfig, TuiAction};
use rockbot_tui::keys::{KeyCode, KeyEvent, KeyModifiers};
use rockbot_tui::menu::MenuItem;
use rockbot_tui::model::{AgentInfo, AgentStatus, CronJobInfo, EndpointInfo, ModelProvider};
use rockbot_tui::modes::{CardDetailState, InputMode};

fn state() -> AppState {
    AppState::new(
        "c".to_string(),
        "v".to_string(),
        "l".to_string(),
        "ws://gw".to_string(),
        "http://gw".to_string(),
    )
}

fn key(code: KeyCode) -> KeyEvent {
    KeyEvent::new(code, KeyModifiers::none())
}

fn agent(id: &str) -> AgentInfo {
    AgentInfo {
        id: id.to_string(),
        model: None,
        status: AgentStatus::Active,
        session_count: 0,
        parent_id: None,
        system_prompt: None,
        workspace: None,
        max_tool_calls: None,
        temperature: None,
        max_tokens: None,
        enabled: true,
    }
}

fn job(id: &str) -> CronJobInfo {
    CronJobInfo {
        id: id.to_string(),
        name: id.to_string(),
        enabled: true,
        agent_id: None,
        schedule: "* * * * *".to_string(),
        last_run: None,
        last_status: None,
        next_run: None,
    }
}

fn provider(name: &str, models: usize) -> ModelProvider {
    ModelProvider {
        id: name.to_lowercase(),
        name: name.to_string(),
        available: true,
        auth_type: "api_key".to_string(),
        models: (0..models)
            .map(|i| rockbot_tui::model::ModelProviderModel {
                id: format!("m{i}"),
                name: format!("M{i}"),
                description: String::new(),
                context_window: 1,
                max_output_tokens: None,
            })
            .collect(),
        supports_streaming: false,
        supports_tools: false,
        supports_vision: false,
    }
}

#[test]
fn number_keys_jump_to_pages_and_overlays() {
    let mut s = state();
    let kb = KeybindingConfig::default();
    s.agents = vec![agent("a1"), agent("a2")];
    s.handle_key(key(KeyCode::Char('2')), &kb);
    assert_eq!(s.menu_item, MenuItem::Agents);
    assert_eq!(s.slot_bar.mode, 2);
    assert_eq!(s.slot_bar.slots[0].label, "Agents");
    s.handle_key(key(KeyCode::Char('6')), &kb);
    assert_eq!(s.input_mode, InputMode::VaultOverlay);
    s.handle_key(key(KeyCode::Char('3')), &kb);
    assert_eq!(s.credentials_tab, 2);
    s.handle_key(key(KeyCode::Esc), &kb);
    assert_eq!(s.input_mode, InputMode::Normal);
    s.handle_key(key(KeyCode::Char('7')), &kb);
    assert_eq!(s.input_mode, InputMode::ModelsOverlay { provider_index: 0, scroll: 0 });
}

#[test]
fn moving_right_on_agents_follows_with_the_card_bar() {
    let mut s = state();
    s.agents = vec![agent("a1"), agent("a2")];
    s.dispatch(TuiAction::JumpToSection(2));
    s.dispatch(TuiAction::NavRight);
    assert_eq!(s.selected_agent, 1);
    assert_eq!(s.slot_bar.active_slot, 2);
    s.dispatch(TuiAction::CardLeft);
    assert_eq!(s.slot_bar.active_slot, 1);
    assert_eq!(s.selected_agent, 0);
    s.dispatch(TuiAction::CardActivate);
    assert_eq!(
        s.input_mode,
        InputMode::CardDetail(CardDetailState { mode: MenuItem::Agents, slot_index: 1, scroll: 0 })
    );
}

#[test]
fn card_up_on_the_mode_card_changes_page() {
    let mut s = state();
    assert_eq!(s.slot_bar.active_slot, 0);
    s.dispatch(TuiAction::CardDown);
    assert_eq!(s.menu_item, MenuItem::Credentials);
    assert_eq!(s.menu_index, 1);
    s.dispatch(TuiAction::CardUp);
    s.dispatch(TuiAction::CardUp);
    assert_eq!(s.menu_item, MenuItem::Settings);
    assert_eq!(s.menu_index, 6);
}

#[test]
fn cron_page_wraps_its_selection() {
    let mut s = state();
    s.menu_item = MenuItem::CronJobs;
    s.cron_jobs = vec![job("a"), job("b"), job("c")];
    s.dispatch(TuiAction::NavUp);
    assert_eq!(s.selected_cron_job, 2);
    s.dispatch(TuiAction::NavDown);
    assert_eq!(s.selected_cron_job, 0);
}

#[test]
fn cron_overlay_moves_and_scrolls() {
    let mut s = state();
    s.cron_jobs = vec![job("a"), job("b")];
    assert_eq!(s.cron_overlay_key(key(KeyCode::Down), 4), Effect::Nothing);
    assert_eq!(s.selected_cron_job, 1);
    assert_eq!(s.input_mode, InputMode::CronOverlay { scroll: 5 });
    s.cron_overlay_key(key(KeyCode::Tab), 5);
    assert_eq!(s.selected_cron_card, 1);
    assert_eq!(s.cron_overlay_key(key(KeyCode::Char('r')), 5), Effect::Reload(ReloadTarget::Everything));
    assert_eq!(s.input_mode, InputMode::CronOverlay { scroll: 5 });
    s.cron_overlay_key(key(KeyCode::Esc), 5);
    assert_eq!(s.input_mode, InputMode::Normal);
}

#[test]
fn models_overlay_moves_between_providers() {
    let mut s = state();
    s.menu_item = MenuItem::Models;
    s.providers = vec![provider("A", 2), provider("B", 3)];
    s.models_overlay_key(key(KeyCode::Right), 0, 0);
    assert_eq!(s.input_mode, InputMode::ModelsOverlay { provider_index: 1, scroll: 0 });
    s.models_overlay_key(key(KeyCode::Right), 1, 0);
    assert_eq!(s.input_mode, InputMode::ModelsOverlay { provider_index: 1, scroll: 0 });
    s.models_overlay_key(key(KeyCode::Char('k')), 1, 0);
    assert_eq!(s.input_mode, InputMode::ModelsOverlay { provider_index: 1, scroll: 0 });
    s.models_overlay_key(key(KeyCode::Enter), 1, 0);
    assert_eq!(s.input_mode, InputMode::ViewModelList { provider_index: 1, scroll: 0 });
    s.models_overlay_key(key(KeyCode::Char('e')), 0, 0);
    assert_eq!(s.selected_provider, 0);
    assert!(matches!(s.input_mode, InputMode::EditProvider(_)));
}

#[test]
fn vault_overlay_opens_the_selected_endpoint() {
    let mut s = state();
    s.input_mode = InputMode::VaultOverlay;
    s.endpoints = vec![EndpointInfo {
        id: "e1".to_string(),
        name: "one".to_string(),
        endpoint_type: "GenericRest".to_string(),
        base_url: "http://x".to_string(),
        has_credential: false,
        expiration: None,
    }];
    s.vault_overlay_key(key(KeyCode::Tab));
    assert_eq!(s.credentials_tab, 1);
    s.vault_overlay_key(key(KeyCode::Char('1')));
    assert_eq!(s.credentials_tab, 0);
    s.vault_overlay_key(key(KeyCode::Enter));
    assert_eq!(s.input_mode, InputMode::ViewEndpoint { endpoint_index: 0 });
}

#[test]
fn vault_tabs_step_with_braces_only_in_the_overlay() {
    let mut s = state();
    let kb = KeybindingConfig::default();
    s.normal_mode_key(key(KeyCode::Char('}')), &kb);
    assert_eq!(s.credentials_tab, 0);
    s.input_mode = InputMode::VaultOverlay;
    s.dispatch(TuiAction::PrevTab);
    assert_eq!(s.credentials_tab, 3);
    s.dispatch(TuiAction::NextTab);
    assert_eq!(s.credentials_tab, 0);
}

#[test]
fn open_actions_show_overlays() {
    let mut s = state();
    assert_eq!(s.dispatch(TuiAction::OpenSettings), Effect::SyncSettingsPicker);
    assert_eq!(s.input_mode, InputMode::SettingsOverlay);
    let kb = KeybindingConfig::default();
    assert_eq!(
        s.handle_key(key(KeyCode::Char('x')), &kb),
        KeyOutcome::Settings(SettingsKeyOutcome::Done(Effect::Nothing))
    );
    s.dispatch(TuiAction::OpenCron);
    assert_eq!(s.input_mode, InputMode::CronOverlay { scroll: 0 });
    s.dispatch(TuiAction::OpenContextMenu);
    assert!(matches!(s.input_mode, InputMode::ContextMenu(_)));
    assert_eq!(s.dispatch(TuiAction::Quit), Effect::Nothing);
    assert!(s.should_exit);
}

#[test]
fn context_files_open_for_the_selected_agent() {
    let mut s = state();
    s.agents = vec![agent("main")];
    s.menu_item = MenuItem::Agents;
    assert_eq!(s.dispatch(TuiAction::ContextFiles), Effect::FetchContextFiles("main".to_string()));
    match &s.input_mode {
        InputMode::ViewContextFiles(v) => {
            assert_eq!(v.agent_id, "main");
            assert!(v.loading);
            assert!(v.files.is_empty());
        },
        other => panic!("{:?}", other),
    }
}
