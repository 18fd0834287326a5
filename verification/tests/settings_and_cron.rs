use rockbot_tui::agent_form::{EditAgentState, ModelOption};
use rockbot_tui::app_state::AppState;
use rockbot_tui::cron_jobs::{CronDetail, CronRow};
use rockbot_tui::editor::EditContextFileState;
use rockbot_tui::effect::{Effect, ReloadTarget};
use rockbot_tui::keys::{KeyCode, KeyEvent, KeyModifiers};
use rockbot_tui::menu::MenuItem;
use rockbot_tui::model::CronJobInfo;
use rockbot_tui::modes::InputMode;
use rockbot_tui::overlay_keys::SettingsKeyOutcome;
use rockbot_tui::session_form::{CreateSessionState, SessionMode};

fn state() -> AppState {
    AppState::new(
        "c".to_string(),
        "v".to_string(),
        "l".to_string(),
        "ws://gw".to_string(),
        "http://gw".to_string(),
    )
}

fn key(code: KeyCode) -> KeyEvent {
    KeyEvent::new(code, KeyModifiers::none())
}

fn job(id: &str, enabled: bool, last_status: Option<&str>, last_run: Option<&str>, next_run: Option<&str>) -> CronJobInfo {
    CronJobInfo {
        id: id.to_string(),
        name: format!("job {id}"),
        enabled,
        agent_id: if enabled { Some("main".to_string()) } else { None },
        schedule: "every 1h".to_string(),
        last_run: last_run.map(String::from),
        last_status: last_status.map(String::from),
        next_run: next_run.map(String::from),
    }
}

#[test]
fn settings_overlay_navigation() {
    let mut s = state();
    s.input_mode = InputMode::SettingsOverlay;
    assert_eq!(s.settings_overlay_key(key(KeyCode::Left)), SettingsKeyOutcome::Done(Effect::Nothing));
    assert_eq!(s.selected_settings_card, 0);
    for _ in 0..6 {
        s.settings_overlay_key(key(KeyCode::Tab));
    }
    assert_eq!(s.selected_settings_card, 4);
    s.settings_overlay_key(key(KeyCode::BackTab));
    assert_eq!(s.selected_settings_card, 3);
    for _ in 0..9 {
        s.settings_overlay_key(key(KeyCode::Char('j')));
    }
    assert_eq!(s.selected_settings_field, 6);
    s.settings_overlay_key(key(KeyCode::Up));
    assert_eq!(s.selected_settings_field, 5);
    assert_eq!(s.settings_overlay_key(key(KeyCode::Char(']'))), SettingsKeyOutcome::ThemeStep(5, true));
    assert_eq!(s.settings_overlay_key(key(KeyCode::Char('['))), SettingsKeyOutcome::ThemeStep(5, false));
    s.settings_overlay_key(key(KeyCode::Right));
    for _ in 0..5 {
        s.settings_overlay_key(key(KeyCode::Down));
    }
    assert_eq!(s.selected_font_field, 2);
    s.settings_overlay_key(key(KeyCode::Char('k')));
    assert_eq!(s.settings_overlay_key(key(KeyCode::Char('['))), SettingsKeyOutcome::FontStep(1, false));
    assert_eq!(s.settings_overlay_key(key(KeyCode::Char('x'))), SettingsKeyOutcome::Done(Effect::Nothing));
    assert_eq!(s.settings_overlay_key(key(KeyCode::Esc)), SettingsKeyOutcome::Done(Effect::Nothing));
    assert_eq!(s.input_mode, InputMode::Normal);
}

#[test]
fn settings_overlay_gateway_keys() {
    let mut s = state();
    s.menu_item = MenuItem::Settings;
    s.input_mode = InputMode::SettingsOverlay;
    assert_eq!(s.settings_overlay_key(key(KeyCode::Char('s'))), SettingsKeyOutcome::Done(Effect::StartGateway));
    assert_eq!(
        s.settings_overlay_key(key(KeyCode::Char('r'))),
        SettingsKeyOutcome::Done(Effect::Reload(ReloadTarget::RestartGateway))
    );
    assert_eq!(s.settings_overlay_key(key(KeyCode::Char('S'))), SettingsKeyOutcome::Done(Effect::Nothing));
    assert_eq!(s.status_message, Some(("Gateway not running".to_string(), false)));
}

#[test]
fn cron_detail_loading_and_empty() {
    let mut s = state();
    s.cron_loading = true;
    assert_eq!(s.cron_detail(), CronDetail::Loading);
    s.cron_loading = false;
    assert_eq!(s.cron_detail(), CronDetail::NoJobs);
    s.cron_jobs = vec![job("a", true, None, None, None)];
    s.selected_cron_card = 2;
    assert_eq!(s.cron_detail(), CronDetail::NoneInCard("No disabled cron jobs".to_string()));
    s.cron_jobs = vec![job("a", false, None, None, None)];
    s.selected_cron_card = 1;
    assert_eq!(s.cron_detail(), CronDetail::NoneInCard("No active cron jobs".to_string()));
}

#[test]
fn cron_detail_rows_follow_the_card() {
    let mut s = state();
    s.cron_jobs = vec![
        job("a", true, Some("ok"), Some("10:00:00"), Some("2026-01-01 10:00:00")),
        job("b", false, None, None, None),
        job("c", true, None, None, None),
    ];
    s.selected_cron_card = 1;
    s.selected_cron_job = 0;
    match s.cron_detail() {
        CronDetail::Table { rows, next_run } => {
            assert_eq!(rows.len(), 2);
            assert_eq!(
                rows[0],
                CronRow {
                    name: "job a".to_string(),
                    agent: "main".to_string(),
                    schedule: "every 1h".to_string(),
                    status: "Active (ok)".to_string(),
                    last_run: "10:00:00".to_string(),
                    enabled: true,
                    selected: true,
                }
            );
            assert_eq!(rows[1].name, "job c");
            assert!(!rows[1].selected);
            assert_eq!(next_run.as_deref(), Some("2026-01-01 10:00:00"));
        }
        other => panic!("unexpected {:?}", other),
    }
    s.selected_cron_card = 0;
    s.selected_cron_job = 1;
    match s.cron_detail() {
        CronDetail::Table { rows, next_run } => {
            assert_eq!(rows.len(), 3);
            assert_eq!(rows[1].agent, "-");
            assert_eq!(rows[1].status, "Disabled (-)");
            assert_eq!(rows[1].last_run, "Never");
            assert!(rows[1].selected);
            assert_eq!(next_run, None);
        }
        other => panic!("unexpected {:?}", other),
    }
}

fn options(n: usize) -> Vec<ModelOption> {
    (0..n)
        .map(|i| ModelOption { label: format!("m{i}"), value: format!("p/m{i}"), provider: "p".to_string() })
        .collect()
}

#[test]
fn next_then_prev_option_restores_the_picker() {
    for mode in [SessionMode::AdHoc, SessionMode::AgentBound] {
        for sel in 0..3 {
            let mut st = CreateSessionState {
                mode,
                field_index: 1,
                available_models: options(3),
                selected_model_index: sel,
                available_agents: vec![("a".to_string(), "a".to_string()), ("b".to_string(), "b".to_string()), ("c".to_string(), "c".to_string())],
                selected_agent_index: sel,
            };
            let before = st.clone();
            st.next_option();
            st.prev_option();
            assert_eq!(st, before);
        }
    }
}

#[test]
fn next_option_on_empty_list_with_largest_index_changes_nothing() {
    let mut st = CreateSessionState {
        mode: SessionMode::AdHoc,
        field_index: 1,
        available_models: vec![],
        selected_model_index: usize::MAX,
        available_agents: vec![],
        selected_agent_index: usize::MAX,
    };
    let before = st.clone();
    st.next_option();
    assert_eq!(st, before);
}

#[test]
fn next_then_prev_model_restores_the_selection() {
    for sel in [None, Some(0), Some(1), Some(2)] {
        let mut st = EditAgentState::new();
        st.available_models = options(3);
        st.selected_model_index = sel;
        st.next_model();
        st.prev_model();
        assert_eq!(st.selected_model_index, sel);
    }
}

#[test]
fn cursor_left_undoes_cursor_right_across_lines() {
    let mut e = EditContextFileState::new("main".to_string(), "f".to_string(), "ab\ncd".to_string());
    for (line, col) in [(0, 0), (0, 1), (0, 2), (1, 0), (1, 1)] {
        e.cursor_line = line;
        e.cursor_col = col;
        e.cursor_right();
        e.cursor_left();
        assert_eq!((e.cursor_line, e.cursor_col), (line, col));
    }
}
