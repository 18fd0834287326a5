use rockbot_tui::app_state::AppState;
use rockbot_tui::dashboard_detail::DetailLine;
use rockbot_tui::model::{AgentInfo, AgentStatus};

fn state() -> AppState {
    AppState::new(
        "c".to_string(),
        "v".to_string(),
        "l".to_string(),
        "ws://gw".to_string(),
        "http://gw".to_string(),
    )
}

fn l(key: &str, value: &str, note: &str) -> DetailLine {
    DetailLine { key: key.to_string(), value: value.to_string(), note: note.to_string() }
}

fn agent(id: &str, status: AgentStatus, sessions: usize) -> AgentInfo {
    AgentInfo {
        id: id.to_string(),
        model: None,
        status,
        session_count: sessions,
        parent_id: None,
        system_prompt: None,
        workspace: None,
        max_tool_calls: None,
        temperature: None,
        max_tokens: None,
        enabled: true,
    }
}

#[test]
fn gateway_detail_lines() {
    let mut s = state();
    assert_eq!(
        s.dashboard_detail("Gateway"),
        Some(vec![l("Status: ", "Offline", ""), l("Sessions: ", "0", ""), l("Agents: ", "0", "")])
    );
    s.gateway.connected = true;
    s.gateway.version = Some("0.4.1".to_string());
    s.gateway.uptime_secs = Some(7_385);
    s.gateway.active_sessions = 3;
    s.agents = vec![agent("main", AgentStatus::Active, 1)];
    assert_eq!(
        s.dashboard_detail("Gateway"),
        Some(vec![
            l("Status: ", "Online", ""),
            l("Version: ", "0.4.1", ""),
            l("Uptime: ", "2h 3m", ""),
            l("Sessions: ", "3", ""),
            l("Agents: ", "1", ""),
        ])
    );
}

#[test]
fn agents_detail_lines() {
    let mut s = state();
    assert_eq!(s.dashboard_detail("Agents"), Some(vec![l("No agents configured", "", "")]));
    s.agents = vec![
        agent("main", AgentStatus::Active, 2),
        agent("a-very-long-agent-id", AgentStatus::Disabled, 0),
    ];
    assert_eq!(
        s.dashboard_detail("Agents"),
        Some(vec![
            l("main            ", " Active", "  2 sess"),
            l("a-very-long-agent-id", " Disabled", "  0 sess"),
        ])
    );
}

#[test]
fn vault_and_other_cards() {
    let mut s = state();
    s.vault.initialized = true;
    s.vault.locked = true;
    s.vault.endpoint_count = 4;
    assert_eq!(
        s.dashboard_detail("Vault"),
        Some(vec![l("Status: ", "Locked", ""), l("Endpoints: ", "4", "")])
    );
    s.vault.locked = false;
    assert_eq!(s.dashboard_detail("Vault").unwrap()[0].value, "Unlocked");
    s.vault.initialized = false;
    assert_eq!(s.dashboard_detail("Vault").unwrap()[0].value, "Not Initialized");
    assert_eq!(s.dashboard_detail("Client"), None);
    assert_eq!(s.dashboard_detail("Exec"), None);
    assert_eq!(
        s.dashboard_detail("Sessions"),
        Some(vec![l("No additional details available.", "", "")])
    );
}
