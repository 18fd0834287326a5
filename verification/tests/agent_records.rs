use rockbot_tui::agent_records::{agent_status_of, agents_from_records, AgentRecord};
use rockbot_tui::model::AgentStatus;

fn record(id: Option<&str>) -> AgentRecord {
    AgentRecord {
        id: id.map(String::from),
        model: None,
        parent_id: None,
        system_prompt: None,
        workspace: None,
        max_tool_calls: None,
        temperature: None,
        max_tokens: None,
        enabled: None,
        session_count: None,
        status: None,
    }
}

#[test]
fn status_names_and_fallbacks() {
    let s = |t: Option<&str>, e: bool| agent_status_of(&t.map(String::from), e);
    assert_eq!(s(Some("active"), false), AgentStatus::Active);
    assert_eq!(s(Some("pending"), true), AgentStatus::Pending);
    assert_eq!(s(Some("error"), true), AgentStatus::Error);
    assert_eq!(s(Some("disabled"), true), AgentStatus::Disabled);
    assert_eq!(s(Some("weird"), false), AgentStatus::Disabled);
    assert_eq!(s(None, false), AgentStatus::Disabled);
    assert_eq!(s(None, true), AgentStatus::Active);
}

#[test]
fn agents_without_id_are_skipped_and_defaults_apply() {
    let full = AgentRecord {
        model: Some("p/m".to_string()),
        max_tool_calls: Some(7),
        max_tokens: Some((1u64 << 32) + 5),
        temperature: Some("0.3".to_string()),
        enabled: Some(false),
        session_count: Some(4),
        ..record(Some("b"))
    };
    let rows = agents_from_records(&vec![record(None), record(Some("a")), record(Some("")), full]);
    assert_eq!(rows.len(), 2);
    assert_eq!(rows[0].id, "a");
    assert!(rows[0].enabled);
    assert_eq!(rows[0].status, AgentStatus::Active);
    assert_eq!(rows[0].session_count, 0);
    assert_eq!(rows[1].id, "b");
    assert_eq!(rows[1].model.as_deref(), Some("p/m"));
    assert_eq!(rows[1].status, AgentStatus::Disabled);
    assert_eq!(rows[1].max_tool_calls, Some(7));
    assert_eq!(rows[1].max_tokens, Some(5));
    assert_eq!(rows[1].temperature.as_deref(), Some("0.3"));
    assert_eq!(rows[1].session_count, 4);
}
