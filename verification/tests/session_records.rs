use rockbot_tui::model::ChatRole;
use rockbot_tui::session_records::{session_from_record, sessions_from_records, stored_message, SessionRecord};

fn record(agent: &str, key: &str, model: Option<&str>) -> SessionRecord {
    SessionRecord {
        id: "s1".to_string(),
        agent_id: agent.to_string(),
        session_key: key.to_string(),
        created_at: Some("2026-01-01".to_string()),
        model: model.map(String::from),
    }
}

#[test]
fn agent_sessions_go_through_their_agent() {
    let s = session_from_record(&record("main", "abcdefghijk", Some("p/m")));
    assert_eq!(s.key, "s1");
    assert_eq!(s.agent_id, "main");
    assert_eq!(s.channel.as_deref(), Some("agent:main"));
    assert_eq!(s.started_at.as_deref(), Some("2026-01-01"));
    assert_eq!(s.message_count, 0);
    assert_eq!(s.model.as_deref(), Some("p/m"));
}

#[test]
fn ad_hoc_sessions_are_named_by_key_head() {
    let s = session_from_record(&record("ad-hoc", "abcdefghijk", Some("p/m")));
    assert_eq!(s.agent_id, "ad-hoc (abcdefgh)");
    assert_eq!(s.channel.as_deref(), Some("model:p/m"));
    let short = session_from_record(&record("ad-hoc", "abc", None));
    assert_eq!(short.agent_id, "ad-hoc (abc)");
    assert_eq!(short.channel, None);
    // the eighth byte falls inside "é": the whole key is kept
    let odd = session_from_record(&record("ad-hoc", "abcdefgéh", None));
    assert_eq!(odd.agent_id, "ad-hoc (abcdefgéh)");
    assert_eq!(sessions_from_records(&vec![record("a", "k", None), record("b", "k", None)]).len(), 2);
}

#[test]
fn stored_message_roles() {
    let m = stored_message("hi".to_string(), &Some("assistant".to_string()), Some("t".to_string()));
    assert_eq!(m.role, ChatRole::Assistant);
    assert_eq!(m.content, "hi");
    assert_eq!(m.timestamp.as_deref(), Some("t"));
    assert!(m.tool_calls.is_empty());
    assert_eq!(stored_message(String::new(), &Some("system".to_string()), None).role, ChatRole::System);
    assert_eq!(stored_message(String::new(), &Some("tool".to_string()), None).role, ChatRole::User);
    assert_eq!(stored_message(String::new(), &None, None).role, ChatRole::User);
}
