use rockbot_tui::app_state::Message;
use rockbot_tui::gateway_events::{gateway_event_messages, GatewayEvent, GatewayToolCall, TokenCounts};

fn statuses(ms: &[Message]) -> Vec<(String, bool)> {
    ms.iter()
        .filter_map(|m| match m {
            Message::SetStatus(t, e) => Some((t.clone(), *e)),
            _ => None,
        })
        .collect()
}

fn chunks(ms: &[Message]) -> Vec<String> {
    ms.iter()
        .filter_map(|m| match m {
            Message::ChatStreamChunk(t) => Some(t.clone()),
            _ => None,
        })
        .collect()
}

#[test]
fn stream_chunk_is_addressed_to_its_session() {
    let r = gateway_event_messages(&GatewayEvent::StreamChunk {
        session_key: "s1".to_string(),
        delta: "hel".to_string(),
    });
    assert_eq!(chunks(&r.messages), vec!["s1:hel".to_string()]);
    assert!(!r.identify_client);
}

#[test]
fn tool_call_shows_running_status() {
    let r = gateway_event_messages(&GatewayEvent::ToolCall { tool_name: "bash".to_string() });
    assert_eq!(statuses(&r.messages), vec![("Running: bash...".to_string(), false)]);
}

#[test]
fn tool_result_status_and_chunk() {
    let r = gateway_event_messages(&GatewayEvent::ToolResult {
        session_key: "s".to_string(),
        tool_name: "read".to_string(),
        result: "ok".to_string(),
        success: true,
        duration_ms: 42,
        locality: Some("laptop".to_string()),
    });
    assert_eq!(r.messages.len(), 2);
    assert_eq!(statuses(&r.messages), vec![("✓ read (42ms, executed on: laptop)".to_string(), false)]);
    assert_eq!(chunks(&r.messages), vec!["s:\n[read | executed on: laptop]\nok".to_string()]);
}

#[test]
fn failed_tool_without_output_is_an_error_status_only() {
    let r = gateway_event_messages(&GatewayEvent::ToolResult {
        session_key: "s".to_string(),
        tool_name: "write".to_string(),
        result: String::new(),
        success: false,
        duration_ms: 7,
        locality: None,
    });
    assert_eq!(r.messages.len(), 1);
    assert_eq!(statuses(&r.messages), vec![("✗ write (7ms)".to_string(), true)]);
}

#[test]
fn agent_response_with_tools_and_tokens() {
    let long = "x".repeat(600);
    let r = gateway_event_messages(&GatewayEvent::AgentResponse {
        session_key: "s".to_string(),
        content: "done".to_string(),
        tool_calls: vec![GatewayToolCall {
            tool_name: "grep".to_string(),
            result: long,
            success: true,
            duration_ms: 3,
            locality: None,
        }],
        tokens_used: Some(TokenCounts { prompt_tokens: 10, completion_tokens: 5, total_tokens: 15 }),
        processing_time_ms: Some(120),
    });
    assert_eq!(r.messages.len(), 2);
    match &r.messages[0] {
        Message::ChatAgentResponse(k, c, calls) => {
            assert_eq!(k, "s");
            assert_eq!(c, "done");
            assert_eq!(calls.len(), 1);
            assert_eq!(calls[0].tool_name, "grep");
            assert_eq!(calls[0].result.len(), 503);
            assert!(calls[0].result.ends_with("..."));
            assert!(calls[0].arguments.is_empty());
            assert!(!calls[0].expanded);
        }
        other => panic!("unexpected {:?}", other),
    }
    assert_eq!(
        statuses(&r.messages),
        vec![("Tokens: 15 (10 prompt + 5 completion) | 120ms".to_string(), false)]
    );
}

#[test]
fn plain_agent_response_without_token_count() {
    let r = gateway_event_messages(&GatewayEvent::AgentResponse {
        session_key: "s".to_string(),
        content: "hi".to_string(),
        tool_calls: vec![],
        tokens_used: Some(TokenCounts { prompt_tokens: 0, completion_tokens: 0, total_tokens: 0 }),
        processing_time_ms: None,
    });
    assert_eq!(r.messages.len(), 1);
    assert!(matches!(&r.messages[0], Message::ChatResponse(k, c) if k == "s" && c == "hi"));
}

#[test]
fn health_status_marks_gateway_connected() {
    let r = gateway_event_messages(&GatewayEvent::HealthStatus {
        version: Some("1.2".to_string()),
        uptime_secs: Some(60),
        active_sessions: 2,
        pending_agents: 1,
    });
    match &r.messages[0] {
        Message::GatewayStatus(g) => {
            assert!(g.connected);
            assert_eq!(g.version.as_deref(), Some("1.2"));
            assert_eq!(g.uptime_secs, Some(60));
            assert_eq!(g.active_sessions, 2);
            assert_eq!(g.pending_agents, 1);
        }
        other => panic!("unexpected {:?}", other),
    }
}

#[test]
fn connection_events() {
    let r = gateway_event_messages(&GatewayEvent::Connected);
    assert!(r.identify_client);
    assert!(r.messages.is_empty());
    let r = gateway_event_messages(&GatewayEvent::ClientIdentityAssigned {
        client_uuid: "u-1".to_string(),
        hostname: "box".to_string(),
        label: None,
    });
    assert_eq!(statuses(&r.messages), vec![("Connected as box (u-1)".to_string(), false)]);
    let r = gateway_event_messages(&GatewayEvent::Disconnected { reason: "bye".to_string() });
    assert_eq!(statuses(&r.messages), vec![("WebSocket disconnected: bye".to_string(), false)]);
    let r = gateway_event_messages(&GatewayEvent::Pong);
    assert!(r.messages.is_empty());
    let r = gateway_event_messages(&GatewayEvent::Error { message: "x".to_string() });
    assert!(r.messages.is_empty());
}

#[test]
fn chat_events_pass_through() {
    let r = gateway_event_messages(&GatewayEvent::AgentError {
        session_key: "s".to_string(),
        error: "boom".to_string(),
    });
    assert!(matches!(&r.messages[0], Message::ChatError(k, e) if k == "s" && e == "boom"));
    let r = gateway_event_messages(&GatewayEvent::TokenUsage {
        session_key: "s".to_string(),
        prompt_tokens: 1,
        completion_tokens: 2,
        total_tokens: 3,
        cumulative_total: 9,
    });
    assert!(matches!(
        &r.messages[0],
        Message::ChatTokenUsage { session_key, prompt_tokens: 1, completion_tokens: 2, total_tokens: 3, cumulative_total: 9 }
            if session_key == "s"
    ));
    let r = gateway_event_messages(&GatewayEvent::ThinkingStatus {
        session_key: "s".to_string(),
        phase: "tool".to_string(),
        tool_name: Some("bash".to_string()),
        iteration: Some(2),
    });
    assert!(matches!(
        &r.messages[0],
        Message::ChatThinkingStatus { phase, tool_name: Some(t), iteration: Some(2), .. }
            if phase == "tool" && t == "bash"
    ));
}
