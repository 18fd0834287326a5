use rockbot_tui::agent_config::{agent_table_edits, AgentFields, TableEdit, TableValue};
use rockbot_tui::geometry::{contains_point, shrink_rect, Area};

#[test]
fn agent_edits_set_remove_and_skip() {
    let fields = AgentFields {
        model: Some("anthropic/sonnet"),
        parent_id: Some(""),
        workspace: None,
        max_tool_calls: Some(12),
        system_prompt: Some("Be brief."),
        enabled: Some(false),
    };
    let edits = agent_table_edits(&fields);
    assert_eq!(
        edits,
        vec![
            TableEdit::Assign("model".to_string(), TableValue::Text("anthropic/sonnet".to_string())),
            TableEdit::Remove("parent_id".to_string()),
            TableEdit::Assign("max_tool_calls".to_string(), TableValue::Integer(12)),
            TableEdit::Assign("system_prompt".to_string(), TableValue::Text("Be brief.".to_string())),
            TableEdit::Assign("enabled".to_string(), TableValue::Boolean(false)),
        ]
    );
}

#[test]
fn agent_edits_empty_form() {
    let fields = AgentFields {
        model: None,
        parent_id: None,
        workspace: None,
        max_tool_calls: None,
        system_prompt: None,
        enabled: None,
    };
    assert!(agent_table_edits(&fields).is_empty());
}

#[test]
fn point_inside_area() {
    let a = Area { x: 2, y: 3, width: 4, height: 2 };
    assert!(contains_point(a, 2, 3));
    assert!(contains_point(a, 5, 4));
    assert!(!contains_point(a, 6, 4));
    assert!(!contains_point(a, 2, 5));
    assert!(!contains_point(a, 1, 3));
}

#[test]
fn shrink_saturates() {
    let a = Area { x: 2, y: 3, width: 10, height: 1 };
    assert_eq!(shrink_rect(a, 1), Area { x: 3, y: 4, width: 8, height: 0 });
    let edge = Area { x: u16::MAX - 1, y: 0, width: 1, height: 5 };
    assert_eq!(shrink_rect(edge, 40000), Area { x: u16::MAX, y: 40000, width: 0, height: 0 });
}

use rockbot_tui::agent_config::{agent_request_body, BodyField, BodyValue};
use rockbot_tui::agent_form::EditAgentState;

fn field(key: &str, value: BodyValue) -> BodyField {
    BodyField { key: key.to_string(), value }
}

#[test]
fn request_body_of_new_agent() {
    let mut st = EditAgentState::new();
    st.id = "helper".to_string();
    st.max_tool_calls = "x".to_string();
    st.system_prompt = "Short answers.".to_string();
    let body = agent_request_body(&st);
    assert_eq!(
        body,
        vec![
            field("id", BodyValue::Text("helper".to_string())),
            field("temperature", BodyValue::Decimal("0.3".to_string())),
            field("max_tokens", BodyValue::Number(16000)),
            field("system_prompt", BodyValue::Text("Short answers.".to_string())),
            field("enabled", BodyValue::Flag(true)),
        ]
    );
}

#[test]
fn request_body_of_edited_agent_omits_id() {
    let mut st = EditAgentState::new();
    st.is_edit = true;
    st.id = "main".to_string();
    st.model = "openai/gpt".to_string();
    st.max_tool_calls = "+7".to_string();
    st.temperature = String::new();
    st.max_tokens = String::new();
    st.enabled = false;
    let body = agent_request_body(&st);
    assert_eq!(
        body,
        vec![
            field("model", BodyValue::Text("openai/gpt".to_string())),
            field("max_tool_calls", BodyValue::Number(7)),
            field("enabled", BodyValue::Flag(false)),
        ]
    );
}
