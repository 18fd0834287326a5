use rockbot_tui::agent_form::EditAgentState;
use rockbot_tui::credential_forms::{get_fields_for_endpoint_type, AddCredentialState, EditCredentialState};
use rockbot_tui::model::{
    AccessLevel, AgentInfo, AgentStatus, EndpointInfo, ModelProvider, ModelProviderModel, PermissionSource,
};
use rockbot_tui::permission_form::EditPermissionState;
use rockbot_tui::provider_form::EditProviderState;
use rockbot_tui::schemas::{AuthMethodInfo, CredentialFieldInfo, CredentialSchemaInfo, ProviderAuthType};
use rockbot_tui::session_form::{CreateSessionState, SessionMode};

fn field(id: &str, label: &str, secret: bool, required: bool, default: Option<&str>) -> CredentialFieldInfo {
    CredentialFieldInfo {
        id: id.to_string(),
        label: label.to_string(),
        secret,
        default: default.map(|d| d.to_string()),
        placeholder: None,
        required,
        env_var: if secret { Some("API_KEY_ENV".to_string()) } else { None },
    }
}

fn schema() -> CredentialSchemaInfo {
    CredentialSchemaInfo {
        provider_id: "anthropic".to_string(),
        provider_name: "Anthropic".to_string(),
        category: "model".to_string(),
        auth_methods: vec![
            AuthMethodInfo {
                id: "api_key".to_string(),
                label: "API Key".to_string(),
                fields: vec![
                    field("api_key", "API Key", true, true, None),
                    field("base_url", "Base URL", false, false, Some("https://api.anthropic.com")),
                ],
                hint: Some("Paste your key".to_string()),
                docs_url: None,
            },
            AuthMethodInfo {
                id: "oauth".to_string(),
                label: "OAuth".to_string(),
                fields: vec![field("client_id", "Client ID", false, true, None)],
                hint: None,
                docs_url: None,
            },
        ],
    }
}

fn provider(id: &str, available: bool, models: &[&str]) -> ModelProvider {
    ModelProvider {
        id: id.to_string(),
        name: id.to_uppercase(),
        available,
        auth_type: "api_key".to_string(),
        models: models
            .iter()
            .map(|m| ModelProviderModel {
                id: m.to_string(),
                name: m.to_string(),
                description: String::new(),
                context_window: 1000,
                max_output_tokens: None,
            })
            .collect(),
        supports_streaming: true,
        supports_tools: true,
        supports_vision: false,
    }
}

fn agent(id: &str, enabled: bool) -> AgentInfo {
    AgentInfo {
        id: id.to_string(),
        model: Some("anthropic/sonnet".to_string()),
        status: AgentStatus::Active,
        session_count: 0,
        parent_id: None,
        system_prompt: None,
        workspace: None,
        max_tool_calls: Some(12),
        temperature: None,
        max_tokens: None,
        enabled,
    }
}

#[test]
fn endpoint_type_fields() {
    let hass = get_fields_for_endpoint_type(0);
    assert_eq!(hass.len(), 2);
    assert_eq!(hass[0].id, "url");
    assert_eq!(hass[1].label, "Long-Lived Access Token");
    assert!(hass[1].masked);
    assert_eq!(get_fields_for_endpoint_type(2).len(), 7);
    assert_eq!(get_fields_for_endpoint_type(3).len(), 3);
    assert_eq!(get_fields_for_endpoint_type(4).len(), 3);
    assert_eq!(get_fields_for_endpoint_type(5).len(), 2);
}

#[test]
fn add_credential_navigation_and_validation() {
    let mut s = AddCredentialState::new();
    assert_eq!(s.total_fields(), 4);
    assert!(s.is_name_field());
    assert_eq!(s.validate(), Some("Name is required".to_string()));
    s.current_value_mut().unwrap().push_str("Home");
    assert_eq!(s.validate(), Some("Home Assistant URL is required".to_string()));
    s.next_field();
    assert!(s.is_type_field());
    assert!(s.current_value_mut().is_none());
    s.next_field();
    assert_eq!(s.dynamic_field_index(), Some(0));
    s.current_value_mut().unwrap().push_str("http://ha.local");
    s.next_field();
    assert!(s.is_last_field());
    s.current_value_mut().unwrap().push_str("   ");
    assert_eq!(s.validate(), Some("Long-Lived Access Token is required".to_string()));
    s.current_value_mut().unwrap().push_str("tok");
    assert_eq!(s.validate(), None);
    assert_eq!(s.get_field_value("url"), Some("http://ha.local"));
    assert_eq!(s.get_field_value("nope"), None);
    s.next_field();
    assert_eq!(s.field_index, 0);
    s.prev_field();
    assert_eq!(s.field_index, 3);
}

#[test]
fn add_credential_from_schema_prefills() {
    let s = AddCredentialState::new_from_schema(&schema());
    assert_eq!(s.name, "Anthropic");
    assert_eq!(s.endpoint_type, 3);
    assert_eq!(s.get_field_value("url"), Some("https://api.anthropic.com"));
    assert_eq!(s.get_field_value("api_key"), Some(""));
}

#[test]
fn add_credential_reset_for_type() {
    let mut s = AddCredentialState::new();
    s.endpoint_type = 2;
    s.reset_fields_for_type();
    assert_eq!(s.field_index, 1);
    assert_eq!(s.field_values.len(), 7);
    assert!(s.field_values.iter().all(|v| v.is_empty()));
}

#[test]
fn edit_credential_prefills_url_and_tracks_secret_edits() {
    let mut s = EditCredentialState::from_endpoint("id-1", "HA", 0, "http://ha", Some("cred"));
    assert_eq!(s.total_fields(), 3);
    assert_eq!(s.field_values[0], "http://ha");
    assert_eq!(s.credential_id, Some("cred".to_string()));
    s.set_secret("token", "secret-token");
    assert_eq!(s.get_field_value("token"), Some("secret-token"));
    s.next_field();
    let _ = s.current_value_mut();
    assert!(!s.secret_modified);
    s.next_field();
    let _ = s.current_value_mut();
    assert!(s.secret_modified);
    assert_eq!(s.validate(), None);
    s.prev_field();
    s.prev_field();
    s.prev_field();
    assert_eq!(s.field_index, 2);
}

#[test]
fn provider_form_from_schema() {
    let mut s = EditProviderState::from_schema(&schema(), 0);
    assert_eq!(s.auth_type, ProviderAuthType::ApiKey);
    assert_eq!(s.total_fields(), 3);
    assert_eq!(s.current_field_label(), "Auth Type");
    assert_eq!(s.validate(), Some("API Key is required".to_string()));
    s.next_field();
    assert!(s.is_current_field_masked());
    s.current_value_mut().unwrap().push_str("sk-123");
    assert_eq!(s.api_key(), "sk-123");
    assert_eq!(s.base_url(), "https://api.anthropic.com");
    assert_eq!(s.aws_region(), "us-east-1");
    assert_eq!(s.env_var_hint(), Some("API_KEY_ENV".to_string()));
    assert_eq!(s.validate(), None);
    s.cycle_auth_type(true);
    assert_eq!(s.auth_method_index, 1);
    assert_eq!(s.field_index, 0);
    assert_eq!(s.total_fields(), 2);
    s.cycle_auth_type(false);
    assert_eq!(s.auth_method_index, 0);
}

#[test]
fn provider_form_legacy_names() {
    let s = EditProviderState::new(3);
    assert_eq!(s.provider_name, "AWS Bedrock");
    assert_eq!(s.provider_id, "aws_bedrock");
    assert_eq!(s.total_fields(), 1);
    let unknown = EditProviderState::new(9);
    assert_eq!(unknown.provider_name, "Unknown");
    assert_eq!(unknown.provider_id, "unknown");
}

#[test]
fn agent_form_defaults_and_validation() {
    let mut s = EditAgentState::new();
    assert_eq!(s.temperature, "0.3");
    assert_eq!(s.max_tokens, "16000");
    assert_eq!(s.validate(), Some("Agent ID is required".to_string()));
    s.id = "my agent".to_string();
    assert_eq!(s.validate(), Some("Agent ID cannot contain spaces or slashes".to_string()));
    s.id = "helper".to_string();
    s.max_tool_calls = "many".to_string();
    assert_eq!(s.validate(), Some("Max tool calls must be a number".to_string()));
    s.max_tool_calls = "12".to_string();
    assert_eq!(s.validate(), None);
    assert_eq!(s.current_field_label(), "Agent ID");
}

#[test]
fn agent_form_edit_skips_id_field() {
    let mut s = EditAgentState::from_agent(&agent("main", true));
    assert!(s.is_edit);
    assert_eq!(s.max_tool_calls, "12");
    assert_eq!(s.model, "anthropic/sonnet");
    s.prev_field();
    assert_eq!(s.field_index, 7);
    s.next_field();
    assert_eq!(s.field_index, 1);
    assert!(s.current_value_mut().is_some());
}

#[test]
fn agent_form_model_picker_cycles_through_custom() {
    let mut s = EditAgentState::from_agent(&agent("main", true));
    s.populate_models(&vec![provider("anthropic", true, &["sonnet", "haiku"]), provider("off", false, &["x"])]);
    assert_eq!(s.available_models.len(), 2);
    assert_eq!(s.selected_model_index, Some(0));
    assert_eq!(s.available_models[0].label, "sonnet (ANTHROPIC)");
    s.next_model();
    assert_eq!(s.selected_model_index, Some(1));
    assert_eq!(s.model, "anthropic/haiku");
    s.next_model();
    assert_eq!(s.selected_model_index, None);
    s.prev_model();
    assert_eq!(s.selected_model_index, Some(1));
}

#[test]
fn session_form_options() {
    let mut s = CreateSessionState::new(
        &vec![provider("openai", true, &["gpt"])],
        &vec![agent("a", true), agent("b", false)],
    );
    assert_eq!(s.mode, SessionMode::AdHoc);
    assert_eq!(s.selected_model(), Some("openai/gpt"));
    assert_eq!(s.available_agents.len(), 1);
    s.toggle_mode();
    assert_eq!(s.mode, SessionMode::AgentBound);
    assert_eq!(s.selected_agent_id(), Some("a"));
}

#[test]
fn permission_form_cycles_and_builds_rule() {
    let endpoints = vec![
        EndpointInfo {
            id: "e1".to_string(),
            name: "HA".to_string(),
            endpoint_type: "home_assistant".to_string(),
            base_url: "http://ha".to_string(),
            has_credential: true,
            expiration: None,
        },
        EndpointInfo {
            id: "e2".to_string(),
            name: "API".to_string(),
            endpoint_type: "rest".to_string(),
            base_url: "http://api".to_string(),
            has_credential: false,
            expiration: None,
        },
    ];
    let mut s = EditPermissionState::new(&endpoints, &vec![agent("main", true)], Some(1));
    assert_eq!(s.selected_endpoint_id(), "e2");
    s.cycle_endpoint(true);
    assert_eq!(s.selected_endpoint_name(), "HA");
    assert_eq!(s.sources.len(), 3);
    s.cycle_source(false);
    assert_eq!(s.sources[s.selected_source], PermissionSource::Agent("main".to_string()));
    let start = s.access;
    s.cycle_access(true);
    s.cycle_access(false);
    assert_eq!(s.access, start);
    s.access = AccessLevel::Deny;
    let rule = s.to_rule(4);
    assert_eq!(rule.endpoint_id, "e1");
    assert_eq!(rule.access, AccessLevel::Deny);
    assert_eq!(rule.priority, 4);
}
