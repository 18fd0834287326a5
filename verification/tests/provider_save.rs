use rockbot_tui::app_state::AppState;
use rockbot_tui::effect::Effect;
use rockbot_tui::provider_form::EditProviderState;
use rockbot_tui::provider_save::provider_config_update;
use rockbot_tui::schemas::{AuthMethodInfo, CredentialFieldInfo, CredentialSchemaInfo, ProviderAuthType};

fn state() -> AppState {
    AppState::new(
        "c".to_string(),
        "v".to_string(),
        "l".to_string(),
        "ws://gw".to_string(),
        "http://gw".to_string(),
    )
}

fn secret_field(id: &str, env: Option<&str>) -> CredentialFieldInfo {
    CredentialFieldInfo {
        id: id.to_string(),
        label: id.to_string(),
        secret: true,
        default: None,
        placeholder: None,
        required: false,
        env_var: env.map(|e| e.to_string()),
    }
}

fn form(id: &str, name: &str, auth: ProviderAuthType, values: &[(&str, &str)]) -> EditProviderState {
    EditProviderState {
        provider_index: 0,
        provider_id: id.to_string(),
        provider_name: name.to_string(),
        field_index: 0,
        auth_method_index: 0,
        auth_type: auth,
        field_values: values.iter().map(|(k, v)| (k.to_string(), v.to_string())).collect(),
        schema: Some(CredentialSchemaInfo {
            provider_id: id.to_string(),
            provider_name: name.to_string(),
            category: "model".to_string(),
            auth_methods: vec![AuthMethodInfo {
                id: "api_key".to_string(),
                label: "API Key".to_string(),
                fields: vec![secret_field("api_key", Some("ANTHROPIC_API_KEY"))],
                hint: None,
                docs_url: None,
            }],
        }),
    }
}

fn status(s: &AppState) -> Option<(String, bool)> {
    s.status_message.clone()
}

#[test]
fn session_key_with_cli_credentials() {
    let mut s = state();
    let st = form("anthropic", "Anthropic", ProviderAuthType::SessionKey, &[]);
    let e = s.save_provider_config(&st, true);
    assert_eq!(e, Effect::Nothing);
    assert_eq!(status(&s), Some(("✅ Anthropic configured with CLI OAuth".to_string(), false)));
}

#[test]
fn session_key_without_cli_credentials() {
    let mut s = state();
    let st = form("anthropic", "Anthropic", ProviderAuthType::SessionKey, &[]);
    let e = s.save_provider_config(&st, false);
    assert_eq!(e, Effect::Nothing);
    assert_eq!(
        status(&s),
        Some(("❌ Run the CLI login in terminal to authenticate".to_string(), true))
    );
}

#[test]
fn no_auth_provider_needs_nothing() {
    let mut s = state();
    let st = form("ollama", "Ollama", ProviderAuthType::NoAuth, &[]);
    assert_eq!(s.save_provider_config(&st, false), Effect::Nothing);
    assert_eq!(status(&s), Some(("✅ Ollama - no authentication needed".to_string(), false)));
}

#[test]
fn api_key_goes_to_gateway_with_base_url() {
    let mut s = state();
    let st = form(
        "anthropic",
        "Anthropic",
        ProviderAuthType::ApiKey,
        &[("api_key", "sk-1"), ("base_url", "https://api.example.com")],
    );
    let e = s.save_provider_config(&st, false);
    assert_eq!(
        e,
        Effect::StoreProviderCredentials(
            "Anthropic".to_string(),
            "api_key_service".to_string(),
            "https://api.example.com".to_string(),
            "sk-1".to_string(),
        )
    );
    assert_eq!(status(&s), None);
}

#[test]
fn api_key_without_base_url_uses_configured_scheme() {
    let mut s = state();
    let st = form("openai", "OpenAI", ProviderAuthType::ApiKey, &[("api_key", "k")]);
    let e = s.save_provider_config(&st, false);
    assert_eq!(
        e,
        Effect::StoreProviderCredentials(
            "OpenAI".to_string(),
            "api_key_service".to_string(),
            "openai://configured".to_string(),
            "k".to_string(),
        )
    );
}

#[test]
fn empty_key_points_at_environment_variable() {
    let mut s = state();
    let st = form("anthropic", "Anthropic", ProviderAuthType::ApiKey, &[("api_key", "")]);
    assert_eq!(s.save_provider_config(&st, false), Effect::Nothing);
    assert_eq!(
        status(&s),
        Some(("💡 Set ANTHROPIC_API_KEY environment variable to persist credentials".to_string(), false))
    );
}

#[test]
fn bedrock_aws_fields_are_stored_as_json() {
    let mut s = state();
    let st = form(
        "bedrock",
        "AWS Bedrock",
        ProviderAuthType::AwsCredentials,
        &[("access_key_id", "AKIA"), ("secret_access_key", "shh"), ("session_token", ""), ("region", "eu-west-1")],
    );
    let e = s.save_provider_config(&st, false);
    match e {
        Effect::StoreProviderCredentials(name, kind, url, secret) => {
            assert_eq!(name, "AWS Bedrock");
            assert_eq!(kind, "api_key_service");
            assert_eq!(url, "https://bedrock-runtime.eu-west-1.amazonaws.com");
            let v: serde_json::Value = serde_json::from_str(&secret).unwrap();
            assert_eq!(v["access_key_id"], "AKIA");
            assert_eq!(v["secret_access_key"], "shh");
            assert!(v.get("session_token").is_none());
            assert_eq!(v.as_object().unwrap().len(), 2);
        }
        other => panic!("unexpected effect {:?}", other),
    }
}

#[test]
fn bedrock_endpoint_url_wins() {
    let mut s = state();
    let st = form(
        "bedrock",
        "AWS Bedrock",
        ProviderAuthType::AwsCredentials,
        &[("bearer_token", "tok"), ("endpoint_url", "https://vpce.example")],
    );
    match s.save_provider_config(&st, false) {
        Effect::StoreProviderCredentials(_, _, url, secret) => {
            assert_eq!(url, "https://vpce.example");
            assert_eq!(secret, "{\"bearer_token\":\"tok\"}");
        }
        other => panic!("unexpected effect {:?}", other),
    }
}

#[test]
fn aws_without_any_secret_names_the_variables() {
    let mut s = state();
    let mut st = form("bedrock", "AWS Bedrock", ProviderAuthType::AwsCredentials, &[]);
    st.schema = None;
    assert_eq!(s.save_provider_config(&st, false), Effect::Nothing);
    assert_eq!(
        status(&s),
        Some(("💡 Set AWS_ACCESS_KEY_ID, AWS_SECRET_ACCESS_KEY, and AWS_REGION=us-east-1".to_string(), false))
    );
}

fn with_base_url_default(mut st: EditProviderState, default: &str) -> EditProviderState {
    if let Some(schema) = st.schema.as_mut() {
        schema.auth_methods[0].fields.push(CredentialFieldInfo {
            id: "base_url".to_string(),
            label: "Base URL".to_string(),
            secret: false,
            default: Some(default.to_string()),
            placeholder: None,
            required: false,
            env_var: None,
        });
    }
    st
}

#[test]
fn config_update_names_auth_mode_and_section() {
    let st = form("anthropic", "Anthropic", ProviderAuthType::SessionKey, &[]);
    let u = provider_config_update(&st);
    assert_eq!(u.section, "anthropic");
    assert_eq!(u.auth_mode, "oauth");
    assert_eq!(u.api_url, None);
    let kinds = [
        (ProviderAuthType::ApiKey, "api"),
        (ProviderAuthType::NoAuth, "none"),
        (ProviderAuthType::AwsCredentials, "aws"),
    ];
    for (t, m) in kinds {
        let st = form("p", "P", t, &[]);
        assert_eq!(provider_config_update(&st).auth_mode, m);
    }
}

#[test]
fn config_update_keeps_non_default_base_url_only() {
    let base = form("anthropic", "Anthropic", ProviderAuthType::ApiKey, &[("base_url", "https://api.anthropic.com")]);
    let st = with_base_url_default(base, "https://api.anthropic.com");
    assert_eq!(provider_config_update(&st).api_url, None);

    let base = form("anthropic", "Anthropic", ProviderAuthType::ApiKey, &[("base_url", "https://proxy.local")]);
    let st = with_base_url_default(base, "https://api.anthropic.com");
    assert_eq!(provider_config_update(&st).api_url, Some("https://proxy.local".to_string()));

    let st = form("anthropic", "Anthropic", ProviderAuthType::ApiKey, &[("base_url", "")]);
    assert_eq!(provider_config_update(&st).api_url, None);
}

#[test]
fn config_write_failure_is_reported() {
    let mut s = state();
    s.provider_config_write_failed("disk full");
    assert_eq!(
        status(&s),
        Some(("⚠️ Auth mode set but failed to save config: disk full".to_string(), true))
    );
}
