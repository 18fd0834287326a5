//! Credential schemas loaded from the gateway, and the provider
//! authentication types derived from them.

use vstd::prelude::*;
use crate::text::{contains_seq, contains_str, str_eq};

verus! {

broadcast use vstd::string::group_string_axioms;

/// A single field in a credential form.
#[derive(Debug, PartialEq, Eq)]
pub struct CredentialFieldInfo {
    pub id: String,
    pub label: String,
    pub secret: bool,
    pub default: Option<String>,
    pub placeholder: Option<String>,
    pub required: bool,
    pub env_var: Option<String>,
}

/// An authentication method within a credential schema.
#[derive(Debug, PartialEq, Eq)]
pub struct AuthMethodInfo {
    pub id: String,
    pub label: String,
    pub fields: Vec<CredentialFieldInfo>,
    pub hint: Option<String>,
    pub docs_url: Option<String>,
}

/// Credential schema of one provider.
#[derive(Debug, PartialEq, Eq)]
pub struct CredentialSchemaInfo {
    pub provider_id: String,
    pub provider_name: String,
    pub category: String,
    pub auth_methods: Vec<AuthMethodInfo>,
}

impl Clone for CredentialFieldInfo {
    fn clone(&self) -> (r: CredentialFieldInfo)
        ensures
            r == *self,
    {
        CredentialFieldInfo {
            id: self.id.clone(),
            label: self.label.clone(),
            secret: self.secret,
            default: self.default.clone(),
            placeholder: self.placeholder.clone(),
            required: self.required,
            env_var: self.env_var.clone(),
        }
    }
}

/// What an authentication method holds.
pub struct AuthMethodView {
    pub id: Seq<char>,
    pub label: Seq<char>,
    pub fields: Seq<CredentialFieldInfo>,
    pub hint: Option<Seq<char>>,
    pub docs_url: Option<Seq<char>>,
}

/// The text of an optional string.
pub open spec fn opt_view(o: Option<String>) -> Option<Seq<char>> {
    match o {
        Some(s) => Some(s@),
        None => None,
    }
}

impl View for AuthMethodInfo {
    type V = AuthMethodView;

    open spec fn view(&self) -> AuthMethodView {
        AuthMethodView {
            id: self.id@,
            label: self.label@,
            fields: self.fields@,
            hint: opt_view(self.hint),
            docs_url: opt_view(self.docs_url),
        }
    }
}

/// What a credential schema holds.
pub struct CredentialSchemaView {
    pub provider_id: Seq<char>,
    pub provider_name: Seq<char>,
    pub category: Seq<char>,
    pub auth_methods: Seq<AuthMethodView>,
}

impl View for CredentialSchemaInfo {
    type V = CredentialSchemaView;

    open spec fn view(&self) -> CredentialSchemaView {
        CredentialSchemaView {
            provider_id: self.provider_id@,
            provider_name: self.provider_name@,
            category: self.category@,
            auth_methods: self.auth_methods@.map_values(|m: AuthMethodInfo| m@),
        }
    }
}

impl Clone for AuthMethodInfo {
    fn clone(&self) -> (r: AuthMethodInfo)
        ensures
            r@ == self@,
    {
        let fields = self.fields.clone();
        assert forall|i: int| 0 <= i < fields.len() implies fields@[i] == self.fields@[i] by {
            assert(cloned::<CredentialFieldInfo>(self.fields[i], fields[i]));
        }
        assert(fields@ =~= self.fields@);
        AuthMethodInfo {
            id: self.id.clone(),
            label: self.label.clone(),
            fields,
            hint: self.hint.clone(),
            docs_url: self.docs_url.clone(),
        }
    }
}

impl Clone for CredentialSchemaInfo {
    fn clone(&self) -> (r: CredentialSchemaInfo)
        ensures
            r@ == self@,
    {
        let methods = self.auth_methods.clone();
        assert forall|i: int| 0 <= i < methods.len() implies methods@[i]@ == self.auth_methods@[i]@ by {
            assert(cloned::<AuthMethodInfo>(self.auth_methods[i], methods[i]));
        }
        assert(methods@.map_values(|m: AuthMethodInfo| m@) =~= self.auth_methods@.map_values(|m: AuthMethodInfo| m@));
        CredentialSchemaInfo {
            provider_id: self.provider_id.clone(),
            provider_name: self.provider_name.clone(),
            category: self.category.clone(),
            auth_methods: methods,
        }
    }
}

/// Provider category for determining form fields.
#[derive(Debug, Clone, Copy, PartialEq, Eq, Structural)]
pub enum ProviderCategory {
    Model,
    Communication,
    Tool,
}

/// Provider information for context-aware add credential.
#[derive(Debug, Clone)]
pub struct ProviderInfo {
    pub id: String,
    pub name: String,
    pub description: String,
    pub category: ProviderCategory,
}

/// Authentication type for model providers.
#[derive(Debug, Clone, Copy, PartialEq, Eq, Structural)]
pub enum ProviderAuthType {
    ApiKey,
    SessionKey,
    NoAuth,
    AwsCredentials,
}

/// The authentication type of a schema's auth method id: `oauth` is a
/// session key; the AWS and AgentCore methods are AWS credentials; the token
/// and key methods are API keys; an id containing `none` needs none; any
/// other is an API key.
pub open spec fn auth_type_of(id: Seq<char>) -> ProviderAuthType {
    if id == "oauth"@ {
        ProviderAuthType::SessionKey
    } else if id == "aws_credentials"@ || id == "aws_bearer_token"@ || id == "agentcore_oauth2"@
        || id == "agentcore_api_key"@ {
        ProviderAuthType::AwsCredentials
    } else if id == "api_key"@ || id == "personal_access_token"@ || id == "bot_token"@ || id
        == "long_lived_token"@ || id == "api_token"@ || id == "integration_token"@ {
        ProviderAuthType::ApiKey
    } else if contains_seq(id, "none"@) {
        ProviderAuthType::NoAuth
    } else {
        ProviderAuthType::ApiKey
    }
}

/// The legacy authentication types of the built-in providers, by position.
pub open spec fn legacy_auth_types(provider_index: nat) -> Seq<ProviderAuthType> {
    if provider_index == 0 {
        seq![ProviderAuthType::SessionKey, ProviderAuthType::ApiKey]
    } else if provider_index == 2 {
        seq![ProviderAuthType::NoAuth]
    } else if provider_index == 3 {
        seq![ProviderAuthType::AwsCredentials]
    } else {
        seq![ProviderAuthType::ApiKey]
    }
}

impl Default for ProviderAuthType {
    fn default() -> (t: ProviderAuthType)
        ensures
            t == ProviderAuthType::ApiKey,
    {
        ProviderAuthType::ApiKey
    }
}

impl ProviderAuthType {
    pub fn label(&self) -> (r: &'static str)
        ensures
            r@ == match *self {
                ProviderAuthType::ApiKey => "API Key"@,
                ProviderAuthType::SessionKey => "Session Key"@,
                ProviderAuthType::NoAuth => "None"@,
                ProviderAuthType::AwsCredentials => "AWS Credentials"@,
            },
    {
        match self {
            ProviderAuthType::ApiKey => "API Key",
            ProviderAuthType::SessionKey => "Session Key",
            ProviderAuthType::NoAuth => "None",
            ProviderAuthType::AwsCredentials => "AWS Credentials",
        }
    }

    /// Map from schema auth method id to an authentication type.
    pub fn from_auth_method_id(id: &str) -> (t: ProviderAuthType)
        ensures
            t == auth_type_of(id@),
    {
        if str_eq(id, "oauth") {
            ProviderAuthType::SessionKey
        } else if str_eq(id, "aws_credentials") || str_eq(id, "aws_bearer_token") || str_eq(
            id,
            "agentcore_oauth2",
        ) || str_eq(id, "agentcore_api_key") {
            ProviderAuthType::AwsCredentials
        } else if str_eq(id, "api_key") || str_eq(id, "personal_access_token") || str_eq(
            id,
            "bot_token",
        ) || str_eq(id, "long_lived_token") || str_eq(id, "api_token") || str_eq(
            id,
            "integration_token",
        ) {
            ProviderAuthType::ApiKey
        } else if contains_str(id, "none") {
            ProviderAuthType::NoAuth
        } else {
            ProviderAuthType::ApiKey
        }
    }

    /// Authentication types of a built-in provider (0 Anthropic, 1 OpenAI,
    /// 2 Ollama, 3 Bedrock, 4 Google AI; others take an API key).
    pub fn all_for_provider(provider_index: usize) -> (v: Vec<ProviderAuthType>)
        ensures
            v@ == legacy_auth_types(provider_index as nat),
    {
        let v = if provider_index == 0 {
            vec![ProviderAuthType::SessionKey, ProviderAuthType::ApiKey]
        } else if provider_index == 2 {
            vec![ProviderAuthType::NoAuth]
        } else if provider_index == 3 {
            vec![ProviderAuthType::AwsCredentials]
        } else {
            vec![ProviderAuthType::ApiKey]
        };
        assert(v@ =~= legacy_auth_types(provider_index as nat));
        v
    }

    /// Authentication types of a schema's methods, in order.
    pub fn all_from_schema(schema: &CredentialSchemaInfo) -> (v: Vec<ProviderAuthType>)
        ensures
            v@ == schema.auth_methods@.map_values(|m: AuthMethodInfo| auth_type_of(m.id@)),
    {
        let mut v: Vec<ProviderAuthType> = Vec::new();
        let mut i: usize = 0;
        while i < schema.auth_methods.len()
            invariant
                i <= schema.auth_methods.len(),
                v@ == schema.auth_methods@.take(i as int).map_values(
                    |m: AuthMethodInfo| auth_type_of(m.id@),
                ),
            decreases schema.auth_methods.len() - i,
        {
            v.push(ProviderAuthType::from_auth_method_id(schema.auth_methods[i].id.as_str()));
            assert(schema.auth_methods@.take(i + 1) == schema.auth_methods@.take(i as int).push(
                schema.auth_methods@[i as int],
            ));
            assert(v@ =~= schema.auth_methods@.take(i + 1).map_values(
                |m: AuthMethodInfo| auth_type_of(m.id@),
            ));
            i = i + 1;
        }
        assert(schema.auth_methods@.take(i as int) == schema.auth_methods@);
        v
    }
}

} // verus!
