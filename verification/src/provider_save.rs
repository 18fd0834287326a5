//! Saving the "Edit Provider" form: what is told to the user and which
//! credentials go to the gateway.

use vstd::prelude::*;
use crate::actions::text3;
use crate::app_state::{AppState, status_is};
use crate::effect::Effect;
use crate::provider_form::{
    EditProviderState, ProviderFormView, api_key_spec, first_secret_from, pair_value, pairs_view,
    selected_method,
};
use crate::schemas::{CredentialFieldInfo, ProviderAuthType, opt_view};
use crate::text::{chars_of, str_eq, string_of};

verus! {

broadcast use vstd::string::group_string_axioms;

/// The text of a JSON object whose members are these id/value pairs, all
/// values strings, as `serde_json` writes it.
pub uninterp spec fn json_object_text(pairs: Seq<(Seq<char>, Seq<char>)>) -> Seq<char>;

/// Trusted: builds a `serde_json::Map` with one string member per pair and
/// writes it with `serde_json::to_string`; the text is named
/// `json_object_text` of the pairs. Nothing more is claimed of it.
#[verifier::external_body]
fn json_object_of(pairs: &Vec<(String, String)>) -> (r: String)
    ensures
        r@ == json_object_text(pairs_view(pairs@)),
{
    let mut map = serde_json::Map::new();
    for (k, v) in pairs.iter() {
        map.insert(k.clone(), serde_json::Value::String(v.clone()));
    }
    serde_json::to_string(&map).unwrap_or_default()
}

/// The pair for this AWS field, if the form holds a non-empty value for it.
pub open spec fn aws_piece(vals: Seq<(Seq<char>, Seq<char>)>, id: Seq<char>) -> Seq<(Seq<char>, Seq<char>)> {
    match pair_value(vals, id) {
        Some(x) => if x.len() > 0 { seq![(id, x)] } else { Seq::empty() },
        None => Seq::empty(),
    }
}

/// The AWS secret fields that hold a value, in the order access key id,
/// secret access key, session token, bearer token.
pub open spec fn aws_secret_pairs(vals: Seq<(Seq<char>, Seq<char>)>) -> Seq<(Seq<char>, Seq<char>)> {
    aws_piece(vals, "access_key_id"@) + aws_piece(vals, "secret_access_key"@)
        + aws_piece(vals, "session_token"@) + aws_piece(vals, "bearer_token"@)
}

/// The form's AWS region, `us-east-1` when it has none.
pub open spec fn region_text(v: ProviderFormView) -> Seq<char> {
    match pair_value(v.field_values, "region"@) {
        Some(r) => r,
        None => "us-east-1"@,
    }
}

/// The environment variable named by the selected method's first secret
/// field.
pub open spec fn env_hint(v: ProviderFormView) -> Option<Seq<char>> {
    match selected_method(v) {
        Some(m) => match first_secret_from(m.fields, 0) {
            Some(i) => match m.fields[i].env_var {
                Some(e) => Some(e@),
                None => None,
            },
            None => None,
        },
        None => None,
    }
}

/// The base URL stored with a provider's credentials: for Bedrock the
/// endpoint URL, else the regional runtime URL; for any other provider its
/// `base_url`, else `<provider id>://configured`.
pub open spec fn provider_base_url(v: ProviderFormView) -> Seq<char> {
    if v.provider_id == "bedrock"@ {
        match pair_value(v.field_values, "endpoint_url"@) {
            Some(u) => if u.len() > 0 {
                u
            } else {
                "https://bedrock-runtime."@ + region_text(v) + ".amazonaws.com"@
            },
            None => "https://bedrock-runtime."@ + region_text(v) + ".amazonaws.com"@,
        }
    } else {
        match pair_value(v.field_values, "base_url"@) {
            Some(u) => if u.len() > 0 { u } else { v.provider_id + "://configured"@ },
            None => v.provider_id + "://configured"@,
        }
    }
}

/// What saving a provider's secret does: with no secret, a hint at the
/// environment variable to set (if the form names one) and nothing to
/// store; else the credentials go to the gateway as an API-key service
/// under the provider's base URL, and the state is left as it was.
pub open spec fn secret_stored(b: AppState, a: AppState, st: ProviderFormView, secret: Seq<char>, r: Effect) -> bool {
    if secret.len() == 0 {
        &&& r == Effect::Nothing
        &&& match env_hint(st) {
            Some(e) => {
                &&& a == (AppState { status_message: a.status_message, ..b })
                &&& status_is(a.status_message, "💡 Set "@ + e + " environment variable to persist credentials"@, false)
            },
            None => a == b,
        }
    } else {
        &&& a == b
        &&& r matches Effect::StoreProviderCredentials(name, kind, url, s)
        &&& name@ == st.provider_name
        &&& kind@ == "api_key_service"@
        &&& url@ == provider_base_url(st)
        &&& s@ == secret
    }
}

/// What saving a provider form does: a session key needs the CLI's OAuth
/// credentials, no authentication needs nothing; otherwise the API key is
/// stored, or for AWS credentials without one the AWS secret fields as a
/// JSON object, or, when none is filled in, a hint at the AWS variables.
pub open spec fn provider_saved(b: AppState, a: AppState, st: ProviderFormView, cli_credentials: bool, r: Effect) -> bool {
    match st.auth_type {
        ProviderAuthType::SessionKey => {
            &&& r == Effect::Nothing
            &&& a == (AppState { status_message: a.status_message, ..b })
            &&& if cli_credentials {
                status_is(a.status_message, "✅ "@ + st.provider_name + " configured with CLI OAuth"@, false)
            } else {
                status_is(a.status_message, "❌ Run the CLI login in terminal to authenticate"@, true)
            }
        },
        ProviderAuthType::NoAuth => {
            &&& r == Effect::Nothing
            &&& a == (AppState { status_message: a.status_message, ..b })
            &&& status_is(a.status_message, "✅ "@ + st.provider_name + " - no authentication needed"@, false)
        },
        _ => {
            let key = api_key_spec(st);
            if key.len() == 0 && st.auth_type == ProviderAuthType::AwsCredentials {
                let pairs = aws_secret_pairs(st.field_values);
                if pairs.len() == 0 {
                    &&& r == Effect::Nothing
                    &&& a == (AppState { status_message: a.status_message, ..b })
                    &&& status_is(
                        a.status_message,
                        "💡 Set AWS_ACCESS_KEY_ID, AWS_SECRET_ACCESS_KEY, and AWS_REGION="@ + region_text(st),
                        false,
                    )
                } else {
                    secret_stored(b, a, st, json_object_text(pairs), r)
                }
            } else {
                secret_stored(b, a, st, key, r)
            }
        },
    }
}

/// The configuration's name for an authentication type.
pub open spec fn auth_mode_text(t: ProviderAuthType) -> Seq<char> {
    match t {
        ProviderAuthType::ApiKey => "api"@,
        ProviderAuthType::SessionKey => "oauth"@,
        ProviderAuthType::NoAuth => "none"@,
        ProviderAuthType::AwsCredentials => "aws"@,
    }
}

/// The first field with this id from position `i` on.
pub open spec fn field_with_id_from(fields: Seq<CredentialFieldInfo>, id: Seq<char>, i: int) -> Option<int>
    decreases fields.len() - i,
{
    if i < 0 || i >= fields.len() {
        None
    } else if fields[i].id@ == id {
        Some(i)
    } else {
        field_with_id_from(fields, id, i + 1)
    }
}

/// The default of the selected method's `base_url` field, empty when there
/// is none.
pub open spec fn default_base_url(v: ProviderFormView) -> Seq<char> {
    match selected_method(v) {
        Some(m) => match field_with_id_from(m.fields, "base_url"@, 0) {
            Some(i) => match m.fields[i].default {
                Some(d) => d@,
                None => Seq::empty(),
            },
            None => Seq::empty(),
        },
        None => Seq::empty(),
    }
}

/// The API URL to write to the configuration: the form's `base_url` when
/// it is filled in and differs from the method's default.
pub open spec fn api_url_to_save(v: ProviderFormView) -> Option<Seq<char>> {
    match pair_value(v.field_values, "base_url"@) {
        Some(u) => if u.len() > 0 && u != default_base_url(v) { Some(u) } else { None },
        None => None,
    }
}

/// What a saved provider form changes in the configuration file: under
/// `[providers.<section>]`, `auth_mode`, and `api_url` when there is one.
#[derive(Debug, Clone, PartialEq, Eq)]
pub struct ProviderConfigUpdate {
    pub section: String,
    pub auth_mode: String,
    pub api_url: Option<String>,
}

fn default_base_url_of(st: &EditProviderState) -> (d: String)
    ensures
        d@ == default_base_url(st@),
{
    match st.current_auth_method() {
        Some(m) => {
            let mut i: usize = 0;
            while i < m.fields.len()
                invariant
                    i <= m.fields.len(),
                    selected_method(st@) == Some(m@),
                    field_with_id_from(m.fields@, "base_url"@, 0)
                        == field_with_id_from(m.fields@, "base_url"@, i as int),
                decreases m.fields.len() - i,
            {
                if str_eq(m.fields[i].id.as_str(), "base_url") {
                    return match &m.fields[i].default {
                        Some(x) => x.clone(),
                        None => String::new(),
                    };
                }
                i = i + 1;
            }
            String::new()
        },
        None => String::new(),
    }
}

/// The configuration update for a provider form: its section is the
/// provider id, its auth mode that of the form's authentication type.
pub fn provider_config_update(st: &EditProviderState) -> (u: ProviderConfigUpdate)
    ensures
        u.section@ == st@.provider_id,
        u.auth_mode@ == auth_mode_text(st@.auth_type),
        opt_view(u.api_url) == api_url_to_save(st@),
{
    let auth_mode = match st.auth_type {
        ProviderAuthType::ApiKey => string_of("api"),
        ProviderAuthType::SessionKey => string_of("oauth"),
        ProviderAuthType::NoAuth => string_of("none"),
        ProviderAuthType::AwsCredentials => string_of("aws"),
    };
    let api_url = match st.get_field_value_by_id("base_url") {
        Some(u) => {
            if chars_of(u).len() == 0 {
                None
            } else {
                let default_url = default_base_url_of(st);
                if str_eq(u, default_url.as_str()) {
                    None
                } else {
                    Some(string_of(u))
                }
            }
        },
        None => None,
    };
    ProviderConfigUpdate { section: st.provider_id.clone(), auth_mode, api_url }
}

fn push_aws_piece(pairs: &mut Vec<(String, String)>, st: &EditProviderState, id: &str)
    ensures
        pairs_view(final(pairs)@) == pairs_view(old(pairs)@) + aws_piece(st@.field_values, id@),
{
    match st.get_field_value_by_id(id) {
        Some(v) => {
            if chars_of(v).len() > 0 {
                let ghost before = pairs@;
                pairs.push((string_of(id), string_of(v)));
                assert(pairs_view(pairs@) =~= pairs_view(before) + seq![(id@, v@)]);
            } else {
                assert(pairs_view(pairs@) =~= pairs_view(pairs@) + Seq::<(Seq<char>, Seq<char>)>::empty());
            }
        },
        None => {
            assert(pairs_view(pairs@) =~= pairs_view(pairs@) + Seq::<(Seq<char>, Seq<char>)>::empty());
        },
    }
}

impl AppState {
    /// The configuration file could not be written after a provider's auth
    /// mode was set.
    pub fn provider_config_write_failed(&mut self, err: &str)
        ensures
            *final(self) == (AppState { status_message: final(self).status_message, ..*old(self) }),
            status_is(final(self).status_message, "⚠️ Auth mode set but failed to save config: "@ + err@, true),
    {
        let mut t = string_of("⚠️ Auth mode set but failed to save config: ");
        t.append(err);
        self.status_message = Some((t, true));
    }

    /// Save a provider's secret: with none, point at the environment
    /// variable to set; else hand the credentials to the gateway.
    pub fn store_provider_secret(&mut self, st: &EditProviderState, secret: String) -> (r: Effect)
        ensures
            secret_stored(*old(self), *final(self), st@, secret@, r),
    {
        if chars_of(secret.as_str()).len() == 0 {
            match st.env_var_hint() {
                Some(e) => {
                    self.status_message = Some((
                        text3("💡 Set ", e.as_str(), " environment variable to persist credentials"),
                        false,
                    ));
                },
                None => {},
            }
            return Effect::Nothing;
        }
        let base_url = if str_eq(st.provider_id.as_str(), "bedrock") {
            let endpoint: Option<String> = match st.get_field_value_by_id("endpoint_url") {
                Some(u) => if chars_of(u).len() > 0 { Some(string_of(u)) } else { None },
                None => None,
            };
            match endpoint {
                Some(u) => u,
                None => {
                    let region = st.aws_region();
                    text3("https://bedrock-runtime.", region.as_str(), ".amazonaws.com")
                },
            }
        } else {
            let url = st.base_url();
            if chars_of(url.as_str()).len() == 0 {
                let mut t = st.provider_id.clone();
                t.append("://configured");
                t
            } else {
                url
            }
        };
        Effect::StoreProviderCredentials(
            st.provider_name.clone(),
            string_of("api_key_service"),
            base_url,
            secret,
        )
    }

    /// Save a provider form (see `provider_saved`); whether the CLI's OAuth
    /// credentials are present on this machine is the caller's to find out.
    pub fn save_provider_config(&mut self, st: &EditProviderState, has_cli_credentials: bool) -> (r: Effect)
        ensures
            provider_saved(*old(self), *final(self), st@, has_cli_credentials, r),
    {
        match st.auth_type {
            ProviderAuthType::SessionKey => {
                if has_cli_credentials {
                    self.status_message = Some((
                        text3("✅ ", st.provider_name.as_str(), " configured with CLI OAuth"),
                        false,
                    ));
                } else {
                    self.status_message = Some((
                        string_of("❌ Run the CLI login in terminal to authenticate"),
                        true,
                    ));
                }
                return Effect::Nothing;
            },
            ProviderAuthType::NoAuth => {
                self.status_message = Some((
                    text3("✅ ", st.provider_name.as_str(), " - no authentication needed"),
                    false,
                ));
                return Effect::Nothing;
            },
            _ => {},
        }
        let key = st.api_key();
        let is_aws = match st.auth_type {
            ProviderAuthType::AwsCredentials => true,
            _ => false,
        };
        if chars_of(key.as_str()).len() == 0 && is_aws {
            let mut pairs: Vec<(String, String)> = Vec::new();
            assert(pairs_view(pairs@) =~= Seq::<(Seq<char>, Seq<char>)>::empty());
            push_aws_piece(&mut pairs, st, "access_key_id");
            push_aws_piece(&mut pairs, st, "secret_access_key");
            push_aws_piece(&mut pairs, st, "session_token");
            push_aws_piece(&mut pairs, st, "bearer_token");
            assert(pairs_view(pairs@) =~= aws_secret_pairs(st@.field_values));
            if pairs.len() == 0 {
                let region = st.aws_region();
                let mut t = string_of("💡 Set AWS_ACCESS_KEY_ID, AWS_SECRET_ACCESS_KEY, and AWS_REGION=");
                t.append(region.as_str());
                self.status_message = Some((t, false));
                return Effect::Nothing;
            }
            let json = json_object_of(&pairs);
            return self.store_provider_secret(st, json);
        }
        self.store_provider_secret(st, key)
    }
}

} // verus!
