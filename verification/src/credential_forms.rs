//! Dynamic credential forms: the fields each endpoint type asks for, and the
//! states of the "add credential" and "edit credential" modals.

use vstd::prelude::*;
use crate::schemas::{AuthMethodInfo, CredentialFieldInfo, CredentialSchemaInfo, ProviderInfo};
use crate::slots::{next_wrap, prev_wrap};
use crate::text::{
    blank_values, contains_seq, contains_str, empty_strings, is_blank, is_blank_str, str_eq,
    string_of, strings_view,
};

verus! {

broadcast use vstd::string::group_string_axioms;

/// Definition of a form field for dynamic credential forms.
#[derive(Debug, Clone, PartialEq, Eq)]
pub struct FieldDef {
    /// Unique identifier for this field (used for form data extraction).
    pub id: &'static str,
    /// Human-readable label displayed next to the input.
    pub label: &'static str,
    /// Placeholder text shown when the field is empty.
    pub placeholder: &'static str,
    /// Whether this field must be filled before submission.
    pub required: bool,
    /// Whether to mask input (for passwords/secrets).
    pub masked: bool,
}

/// What a field definition says.
pub struct FieldSpec {
    pub id: Seq<char>,
    pub label: Seq<char>,
    pub placeholder: Seq<char>,
    pub required: bool,
    pub masked: bool,
}

impl View for FieldDef {
    type V = FieldSpec;

    open spec fn view(&self) -> FieldSpec {
        FieldSpec {
            id: self.id@,
            label: self.label@,
            placeholder: self.placeholder@,
            required: self.required,
            masked: self.masked,
        }
    }
}

pub open spec fn field_spec(id: Seq<char>, label: Seq<char>, placeholder: Seq<char>, required: bool, masked: bool) -> FieldSpec {
    FieldSpec { id, label, placeholder, required, masked }
}

/// The form fields of each endpoint type: 0 Home Assistant, 1 generic REST,
/// 2 OAuth2, 3 API key, 4 basic auth, 5 bearer token; any other type asks
/// for a URL only.
pub open spec fn endpoint_fields(t: int) -> Seq<FieldSpec> {
    if t == 0 {
        seq![field_spec("url"@, "Home Assistant URL"@, "http://homeassistant.local:8123"@, true, false), field_spec("token"@, "Long-Lived Access Token"@, "eyJ0eXAi..."@, true, true)]
    } else     if t == 1 {
        seq![field_spec("url"@, "Base URL"@, "https://api.example.com"@, true, false), field_spec("token"@, "Bearer Token"@, "Your token"@, false, true)]
    } else     if t == 2 {
        seq![field_spec("url"@, "API Base URL"@, "https://api.example.com"@, true, false), field_spec("auth_url"@, "Authorization URL"@, "https://auth.example.com/authorize"@, true, false), field_spec("token_url"@, "Token URL"@, "https://auth.example.com/token"@, true, false), field_spec("client_id"@, "Client ID"@, ""@, true, false), field_spec("client_secret"@, "Client Secret"@, ""@, true, true), field_spec("scopes"@, "Scopes"@, "read write offline_access"@, false, false), field_spec("redirect_uri"@, "Redirect URI"@, "http://localhost:18080/oauth/callback"@, false, false)]
    } else     if t == 3 {
        seq![field_spec("url"@, "Base URL"@, "https://api.example.com"@, true, false), field_spec("api_key"@, "API Key"@, ""@, true, true), field_spec("header_name"@, "Header Name"@, "X-API-Key"@, false, false)]
    } else     if t == 4 {
        seq![field_spec("url"@, "Base URL"@, "https://api.example.com"@, true, false), field_spec("username"@, "Username"@, ""@, true, false), field_spec("password"@, "Password"@, ""@, true, true)]
    } else     if t == 5 {
        seq![field_spec("url"@, "Base URL"@, "https://api.example.com"@, true, false), field_spec("token"@, "Token"@, ""@, true, true)]
    } else {
        seq![field_spec("url"@, "URL"@, ""@, true, false)]
    }
}

/// Every endpoint type asks for between one and seven fields.
pub proof fn lemma_endpoint_fields_len(t: int)
    ensures
        1 <= endpoint_fields(t).len() <= 7,
{
}

/// The views of a list of field definitions.
pub open spec fn fields_view(v: Seq<FieldDef>) -> Seq<FieldSpec> {
    v.map_values(|f: FieldDef| f@)
}

/// Returns the form fields required for a given endpoint type.
pub fn get_fields_for_endpoint_type(endpoint_type: usize) -> (r: Vec<FieldDef>)
    ensures
        fields_view(r@) == endpoint_fields(endpoint_type as int),
{
    let v: Vec<FieldDef> = match endpoint_type {
        0 => vec![
                FieldDef { id: "url", label: "Home Assistant URL", placeholder: "http://homeassistant.local:8123", required: true, masked: false },
                FieldDef { id: "token", label: "Long-Lived Access Token", placeholder: "eyJ0eXAi...", required: true, masked: true },
        ],
        1 => vec![
                FieldDef { id: "url", label: "Base URL", placeholder: "https://api.example.com", required: true, masked: false },
                FieldDef { id: "token", label: "Bearer Token", placeholder: "Your token", required: false, masked: true },
        ],
        2 => vec![
                FieldDef { id: "url", label: "API Base URL", placeholder: "https://api.example.com", required: true, masked: false },
                FieldDef { id: "auth_url", label: "Authorization URL", placeholder: "https://auth.example.com/authorize", required: true, masked: false },
                FieldDef { id: "token_url", label: "Token URL", placeholder: "https://auth.example.com/token", required: true, masked: false },
                FieldDef { id: "client_id", label: "Client ID", placeholder: "", required: true, masked: false },
                FieldDef { id: "client_secret", label: "Client Secret", placeholder: "", required: true, masked: true },
                FieldDef { id: "scopes", label: "Scopes", placeholder: "read write offline_access", required: false, masked: false },
                FieldDef { id: "redirect_uri", label: "Redirect URI", placeholder: "http://localhost:18080/oauth/callback", required: false, masked: false },
        ],
        3 => vec![
                FieldDef { id: "url", label: "Base URL", placeholder: "https://api.example.com", required: true, masked: false },
                FieldDef { id: "api_key", label: "API Key", placeholder: "", required: true, masked: true },
                FieldDef { id: "header_name", label: "Header Name", placeholder: "X-API-Key", required: false, masked: false },
        ],
        4 => vec![
                FieldDef { id: "url", label: "Base URL", placeholder: "https://api.example.com", required: true, masked: false },
                FieldDef { id: "username", label: "Username", placeholder: "", required: true, masked: false },
                FieldDef { id: "password", label: "Password", placeholder: "", required: true, masked: true },
        ],
        5 => vec![
                FieldDef { id: "url", label: "Base URL", placeholder: "https://api.example.com", required: true, masked: false },
                FieldDef { id: "token", label: "Token", placeholder: "", required: true, masked: true },
        ],
        _ => vec![
                FieldDef { id: "url", label: "URL", placeholder: "", required: true, masked: false },
        ],
    };
    assert(fields_view(v@) =~= endpoint_fields(endpoint_type as int));
    v
}

/// The first required field, from position `i` on, whose value is missing or
/// blank.
pub open spec fn missing_required_from(fields: Seq<FieldSpec>, values: Seq<Seq<char>>, i: int) -> Option<int>
    decreases fields.len() - i,
{
    if i < 0 || i >= fields.len() {
        None
    } else if fields[i].required && (i >= values.len() || is_blank(values[i])) {
        Some(i)
    } else {
        missing_required_from(fields, values, i + 1)
    }
}

/// The message a form gives: a blank name first, then the first required
/// field left blank; none when the form is complete.
pub open spec fn form_error(name: Seq<char>, fields: Seq<FieldSpec>, values: Seq<Seq<char>>) -> Option<Seq<char>> {
    if is_blank(name) {
        Some("Name is required"@)
    } else {
        match missing_required_from(fields, values, 0) {
            Some(i) => Some(fields[i].label + " is required"@),
            None => None,
        }
    }
}

/// The first field, from position `i` on, with the given id.
pub open spec fn field_position(fields: Seq<FieldSpec>, id: Seq<char>, i: int) -> Option<int>
    decreases fields.len() - i,
{
    if i < 0 || i >= fields.len() {
        None
    } else if fields[i].id == id {
        Some(i)
    } else {
        field_position(fields, id, i + 1)
    }
}

/// The value of the first field with the given id, if that field has one.
pub open spec fn value_by_id(fields: Seq<FieldSpec>, values: Seq<Seq<char>>, id: Seq<char>) -> Option<Seq<char>> {
    match field_position(fields, id, 0) {
        Some(i) => if i < values.len() {
            Some(values[i])
        } else {
            None
        },
        None => None,
    }
}

fn required_message(label: &str) -> (r: String)
    ensures
        r@ == label@ + " is required"@,
{
    let mut m = string_of(label);
    m.append(" is required");
    m
}

/// The message for a form with this name, fields and values.
fn check_form(name: &String, fields: &Vec<FieldDef>, values: &Vec<String>) -> (r: Option<String>)
    ensures
        match r {
            Some(m) => form_error(name@, fields_view(fields@), strings_view(values@)) == Some(m@),
            None => form_error(name@, fields_view(fields@), strings_view(values@)) is None,
        },
{
    if is_blank_str(name.as_str()) {
        return Some(string_of("Name is required"));
    }
    let ghost fs = fields_view(fields@);
    let ghost vs = strings_view(values@);
    let mut i: usize = 0;
    while i < fields.len()
        invariant
            i <= fields.len(),
            fs == fields_view(fields@),
            vs == strings_view(values@),
            !is_blank(name@),
            missing_required_from(fs, vs, 0) == missing_required_from(fs, vs, i as int),
        decreases fields.len() - i,
    {
        let f = &fields[i];
        assert(fs[i as int] == f@);
        assert(i < values.len() ==> vs[i as int] == values@[i as int]@);
        if f.required && (i >= values.len() || is_blank_str(values[i].as_str())) {
            assert(missing_required_from(fs, vs, i as int) == Some(i as int));
            let m = required_message(f.label);
            assert(fs[i as int].label == f.label@);
            assert(form_error(name@, fs, vs) == Some(fs[i as int].label + " is required"@));
            return Some(m);
        }
        i = i + 1;
    }
    None
}

/// The value of the first field with `id`.
fn lookup_value<'a>(fields: &Vec<FieldDef>, values: &'a Vec<String>, id: &str) -> (r: Option<&'a str>)
    ensures
        match r {
            Some(v) => value_by_id(fields_view(fields@), strings_view(values@), id@) == Some(v@),
            None => value_by_id(fields_view(fields@), strings_view(values@), id@) is None,
        },
{
    let ghost fs = fields_view(fields@);
    let mut i: usize = 0;
    while i < fields.len()
        invariant
            i <= fields.len(),
            fs == fields_view(fields@),
            field_position(fs, id@, 0) == field_position(fs, id@, i as int),
        decreases fields.len() - i,
    {
        assert(fs[i as int] == fields@[i as int]@);
        if str_eq(fields[i].id, id) {
            if i < values.len() {
                return Some(values[i].as_str());
            } else {
                return None;
            }
        }
        i = i + 1;
    }
    None
}

/// State for the "Add Credential" modal with dynamic fields: field 0 is the
/// endpoint name, field 1 the endpoint type selector, fields 2 and on the
/// fields of the endpoint type.
#[derive(Debug, Clone, PartialEq, Eq)]
pub struct AddCredentialState {
    pub field_index: usize,
    pub name: String,
    pub endpoint_type: usize,
    pub field_values: Vec<String>,
}

/// Number of endpoint types the credential form cycles through.
pub const ENDPOINT_TYPE_COUNT: usize = 6;

/// What the "Add Credential" modal holds.
pub struct AddCredentialView {
    pub field_index: nat,
    pub name: Seq<char>,
    pub endpoint_type: nat,
    pub field_values: Seq<Seq<char>>,
}

impl View for AddCredentialState {
    type V = AddCredentialView;

    open spec fn view(&self) -> AddCredentialView {
        AddCredentialView {
            field_index: self.field_index as nat,
            name: self.name@,
            endpoint_type: self.endpoint_type as nat,
            field_values: strings_view(self.field_values@),
        }
    }
}

/// The endpoint type a schema's first auth method maps to: OAuth2 for
/// `oauth`, bearer token for bot and long-lived tokens, API key otherwise.
pub open spec fn schema_endpoint_type(methods: Seq<AuthMethodInfo>) -> nat {
    if methods.len() > 0 {
        let id = methods[0].id@;
        if id == "aws_credentials"@ {
            3
        } else if id == "oauth"@ {
            2
        } else if id == "api_key"@ || id == "api_token"@ || id == "personal_access_token"@ || id
            == "integration_token"@ {
            3
        } else if id == "bot_token"@ || id == "long_lived_token"@ {
            5
        } else {
            3
        }
    } else {
        3
    }
}

/// Whether a schema field fills a form field: the same id, a `base_url` for
/// the `url`, a token field for the `token`, a key field for the `api_key`.
pub open spec fn schema_field_fills(schema_id: Seq<char>, form_id: Seq<char>) -> bool {
    ||| schema_id == form_id
    ||| (schema_id == "base_url"@ && form_id == "url"@)
    ||| (contains_seq(schema_id, "token"@) && form_id == "token"@)
    ||| (contains_seq(schema_id, "key"@) && form_id == "api_key"@)
}

/// The first form field, from position `i` on, that a schema field fills.
pub open spec fn filled_position(fields: Seq<FieldSpec>, schema_id: Seq<char>, i: int) -> Option<int>
    decreases fields.len() - i,
{
    if i < 0 || i >= fields.len() {
        None
    } else if schema_field_fills(schema_id, fields[i].id) {
        Some(i)
    } else {
        filled_position(fields, schema_id, i + 1)
    }
}

/// The form values after the defaults of the given schema fields are
/// written, in order, into the first form field each one fills.
pub open spec fn prefilled(values: Seq<Seq<char>>, fields: Seq<FieldSpec>, sfs: Seq<CredentialFieldInfo>) -> Seq<Seq<char>>
    decreases sfs.len(),
{
    if sfs.len() == 0 {
        values
    } else {
        let prev = prefilled(values, fields, sfs.drop_last());
        let sf = sfs.last();
        match sf.default {
            Some(d) => match filled_position(fields, sf.id@, 0) {
                Some(i) => prev.update(i, d@),
                None => prev,
            },
            None => prev,
        }
    }
}

fn schema_fills(schema_id: &str, form_id: &str) -> (r: bool)
    ensures
        r == schema_field_fills(schema_id@, form_id@),
{
    str_eq(schema_id, form_id) || (str_eq(schema_id, "base_url") && str_eq(form_id, "url")) || (
    contains_str(schema_id, "token") && str_eq(form_id, "token")) || (contains_str(schema_id, "key")
        && str_eq(form_id, "api_key"))
}

impl Default for AddCredentialState {
    fn default() -> (s: AddCredentialState)
        ensures
            s@.field_index == 0,
            s@.name.len() == 0,
            s@.endpoint_type == 0,
            s@.field_values.len() == 0,
    {
        AddCredentialState { field_index: 0, name: String::new(), endpoint_type: 0, field_values: Vec::new() }
    }
}

impl AddCredentialState {
    /// A blank form for the default endpoint type.
    pub fn new() -> (s: AddCredentialState)
        ensures
            s@.field_index == 0,
            s@.name.len() == 0,
            s@.endpoint_type == 0,
            s@.field_values == blank_values(endpoint_fields(0).len()),
    {
        let fields = get_fields_for_endpoint_type(0);
        let values = empty_strings(fields.len());
        assert(strings_view(values@) =~= blank_values(endpoint_fields(0).len()));
        AddCredentialState { field_index: 0, name: String::new(), endpoint_type: 0, field_values: values }
    }

    /// A form pre-filled from a credential schema: named after the provider,
    /// of the endpoint type its first auth method maps to, with the defaults
    /// of that method's fields written into the fields they fill.
    pub fn new_from_schema(schema: &CredentialSchemaInfo) -> (s: AddCredentialState)
        ensures
            s@.field_index == 0,
            s@.name == schema.provider_name@,
            s@.endpoint_type == schema_endpoint_type(schema.auth_methods@),
            s@.field_values == if schema.auth_methods@.len() > 0 {
                prefilled(
                    blank_values(endpoint_fields(s@.endpoint_type as int).len()),
                    endpoint_fields(s@.endpoint_type as int),
                    schema.auth_methods@[0].fields@,
                )
            } else {
                blank_values(endpoint_fields(s@.endpoint_type as int).len())
            },
    {
        let endpoint_type: usize = if schema.auth_methods.len() > 0 {
            let id = schema.auth_methods[0].id.as_str();
            if str_eq(id, "aws_credentials") {
                3
            } else if str_eq(id, "oauth") {
                2
            } else if str_eq(id, "api_key") || str_eq(id, "api_token") || str_eq(
                id,
                "personal_access_token",
            ) || str_eq(id, "integration_token") {
                3
            } else if str_eq(id, "bot_token") || str_eq(id, "long_lived_token") {
                5
            } else {
                3
            }
        } else {
            3
        };
        let fields = get_fields_for_endpoint_type(endpoint_type);
        let ghost fs = fields_view(fields@);
        let mut values = empty_strings(fields.len());
        let ghost blank = strings_view(values@);
        assert(blank =~= blank_values(endpoint_fields(endpoint_type as int).len()));
        if schema.auth_methods.len() > 0 {
            let method = &schema.auth_methods[0];
            let mut j: usize = 0;
            assert(method.fields@.take(0) =~= Seq::<CredentialFieldInfo>::empty());
            while j < method.fields.len()
                invariant
                    j <= method.fields.len(),
                    fs == fields_view(fields@),
                    values@.len() == fields@.len(),
                    strings_view(values@) == prefilled(blank, fs, method.fields@.take(j as int)),
                decreases method.fields.len() - j,
            {
                let sf = &method.fields[j];
                assert(method.fields@.take(j + 1).drop_last() == method.fields@.take(j as int));
                assert(method.fields@.take(j + 1).last() == method.fields@[j as int]);
                match &sf.default {
                    Some(d) => {
                        let mut i: usize = 0;
                        let ghost pos = filled_position(fs, sf.id@, 0);
                        while i < fields.len()
                            invariant
                                i <= fields.len(),
                                fs == fields_view(fields@),
                                pos == filled_position(fs, sf.id@, 0),
                                pos == filled_position(fs, sf.id@, i as int),
                                values@.len() == fields@.len(),
                                strings_view(values@) == prefilled(blank, fs, method.fields@.take(j as int)),
                            ensures
                                i <= fields.len(),
                                pos == filled_position(fs, sf.id@, i as int),
                                i < fields.len() ==> schema_field_fills(sf.id@, fs[i as int].id),
                            decreases fields.len() - i,
                        {
                            assert(fs[i as int] == fields@[i as int]@);
                            if schema_fills(sf.id.as_str(), fields[i].id) {
                                break;
                            }
                            i = i + 1;
                        }
                        if i < fields.len() {
                            let ghost before = strings_view(values@);
                            assert(pos == Some(i as int));
                            values.set(i, d.clone());
                            assert(strings_view(values@) =~= before.update(i as int, d@));
                        } else {
                            assert(pos is None);
                        }
                        assert(strings_view(values@) == prefilled(blank, fs, method.fields@.take(j + 1)));
                    },
                    None => {
                        assert(strings_view(values@) == prefilled(blank, fs, method.fields@.take(j + 1)));
                    },
                }
                j = j + 1;
            }
            assert(method.fields@.take(j as int) == method.fields@);
        }
        AddCredentialState {
            field_index: 0,
            name: schema.provider_name.clone(),
            endpoint_type,
            field_values: values,
        }
    }

    /// A blank API-key form named after a provider.
    pub fn new_for_provider(provider: &ProviderInfo) -> (s: AddCredentialState)
        ensures
            s@.field_index == 0,
            s@.name == provider.name@,
            s@.endpoint_type == 3,
            s@.field_values == blank_values(endpoint_fields(3).len()),
    {
        let fields = get_fields_for_endpoint_type(3);
        let values = empty_strings(fields.len());
        assert(strings_view(values@) =~= blank_values(endpoint_fields(3).len()));
        AddCredentialState {
            field_index: 0,
            name: provider.name.clone(),
            endpoint_type: 3,
            field_values: values,
        }
    }

    /// Blank the field values for the current endpoint type and return to
    /// the type selector.
    pub fn reset_fields_for_type(&mut self)
        ensures
            final(self)@.field_index == 1,
            final(self)@.name == old(self)@.name,
            final(self)@.endpoint_type == old(self)@.endpoint_type,
            final(self)@.field_values == blank_values(endpoint_fields(old(self)@.endpoint_type as int).len()),
    {
        let fields = get_fields_for_endpoint_type(self.endpoint_type);
        let values = empty_strings(fields.len());
        assert(strings_view(values@) =~= blank_values(endpoint_fields(self.endpoint_type as int).len()));
        self.field_values = values;
        self.field_index = 1;
    }

    /// Name, type selector, and the fields of the endpoint type.
    pub fn total_fields(&self) -> (n: usize)
        ensures
            n == 2 + endpoint_fields(self.endpoint_type as int).len(),
    {
        proof {
            lemma_endpoint_fields_len(self.endpoint_type as int);
        }
        2 + get_fields_for_endpoint_type(self.endpoint_type).len()
    }

    /// Move to the next field, from the last back to the first.
    pub fn next_field(&mut self)
        requires
            old(self).field_index < usize::MAX,
        ensures
            final(self)@.field_index == next_wrap(old(self)@.field_index, 2 + endpoint_fields(old(self)@.endpoint_type as int).len()),
            final(self)@.name == old(self)@.name,
            final(self)@.endpoint_type == old(self)@.endpoint_type,
            final(self)@.field_values == old(self)@.field_values,
    {
        self.field_index = (self.field_index + 1) % self.total_fields();
    }

    /// Move to the previous field, from the first to the last.
    pub fn prev_field(&mut self)
        ensures
            final(self)@.field_index == prev_wrap(old(self)@.field_index, 2 + endpoint_fields(old(self)@.endpoint_type as int).len()),
            final(self)@.name == old(self)@.name,
            final(self)@.endpoint_type == old(self)@.endpoint_type,
            final(self)@.field_values == old(self)@.field_values,
    {
        if self.field_index == 0 {
            self.field_index = self.total_fields() - 1;
        } else {
            self.field_index = self.field_index - 1;
        }
    }

    pub fn is_name_field(&self) -> (r: bool)
        ensures
            r == (self.field_index == 0),
    {
        self.field_index == 0
    }

    pub fn is_type_field(&self) -> (r: bool)
        ensures
            r == (self.field_index == 1),
    {
        self.field_index == 1
    }

    /// The position among the endpoint type's fields, on one of them.
    pub fn dynamic_field_index(&self) -> (r: Option<usize>)
        ensures
            r == if self.field_index >= 2 {
                Some((self.field_index - 2) as usize)
            } else {
                None::<usize>
            },
    {
        if self.field_index >= 2 {
            Some(self.field_index - 2)
        } else {
            None
        }
    }

    pub fn is_last_field(&self) -> (r: bool)
        ensures
            r == (self.field_index == 1 + endpoint_fields(self.endpoint_type as int).len()),
    {
        self.field_index == self.total_fields() - 1
    }

    /// The text being edited: the name on field 0, a field value on 2 and
    /// on (if it exists); the type selector has none.
    pub fn current_value_mut(&mut self) -> (r: Option<&mut String>)
        ensures
            old(self).field_index == 0 ==> r is Some && *r->0 == old(self).name
                && final(self).name == *final(r->0)
                && final(self).field_values == old(self).field_values
                && final(self).field_index == old(self).field_index
                && final(self).endpoint_type == old(self).endpoint_type,
            old(self).field_index >= 2 && old(self).field_index - 2 < old(self).field_values.len()
                ==> r is Some && *r->0 == old(self).field_values@[old(self).field_index - 2]
                && final(self).field_values@ == old(self).field_values@.update(old(self).field_index - 2, *final(r->0))
                && final(self).name == old(self).name
                && final(self).field_index == old(self).field_index
                && final(self).endpoint_type == old(self).endpoint_type,
            (old(self).field_index == 1 || (old(self).field_index >= 2 && old(self).field_index - 2
                >= old(self).field_values.len())) ==> r is None && *final(self) == *old(self),
    {
        if self.field_index == 0 {
            Some(&mut self.name)
        } else if self.field_index >= 2 && self.field_index - 2 < self.field_values.len() {
            let i = self.field_index - 2;
            Some(&mut self.field_values[i])
        } else {
            None
        }
    }

    /// The reason the form cannot be submitted, if any.
    pub fn validate(&self) -> (r: Option<String>)
        ensures
            match r {
                Some(m) => form_error(self.name@, endpoint_fields(self.endpoint_type as int), self@.field_values) == Some(m@),
                None => form_error(self.name@, endpoint_fields(self.endpoint_type as int), self@.field_values) is None,
            },
    {
        let fields = get_fields_for_endpoint_type(self.endpoint_type);
        check_form(&self.name, &fields, &self.field_values)
    }

    /// The value of the first field with this id.
    pub fn get_field_value(&self, id: &str) -> (r: Option<&str>)
        ensures
            match r {
                Some(v) => value_by_id(endpoint_fields(self.endpoint_type as int), self@.field_values, id@) == Some(v@),
                None => value_by_id(endpoint_fields(self.endpoint_type as int), self@.field_values, id@) is None,
            },
    {
        let fields = get_fields_for_endpoint_type(self.endpoint_type);
        lookup_value(&fields, &self.field_values, id)
    }
}

/// State for the "Edit Credential" modal, pre-populated from an existing
/// endpoint: field 0 is the name, fields 1 and on the fields of its
/// (unchangeable) endpoint type.
#[derive(Debug, Clone, PartialEq, Eq)]
pub struct EditCredentialState {
    /// Endpoint id being edited
    pub endpoint_id: String,
    pub field_index: usize,
    pub name: String,
    /// Endpoint type index (read-only, for field definitions)
    pub endpoint_type: usize,
    pub base_url: String,
    /// Values for the fields of the endpoint type
    pub field_values: Vec<String>,
    /// Whether a secret has been edited (so that it must be rotated)
    pub secret_modified: bool,
    /// Original credential id for rotation
    pub credential_id: Option<String>,
}

/// What the "Edit Credential" modal holds.
pub struct EditCredentialView {
    pub endpoint_id: Seq<char>,
    pub field_index: nat,
    pub name: Seq<char>,
    pub endpoint_type: nat,
    pub base_url: Seq<char>,
    pub field_values: Seq<Seq<char>>,
    pub secret_modified: bool,
    pub credential_id: Option<Seq<char>>,
}

impl View for EditCredentialState {
    type V = EditCredentialView;

    open spec fn view(&self) -> EditCredentialView {
        EditCredentialView {
            endpoint_id: self.endpoint_id@,
            field_index: self.field_index as nat,
            name: self.name@,
            endpoint_type: self.endpoint_type as nat,
            base_url: self.base_url@,
            field_values: strings_view(self.field_values@),
            secret_modified: self.secret_modified,
            credential_id: match self.credential_id {
                Some(c) => Some(c@),
                None => None,
            },
        }
    }
}

impl EditCredentialState {
    /// Edit state for an existing endpoint, its URL field pre-filled.
    pub fn from_endpoint(
        endpoint_id: &str,
        name: &str,
        endpoint_type: usize,
        base_url: &str,
        credential_id: Option<&str>,
    ) -> (s: EditCredentialState)
        ensures
            s@.endpoint_id == endpoint_id@,
            s@.field_index == 0,
            s@.name == name@,
            s@.endpoint_type == endpoint_type,
            s@.base_url == base_url@,
            s@.field_values == blank_values(endpoint_fields(endpoint_type as int).len()).update(0, base_url@),
            !s@.secret_modified,
            s@.credential_id == match credential_id {
                Some(c) => Some(c@),
                None => None::<Seq<char>>,
            },
    {
        let fields = get_fields_for_endpoint_type(endpoint_type);
        proof {
            lemma_endpoint_fields_len(endpoint_type as int);
        }
        let mut values = empty_strings(fields.len());
        values.set(0, string_of(base_url));
        assert(strings_view(values@) =~= blank_values(endpoint_fields(endpoint_type as int).len()).update(0, base_url@));
        EditCredentialState {
            endpoint_id: string_of(endpoint_id),
            field_index: 0,
            name: string_of(name),
            endpoint_type,
            base_url: string_of(base_url),
            field_values: values,
            secret_modified: false,
            credential_id: match credential_id {
                Some(c) => Some(string_of(c)),
                None => None,
            },
        }
    }

    /// Fill the first field with this id with a decrypted secret (if it
    /// has a value slot).
    pub fn set_secret(&mut self, field_id: &str, value: &str)
        ensures
            final(self)@.field_values == match field_position(endpoint_fields(old(self)@.endpoint_type as int), field_id@, 0) {
                Some(i) => if i < old(self)@.field_values.len() {
                    old(self)@.field_values.update(i, value@)
                } else {
                    old(self)@.field_values
                },
                None => old(self)@.field_values,
            },
            final(self)@.field_index == old(self)@.field_index,
            final(self)@.name == old(self)@.name,
            final(self)@.endpoint_type == old(self)@.endpoint_type,
            final(self)@.endpoint_id == old(self)@.endpoint_id,
            final(self)@.base_url == old(self)@.base_url,
            final(self)@.secret_modified == old(self)@.secret_modified,
            final(self)@.credential_id == old(self)@.credential_id,
    {
        let fields = get_fields_for_endpoint_type(self.endpoint_type);
        let ghost fs = fields_view(fields@);
        let mut i: usize = 0;
        while i < fields.len()
            invariant
                i <= fields.len(),
                fs == fields_view(fields@),
                fs == endpoint_fields(self.endpoint_type as int),
                field_position(fs, field_id@, 0) == field_position(fs, field_id@, i as int),
            ensures
                i <= fields.len(),
                field_position(fs, field_id@, 0) == field_position(fs, field_id@, i as int),
                i < fields.len() ==> fs[i as int].id == field_id@,
            decreases fields.len() - i,
        {
            assert(fs[i as int] == fields@[i as int]@);
            if str_eq(fields[i].id, field_id) {
                break;
            }
            i = i + 1;
        }
        if i < fields.len() && i < self.field_values.len() {
            let ghost before = strings_view(self.field_values@);
            self.field_values.set(i, string_of(value));
            assert(strings_view(self.field_values@) =~= before.update(i as int, value@));
        }
    }

    /// Name plus the fields of the endpoint type.
    pub fn total_fields(&self) -> (n: usize)
        ensures
            n == 1 + endpoint_fields(self.endpoint_type as int).len(),
    {
        proof {
            lemma_endpoint_fields_len(self.endpoint_type as int);
        }
        1 + get_fields_for_endpoint_type(self.endpoint_type).len()
    }

    /// Move to the next field, from the last back to the first.
    pub fn next_field(&mut self)
        requires
            old(self).field_index < usize::MAX,
        ensures
            final(self)@ == (EditCredentialView {
                field_index: next_wrap(old(self)@.field_index, 1 + endpoint_fields(old(self)@.endpoint_type as int).len()),
                ..old(self)@
            }),
    {
        self.field_index = (self.field_index + 1) % self.total_fields();
    }

    /// Move to the previous field, from the first to the last.
    pub fn prev_field(&mut self)
        ensures
            final(self)@ == (EditCredentialView {
                field_index: prev_wrap(old(self)@.field_index, 1 + endpoint_fields(old(self)@.endpoint_type as int).len()),
                ..old(self)@
            }),
    {
        if self.field_index == 0 {
            self.field_index = self.total_fields() - 1;
        } else {
            self.field_index = self.field_index - 1;
        }
    }

    pub fn is_name_field(&self) -> (r: bool)
        ensures
            r == (self.field_index == 0),
    {
        self.field_index == 0
    }

    /// The position among the endpoint type's fields, on one of them.
    pub fn dynamic_field_index(&self) -> (r: Option<usize>)
        ensures
            r == if self.field_index >= 1 {
                Some((self.field_index - 1) as usize)
            } else {
                None::<usize>
            },
    {
        if self.field_index >= 1 {
            Some(self.field_index - 1)
        } else {
            None
        }
    }

    pub fn is_last_field(&self) -> (r: bool)
        ensures
            r == (self.field_index == endpoint_fields(self.endpoint_type as int).len()),
    {
        self.field_index == self.total_fields() - 1
    }

    /// The text being edited: the name on field 0, a field value on 1 and
    /// on (if it exists). Moving onto a masked field marks the secret as
    /// modified.
    pub fn current_value_mut(&mut self) -> (r: Option<&mut String>)
        ensures
            old(self).field_index == 0 ==> r is Some && *r->0 == old(self).name
                && final(self).name == *final(r->0)
                && final(self).field_values == old(self).field_values
                && final(self).field_index == old(self).field_index
                && final(self).endpoint_type == old(self).endpoint_type
                && final(self).endpoint_id == old(self).endpoint_id
                && final(self).base_url == old(self).base_url
                && final(self).secret_modified == old(self).secret_modified
                && final(self).credential_id == old(self).credential_id,
            old(self).field_index >= 1 ==> {
                let i = old(self).field_index - 1;
                let fs = endpoint_fields(old(self).endpoint_type as int);
                &&& final(self).secret_modified == (old(self).secret_modified || (i < fs.len() && fs[i].masked))
                &&& final(self).name == old(self).name
                &&& final(self).field_index == old(self).field_index
                &&& final(self).endpoint_type == old(self).endpoint_type
                &&& final(self).endpoint_id == old(self).endpoint_id
                &&& final(self).base_url == old(self).base_url
                &&& final(self).credential_id == old(self).credential_id
                &&& if i < old(self).field_values.len() {
                    &&& r is Some
                    &&& *r->0 == old(self).field_values@[i]
                    &&& final(self).field_values@ == old(self).field_values@.update(i, *final(r->0))
                } else {
                    &&& r is None
                    &&& final(self).field_values == old(self).field_values
                }
            },
    {
        if self.field_index == 0 {
            Some(&mut self.name)
        } else {
            let idx = self.field_index - 1;
            let fields = get_fields_for_endpoint_type(self.endpoint_type);
            if idx < fields.len() {
                assert(fields_view(fields@)[idx as int] == fields@[idx as int]@);
                if fields[idx].masked {
                    self.secret_modified = true;
                }
            }
            if idx < self.field_values.len() {
                Some(&mut self.field_values[idx])
            } else {
                None
            }
        }
    }

    /// The reason the form cannot be submitted, if any.
    pub fn validate(&self) -> (r: Option<String>)
        ensures
            match r {
                Some(m) => form_error(self.name@, endpoint_fields(self.endpoint_type as int), self@.field_values) == Some(m@),
                None => form_error(self.name@, endpoint_fields(self.endpoint_type as int), self@.field_values) is None,
            },
    {
        let fields = get_fields_for_endpoint_type(self.endpoint_type);
        check_form(&self.name, &fields, &self.field_values)
    }

    /// The value of the first field with this id.
    pub fn get_field_value(&self, id: &str) -> (r: Option<&str>)
        ensures
            match r {
                Some(v) => value_by_id(endpoint_fields(self.endpoint_type as int), self@.field_values, id@) == Some(v@),
                None => value_by_id(endpoint_fields(self.endpoint_type as int), self@.field_values, id@) is None,
            },
    {
        let fields = get_fields_for_endpoint_type(self.endpoint_type);
        lookup_value(&fields, &self.field_values, id)
    }
}

} // verus!
