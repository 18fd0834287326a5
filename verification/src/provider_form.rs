//! The "Edit Provider" modal, driven by the credential schema of the
//! provider: field 0 selects the auth method, fields 1 and on are the
//! fields of that method.

use vstd::prelude::*;
use crate::schemas::{
    AuthMethodInfo, AuthMethodView, CredentialFieldInfo, CredentialSchemaInfo,
    CredentialSchemaView, ProviderAuthType, auth_type_of,
};
use crate::slots::{next_wrap, prev_wrap};
use crate::text::{is_blank, is_blank_str, lowercase_of, replace_char, replace_char_spec, str_eq, string_of, to_lowercase};

verus! {

broadcast use vstd::string::group_string_axioms;

/// State for the "Edit Provider" modal.
#[derive(Debug, Clone, PartialEq, Eq)]
pub struct EditProviderState {
    /// Position in the credential schemas list
    pub provider_index: usize,
    /// Provider id (e.g. "bedrock", "anthropic")
    pub provider_id: String,
    /// Provider name (for display)
    pub provider_name: String,
    /// Current field (0 = auth method selector, 1 and on = method fields)
    pub field_index: usize,
    /// Selected auth method within the schema
    pub auth_method_index: usize,
    /// Authentication type of the selected method
    pub auth_type: ProviderAuthType,
    /// Field values keyed by field id
    pub field_values: Vec<(String, String)>,
    /// The credential schema driving this form
    pub schema: Option<CredentialSchemaInfo>,
}

/// What the "Edit Provider" modal holds.
pub struct ProviderFormView {
    pub provider_index: nat,
    pub provider_id: Seq<char>,
    pub provider_name: Seq<char>,
    pub field_index: nat,
    pub auth_method_index: nat,
    pub auth_type: ProviderAuthType,
    pub field_values: Seq<(Seq<char>, Seq<char>)>,
    pub schema: Option<CredentialSchemaView>,
}

/// The texts of id/value pairs.
pub open spec fn pairs_view(v: Seq<(String, String)>) -> Seq<(Seq<char>, Seq<char>)> {
    v.map_values(|p: (String, String)| (p.0@, p.1@))
}

impl View for EditProviderState {
    type V = ProviderFormView;

    open spec fn view(&self) -> ProviderFormView {
        ProviderFormView {
            provider_index: self.provider_index as nat,
            provider_id: self.provider_id@,
            provider_name: self.provider_name@,
            field_index: self.field_index as nat,
            auth_method_index: self.auth_method_index as nat,
            auth_type: self.auth_type,
            field_values: pairs_view(self.field_values@),
            schema: match self.schema {
                Some(s) => Some(s@),
                None => None,
            },
        }
    }
}

/// The default of a schema field, or empty text.
pub open spec fn default_text(f: CredentialFieldInfo) -> Seq<char> {
    match f.default {
        Some(d) => d@,
        None => Seq::<char>::empty(),
    }
}

/// The initial values of a method's fields: each id with its default.
pub open spec fn initial_values(fields: Seq<CredentialFieldInfo>) -> Seq<(Seq<char>, Seq<char>)> {
    fields.map_values(|f: CredentialFieldInfo| (f.id@, default_text(f)))
}

/// The auth method selected in a form, if the schema has it.
pub open spec fn selected_method(v: ProviderFormView) -> Option<AuthMethodView> {
    match v.schema {
        Some(s) => if v.auth_method_index < s.auth_methods.len() {
            Some(s.auth_methods[v.auth_method_index as int])
        } else {
            None
        },
        None => None,
    }
}

/// Number of fields of the selected method (none without one).
pub open spec fn method_field_count(v: ProviderFormView) -> nat {
    match selected_method(v) {
        Some(m) => m.fields.len(),
        None => 0,
    }
}

/// The field of the selected method at form position `field_index`.
pub open spec fn current_field(v: ProviderFormView) -> Option<CredentialFieldInfo> {
    if v.field_index == 0 {
        None
    } else {
        match selected_method(v) {
            Some(m) => if v.field_index - 1 < m.fields.len() {
                Some(m.fields[v.field_index - 1])
            } else {
                None
            },
            None => None,
        }
    }
}

/// The value at a position, or empty text past the end.
pub open spec fn value_text_at(values: Seq<(Seq<char>, Seq<char>)>, i: int) -> Seq<char> {
    if 0 <= i < values.len() {
        values[i].1
    } else {
        Seq::<char>::empty()
    }
}

/// The first required field, from position `i` on, whose value is blank.
pub open spec fn blank_required_from(fields: Seq<CredentialFieldInfo>, values: Seq<(Seq<char>, Seq<char>)>, i: int) -> Option<int>
    decreases fields.len() - i,
{
    if i < 0 || i >= fields.len() {
        None
    } else if fields[i].required && is_blank(value_text_at(values, i)) {
        Some(i)
    } else {
        blank_required_from(fields, values, i + 1)
    }
}

/// The value of the first pair with this id.
pub open spec fn pair_value_from(values: Seq<(Seq<char>, Seq<char>)>, id: Seq<char>, i: int) -> Option<Seq<char>>
    decreases values.len() - i,
{
    if i < 0 || i >= values.len() {
        None
    } else if values[i].0 == id {
        Some(values[i].1)
    } else {
        pair_value_from(values, id, i + 1)
    }
}

/// The value of the first pair with this id.
pub open spec fn pair_value(values: Seq<(Seq<char>, Seq<char>)>, id: Seq<char>) -> Option<Seq<char>> {
    pair_value_from(values, id, 0)
}

/// The first secret field from position `i` on.
pub open spec fn first_secret_from(fields: Seq<CredentialFieldInfo>, i: int) -> Option<int>
    decreases fields.len() - i,
{
    if i < 0 || i >= fields.len() {
        None
    } else if fields[i].secret {
        Some(i)
    } else {
        first_secret_from(fields, i + 1)
    }
}

/// The value of the selected method's first secret field, if any.
pub open spec fn secret_value(v: ProviderFormView) -> Option<Seq<char>> {
    match selected_method(v) {
        Some(m) => match first_secret_from(m.fields, 0) {
            Some(i) => pair_value(v.field_values, m.fields[i].id@),
            None => None,
        },
        None => None,
    }
}

/// The API key: the value of `api_key`, `bot_token`, `access_token` or
/// `token`, whichever comes first in that order, else the value of the
/// first secret field, else empty.
pub open spec fn api_key_spec(v: ProviderFormView) -> Seq<char> {
    let vals = v.field_values;
    if pair_value(vals, "api_key"@) is Some {
        pair_value(vals, "api_key"@)->0
    } else if pair_value(vals, "bot_token"@) is Some {
        pair_value(vals, "bot_token"@)->0
    } else if pair_value(vals, "access_token"@) is Some {
        pair_value(vals, "access_token"@)->0
    } else if pair_value(vals, "token"@) is Some {
        pair_value(vals, "token"@)->0
    } else if secret_value(v) is Some {
        secret_value(v)->0
    } else {
        Seq::<char>::empty()
    }
}

/// A form for a provider from its credential schema, on its first auth
/// method with that method's defaults.
pub open spec fn is_schema_form(v: ProviderFormView, schema: CredentialSchemaInfo, provider_index: nat) -> bool {
    &&& v.provider_index == provider_index
    &&& v.provider_id == schema.provider_id@
    &&& v.provider_name == schema.provider_name@
    &&& v.field_index == 0
    &&& v.auth_method_index == 0
    &&& v.auth_type == if schema.auth_methods@.len() > 0 {
        auth_type_of(schema.auth_methods@[0].id@)
    } else {
        ProviderAuthType::ApiKey
    }
    &&& v.field_values == if schema.auth_methods@.len() > 0 {
        initial_values(schema.auth_methods@[0].fields@)
    } else {
        Seq::<(Seq<char>, Seq<char>)>::empty()
    }
    &&& v.schema == Some(schema@)
}

/// A form for a built-in provider without a schema (0 Anthropic,
/// 1 OpenAI, 2 Ollama, 3 AWS Bedrock, 4 Google AI, else Unknown), its id
/// the lowercased name with spaces turned to underscores.
pub open spec fn is_builtin_provider_form(v: ProviderFormView, provider_index: nat) -> bool {
    &&& v.provider_index == provider_index
    &&& v.provider_name == legacy_provider_name(provider_index)
    &&& v.provider_id == replace_char_spec(lowercase_of(legacy_provider_name(provider_index)), ' ', '_')
    &&& v.field_index == 0
    &&& v.auth_method_index == 0
    &&& v.auth_type == ProviderAuthType::ApiKey
    &&& v.field_values.len() == 0
    &&& v.schema is None
}

/// The form after selecting the next (or previous) auth method round the
/// schema's list, with that method's type and default values, back on the
/// selector; with fewer than two methods nothing changes.
pub open spec fn auth_cycled(b: ProviderFormView, a: ProviderFormView, forward: bool) -> bool {
    let count = match b.schema {
        Some(s) => s.auth_methods.len(),
        None => 1,
    };
    if count <= 1 {
        a == b
    } else {
        let idx = if forward {
            next_wrap(b.auth_method_index, count)
        } else {
            prev_wrap(b.auth_method_index, count)
        };
        let moved = ProviderFormView { auth_method_index: idx, ..b };
        &&& a.auth_method_index == idx
        &&& a.field_index == 0
        &&& a.provider_index == b.provider_index
        &&& a.provider_id == b.provider_id
        &&& a.provider_name == b.provider_name
        &&& a.schema == b.schema
        &&& match selected_method(moved) {
            Some(m) => a.auth_type == auth_type_of(m.id) && a.field_values == initial_values(m.fields),
            None => a.auth_type == b.auth_type && a.field_values == b.field_values,
        }
    }
}

/// Why the provider form cannot be saved: the first required field of the
/// selected method left blank, as "<label> is required".
pub open spec fn provider_form_error(v: ProviderFormView) -> Option<Seq<char>> {
    match selected_method(v) {
        Some(m) => match blank_required_from(m.fields, v.field_values, 0) {
            Some(i) => Some(m.fields[i].label@ + " is required"@),
            None => None,
        },
        None => None,
    }
}

/// Names of the built-in providers, by position.
pub open spec fn legacy_provider_name(i: nat) -> Seq<char> {
    if i == 0 {
        "Anthropic"@
    } else if i == 1 {
        "OpenAI"@
    } else if i == 2 {
        "Ollama"@
    } else if i == 3 {
        "AWS Bedrock"@
    } else if i == 4 {
        "Google AI"@
    } else {
        "Unknown"@
    }
}

fn initial_pairs(fields: &Vec<CredentialFieldInfo>) -> (r: Vec<(String, String)>)
    ensures
        pairs_view(r@) == initial_values(fields@),
{
    let mut r: Vec<(String, String)> = Vec::new();
    let mut i: usize = 0;
    while i < fields.len()
        invariant
            i <= fields.len(),
            pairs_view(r@) == initial_values(fields@.take(i as int)),
        decreases fields.len() - i,
    {
        let f = &fields[i];
        let value = match &f.default {
            Some(d) => d.clone(),
            None => String::new(),
        };
        let ghost before = r@;
        r.push((f.id.clone(), value));
        assert(pairs_view(r@) =~= pairs_view(before).push((f.id@, default_text(*f))));
        assert(fields@.take(i + 1) == fields@.take(i as int).push(fields@[i as int]));
        assert(initial_values(fields@.take(i + 1)) =~= initial_values(fields@.take(i as int)).push((f.id@, default_text(*f))));
        i = i + 1;
    }
    assert(fields@.take(i as int) == fields@);
    r
}

fn find_pair<'a>(values: &'a Vec<(String, String)>, id: &str) -> (r: Option<&'a str>)
    ensures
        match r {
            Some(v) => pair_value(pairs_view(values@), id@) == Some(v@),
            None => pair_value(pairs_view(values@), id@) is None,
        },
{
    let ghost pv = pairs_view(values@);
    let mut i: usize = 0;
    while i < values.len()
        invariant
            i <= values.len(),
            pv == pairs_view(values@),
            pair_value_from(pv, id@, 0) == pair_value_from(pv, id@, i as int),
        decreases values.len() - i,
    {
        assert(pv[i as int] == (values@[i as int].0@, values@[i as int].1@));
        if str_eq(values[i].0.as_str(), id) {
            return Some(values[i].1.as_str());
        }
        i = i + 1;
    }
    None
}

impl EditProviderState {
    /// A form for a provider from its credential schema, on its first auth
    /// method with that method's defaults.
    pub fn from_schema(schema: &CredentialSchemaInfo, provider_index: usize) -> (s: EditProviderState)
        ensures
            is_schema_form(s@, *schema, provider_index as nat),
    {
        let (auth_type, values) = if schema.auth_methods.len() > 0 {
            let m = &schema.auth_methods[0];
            (ProviderAuthType::from_auth_method_id(m.id.as_str()), initial_pairs(&m.fields))
        } else {
            let v: Vec<(String, String)> = Vec::new();
            assert(pairs_view(v@) =~= Seq::<(Seq<char>, Seq<char>)>::empty());
            (ProviderAuthType::ApiKey, v)
        };
        EditProviderState {
            provider_index,
            provider_id: schema.provider_id.clone(),
            provider_name: schema.provider_name.clone(),
            field_index: 0,
            auth_method_index: 0,
            auth_type,
            field_values: values,
            schema: Some(schema.clone()),
        }
    }

    /// A form for a built-in provider without a schema (0 Anthropic,
    /// 1 OpenAI, 2 Ollama, 3 AWS Bedrock, 4 Google AI, else Unknown), its id
    /// the lowercased name with spaces turned to underscores.
    pub fn new(provider_index: usize) -> (s: EditProviderState)
        ensures
            is_builtin_provider_form(s@, provider_index as nat),
    {
        let name: &str = if provider_index == 0 {
            "Anthropic"
        } else if provider_index == 1 {
            "OpenAI"
        } else if provider_index == 2 {
            "Ollama"
        } else if provider_index == 3 {
            "AWS Bedrock"
        } else if provider_index == 4 {
            "Google AI"
        } else {
            "Unknown"
        };
        let lowered = to_lowercase(name);
        let id = replace_char(lowered.as_str(), ' ', '_');
        let values: Vec<(String, String)> = Vec::new();
        EditProviderState {
            provider_index,
            provider_id: id,
            provider_name: string_of(name),
            field_index: 0,
            auth_method_index: 0,
            auth_type: ProviderAuthType::ApiKey,
            field_values: values,
            schema: None,
        }
    }

    /// The selected auth method of the schema.
    pub fn current_auth_method(&self) -> (r: Option<&AuthMethodInfo>)
        ensures
            match r {
                Some(m) => selected_method(self@) == Some(m@),
                None => selected_method(self@) is None,
            },
    {
        match &self.schema {
            Some(s) => {
                if self.auth_method_index < s.auth_methods.len() {
                    Some(&s.auth_methods[self.auth_method_index])
                } else {
                    None
                }
            },
            None => None,
        }
    }

    /// The method selector plus the fields of the selected method.
    pub fn total_fields(&self) -> (n: usize)
        requires
            method_field_count(self@) < usize::MAX,
        ensures
            n == 1 + method_field_count(self@),
    {
        let count = match self.current_auth_method() {
            Some(m) => m.fields.len(),
            None => 0,
        };
        1 + count
    }

    /// Move to the next field, from the last back to the first.
    pub fn next_field(&mut self)
        requires
            old(self).field_index < usize::MAX,
            method_field_count(old(self)@) < usize::MAX,
        ensures
            final(self)@ == (ProviderFormView {
                field_index: next_wrap(old(self)@.field_index, 1 + method_field_count(old(self)@)),
                ..old(self)@
            }),
    {
        self.field_index = (self.field_index + 1) % self.total_fields();
    }

    /// Move to the previous field, from the first to the last.
    pub fn prev_field(&mut self)
        requires
            method_field_count(old(self)@) < usize::MAX,
        ensures
            final(self)@ == (ProviderFormView {
                field_index: prev_wrap(old(self)@.field_index, 1 + method_field_count(old(self)@)),
                ..old(self)@
            }),
    {
        if self.field_index == 0 {
            self.field_index = self.total_fields() - 1;
        } else {
            self.field_index = self.field_index - 1;
        }
    }

    pub fn is_auth_type_field(&self) -> (r: bool)
        ensures
            r == (self.field_index == 0),
    {
        self.field_index == 0
    }

    /// Select the next (or previous) auth method of the schema, round the
    /// list, with that method's type and default values, back on the
    /// selector. With fewer than two methods nothing changes.
    pub fn cycle_auth_type(&mut self, forward: bool)
        requires
            forward && (old(self).schema matches Some(s) && s.auth_methods@.len() > 1)
                ==> old(self).auth_method_index < usize::MAX,
        ensures
            auth_cycled(old(self)@, final(self)@, forward),
    {
        let count = match &self.schema {
            Some(s) => s.auth_methods.len(),
            None => 1,
        };
        if count <= 1 {
            return;
        }
        self.auth_method_index = if forward {
            (self.auth_method_index + 1) % count
        } else {
            if self.auth_method_index == 0 {
                count - 1
            } else {
                self.auth_method_index - 1
            }
        };
        let mut update: Option<(ProviderAuthType, Vec<(String, String)>)> = None;
        match &self.schema {
            Some(s) => {
                if self.auth_method_index < s.auth_methods.len() {
                    let m = &s.auth_methods[self.auth_method_index];
                    assert(s@.auth_methods[self.auth_method_index as int] == m@);
                    update = Some((ProviderAuthType::from_auth_method_id(m.id.as_str()), initial_pairs(&m.fields)));
                }
            },
            None => {},
        }
        match update {
            Some((t, v)) => {
                self.auth_type = t;
                self.field_values = v;
            },
            None => {},
        }
        self.field_index = 0;
    }

    /// The value being edited: none on the selector, else the value of the
    /// pair at that position (if it exists).
    pub fn current_value_mut(&mut self) -> (r: Option<&mut String>)
        ensures
            old(self).field_index == 0 ==> r is None && *final(self) == *old(self),
            old(self).field_index >= 1 && old(self).field_index - 1 < old(self).field_values.len() ==> {
                let i = old(self).field_index - 1;
                &&& r is Some
                &&& *r->0 == old(self).field_values@[i].1
                &&& final(self).field_values@ == old(self).field_values@.update(i, (old(self).field_values@[i].0, *final(r->0)))
                &&& final(self)@.field_index == old(self)@.field_index
                &&& final(self)@.auth_method_index == old(self)@.auth_method_index
                &&& final(self)@.auth_type == old(self)@.auth_type
                &&& final(self)@.schema == old(self)@.schema
                &&& final(self)@.provider_index == old(self)@.provider_index
                &&& final(self)@.provider_id == old(self)@.provider_id
                &&& final(self)@.provider_name == old(self)@.provider_name
            },
            old(self).field_index >= 1 && old(self).field_index - 1 >= old(self).field_values.len()
                ==> r is None && *final(self) == *old(self),
    {
        if self.field_index == 0 {
            return None;
        }
        let i = self.field_index - 1;
        if i < self.field_values.len() {
            Some(&mut self.field_values[i].1)
        } else {
            None
        }
    }

    /// Label of the current field: "Auth Type" on the selector, else the
    /// label of the method's field there (empty if none).
    pub fn current_field_label(&self) -> (r: String)
        ensures
            r@ == if self.field_index == 0 {
                "Auth Type"@
            } else {
                match current_field(self@) {
                    Some(f) => f.label@,
                    None => Seq::<char>::empty(),
                }
            },
    {
        if self.field_index == 0 {
            return string_of("Auth Type");
        }
        let idx = self.field_index - 1;
        match self.current_auth_method() {
            Some(m) => {
                if idx < m.fields.len() {
                    m.fields[idx].label.clone()
                } else {
                    String::new()
                }
            },
            None => String::new(),
        }
    }

    /// Whether the current field is a secret (and so masked).
    pub fn is_current_field_masked(&self) -> (r: bool)
        ensures
            r == match current_field(self@) {
                Some(f) => f.secret,
                None => false,
            },
    {
        if self.field_index == 0 {
            return false;
        }
        let idx = self.field_index - 1;
        match self.current_auth_method() {
            Some(m) => idx < m.fields.len() && m.fields[idx].secret,
            None => false,
        }
    }

    /// The first required field of the selected method whose value is
    /// blank, as a message; none if all are filled (or there is no method).
    pub fn validate(&self) -> (r: Option<String>)
        ensures
            match r {
                Some(msg) => provider_form_error(self@) == Some(msg@),
                None => provider_form_error(self@) is None,
            },
    {
        match self.current_auth_method() {
            Some(method) => {
                let ghost vals = self@.field_values;
                let mut i: usize = 0;
                while i < method.fields.len()
                    invariant
                        i <= method.fields.len(),
                        vals == pairs_view(self.field_values@),
                        vals == self@.field_values,
                        selected_method(self@) == Some(method@),
                        blank_required_from(method.fields@, vals, 0) == blank_required_from(method.fields@, vals, i as int),
                    decreases method.fields.len() - i,
                {
                    let field = &method.fields[i];
                    if field.required {
                        let value: &str = if i < self.field_values.len() {
                            assert(vals[i as int] == (self.field_values@[i as int].0@, self.field_values@[i as int].1@));
                            self.field_values[i].1.as_str()
                        } else {
                            proof {
                                reveal_strlit("");
                            }
                            ""
                        };
                        assert(value@ == value_text_at(vals, i as int));
                        if is_blank_str(value) {
                            let mut msg = string_of(field.label.as_str());
                            msg.append(" is required");
                            return Some(msg);
                        }
                    }
                    i = i + 1;
                }
                None
            },
            None => None,
        }
    }

    /// The value of the first pair with this id.
    pub fn get_field_value_by_id(&self, id: &str) -> (r: Option<&str>)
        ensures
            match r {
                Some(v) => pair_value(self@.field_values, id@) == Some(v@),
                None => pair_value(self@.field_values, id@) is None,
            },
    {
        find_pair(&self.field_values, id)
    }

    /// The API key (see `api_key_spec`).
    pub fn api_key(&self) -> (r: String)
        ensures
            r@ == api_key_spec(self@),
    {
        if let Some(v) = self.get_field_value_by_id("api_key") {
            return string_of(v);
        }
        if let Some(v) = self.get_field_value_by_id("bot_token") {
            return string_of(v);
        }
        if let Some(v) = self.get_field_value_by_id("access_token") {
            return string_of(v);
        }
        if let Some(v) = self.get_field_value_by_id("token") {
            return string_of(v);
        }
        match self.current_auth_method() {
            Some(m) => {
                let mut i: usize = 0;
                while i < m.fields.len()
                    invariant
                        i <= m.fields.len(),
                        selected_method(self@) == Some(m@),
                        pair_value(self@.field_values, "api_key"@) is None,
                        pair_value(self@.field_values, "bot_token"@) is None,
                        pair_value(self@.field_values, "access_token"@) is None,
                        pair_value(self@.field_values, "token"@) is None,
                        first_secret_from(m.fields@, 0) == first_secret_from(m.fields@, i as int),
                    decreases m.fields.len() - i,
                {
                    if m.fields[i].secret {
                        match self.get_field_value_by_id(m.fields[i].id.as_str()) {
                            Some(v) => {
                                return string_of(v);
                            },
                            None => {
                                return String::new();
                            },
                        }
                    }
                    i = i + 1;
                }
                String::new()
            },
            None => String::new(),
        }
    }

    /// The value of `base_url`, or empty.
    pub fn base_url(&self) -> (r: String)
        ensures
            r@ == match pair_value(self@.field_values, "base_url"@) {
                Some(v) => v,
                None => Seq::<char>::empty(),
            },
    {
        match self.get_field_value_by_id("base_url") {
            Some(v) => string_of(v),
            None => String::new(),
        }
    }

    /// The value of `region`, or `us-east-1`.
    pub fn aws_region(&self) -> (r: String)
        ensures
            r@ == match pair_value(self@.field_values, "region"@) {
                Some(v) => v,
                None => "us-east-1"@,
            },
    {
        match self.get_field_value_by_id("region") {
            Some(v) => string_of(v),
            None => string_of("us-east-1"),
        }
    }

    /// The environment variable named by the selected method's first secret
    /// field.
    pub fn env_var_hint(&self) -> (r: Option<String>)
        ensures
            match r {
                Some(e) => match selected_method(self@) {
                    Some(m) => match first_secret_from(m.fields, 0) {
                        Some(i) => m.fields[i].env_var is Some && m.fields[i].env_var->0@ == e@,
                        None => false,
                    },
                    None => false,
                },
                None => match selected_method(self@) {
                    Some(m) => match first_secret_from(m.fields, 0) {
                        Some(i) => m.fields[i].env_var is None,
                        None => true,
                    },
                    None => true,
                },
            },
    {
        match self.current_auth_method() {
            Some(m) => {
                let mut i: usize = 0;
                while i < m.fields.len()
                    invariant
                        i <= m.fields.len(),
                        selected_method(self@) == Some(m@),
                        first_secret_from(m.fields@, 0) == first_secret_from(m.fields@, i as int),
                    decreases m.fields.len() - i,
                {
                    if m.fields[i].secret {
                        return m.fields[i].env_var.clone();
                    }
                    i = i + 1;
                }
                None
            },
            None => None,
        }
    }
}

} // verus!
