//! The "Add/Edit Agent" modal, with its model picker.

use vstd::prelude::*;
use crate::model::{AgentInfo, ModelProvider, ModelProviderModel};
use crate::text::{contains_char, decimal, is_blank, is_blank_str, is_u32_text, parses_as_u32, push_decimal, string_of};

verus! {

broadcast use vstd::string::group_string_axioms;

/// A model option for the model picker.
#[derive(Debug, Clone, PartialEq, Eq)]
pub struct ModelOption {
    /// Display label: model name and provider name
    pub label: String,
    /// Value to store: provider id, a slash and model id
    pub value: String,
    /// Provider name for grouping
    pub provider: String,
}

impl View for ModelOption {
    type V = (Seq<char>, Seq<char>, Seq<char>);

    open spec fn view(&self) -> (Seq<char>, Seq<char>, Seq<char>) {
        (self.label@, self.value@, self.provider@)
    }
}

/// The views of model options.
pub open spec fn options_view(v: Seq<ModelOption>) -> Seq<(Seq<char>, Seq<char>, Seq<char>)> {
    v.map_values(|o: ModelOption| o@)
}

/// The option for a model of a provider: labelled "model (provider)",
/// valued "provider-id/model-id".
pub open spec fn model_option(p: ModelProvider, m: ModelProviderModel) -> (Seq<char>, Seq<char>, Seq<char>) {
    (m.name@ + " ("@ + p.name@ + ")"@, p.id@ + "/"@ + m.id@, p.name@)
}

/// The options of one provider: its models, if it is available.
pub open spec fn provider_options(p: ModelProvider) -> Seq<(Seq<char>, Seq<char>, Seq<char>)> {
    if p.available {
        p.models@.map_values(|m: ModelProviderModel| model_option(p, m))
    } else {
        Seq::empty()
    }
}

/// The options of all available providers, in order.
pub open spec fn all_options(ps: Seq<ModelProvider>) -> Seq<(Seq<char>, Seq<char>, Seq<char>)>
    decreases ps.len(),
{
    if ps.len() == 0 {
        Seq::empty()
    } else {
        all_options(ps.drop_last()) + provider_options(ps.last())
    }
}

/// The last option with this value.
pub open spec fn last_with_value(opts: Seq<(Seq<char>, Seq<char>, Seq<char>)>, v: Seq<char>) -> Option<nat>
    decreases opts.len(),
{
    if opts.len() == 0 {
        None
    } else if opts.last().1 == v {
        Some((opts.len() - 1) as nat)
    } else {
        last_with_value(opts.drop_last(), v)
    }
}

/// Labels of the agent form's fields, in order.
pub open spec fn agent_field_label(i: nat) -> Seq<char> {
    if i == 0 {
        "Agent ID"@
    } else if i == 1 {
        "Model"@
    } else if i == 2 {
        "Parent Agent (subagent)"@
    } else if i == 3 {
        "Workspace"@
    } else if i == 4 {
        "Max Tool Calls"@
    } else if i == 5 {
        "Temperature"@
    } else if i == 6 {
        "Max Tokens"@
    } else if i == 7 {
        "System Prompt"@
    } else {
        ""@
    }
}

/// Number of fields of the agent form.
pub const AGENT_FIELD_COUNT: usize = 8;

/// State for the "Add/Edit Agent" modal.
#[derive(Debug, Clone, PartialEq, Eq)]
pub struct EditAgentState {
    /// Whether this is an edit (true) or create (false)
    pub is_edit: bool,
    pub field_index: usize,
    /// Agent id (read-only when editing)
    pub id: String,
    pub model: String,
    /// Parent agent id (empty = top-level agent)
    pub parent_id: String,
    pub workspace: String,
    pub max_tool_calls: String,
    pub temperature: String,
    pub max_tokens: String,
    pub system_prompt: String,
    pub enabled: bool,
    /// Models for the picker (from the providers)
    pub available_models: Vec<ModelOption>,
    /// Selected model in the picker (none = custom text)
    pub selected_model_index: Option<usize>,
}

/// The text fields of the agent form.
pub enum AgentField {
    Id,
    Model,
    ParentId,
    Workspace,
    MaxToolCalls,
    Temperature,
    MaxTokens,
    SystemPrompt,
}

/// The field typed into at a form position: the id only when creating, the
/// model only when there is no picker.
pub open spec fn editable_field(s: EditAgentState) -> Option<AgentField> {
    let i = s.field_index;
    if i == 0 {
        if !s.is_edit { Some(AgentField::Id) } else { None }
    } else if i == 1 {
        if s.available_models@.len() == 0 { Some(AgentField::Model) } else { None }
    } else if i == 2 {
        Some(AgentField::ParentId)
    } else if i == 3 {
        Some(AgentField::Workspace)
    } else if i == 4 {
        Some(AgentField::MaxToolCalls)
    } else if i == 5 {
        Some(AgentField::Temperature)
    } else if i == 6 {
        Some(AgentField::MaxTokens)
    } else if i == 7 {
        Some(AgentField::SystemPrompt)
    } else {
        None
    }
}

/// The text of a field.
pub open spec fn field_text(s: EditAgentState, f: AgentField) -> String {
    match f {
        AgentField::Id => s.id,
        AgentField::Model => s.model,
        AgentField::ParentId => s.parent_id,
        AgentField::Workspace => s.workspace,
        AgentField::MaxToolCalls => s.max_tool_calls,
        AgentField::Temperature => s.temperature,
        AgentField::MaxTokens => s.max_tokens,
        AgentField::SystemPrompt => s.system_prompt,
    }
}

/// The form with one field's text replaced.
pub open spec fn with_field_text(s: EditAgentState, f: AgentField, t: String) -> EditAgentState {
    match f {
        AgentField::Id => EditAgentState { id: t, ..s },
        AgentField::Model => EditAgentState { model: t, ..s },
        AgentField::ParentId => EditAgentState { parent_id: t, ..s },
        AgentField::Workspace => EditAgentState { workspace: t, ..s },
        AgentField::MaxToolCalls => EditAgentState { max_tool_calls: t, ..s },
        AgentField::Temperature => EditAgentState { temperature: t, ..s },
        AgentField::MaxTokens => EditAgentState { max_tokens: t, ..s },
        AgentField::SystemPrompt => EditAgentState { system_prompt: t, ..s },
    }
}

/// Why an agent form cannot be saved, if it cannot: a blank id, an id with
/// a space or a slash, or a maximum tool call count that is not a `u32`.
pub open spec fn agent_form_error(id: Seq<char>, max_tool_calls: Seq<char>) -> Option<Seq<char>> {
    if is_blank(id) {
        Some("Agent ID is required"@)
    } else if id.contains(' ') || id.contains('/') {
        Some("Agent ID cannot contain spaces or slashes"@)
    } else if max_tool_calls.len() > 0 && !is_u32_text(max_tool_calls) {
        Some("Max tool calls must be a number"@)
    } else {
        None
    }
}

/// The field after the current one, round the eight; the id is skipped
/// when editing.
pub open spec fn agent_next_field(s: EditAgentState) -> usize {
    if s.is_edit && (s.field_index + 1) % 8 == 0 {
        1
    } else {
        ((s.field_index + 1) % 8) as usize
    }
}

/// The field before the current one, round the eight; the id is skipped
/// when editing.
pub open spec fn agent_prev_field(s: EditAgentState) -> usize {
    let p: int = if s.field_index == 0 { 7 } else { s.field_index - 1 };
    if s.is_edit && p == 0 { 7 } else { p as usize }
}

/// The form after picking the next model: after the last comes custom
/// text (no selection, the text kept), after that the first.
pub open spec fn next_model_of(s: EditAgentState) -> EditAgentState {
    let n = s.available_models@.len();
    if n == 0 {
        s
    } else {
        match s.selected_model_index {
            Some(i) => if i + 1 < n {
                EditAgentState {
                    model: s.available_models@[i + 1].value,
                    selected_model_index: Some((i + 1) as usize),
                    ..s
                }
            } else {
                EditAgentState { selected_model_index: None, ..s }
            },
            None => EditAgentState { model: s.available_models@[0].value, selected_model_index: Some(0usize), ..s },
        }
    }
}

/// The form after picking the previous model: before the first comes
/// custom text (no selection, the text kept), before that the last.
pub open spec fn prev_model_of(s: EditAgentState) -> EditAgentState {
    let n = s.available_models@.len();
    if n == 0 {
        s
    } else {
        match s.selected_model_index {
            Some(i) => if i == 0 {
                EditAgentState { selected_model_index: None, ..s }
            } else {
                EditAgentState {
                    model: s.available_models@[i - 1].value,
                    selected_model_index: Some((i - 1) as usize),
                    ..s
                }
            },
            None => EditAgentState {
                model: s.available_models@[n - 1].value,
                selected_model_index: Some((n - 1) as usize),
                ..s
            },
        }
    }
}

fn option_for(p: &ModelProvider, m: &ModelProviderModel) -> (o: ModelOption)
    ensures
        o@ == model_option(*p, *m),
{
    let mut label = m.name.clone();
    label.append(" (");
    label.append(p.name.as_str());
    label.append(")");
    let mut value = p.id.clone();
    value.append("/");
    value.append(m.id.as_str());
    ModelOption { label, value, provider: p.name.clone() }
}

fn decimal_text(n: u32) -> (s: String)
    ensures
        s@ == decimal(n as nat),
{
    let mut s = String::new();
    push_decimal(&mut s, n as usize);
    assert(Seq::<char>::empty() + decimal(n as nat) == decimal(n as nat));
    s
}

/// A blank form for a new agent: temperature 0.3, 16000 max tokens,
/// enabled, no picker.
pub open spec fn is_new_agent_form(s: EditAgentState) -> bool {
    &&& !s.is_edit
    &&& s.field_index == 0
    &&& s.id@.len() == 0
    &&& s.model@.len() == 0
    &&& s.parent_id@.len() == 0
    &&& s.workspace@.len() == 0
    &&& s.max_tool_calls@.len() == 0
    &&& s.temperature@ == "0.3"@
    &&& s.max_tokens@ == "16000"@
    &&& s.system_prompt@.len() == 0
    &&& s.enabled
    &&& s.available_models@.len() == 0
    &&& s.selected_model_index is None
}

/// A form editing an existing agent; absent settings are empty, except
/// temperature (0.3) and max tokens (16000).
pub open spec fn is_agent_edit_form(s: EditAgentState, agent: AgentInfo) -> bool {
    &&& s.is_edit
    &&& s.field_index == 0
    &&& s.id@ == agent.id@
    &&& s.model@ == match agent.model {
        Some(m) => m@,
        None => Seq::<char>::empty(),
    }
    &&& s.parent_id@ == match agent.parent_id {
        Some(m) => m@,
        None => Seq::<char>::empty(),
    }
    &&& s.workspace@ == match agent.workspace {
        Some(m) => m@,
        None => Seq::<char>::empty(),
    }
    &&& s.max_tool_calls@ == match agent.max_tool_calls {
        Some(n) => decimal(n as nat),
        None => Seq::<char>::empty(),
    }
    &&& s.temperature@ == match agent.temperature {
        Some(t) => t@,
        None => "0.3"@,
    }
    &&& s.max_tokens@ == match agent.max_tokens {
        Some(n) => decimal(n as nat),
        None => "16000"@,
    }
    &&& s.system_prompt@ == match agent.system_prompt {
        Some(m) => m@,
        None => Seq::<char>::empty(),
    }
    &&& s.enabled == agent.enabled
    &&& s.available_models@.len() == 0
    &&& s.selected_model_index is None
}

/// The form with the picker filled from the providers' models: the current
/// model's text picks the last option with that value, if any.
pub open spec fn models_populated(b: EditAgentState, a: EditAgentState, providers: Seq<ModelProvider>) -> bool {
    &&& options_view(a.available_models@) == all_options(providers)
    &&& a.selected_model_index == match last_with_value(all_options(providers), b.model@) {
        Some(k) => Some(k as usize),
        None => b.selected_model_index,
    }
    &&& a == (EditAgentState {
        available_models: a.available_models,
        selected_model_index: a.selected_model_index,
        ..b
    })
}

impl Default for EditAgentState {
    fn default() -> (s: EditAgentState)
        ensures
            is_new_agent_form(s),
    {
        EditAgentState::new()
    }
}

impl EditAgentState {
    pub fn new() -> (s: EditAgentState)
        ensures
            is_new_agent_form(s),
    {
        EditAgentState {
            is_edit: false,
            field_index: 0,
            id: String::new(),
            model: String::new(),
            parent_id: String::new(),
            workspace: String::new(),
            max_tool_calls: String::new(),
            temperature: string_of("0.3"),
            max_tokens: string_of("16000"),
            system_prompt: String::new(),
            enabled: true,
            available_models: Vec::new(),
            selected_model_index: None,
        }
    }

    /// A form editing an existing agent; absent settings are empty, except
    /// temperature (0.3) and max tokens (16000).
    pub fn from_agent(agent: &AgentInfo) -> (s: EditAgentState)
        ensures
            is_agent_edit_form(s, *agent),
    {
        EditAgentState {
            is_edit: true,
            field_index: 0,
            id: agent.id.clone(),
            model: match &agent.model { Some(m) => m.clone(), None => String::new() },
            parent_id: match &agent.parent_id { Some(m) => m.clone(), None => String::new() },
            workspace: match &agent.workspace { Some(m) => m.clone(), None => String::new() },
            max_tool_calls: match agent.max_tool_calls { Some(n) => decimal_text(n), None => String::new() },
            temperature: match &agent.temperature { Some(t) => t.clone(), None => string_of("0.3") },
            max_tokens: match agent.max_tokens { Some(n) => decimal_text(n), None => string_of("16000") },
            system_prompt: match &agent.system_prompt { Some(m) => m.clone(), None => String::new() },
            enabled: agent.enabled,
            available_models: Vec::new(),
            selected_model_index: None,
        }
    }

    /// Fill the model picker from the available providers; the last option
    /// whose value is the current model becomes selected (otherwise the
    /// selection is left as it was).
    pub fn populate_models(&mut self, providers: &Vec<ModelProvider>)
        ensures
            models_populated(*old(self), *final(self), providers@),
    {
        self.available_models.clear();
        assert(options_view(self.available_models@) =~= all_options(providers@.take(0)));
        let ghost old_sel = self.selected_model_index;
        let mut i: usize = 0;
        while i < providers.len()
            invariant
                i <= providers.len(),
                self.model == old(self).model,
                self.is_edit == old(self).is_edit,
                self.field_index == old(self).field_index,
                self.id == old(self).id,
                self.parent_id == old(self).parent_id,
                self.workspace == old(self).workspace,
                self.max_tool_calls == old(self).max_tool_calls,
                self.temperature == old(self).temperature,
                self.max_tokens == old(self).max_tokens,
                self.system_prompt == old(self).system_prompt,
                self.enabled == old(self).enabled,
                old_sel == old(self).selected_model_index,
                options_view(self.available_models@) == all_options(providers@.take(i as int)),
                self.selected_model_index == match last_with_value(options_view(self.available_models@), self.model@) {
                    Some(k) => Some(k as usize),
                    None => old_sel,
                },
            decreases providers.len() - i,
        {
            let provider = &providers[i];
            assert(providers@.take(i + 1).drop_last() == providers@.take(i as int));
            assert(providers@.take(i + 1).last() == providers@[i as int]);
            let ghost base = options_view(self.available_models@);
            if provider.available {
                let mut j: usize = 0;
                while j < provider.models.len()
                    invariant
                        j <= provider.models.len(),
                        provider.available,
                        self.model == old(self).model,
                        self.is_edit == old(self).is_edit,
                        self.field_index == old(self).field_index,
                        self.id == old(self).id,
                        self.parent_id == old(self).parent_id,
                        self.workspace == old(self).workspace,
                        self.max_tool_calls == old(self).max_tool_calls,
                        self.temperature == old(self).temperature,
                        self.max_tokens == old(self).max_tokens,
                        self.system_prompt == old(self).system_prompt,
                        self.enabled == old(self).enabled,
                        old_sel == old(self).selected_model_index,
                        options_view(self.available_models@) == base + provider_options(*provider).take(j as int),
                        self.selected_model_index == match last_with_value(options_view(self.available_models@), self.model@) {
                            Some(k) => Some(k as usize),
                            None => old_sel,
                        },
                    decreases provider.models.len() - j,
                {
                    let opt = option_for(provider, &provider.models[j]);
                    let matched = self.model == opt.value;
                    let ghost before = options_view(self.available_models@);
                    self.available_models.push(opt);
                    assert(options_view(self.available_models@) =~= before.push(opt@));
                    assert(provider_options(*provider).take(j + 1) =~= provider_options(*provider).take(j as int).push(opt@));
                    if matched {
                        self.selected_model_index = Some(self.available_models.len() - 1);
                    }
                    assert(options_view(self.available_models@).drop_last() =~= before);
                    j = j + 1;
                }
                assert(provider_options(*provider).take(j as int) =~= provider_options(*provider));
            } else {
                assert(base + provider_options(*provider) =~= base);
            }
            i = i + 1;
        }
        assert(providers@.take(i as int) == providers@);
    }

    /// Select the next model in the picker; after the last comes custom text
    /// (no selection), after that the first.
    pub fn next_model(&mut self)
        ensures
            *final(self) == next_model_of(*old(self)),
    {
        if self.available_models.len() == 0 {
            return;
        }
        let next = match self.selected_model_index {
            Some(i) => if i < self.available_models.len() - 1 { Some(i + 1) } else { None },
            None => Some(0),
        };
        self.selected_model_index = next;
        if let Some(idx) = next {
            self.model = self.available_models[idx].value.clone();
        }
    }

    /// Select the previous model in the picker; before the first comes
    /// custom text (no selection), before that the last.
    pub fn prev_model(&mut self)
        requires
            old(self).selected_model_index matches Some(i) ==> i <= old(self).available_models@.len(),
        ensures
            *final(self) == prev_model_of(*old(self)),
    {
        if self.available_models.len() == 0 {
            return;
        }
        let prev = match self.selected_model_index {
            Some(i) => if i == 0 { None } else { Some(i - 1) },
            None => Some(self.available_models.len() - 1),
        };
        self.selected_model_index = prev;
        if let Some(idx) = prev {
            self.model = self.available_models[idx].value.clone();
        }
    }

    pub fn total_fields(&self) -> (n: usize)
        ensures
            n == 8,
    {
        AGENT_FIELD_COUNT
    }

    /// Move to the next field, round the eight; the id is skipped when
    /// editing.
    pub fn next_field(&mut self)
        requires
            old(self).field_index < usize::MAX,
        ensures
            final(self).field_index == agent_next_field(*old(self)),
            *final(self) == (EditAgentState { field_index: final(self).field_index, ..*old(self) }),
    {
        self.field_index = (self.field_index + 1) % self.total_fields();
        if self.is_edit && self.field_index == 0 {
            self.field_index = 1;
        }
    }

    /// Move to the previous field, round the eight; the id is skipped when
    /// editing.
    pub fn prev_field(&mut self)
        ensures
            final(self).field_index == agent_prev_field(*old(self)),
            *final(self) == (EditAgentState { field_index: final(self).field_index, ..*old(self) }),
    {
        if self.field_index == 0 {
            self.field_index = self.total_fields() - 1;
        } else {
            self.field_index = self.field_index - 1;
        }
        if self.is_edit && self.field_index == 0 {
            self.field_index = self.total_fields() - 1;
        }
    }

    /// Whether the model field is shown as a picker.
    pub fn is_model_picker_active(&self) -> (r: bool)
        ensures
            r == (self.field_index == 1 && self.available_models@.len() > 0),
    {
        self.field_index == 1 && self.available_models.len() > 0
    }

    /// The text being typed into, if the current field takes text.
    pub fn current_value_mut(&mut self) -> (r: Option<&mut String>)
        ensures
            match editable_field(*old(self)) {
                Some(f) => r is Some && *r->0 == field_text(*old(self), f)
                    && *final(self) == with_field_text(*old(self), f, *final(r->0)),
                None => r is None && *final(self) == *old(self),
            },
    {
        match self.field_index {
            0 => {
                if !self.is_edit {
                    Some(&mut self.id)
                } else {
                    None
                }
            },
            1 => {
                if self.available_models.len() == 0 {
                    Some(&mut self.model)
                } else {
                    None
                }
            },
            2 => Some(&mut self.parent_id),
            3 => Some(&mut self.workspace),
            4 => Some(&mut self.max_tool_calls),
            5 => Some(&mut self.temperature),
            6 => Some(&mut self.max_tokens),
            7 => Some(&mut self.system_prompt),
            _ => None,
        }
    }

    /// Label of the current field (empty past the last).
    pub fn current_field_label(&self) -> (r: &'static str)
        ensures
            r@ == agent_field_label(self.field_index as nat),
    {
        let i = self.field_index;
        if i == 0 {
            "Agent ID"
        } else if i == 1 {
            "Model"
        } else if i == 2 {
            "Parent Agent (subagent)"
        } else if i == 3 {
            "Workspace"
        } else if i == 4 {
            "Max Tool Calls"
        } else if i == 5 {
            "Temperature"
        } else if i == 6 {
            "Max Tokens"
        } else if i == 7 {
            "System Prompt"
        } else {
            ""
        }
    }

    pub fn is_last_field(&self) -> (r: bool)
        ensures
            r == (self.field_index == 7),
    {
        self.field_index == self.total_fields() - 1
    }

    /// Why the form cannot be saved, if it cannot.
    pub fn validate(&self) -> (r: Option<String>)
        ensures
            match r {
                Some(m) => agent_form_error(self.id@, self.max_tool_calls@) == Some(m@),
                None => agent_form_error(self.id@, self.max_tool_calls@) is None,
            },
    {
        if is_blank_str(self.id.as_str()) {
            return Some(string_of("Agent ID is required"));
        }
        if contains_char(self.id.as_str(), ' ') || contains_char(self.id.as_str(), '/') {
            return Some(string_of("Agent ID cannot contain spaces or slashes"));
        }
        if !self.max_tool_calls.as_str().is_empty() && !parses_as_u32(self.max_tool_calls.as_str()) {
            return Some(string_of("Max tool calls must be a number"));
        }
        None
    }
}

} // verus!
