//! The "Create Session" modal: ad-hoc sessions pick a model, agent-bound
//! sessions pick an agent.

use vstd::prelude::*;
use crate::agent_form::{ModelOption, all_options, model_option, options_view, provider_options};
use crate::model::{AgentInfo, ModelProvider};
use crate::slots::{next_wrap, prev_wrap};

verus! {

broadcast use vstd::string::group_string_axioms;

/// Session creation mode.
#[derive(Debug, Clone, Copy, PartialEq, Eq, Structural)]
pub enum SessionMode {
    /// No agent: the user picks a model; not kept in agent memory
    AdHoc,
    /// Bound to an agent: the model comes from its configuration
    AgentBound,
}

/// State for the "Create Session" modal.
#[derive(Debug, Clone, PartialEq, Eq)]
pub struct CreateSessionState {
    pub mode: SessionMode,
    /// 0 = mode selector, 1 = model or agent picker
    pub field_index: usize,
    pub available_models: Vec<ModelOption>,
    pub selected_model_index: usize,
    /// (id, display name) of each enabled agent
    pub available_agents: Vec<(String, String)>,
    pub selected_agent_index: usize,
}

/// How an agent is offered: its id, with its model in brackets if it has one.
pub open spec fn agent_choice(a: AgentInfo) -> (Seq<char>, Seq<char>) {
    (a.id@, match a.model {
        Some(m) => a.id@ + " ["@ + m@ + "]"@,
        None => a.id@,
    })
}

/// The enabled agents, as offered.
pub open spec fn agent_choices(agents: Seq<AgentInfo>) -> Seq<(Seq<char>, Seq<char>)>
    decreases agents.len(),
{
    if agents.len() == 0 {
        Seq::empty()
    } else {
        let rest = agent_choices(agents.drop_last());
        if agents.last().enabled {
            rest.push(agent_choice(agents.last()))
        } else {
            rest
        }
    }
}

/// The texts of (id, display) pairs.
pub open spec fn choices_view(v: Seq<(String, String)>) -> Seq<(Seq<char>, Seq<char>)> {
    v.map_values(|p: (String, String)| (p.0@, p.1@))
}

/// An ad-hoc session form on the picker, offering the models of the
/// available providers and the enabled agents, each list at its first.
pub open spec fn is_new_session_form(s: CreateSessionState, providers: Seq<ModelProvider>, agents: Seq<AgentInfo>) -> bool {
    &&& s.mode == SessionMode::AdHoc
    &&& s.field_index == 1
    &&& options_view(s.available_models@) == all_options(providers)
    &&& s.selected_model_index == 0
    &&& choices_view(s.available_agents@) == agent_choices(agents)
    &&& s.selected_agent_index == 0
}

/// The form after selecting the next option on the picker: the next model
/// (ad-hoc) or agent (bound), round the list; elsewhere nothing changes.
pub open spec fn next_option_of(s: CreateSessionState) -> CreateSessionState {
    if s.field_index == 1 && s.mode == SessionMode::AdHoc && s.available_models@.len() > 0 {
        CreateSessionState {
            selected_model_index: next_wrap(s.selected_model_index as nat, s.available_models@.len()) as usize,
            ..s
        }
    } else if s.field_index == 1 && s.mode == SessionMode::AgentBound && s.available_agents@.len() > 0 {
        CreateSessionState {
            selected_agent_index: next_wrap(s.selected_agent_index as nat, s.available_agents@.len()) as usize,
            ..s
        }
    } else {
        s
    }
}

/// The form after selecting the previous option on the picker, round the
/// list; elsewhere nothing changes.
pub open spec fn prev_option_of(s: CreateSessionState) -> CreateSessionState {
    if s.field_index == 1 && s.mode == SessionMode::AdHoc && s.available_models@.len() > 0 {
        CreateSessionState {
            selected_model_index: prev_wrap(s.selected_model_index as nat, s.available_models@.len()) as usize,
            ..s
        }
    } else if s.field_index == 1 && s.mode == SessionMode::AgentBound && s.available_agents@.len() > 0 {
        CreateSessionState {
            selected_agent_index: prev_wrap(s.selected_agent_index as nat, s.available_agents@.len()) as usize,
            ..s
        }
    } else {
        s
    }
}

fn model_options_of(providers: &Vec<ModelProvider>) -> (r: Vec<ModelOption>)
    ensures
        options_view(r@) == all_options(providers@),
{
    let mut r: Vec<ModelOption> = Vec::new();
    let mut i: usize = 0;
    assert(options_view(r@) =~= all_options(providers@.take(0)));
    while i < providers.len()
        invariant
            i <= providers.len(),
            options_view(r@) == all_options(providers@.take(i as int)),
        decreases providers.len() - i,
    {
        let provider = &providers[i];
        assert(providers@.take(i + 1).drop_last() == providers@.take(i as int));
        assert(providers@.take(i + 1).last() == providers@[i as int]);
        let ghost base = options_view(r@);
        if provider.available {
            let mut j: usize = 0;
            while j < provider.models.len()
                invariant
                    j <= provider.models.len(),
                    provider.available,
                    options_view(r@) == base + provider_options(*provider).take(j as int),
                decreases provider.models.len() - j,
            {
                let m = &provider.models[j];
                let mut label = m.name.clone();
                label.append(" (");
                label.append(provider.name.as_str());
                label.append(")");
                let mut value = provider.id.clone();
                value.append("/");
                value.append(m.id.as_str());
                let opt = ModelOption { label, value, provider: provider.name.clone() };
                assert(opt@ == model_option(*provider, *m));
                let ghost before = options_view(r@);
                r.push(opt);
                assert(options_view(r@) =~= before.push(opt@));
                assert(provider_options(*provider).take(j + 1) =~= provider_options(*provider).take(j as int).push(opt@));
                j = j + 1;
            }
            assert(provider_options(*provider).take(j as int) =~= provider_options(*provider));
        } else {
            assert(base + provider_options(*provider) =~= base);
        }
        i = i + 1;
    }
    assert(providers@.take(i as int) == providers@);
    r
}

impl CreateSessionState {
    /// An ad-hoc session form on the picker, offering the models of the
    /// available providers and the enabled agents, each list at its first.
    pub fn new(providers: &Vec<ModelProvider>, agents: &Vec<AgentInfo>) -> (s: CreateSessionState)
        ensures
            is_new_session_form(s, providers@, agents@),
    {
        let available_models = model_options_of(providers);
        let mut available_agents: Vec<(String, String)> = Vec::new();
        let mut i: usize = 0;
        assert(choices_view(available_agents@) =~= agent_choices(agents@.take(0)));
        while i < agents.len()
            invariant
                i <= agents.len(),
                choices_view(available_agents@) == agent_choices(agents@.take(i as int)),
            decreases agents.len() - i,
        {
            let a = &agents[i];
            assert(agents@.take(i + 1).drop_last() == agents@.take(i as int));
            assert(agents@.take(i + 1).last() == agents@[i as int]);
            if a.enabled {
                let display = match &a.model {
                    Some(model) => {
                        let mut d = a.id.clone();
                        d.append(" [");
                        d.append(model.as_str());
                        d.append("]");
                        d
                    },
                    None => a.id.clone(),
                };
                let ghost before = choices_view(available_agents@);
                available_agents.push((a.id.clone(), display));
                assert(choices_view(available_agents@) =~= before.push(agent_choice(*a)));
            }
            i = i + 1;
        }
        assert(agents@.take(i as int) == agents@);
        CreateSessionState {
            mode: SessionMode::AdHoc,
            field_index: 1,
            available_models,
            selected_model_index: 0,
            available_agents,
            selected_agent_index: 0,
        }
    }

    /// Switch between ad-hoc and agent-bound, back on the mode selector.
    pub fn toggle_mode(&mut self)
        ensures
            final(self).mode == match old(self).mode {
                SessionMode::AdHoc => SessionMode::AgentBound,
                SessionMode::AgentBound => SessionMode::AdHoc,
            },
            *final(self) == (CreateSessionState { mode: final(self).mode, field_index: 0, ..*old(self) }),
    {
        self.mode = match self.mode {
            SessionMode::AdHoc => SessionMode::AgentBound,
            SessionMode::AgentBound => SessionMode::AdHoc,
        };
        self.field_index = 0;
    }

    /// On the picker, select the next model (ad-hoc) or agent (bound),
    /// round the list.
    pub fn next_option(&mut self)
        requires
            old(self).field_index == 1 && old(self).mode == SessionMode::AdHoc && old(self).available_models@.len() > 0
                ==> old(self).selected_model_index < usize::MAX,
            old(self).field_index == 1 && old(self).mode == SessionMode::AgentBound && old(self).available_agents@.len() > 0
                ==> old(self).selected_agent_index < usize::MAX,
        ensures
            *final(self) == next_option_of(*old(self)),
    {
        if self.field_index == 1 {
            match self.mode {
                SessionMode::AdHoc => {
                    if self.available_models.len() > 0 {
                        self.selected_model_index = (self.selected_model_index + 1) % self.available_models.len();
                    }
                },
                SessionMode::AgentBound => {
                    if self.available_agents.len() > 0 {
                        self.selected_agent_index = (self.selected_agent_index + 1) % self.available_agents.len();
                    }
                },
            }
        }
    }

    /// On the picker, select the previous model (ad-hoc) or agent (bound),
    /// round the list.
    pub fn prev_option(&mut self)
        ensures
            *final(self) == prev_option_of(*old(self)),
    {
        if self.field_index == 1 {
            match self.mode {
                SessionMode::AdHoc => {
                    if self.available_models.len() > 0 {
                        if self.selected_model_index == 0 {
                            self.selected_model_index = self.available_models.len() - 1;
                        } else {
                            self.selected_model_index = self.selected_model_index - 1;
                        }
                    }
                },
                SessionMode::AgentBound => {
                    if self.available_agents.len() > 0 {
                        if self.selected_agent_index == 0 {
                            self.selected_agent_index = self.available_agents.len() - 1;
                        } else {
                            self.selected_agent_index = self.selected_agent_index - 1;
                        }
                    }
                },
            }
        }
    }

    /// Value of the selected model, if the selection is in range.
    pub fn selected_model(&self) -> (r: Option<&str>)
        ensures
            match r {
                Some(v) => self.selected_model_index < self.available_models@.len()
                    && v@ == self.available_models@[self.selected_model_index as int].value@,
                None => self.selected_model_index >= self.available_models@.len(),
            },
    {
        if self.selected_model_index < self.available_models.len() {
            Some(self.available_models[self.selected_model_index].value.as_str())
        } else {
            None
        }
    }

    /// Id of the selected agent, if the selection is in range.
    pub fn selected_agent_id(&self) -> (r: Option<&str>)
        ensures
            match r {
                Some(v) => self.selected_agent_index < self.available_agents@.len()
                    && v@ == self.available_agents@[self.selected_agent_index as int].0@,
                None => self.selected_agent_index >= self.available_agents@.len(),
            },
    {
        if self.selected_agent_index < self.available_agents.len() {
            Some(self.available_agents[self.selected_agent_index].0.as_str())
        } else {
            None
        }
    }

    /// The mode selector and the picker.
    pub fn total_fields(&self) -> (n: usize)
        ensures
            n == 2,
    {
        2
    }
}

} // verus!
