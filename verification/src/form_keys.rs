//! Keys in the form dialogs: the agent form, the session form, the
//! credential forms and the confirmation dialog. Each key either edits the
//! form, moves between its fields, closes it, or hands the caller the work
//! that it asks for.

use vstd::prelude::*;
use crate::agent_form::{
    EditAgentState, agent_form_error, agent_next_field, agent_prev_field, editable_field,
    field_text, next_model_of, prev_model_of, with_field_text,
};
use crate::app_state::{AppState, status_is};
use crate::credential_forms::{
    AddCredentialState, AddCredentialView, ENDPOINT_TYPE_COUNT, EditCredentialState, EditCredentialView, endpoint_fields,
    form_error,
};
use crate::text::blank_values;
use crate::keys::{KeyCode, KeyEvent, KeyModifiers, mods_contain};
use crate::line_edit::{count_newlines, newline_count};
use crate::effect::Effect;
use crate::model::AgentInfo;
use crate::schemas::opt_view;
use crate::provider_form::{EditProviderState, ProviderFormView, auth_cycled, method_field_count, provider_form_error};
use crate::session_form::{CreateSessionState, SessionMode, next_option_of, prev_option_of};
use crate::modes::{ConfirmAction, InputMode, PasswordAction};
use crate::text::{chars_of, pop_char, push_char, str_byte_len, str_eq, string_of, utf8_len};

verus! {

broadcast use vstd::string::group_string_axioms;

/// Most line feeds the system prompt takes from Enter.
pub const MAX_PROMPT_NEWLINES: usize = 9;

/// The text after typing a character.
pub open spec fn text_typed(before: Seq<char>, after: Seq<char>, c: char) -> bool {
    after == before.push(c)
}

/// The text after Backspace: the last character goes, if there is one.
pub open spec fn text_popped(before: Seq<char>, after: Seq<char>) -> bool {
    after == if before.len() > 0 { before.drop_last() } else { before }
}

/// Ctrl+S.
pub open spec fn is_save_key(key: KeyEvent) -> bool {
    key.code == KeyCode::Char('s') && mods_contain(key.modifiers, KeyModifiers { bits: 2 })
}

/// The mode that shows an agent form: editing or adding.
pub open spec fn agent_form_mode(e: EditAgentState) -> InputMode {
    if e.is_edit {
        InputMode::EditAgent(e)
    } else {
        InputMode::AddAgent(e)
    }
}

/// Whether an agent with this id is listed.
pub open spec fn agent_listed(agents: Seq<AgentInfo>, id: Seq<char>) -> bool {
    exists|i: int| 0 <= i < agents.len() && #[trigger] agents[i].id@ == id
}

/// The form after a key edits the text of its current field; a field that
/// takes no text is left as it is.
pub open spec fn agent_text_edited(
    st: EditAgentState,
    e: EditAgentState,
    edit: spec_fn(Seq<char>, Seq<char>) -> bool,
) -> bool {
    match editable_field(st) {
        Some(f) => e == with_field_text(st, f, field_text(e, f)) && edit(field_text(st, f)@, field_text(e, f)@),
        None => e == st,
    }
}

/// A try to save the agent form: refused with the validation error, or,
/// when adding, with "Agent '<id>' already exists" for a listed id; else
/// the form is handed over to be saved and closed.
pub open spec fn agent_save_tried(
    st: EditAgentState,
    agents: Seq<AgentInfo>,
    m: InputMode,
    s0: Option<(String, bool)>,
    s1: Option<(String, bool)>,
    r: Effect,
) -> bool {
    match agent_form_error(st.id@, st.max_tool_calls@) {
        Some(err) => r == Effect::Nothing && m == agent_form_mode(st) && status_is(s1, err, true),
        None => if !st.is_edit && agent_listed(agents, st.id@) {
            &&& r == Effect::Nothing
            &&& m == InputMode::AddAgent(st)
            &&& status_is(s1, "Agent '"@ + st.id@ + "' already exists"@, true)
        } else {
            r == Effect::SaveAgent(st) && m == InputMode::Normal && s1 == s0
        },
    }
}

/// The input mode, status line and action after a key in the agent form:
/// Esc cancels; Tab/Down and BackTab/Up move between fields; Left and Right
/// pick a model on an active picker; Ctrl+S saves; Enter adds a line feed
/// to the system prompt (up to the limit) and moves on from other fields;
/// characters and Backspace edit the current field's text. Other keys
/// leave the form as it is.
pub open spec fn agent_form_moved(
    key: KeyEvent,
    st: EditAgentState,
    agents: Seq<AgentInfo>,
    m1: InputMode,
    s0: Option<(String, bool)>,
    s1: Option<(String, bool)>,
    r: Effect,
) -> bool {
    let code = key.code;
    let picker = st.field_index == 1 && st.available_models@.len() > 0;
    let shows = |e: EditAgentState| r == Effect::Nothing && s1 == s0 && m1 == agent_form_mode(e);
    if code == KeyCode::Esc {
        r == Effect::Nothing && m1 == InputMode::Normal && status_is(s1, "Cancelled"@, false)
    } else if code == KeyCode::Tab || code == KeyCode::Down {
        shows(EditAgentState { field_index: agent_next_field(st), ..st })
    } else if code == KeyCode::BackTab || code == KeyCode::Up {
        shows(EditAgentState { field_index: agent_prev_field(st), ..st })
    } else if code == KeyCode::Left && picker {
        shows(prev_model_of(st))
    } else if code == KeyCode::Right && picker {
        shows(next_model_of(st))
    } else if is_save_key(key) {
        agent_save_tried(st, agents, m1, s0, s1, r)
    } else if code == KeyCode::Enter {
        if st.field_index == 7 {
            r == Effect::Nothing && s1 == s0 && (m1 matches InputMode::AddAgent(e) || m1 matches InputMode::EditAgent(e)) && {
                let e = match m1 {
                    InputMode::AddAgent(e) => e,
                    InputMode::EditAgent(e) => e,
                    _ => st,
                };
                &&& m1 == agent_form_mode(e)
                &&& e == (EditAgentState { system_prompt: e.system_prompt, ..st })
                &&& e.system_prompt@ == if newline_count(st.system_prompt@) < MAX_PROMPT_NEWLINES {
                    st.system_prompt@.push('\n')
                } else {
                    st.system_prompt@
                }
            }
        } else {
            shows(EditAgentState { field_index: agent_next_field(st), ..st })
        }
    } else if code is Char || code == KeyCode::Backspace {
        r == Effect::Nothing && s1 == s0 && (m1 matches InputMode::AddAgent(e) || m1 matches InputMode::EditAgent(e)) && {
            let e = match m1 {
                InputMode::AddAgent(e) => e,
                InputMode::EditAgent(e) => e,
                _ => st,
            };
            &&& m1 == agent_form_mode(e)
            &&& if code is Char {
                agent_text_edited(st, e, |x: Seq<char>, y: Seq<char>| text_typed(x, y, code->Char_0))
            } else {
                agent_text_edited(st, e, |x: Seq<char>, y: Seq<char>| text_popped(x, y))
            }
        }
    } else {
        r == Effect::Nothing && m1 == agent_form_mode(st) && s1 == s0
    }
}

/// The whole state after a key in the agent form: only the input mode and
/// the status line change.
pub open spec fn agent_form_keyed(b: AppState, a: AppState, key: KeyEvent, st: EditAgentState, r: Effect) -> bool {
    &&& a == (AppState { input_mode: a.input_mode, status_message: a.status_message, ..b })
    &&& agent_form_moved(key, st, b.agents@, a.input_mode, b.status_message, a.status_message, r)
}

/// The agent form can take the key without overflow.
pub open spec fn agent_form_key_ok(key: KeyEvent, st: EditAgentState) -> bool {
    &&& st.field_index < usize::MAX
    &&& key.code == KeyCode::Left ==> (st.selected_model_index matches Some(i) ==> i <= st.available_models@.len())
}

/// Whether an agent with this id is listed.
fn has_agent(agents: &Vec<AgentInfo>, id: &String) -> (r: bool)
    ensures
        r == agent_listed(agents@, id@),
{
    let mut i: usize = 0;
    while i < agents.len()
        invariant
            i <= agents@.len(),
            forall|j: int| 0 <= j < i ==> agents@[j].id@ != id@,
        decreases agents@.len() - i,
    {
        if agents[i].id.eq(id) {
            assert(agents@[i as int].id@ == id@);
            return true;
        }
        i = i + 1;
    }
    false
}

/// The form with the text of its current field edited by a character, or
/// by Backspace when there is none.
fn agent_form_text_key(st: EditAgentState, c: Option<char>) -> (e: EditAgentState)
    ensures
        match c {
            Some(ch) => agent_text_edited(st, e, |x: Seq<char>, y: Seq<char>| text_typed(x, y, ch)),
            None => agent_text_edited(st, e, |x: Seq<char>, y: Seq<char>| text_popped(x, y)),
        },
{
    let mut e = st;
    let ghost before = e;
    match e.current_value_mut() {
        Some(value) => {
            match c {
                Some(ch) => push_char(value, ch),
                None => {
                    pop_char(value);
                },
            }
        },
        None => {},
    }
    proof {
        match editable_field(before) {
            Some(f) => {
                assert(field_text(e, f) == field_text(with_field_text(before, f, field_text(e, f)), f));
            },
            None => {},
        }
    }
    e
}

impl AppState {
    /// Handle a key in the agent form.
    pub fn agent_form_key(&mut self, key: KeyEvent, state: EditAgentState) -> (r: Effect)
        requires
            agent_form_key_ok(key, state),
        ensures
            agent_form_keyed(*old(self), *final(self), key, state, r),
    {
        let mut st = state;
        match key.code {
            KeyCode::Esc => {
                self.input_mode = InputMode::Normal;
                self.status_message = Some((string_of("Cancelled"), false));
                Effect::Nothing
            },
            KeyCode::Tab | KeyCode::Down => {
                st.next_field();
                self.input_mode = if st.is_edit { InputMode::EditAgent(st) } else { InputMode::AddAgent(st) };
                Effect::Nothing
            },
            KeyCode::BackTab | KeyCode::Up => {
                st.prev_field();
                self.input_mode = if st.is_edit { InputMode::EditAgent(st) } else { InputMode::AddAgent(st) };
                Effect::Nothing
            },
            KeyCode::Left if st.is_model_picker_active() => {
                st.prev_model();
                self.input_mode = if st.is_edit { InputMode::EditAgent(st) } else { InputMode::AddAgent(st) };
                Effect::Nothing
            },
            KeyCode::Right if st.is_model_picker_active() => {
                st.next_model();
                self.input_mode = if st.is_edit { InputMode::EditAgent(st) } else { InputMode::AddAgent(st) };
                Effect::Nothing
            },
            KeyCode::Char('s') if key.modifiers.contains(KeyModifiers::control()) => self.agent_form_save(st),
            KeyCode::Enter => {
                if st.field_index == 7 {
                    let v = chars_of(st.system_prompt.as_str());
                    if count_newlines(&v) < MAX_PROMPT_NEWLINES {
                        push_char(&mut st.system_prompt, '\n');
                    }
                    self.input_mode = if st.is_edit { InputMode::EditAgent(st) } else { InputMode::AddAgent(st) };
                    Effect::Nothing
                } else {
                    st.next_field();
                    self.input_mode = if st.is_edit { InputMode::EditAgent(st) } else { InputMode::AddAgent(st) };
                    Effect::Nothing
                }
            },
            KeyCode::Char(c) => {
                let e = agent_form_text_key(st, Some(c));
                self.input_mode = if e.is_edit { InputMode::EditAgent(e) } else { InputMode::AddAgent(e) };
                Effect::Nothing
            },
            KeyCode::Backspace => {
                let e = agent_form_text_key(st, None);
                self.input_mode = if e.is_edit { InputMode::EditAgent(e) } else { InputMode::AddAgent(e) };
                Effect::Nothing
            },
            _ => {
                self.input_mode = if st.is_edit { InputMode::EditAgent(st) } else { InputMode::AddAgent(st) };
                Effect::Nothing
            },
        }
    }

    /// Try to save the agent form.
    fn agent_form_save(&mut self, st: EditAgentState) -> (r: Effect)
        ensures
            *final(self) == (AppState {
                input_mode: final(self).input_mode,
                status_message: final(self).status_message,
                ..*old(self)
            }),
            agent_save_tried(st, old(self).agents@, final(self).input_mode, old(self).status_message, final(self).status_message, r),
    {
        match st.validate() {
            Some(error) => {
                self.status_message = Some((error, true));
                self.input_mode = if st.is_edit { InputMode::EditAgent(st) } else { InputMode::AddAgent(st) };
                Effect::Nothing
            },
            None => {
                if !st.is_edit && has_agent(&self.agents, &st.id) {
                    let mut msg = string_of("Agent '");
                    msg.append(st.id.as_str());
                    msg.append("' already exists");
                    self.status_message = Some((msg, true));
                    self.input_mode = InputMode::AddAgent(st);
                    Effect::Nothing
                } else {
                    self.input_mode = InputMode::Normal;
                    Effect::SaveAgent(st)
                }
            },
        }
    }
}

/// The model of the first listed agent with this id, if any.
pub open spec fn first_agent_model(agents: Seq<AgentInfo>, id: Seq<char>) -> Option<Seq<char>>
    decreases agents.len(),
{
    if agents.len() == 0 {
        None
    } else if agents[0].id@ == id {
        match agents[0].model {
            Some(m) => Some(m@),
            None => None,
        }
    } else {
        first_agent_model(agents.drop_first(), id)
    }
}

/// The state after the session form is submitted for a session bound to
/// `agent` (or none) with `model`: the chat opens on an empty input line,
/// and the caller is asked to create the session.
pub open spec fn session_opened(
    b: AppState,
    a: AppState,
    agent: Option<Seq<char>>,
    model: Option<Seq<char>>,
    r: Effect,
) -> bool {
    &&& r matches Effect::CreateSession(ra, rm) && opt_view(ra) == agent && opt_view(rm) == model
    &&& a == (AppState {
        input_mode: InputMode::ChatInput,
        chat_model: a.chat_model,
        chat_agent_id: a.chat_agent_id,
        input_buffer: a.input_buffer,
        input_cursor: 0,
        ..b
    })
    &&& opt_view(a.chat_model) == model
    &&& opt_view(a.chat_agent_id) == agent
    &&& a.input_buffer@.len() == 0
}

/// The state after a key in the session form: Esc cancels; Tab/Down and
/// BackTab/Up move between the two fields; Left and Right switch the mode
/// on the first field and pick a model or agent on the second; Enter opens
/// a chat with the picked model (ad-hoc) or agent and its configured model
/// (bound), or says that none is available. Other keys leave the form as it
/// is.
pub open spec fn session_form_keyed(b: AppState, a: AppState, key: KeyEvent, st: CreateSessionState, r: Effect) -> bool {
    let code = key.code;
    let shows = |e: CreateSessionState| r == Effect::Nothing && a == (AppState { input_mode: InputMode::CreateSession(e), ..b });
    if code == KeyCode::Esc {
        &&& r == Effect::Nothing
        &&& a == (AppState { input_mode: InputMode::Normal, status_message: a.status_message, ..b })
        &&& status_is(a.status_message, "Cancelled"@, false)
    } else if code == KeyCode::Tab || code == KeyCode::Down {
        shows(CreateSessionState { field_index: ((st.field_index + 1) % 2) as usize, ..st })
    } else if code == KeyCode::BackTab || code == KeyCode::Up {
        shows(CreateSessionState { field_index: if st.field_index == 0 { 1 } else { (st.field_index - 1) as usize }, ..st })
    } else if code == KeyCode::Left || code == KeyCode::Right {
        if st.field_index == 0 {
            shows(CreateSessionState {
                mode: if st.mode == SessionMode::AdHoc { SessionMode::AgentBound } else { SessionMode::AdHoc },
                field_index: 0,
                ..st
            })
        } else if code == KeyCode::Right {
            shows(next_option_of(st))
        } else {
            shows(prev_option_of(st))
        }
    } else if code == KeyCode::Enter {
        match st.mode {
            SessionMode::AdHoc => if st.selected_model_index < st.available_models@.len() {
                session_opened(b, a, None, Some(st.available_models@[st.selected_model_index as int].value@), r)
            } else {
                &&& r == Effect::Nothing
                &&& a == (AppState { input_mode: InputMode::CreateSession(st), status_message: a.status_message, ..b })
                &&& status_is(a.status_message, "No model available"@, true)
            },
            SessionMode::AgentBound => if st.selected_agent_index < st.available_agents@.len() {
                let id = st.available_agents@[st.selected_agent_index as int].0@;
                session_opened(b, a, Some(id), first_agent_model(b.agents@, id), r)
            } else {
                &&& r == Effect::Nothing
                &&& a == (AppState { input_mode: InputMode::CreateSession(st), status_message: a.status_message, ..b })
                &&& status_is(a.status_message, "No agent available"@, true)
            },
        }
    } else {
        r == Effect::Nothing && a == (AppState { input_mode: InputMode::CreateSession(st), ..b })
    }
}

/// The session form can take the key without overflow.
pub open spec fn session_form_key_ok(st: CreateSessionState) -> bool {
    &&& st.field_index < usize::MAX
    &&& st.field_index == 1 && st.mode == SessionMode::AdHoc && st.available_models@.len() > 0
        ==> st.selected_model_index < usize::MAX
    &&& st.field_index == 1 && st.mode == SessionMode::AgentBound && st.available_agents@.len() > 0
        ==> st.selected_agent_index < usize::MAX
}

/// The configured model of the first listed agent with this id.
pub(crate) fn agent_model(agents: &Vec<AgentInfo>, id: &str) -> (r: Option<String>)
    ensures
        opt_view(r) == first_agent_model(agents@, id@),
{
    let mut i: usize = 0;
    assert(agents@.skip(0) == agents@);
    while i < agents.len()
        invariant
            i <= agents@.len(),
            first_agent_model(agents@, id@) == first_agent_model(agents@.skip(i as int), id@),
        decreases agents@.len() - i,
    {
        assert(agents@.skip(i as int).drop_first() == agents@.skip(i + 1));
        if str_eq(agents[i].id.as_str(), id) {
            return match &agents[i].model {
                Some(m) => Some(m.clone()),
                None => None,
            };
        }
        i = i + 1;
    }
    None
}

impl AppState {
    /// Handle a key in the session form.
    pub fn session_form_key(&mut self, key: KeyEvent, state: CreateSessionState) -> (r: Effect)
        requires
            session_form_key_ok(state),
        ensures
            session_form_keyed(*old(self), *final(self), key, state, r),
    {
        let mut st = state;
        match key.code {
            KeyCode::Esc => {
                self.input_mode = InputMode::Normal;
                self.status_message = Some((string_of("Cancelled"), false));
                Effect::Nothing
            },
            KeyCode::Tab | KeyCode::Down => {
                st.field_index = (st.field_index + 1) % st.total_fields();
                self.input_mode = InputMode::CreateSession(st);
                Effect::Nothing
            },
            KeyCode::BackTab | KeyCode::Up => {
                if st.field_index == 0 {
                    st.field_index = st.total_fields() - 1;
                } else {
                    st.field_index = st.field_index - 1;
                }
                self.input_mode = InputMode::CreateSession(st);
                Effect::Nothing
            },
            KeyCode::Left | KeyCode::Right => {
                if st.field_index == 0 {
                    st.toggle_mode();
                } else if key.code == KeyCode::Right {
                    st.next_option();
                } else {
                    st.prev_option();
                }
                self.input_mode = InputMode::CreateSession(st);
                Effect::Nothing
            },
            KeyCode::Enter => self.session_form_submit(st),
            _ => {
                self.input_mode = InputMode::CreateSession(st);
                Effect::Nothing
            },
        }
    }

    /// Submit the session form.
    fn session_form_submit(&mut self, st: CreateSessionState) -> (r: Effect)
        ensures
            session_form_keyed(*old(self), *final(self), KeyEvent { code: KeyCode::Enter, modifiers: KeyModifiers { bits: 0 } }, st, r),
    {
        match st.mode {
            SessionMode::AdHoc => {
                match st.selected_model() {
                    Some(model) => {
                        let model = string_of(model);
                        self.chat_model = Some(model.clone());
                        self.chat_agent_id = None;
                        self.input_mode = InputMode::ChatInput;
                        self.clear_input();
                        Effect::CreateSession(None, Some(model))
                    },
                    None => {
                        self.status_message = Some((string_of("No model available"), true));
                        self.input_mode = InputMode::CreateSession(st);
                        Effect::Nothing
                    },
                }
            },
            SessionMode::AgentBound => {
                match st.selected_agent_id() {
                    Some(agent_id) => {
                        let agent_id = string_of(agent_id);
                        let agent_model = agent_model(&self.agents, agent_id.as_str());
                        self.chat_model = match &agent_model {
                            Some(m) => Some(m.clone()),
                            None => None,
                        };
                        self.chat_agent_id = Some(agent_id.clone());
                        self.input_mode = InputMode::ChatInput;
                        self.clear_input();
                        Effect::CreateSession(Some(agent_id), agent_model)
                    },
                    None => {
                        self.status_message = Some((string_of("No agent available"), true));
                        self.input_mode = InputMode::CreateSession(st);
                        Effect::Nothing
                    },
                }
            },
        }
    }
}

/// The add-credential form after a key edits the text of its current
/// field: the name on field 0, a field value on field 2 and on; the type
/// selector, or a field past the values, is left as it is.
pub open spec fn add_text_edited(
    st: AddCredentialView,
    e: AddCredentialView,
    edit: spec_fn(Seq<char>, Seq<char>) -> bool,
) -> bool {
    if st.field_index == 0 {
        e == (AddCredentialView { name: e.name, ..st }) && edit(st.name, e.name)
    } else if st.field_index >= 2 && st.field_index - 2 < st.field_values.len() {
        let i = st.field_index - 2;
        &&& e == (AddCredentialView { field_values: st.field_values.update(i, e.field_values[i]), ..st })
        &&& edit(st.field_values[i], e.field_values[i])
    } else {
        e == st
    }
}

/// The add-credential form on another endpoint type: back on the type
/// selector with the new type's fields blank, when the type changed.
pub open spec fn add_type_changed(st: AddCredentialView, e: AddCredentialView, t: nat) -> bool {
    if t != st.endpoint_type {
        e == (AddCredentialView {
            field_index: 1,
            endpoint_type: t,
            field_values: blank_values(endpoint_fields(t as int).len()),
            ..st
        })
    } else {
        e == st
    }
}

/// A try to submit a credential form: refused with the validation error;
/// else the caller stores the open form in the vault. Either way the form
/// stays open.
pub open spec fn credential_submit_tried(
    b: AppState,
    a: AppState,
    error: Option<Seq<char>>,
    form: InputMode,
    submitted: Effect,
    r: Effect,
) -> bool {
    match error {
        Some(err) => {
            &&& r == Effect::Nothing
            &&& a == (AppState { input_mode: form, status_message: a.status_message, ..b })
            &&& status_is(a.status_message, err, true)
        },
        None => r == submitted && a == (AppState { input_mode: form, ..b }),
    }
}

/// The state after a key in the add-credential form: Esc cancels;
/// Tab/Down and BackTab/Up move round the fields; Ctrl+S, and Enter on the
/// last field, submit; Enter elsewhere moves on; Left and Right on the type
/// selector change the endpoint type round the list; characters and
/// Backspace edit the current text. Other keys leave the form as it is.
pub open spec fn add_credential_keyed(b: AppState, a: AppState, key: KeyEvent, st: AddCredentialState, r: Effect) -> bool {
    let code = key.code;
    let n = 2 + endpoint_fields(st.endpoint_type as int).len();
    let shows = |p: spec_fn(AddCredentialView) -> bool| r == Effect::Nothing && a == (AppState { input_mode: a.input_mode, ..b }) && (a.input_mode matches InputMode::AddCredential(e) && p(e@));
    let next = |e: AddCredentialView| e == (AddCredentialView { field_index: ((st.field_index + 1) as nat) % n, ..st@ });
    let error = form_error(st.name@, endpoint_fields(st.endpoint_type as int), st@.field_values);
    let submit = credential_submit_tried(b, a, error, InputMode::AddCredential(st), Effect::StoreNewCredential, r);
    if code == KeyCode::Esc {
        &&& r == Effect::Nothing
        &&& a == (AppState { input_mode: InputMode::Normal, status_message: a.status_message, ..b })
        &&& status_is(a.status_message, "Cancelled"@, false)
    } else if code == KeyCode::Tab || code == KeyCode::Down {
        shows(next)
    } else if code == KeyCode::BackTab || code == KeyCode::Up {
        shows(|e: AddCredentialView| e == (AddCredentialView { field_index: if st.field_index == 0 { (n - 1) as nat } else { (st.field_index - 1) as nat }, ..st@ }))
    } else if is_save_key(key) {
        submit
    } else if code == KeyCode::Enter {
        if st.field_index + 1 == n {
            submit
        } else {
            shows(next)
        }
    } else if code == KeyCode::Left && st.field_index == 1 {
        let t: nat = if st.endpoint_type == 0 { (ENDPOINT_TYPE_COUNT - 1) as nat } else { (st.endpoint_type - 1) as nat };
        shows(|e: AddCredentialView| add_type_changed(st@, e, t))
    } else if code == KeyCode::Right && st.field_index == 1 {
        let t: nat = ((st.endpoint_type + 1) % ENDPOINT_TYPE_COUNT as int) as nat;
        shows(|e: AddCredentialView| add_type_changed(st@, e, t))
    } else if code is Char {
        shows(|e: AddCredentialView| add_text_edited(st@, e, |x: Seq<char>, y: Seq<char>| text_typed(x, y, code->Char_0)))
    } else if code == KeyCode::Backspace {
        shows(|e: AddCredentialView| add_text_edited(st@, e, |x: Seq<char>, y: Seq<char>| text_popped(x, y)))
    } else {
        r == Effect::Nothing && a == (AppState { input_mode: InputMode::AddCredential(st), ..b })
    }
}

impl AppState {
    /// Try to submit the add-credential form.
    fn add_credential_submit(&mut self, st: AddCredentialState) -> (r: Effect)
        ensures
            credential_submit_tried(
                *old(self),
                *final(self),
                form_error(st.name@, endpoint_fields(st.endpoint_type as int), st@.field_values),
                InputMode::AddCredential(st),
                Effect::StoreNewCredential,
                r,
            ),
    {
        match st.validate() {
            Some(error) => {
                self.status_message = Some((error, true));
                self.input_mode = InputMode::AddCredential(st);
                Effect::Nothing
            },
            None => {
                self.input_mode = InputMode::AddCredential(st);
                Effect::StoreNewCredential
            },
        }
    }

    /// Handle a key in the add-credential form.
    pub fn add_credential_key(&mut self, key: KeyEvent, state: AddCredentialState) -> (r: Effect)
        requires
            state.field_index < usize::MAX,
            state.endpoint_type < usize::MAX,
        ensures
            add_credential_keyed(*old(self), *final(self), key, state, r),
    {
        let mut st = state;
        match key.code {
            KeyCode::Esc => {
                self.input_mode = InputMode::Normal;
                self.status_message = Some((string_of("Cancelled"), false));
                Effect::Nothing
            },
            KeyCode::Tab | KeyCode::Down => {
                st.next_field();
                self.input_mode = InputMode::AddCredential(st);
                Effect::Nothing
            },
            KeyCode::BackTab | KeyCode::Up => {
                st.prev_field();
                self.input_mode = InputMode::AddCredential(st);
                Effect::Nothing
            },
            KeyCode::Char('s') if key.modifiers.contains(KeyModifiers::control()) => self.add_credential_submit(st),
            KeyCode::Enter => {
                if st.is_last_field() {
                    self.add_credential_submit(st)
                } else {
                    st.next_field();
                    self.input_mode = InputMode::AddCredential(st);
                    Effect::Nothing
                }
            },
            KeyCode::Left if st.is_type_field() => {
                let old_type = st.endpoint_type;
                st.endpoint_type = if st.endpoint_type == 0 { ENDPOINT_TYPE_COUNT - 1 } else { st.endpoint_type - 1 };
                if old_type != st.endpoint_type {
                    st.reset_fields_for_type();
                }
                self.input_mode = InputMode::AddCredential(st);
                Effect::Nothing
            },
            KeyCode::Right if st.is_type_field() => {
                let old_type = st.endpoint_type;
                st.endpoint_type = (st.endpoint_type + 1) % ENDPOINT_TYPE_COUNT;
                if old_type != st.endpoint_type {
                    st.reset_fields_for_type();
                }
                self.input_mode = InputMode::AddCredential(st);
                Effect::Nothing
            },
            KeyCode::Char(c) => {
                let ghost before = st@;
                match st.current_value_mut() {
                    Some(value) => push_char(value, c),
                    None => {},
                }
                proof {
                    if before.field_index >= 2 && before.field_index - 2 < before.field_values.len() {
                        let i = before.field_index - 2;
                        assert(st@.field_values =~= before.field_values.update(i, st@.field_values[i]));
                    }
                }
                assert(add_text_edited(before, st@, |x: Seq<char>, y: Seq<char>| text_typed(x, y, c)));
                self.input_mode = InputMode::AddCredential(st);
                Effect::Nothing
            },
            KeyCode::Backspace => {
                let ghost before = st@;
                match st.current_value_mut() {
                    Some(value) => {
                        pop_char(value);
                    },
                    None => {},
                }
                proof {
                    if before.field_index >= 2 && before.field_index - 2 < before.field_values.len() {
                        let i = before.field_index - 2;
                        assert(st@.field_values =~= before.field_values.update(i, st@.field_values[i]));
                    }
                }
                assert(add_text_edited(before, st@, |x: Seq<char>, y: Seq<char>| text_popped(x, y)));
                self.input_mode = InputMode::AddCredential(st);
                Effect::Nothing
            },
            _ => {
                self.input_mode = InputMode::AddCredential(st);
                Effect::Nothing
            },
        }
    }
}

/// The edit-credential form after a key edits the text of its current
/// field: the name on field 0, a field value on field 1 and on. Landing on
/// a masked field marks the secret as modified.
pub open spec fn edit_text_edited(
    st: EditCredentialView,
    e: EditCredentialView,
    edit: spec_fn(Seq<char>, Seq<char>) -> bool,
) -> bool {
    if st.field_index == 0 {
        e == (EditCredentialView { name: e.name, ..st }) && edit(st.name, e.name)
    } else {
        let i = st.field_index - 1;
        let fs = endpoint_fields(st.endpoint_type as int);
        let secret = st.secret_modified || (i < fs.len() && fs[i].masked);
        if i < st.field_values.len() {
            &&& e == (EditCredentialView {
                secret_modified: secret,
                field_values: st.field_values.update(i, e.field_values[i]),
                ..st
            })
            &&& edit(st.field_values[i], e.field_values[i])
        } else {
            e == (EditCredentialView { secret_modified: secret, ..st })
        }
    }
}

/// The state after a key in the edit-credential form: Esc cancels;
/// Tab/Down and BackTab/Up move round the fields; Ctrl+S, and Enter on the
/// last field, submit; Enter elsewhere moves on; characters and Backspace
/// edit the current text. Other keys leave the form as it is.
pub open spec fn edit_credential_keyed(b: AppState, a: AppState, key: KeyEvent, st: EditCredentialState, r: Effect) -> bool {
    let code = key.code;
    let n = 1 + endpoint_fields(st.endpoint_type as int).len();
    let shows = |p: spec_fn(EditCredentialView) -> bool| r == Effect::Nothing && a == (AppState { input_mode: a.input_mode, ..b }) && (a.input_mode matches InputMode::EditCredential(e) && p(e@));
    let next = |e: EditCredentialView| e == (EditCredentialView { field_index: ((st.field_index + 1) as nat) % n, ..st@ });
    let error = form_error(st.name@, endpoint_fields(st.endpoint_type as int), st@.field_values);
    let submit = credential_submit_tried(b, a, error, InputMode::EditCredential(st), Effect::StoreCredentialChanges, r);
    if code == KeyCode::Esc {
        &&& r == Effect::Nothing
        &&& a == (AppState { input_mode: InputMode::Normal, status_message: a.status_message, ..b })
        &&& status_is(a.status_message, "Cancelled"@, false)
    } else if code == KeyCode::Tab || code == KeyCode::Down {
        shows(next)
    } else if code == KeyCode::BackTab || code == KeyCode::Up {
        shows(|e: EditCredentialView| e == (EditCredentialView { field_index: if st.field_index == 0 { (n - 1) as nat } else { (st.field_index - 1) as nat }, ..st@ }))
    } else if is_save_key(key) {
        submit
    } else if code == KeyCode::Enter {
        if st.field_index + 1 == n {
            submit
        } else {
            shows(next)
        }
    } else if code is Char {
        shows(|e: EditCredentialView| edit_text_edited(st@, e, |x: Seq<char>, y: Seq<char>| text_typed(x, y, code->Char_0)))
    } else if code == KeyCode::Backspace {
        shows(|e: EditCredentialView| edit_text_edited(st@, e, |x: Seq<char>, y: Seq<char>| text_popped(x, y)))
    } else {
        r == Effect::Nothing && a == (AppState { input_mode: InputMode::EditCredential(st), ..b })
    }
}

/// The edit-credential form with its current text edited by a character,
/// or by Backspace when there is none.
fn edit_credential_text_key(st: EditCredentialState, c: Option<char>) -> (e: EditCredentialState)
    ensures
        match c {
            Some(ch) => edit_text_edited(st@, e@, |x: Seq<char>, y: Seq<char>| text_typed(x, y, ch)),
            None => edit_text_edited(st@, e@, |x: Seq<char>, y: Seq<char>| text_popped(x, y)),
        },
{
    let mut e = st;
    let ghost before = e@;
    match e.current_value_mut() {
        Some(value) => {
            match c {
                Some(ch) => push_char(value, ch),
                None => {
                    pop_char(value);
                },
            }
        },
        None => {},
    }
    proof {
        if before.field_index >= 1 && before.field_index - 1 < before.field_values.len() {
            let i = before.field_index - 1;
            assert(e@.field_values =~= before.field_values.update(i, e@.field_values[i]));
        }
    }
    e
}

impl AppState {
    /// Try to submit the edit-credential form.
    fn edit_credential_submit(&mut self, st: EditCredentialState) -> (r: Effect)
        ensures
            credential_submit_tried(
                *old(self),
                *final(self),
                form_error(st.name@, endpoint_fields(st.endpoint_type as int), st@.field_values),
                InputMode::EditCredential(st),
                Effect::StoreCredentialChanges,
                r,
            ),
    {
        match st.validate() {
            Some(error) => {
                self.status_message = Some((error, true));
                self.input_mode = InputMode::EditCredential(st);
                Effect::Nothing
            },
            None => {
                self.input_mode = InputMode::EditCredential(st);
                Effect::StoreCredentialChanges
            },
        }
    }

    /// Handle a key in the edit-credential form.
    pub fn edit_credential_key(&mut self, key: KeyEvent, state: EditCredentialState) -> (r: Effect)
        requires
            state.field_index < usize::MAX,
        ensures
            edit_credential_keyed(*old(self), *final(self), key, state, r),
    {
        let mut st = state;
        match key.code {
            KeyCode::Esc => {
                self.input_mode = InputMode::Normal;
                self.status_message = Some((string_of("Cancelled"), false));
                Effect::Nothing
            },
            KeyCode::Tab | KeyCode::Down => {
                st.next_field();
                self.input_mode = InputMode::EditCredential(st);
                Effect::Nothing
            },
            KeyCode::BackTab | KeyCode::Up => {
                st.prev_field();
                self.input_mode = InputMode::EditCredential(st);
                Effect::Nothing
            },
            KeyCode::Char('s') if key.modifiers.contains(KeyModifiers::control()) => self.edit_credential_submit(st),
            KeyCode::Enter => {
                if st.is_last_field() {
                    self.edit_credential_submit(st)
                } else {
                    st.next_field();
                    self.input_mode = InputMode::EditCredential(st);
                    Effect::Nothing
                }
            },
            KeyCode::Char(c) => {
                let e = edit_credential_text_key(st, Some(c));
                self.input_mode = InputMode::EditCredential(e);
                Effect::Nothing
            },
            KeyCode::Backspace => {
                let e = edit_credential_text_key(st, None);
                self.input_mode = InputMode::EditCredential(e);
                Effect::Nothing
            },
            _ => {
                self.input_mode = InputMode::EditCredential(st);
                Effect::Nothing
            },
        }
    }
}

/// The agents whose id is not `id`, in order.
pub open spec fn agents_without(agents: Seq<AgentInfo>, id: Seq<char>) -> Seq<AgentInfo> {
    agents.filter(|x: AgentInfo| x.id@ != id)
}

/// A selection kept within a list of `n`: past the end it moves to the
/// last item (to 0 on an empty list).
pub open spec fn clamped(sel: nat, n: nat) -> nat {
    if sel >= n {
        if n > 0 { (n - 1) as nat } else { 0 }
    } else {
        sel
    }
}

/// The state after the agent `id` is dropped from the list: the selection
/// stays in range and the status line says `status`.
pub open spec fn agent_dropped(b: AppState, a: AppState, id: Seq<char>, status: Seq<char>) -> bool {
    &&& a == (AppState {
        input_mode: InputMode::Normal,
        agents: a.agents,
        selected_agent: a.selected_agent,
        status_message: a.status_message,
        ..b
    })
    &&& a.agents@ == agents_without(b.agents@, id)
    &&& a.selected_agent == clamped(b.selected_agent as nat, a.agents@.len())
    &&& status_is(a.status_message, status, false)
}

/// The state and action after a key in the confirmation dialog: `y` or `Y`
/// confirms (dropping an agent from the list here, handing endpoint
/// deletion, session kills and cron job deletion to the caller, or going
/// back to the file browser when discarding an edit); `n`, `N` and Esc
/// cancel. Other keys leave the dialog as it is.
pub open spec fn confirm_keyed(
    b: AppState,
    a: AppState,
    key: KeyEvent,
    message: String,
    action: ConfirmAction,
    r: Effect,
) -> bool {
    let code = key.code;
    let closed = a == (AppState { input_mode: InputMode::Normal, ..b });
    if code == KeyCode::Char('y') || code == KeyCode::Char('Y') {
        match action {
            ConfirmAction::DeleteEndpoint(id) => r == Effect::DeleteEndpoint(id) && closed,
            ConfirmAction::DeleteAgent(id) => r == Effect::Nothing && agent_dropped(
                b,
                a,
                id@,
                "Disabled agent: "@ + id@ + " (edit config to persist)"@,
            ),
            ConfirmAction::KillSession(k) => r == Effect::KillSession(k) && closed,
            ConfirmAction::DisableAgent(id) => r == Effect::Nothing && agent_dropped(b, a, id@, "Disabled agent: "@ + id@),
            ConfirmAction::DeleteCronJob(id) => r == Effect::DeleteCronJob(id) && closed,
            ConfirmAction::DiscardContextFile(v) => r == Effect::Nothing && a == (AppState {
                input_mode: InputMode::ViewContextFiles(v),
                ..b
            }),
        }
    } else if code == KeyCode::Char('n') || code == KeyCode::Char('N') || code == KeyCode::Esc {
        &&& r == Effect::Nothing
        &&& a == (AppState { input_mode: InputMode::Normal, status_message: a.status_message, ..b })
        &&& status_is(a.status_message, "Cancelled"@, false)
    } else {
        r == Effect::Nothing && a == (AppState { input_mode: InputMode::Confirm { message, action }, ..b })
    }
}

impl AppState {
    /// Drop the agent `id` from the list, keep the selection in range, and
    /// show `status`.
    fn drop_agent(&mut self, id: &str, status: String)
        ensures
            agent_dropped(*old(self), *final(self), id@, status@),
    {
        let ghost agents = self.agents@;
        let mut kept: Vec<AgentInfo> = Vec::new();
        let mut old_agents: Vec<AgentInfo> = Vec::new();
        std::mem::swap(&mut old_agents, &mut self.agents);
        let mut i: usize = 0;
        while i < old_agents.len()
            invariant
                i <= old_agents@.len(),
                old_agents@ == agents,
                kept@ == agents_without(agents.take(i as int), id@),
            decreases old_agents@.len() - i,
        {
            proof {
                assert(agents.take(i + 1).drop_last() =~= agents.take(i as int));
                reveal_with_fuel(Seq::filter, 1);
            }
            if !str_eq(old_agents[i].id.as_str(), id) {
                kept.push(old_agents[i].clone());
            }
            i = i + 1;
        }
        proof {
            assert(agents.take(agents.len() as int) =~= agents);
        }
        self.agents = kept;
        if self.selected_agent >= self.agents.len() {
            self.selected_agent = if self.agents.len() > 0 { self.agents.len() - 1 } else { 0 };
        }
        self.status_message = Some((status, false));
        self.input_mode = InputMode::Normal;
    }

    /// Handle a key in the confirmation dialog.
    pub fn confirm_key(&mut self, key: KeyEvent, message: String, action: ConfirmAction) -> (r: Effect)
        ensures
            confirm_keyed(*old(self), *final(self), key, message, action, r),
    {
        match key.code {
            KeyCode::Char('y') | KeyCode::Char('Y') => {
                match action {
                    ConfirmAction::DeleteEndpoint(id) => {
                        self.input_mode = InputMode::Normal;
                        Effect::DeleteEndpoint(id)
                    },
                    ConfirmAction::DeleteAgent(id) => {
                        let mut msg = string_of("Disabled agent: ");
                        msg.append(id.as_str());
                        msg.append(" (edit config to persist)");
                        self.drop_agent(id.as_str(), msg);
                        Effect::Nothing
                    },
                    ConfirmAction::KillSession(k) => {
                        self.input_mode = InputMode::Normal;
                        Effect::KillSession(k)
                    },
                    ConfirmAction::DisableAgent(id) => {
                        let mut msg = string_of("Disabled agent: ");
                        msg.append(id.as_str());
                        self.drop_agent(id.as_str(), msg);
                        Effect::Nothing
                    },
                    ConfirmAction::DeleteCronJob(id) => {
                        self.input_mode = InputMode::Normal;
                        Effect::DeleteCronJob(id)
                    },
                    ConfirmAction::DiscardContextFile(v) => {
                        self.input_mode = InputMode::ViewContextFiles(v);
                        Effect::Nothing
                    },
                }
            },
            KeyCode::Char('n') | KeyCode::Char('N') | KeyCode::Esc => {
                self.input_mode = InputMode::Normal;
                self.status_message = Some((string_of("Cancelled"), false));
                Effect::Nothing
            },
            _ => {
                self.input_mode = InputMode::Confirm { message, action };
                Effect::Nothing
            },
        }
    }
}

/// Fewest bytes a new vault password takes.
pub const MIN_PASSWORD_BYTES: usize = 8;

/// The state after the typed password is taken: the input line is emptied
/// and the prompt closes; the status line is `status`.
pub open spec fn password_taken(b: AppState, a: AppState, status: Option<(String, bool)>) -> bool {
    &&& a == (AppState {
        input_mode: InputMode::Normal,
        input_buffer: a.input_buffer,
        input_cursor: 0,
        status_message: status,
        ..b
    })
    &&& a.input_buffer@.len() == 0
}

/// The state and action after a key at the password prompt: Enter takes the
/// typed password, refusing an empty one and, for a new vault, one under
/// eight bytes, and otherwise hands it over to create or unlock the vault;
/// Esc cancels; characters and Backspace edit the typed text. Other keys
/// change nothing.
pub open spec fn password_keyed(
    b: AppState,
    a: AppState,
    key: KeyEvent,
    prompt: String,
    masked: bool,
    action: PasswordAction,
    r: Effect,
) -> bool {
    let open = InputMode::PasswordInput { prompt, masked, action };
    let code = key.code;
    let pw = b.input_buffer@;
    if code == KeyCode::Enter {
        if pw.len() == 0 {
            password_taken(b, a, a.status_message) && status_is(a.status_message, "Password cannot be empty"@, true)
                && r == Effect::Nothing
        } else {
            match action {
                PasswordAction::InitVault => if utf8_len(pw) < MIN_PASSWORD_BYTES {
                    &&& password_taken(b, a, a.status_message)
                    &&& status_is(a.status_message, "Password must be at least 8 characters"@, true)
                    &&& r == Effect::Nothing
                } else {
                    password_taken(b, a, b.status_message) && (r matches Effect::InitVault(p) && p@ == pw)
                },
                PasswordAction::UnlockVault => password_taken(b, a, b.status_message) && (r matches Effect::UnlockVault(p)
                    && p@ == pw),
            }
        }
    } else if code == KeyCode::Esc {
        password_taken(b, a, a.status_message) && status_is(a.status_message, "Cancelled"@, false) && r
            == Effect::Nothing
    } else if code is Char {
        &&& r == Effect::Nothing
        &&& a == (AppState { input_buffer: a.input_buffer, input_mode: open, ..b })
        &&& text_typed(pw, a.input_buffer@, code->Char_0)
    } else if code == KeyCode::Backspace {
        &&& r == Effect::Nothing
        &&& a == (AppState { input_buffer: a.input_buffer, input_mode: open, ..b })
        &&& text_popped(pw, a.input_buffer@)
    } else {
        r == Effect::Nothing && a == (AppState { input_mode: open, ..b })
    }
}

impl AppState {
    /// Handle a key at the vault password prompt.
    pub fn password_key(&mut self, key: KeyEvent, prompt: String, masked: bool, action: PasswordAction) -> (r: Effect)
        ensures
            password_keyed(*old(self), *final(self), key, prompt, masked, action, r),
    {
        match key.code {
            KeyCode::Enter => {
                let password = self.input_buffer.clone();
                self.clear_input();
                self.input_mode = InputMode::Normal;
                if password.as_str().is_empty() {
                    self.status_message = Some((string_of("Password cannot be empty"), true));
                    return Effect::Nothing;
                }
                match action {
                    PasswordAction::InitVault => {
                        if str_byte_len(password.as_str()) < MIN_PASSWORD_BYTES {
                            self.status_message = Some((string_of("Password must be at least 8 characters"), true));
                            Effect::Nothing
                        } else {
                            Effect::InitVault(password)
                        }
                    },
                    PasswordAction::UnlockVault => Effect::UnlockVault(password),
                }
            },
            KeyCode::Esc => {
                self.clear_input();
                self.input_mode = InputMode::Normal;
                self.status_message = Some((string_of("Cancelled"), false));
                Effect::Nothing
            },
            KeyCode::Char(c) => {
                push_char(&mut self.input_buffer, c);
                self.input_mode = InputMode::PasswordInput { prompt, masked, action };
                Effect::Nothing
            },
            KeyCode::Backspace => {
                pop_char(&mut self.input_buffer);
                self.input_mode = InputMode::PasswordInput { prompt, masked, action };
                Effect::Nothing
            },
            _ => {
                self.input_mode = InputMode::PasswordInput { prompt, masked, action };
                Effect::Nothing
            },
        }
    }
}

/// The provider form after a key edits the value of its current field;
/// the selector, or a field past the values, is left as it is.
pub open spec fn provider_text_edited(
    st: ProviderFormView,
    e: ProviderFormView,
    edit: spec_fn(Seq<char>, Seq<char>) -> bool,
) -> bool {
    if st.field_index >= 1 && st.field_index - 1 < st.field_values.len() {
        let i = st.field_index - 1;
        &&& e == (ProviderFormView {
            field_values: st.field_values.update(i, (st.field_values[i].0, e.field_values[i].1)),
            ..st
        })
        &&& edit(st.field_values[i].1, e.field_values[i].1)
    } else {
        e == st
    }
}

/// A try to save the provider form: refused with the validation error, the
/// form staying open; else handed over to be saved and closed.
pub open spec fn provider_save_tried(b: AppState, a: AppState, st: EditProviderState, r: Effect) -> bool {
    match provider_form_error(st@) {
        Some(err) => {
            &&& r == Effect::Nothing
            &&& a == (AppState { input_mode: InputMode::EditProvider(st), status_message: a.status_message, ..b })
            &&& status_is(a.status_message, err, true)
        },
        None => r == Effect::SaveProvider(st) && a == (AppState { input_mode: InputMode::Normal, ..b }),
    }
}

/// The state after a key in the provider form: Esc cancels; Tab/Down and
/// BackTab/Up move round the fields; Left and Right on the selector cycle
/// the auth method; Ctrl+S, and Enter on the last field, save; Enter
/// elsewhere moves on; characters and Backspace off the selector edit the
/// current value. Any other key leaves the form as it was.
pub open spec fn provider_form_keyed(b: AppState, a: AppState, key: KeyEvent, st: EditProviderState, r: Effect) -> bool {
    let code = key.code;
    let n = 1 + method_field_count(st@);
    let shows = |p: spec_fn(ProviderFormView) -> bool| r == Effect::Nothing && a == (AppState { input_mode: a.input_mode, ..b }) && (a.input_mode matches InputMode::EditProvider(e) && p(e@));
    let next = |e: ProviderFormView| e == (ProviderFormView { field_index: (st@.field_index + 1) % n, ..st@ });
    if code == KeyCode::Esc {
        &&& r == Effect::Nothing
        &&& a == (AppState { input_mode: InputMode::Normal, status_message: a.status_message, ..b })
        &&& status_is(a.status_message, "Cancelled"@, false)
    } else if code == KeyCode::Tab || code == KeyCode::Down {
        shows(next)
    } else if code == KeyCode::BackTab || code == KeyCode::Up {
        shows(|e: ProviderFormView| e == (ProviderFormView { field_index: if st.field_index == 0 { (n - 1) as nat } else { (st.field_index - 1) as nat }, ..st@ }))
    } else if (code == KeyCode::Left || code == KeyCode::Right) && st.field_index == 0 {
        shows(|e: ProviderFormView| auth_cycled(st@, e, code == KeyCode::Right))
    } else if is_save_key(key) {
        provider_save_tried(b, a, st, r)
    } else if code == KeyCode::Enter {
        if st.field_index + 1 == n {
            provider_save_tried(b, a, st, r)
        } else {
            shows(next)
        }
    } else if code is Char && st.field_index != 0 {
        shows(|e: ProviderFormView| provider_text_edited(st@, e, |x: Seq<char>, y: Seq<char>| text_typed(x, y, code->Char_0)))
    } else if code == KeyCode::Backspace && st.field_index != 0 {
        shows(|e: ProviderFormView| provider_text_edited(st@, e, |x: Seq<char>, y: Seq<char>| text_popped(x, y)))
    } else {
        r == Effect::Nothing && a == (AppState { input_mode: InputMode::EditProvider(st), ..b })
    }
}

/// The provider form can take a key without overflow.
pub open spec fn provider_form_key_ok(st: EditProviderState) -> bool {
    &&& st.field_index < usize::MAX
    &&& (st.schema matches Some(s) && s.auth_methods@.len() > 1) ==> st.auth_method_index < usize::MAX
    &&& method_field_count(st@) < usize::MAX
}

/// The provider form with its current value edited by a character, or by
/// Backspace when there is none.
fn provider_text_key(st: EditProviderState, c: Option<char>) -> (e: EditProviderState)
    ensures
        match c {
            Some(ch) => provider_text_edited(st@, e@, |x: Seq<char>, y: Seq<char>| text_typed(x, y, ch)),
            None => provider_text_edited(st@, e@, |x: Seq<char>, y: Seq<char>| text_popped(x, y)),
        },
{
    let mut e = st;
    let ghost before = e@;
    let ghost pairs = e.field_values@;
    match e.current_value_mut() {
        Some(value) => {
            match c {
                Some(ch) => push_char(value, ch),
                None => {
                    pop_char(value);
                },
            }
        },
        None => {},
    }
    proof {
        if before.field_index >= 1 && before.field_index - 1 < before.field_values.len() {
            let i = before.field_index - 1;
            assert(e@.field_values =~= before.field_values.update(i, (before.field_values[i].0, e@.field_values[i].1)));
        }
    }
    e
}

impl AppState {
    /// Try to save the provider form.
    fn provider_form_save(&mut self, st: EditProviderState) -> (r: Effect)
        ensures
            provider_save_tried(*old(self), *final(self), st, r),
    {
        match st.validate() {
            Some(error) => {
                self.status_message = Some((error, true));
                self.input_mode = InputMode::EditProvider(st);
                Effect::Nothing
            },
            None => {
                self.input_mode = InputMode::Normal;
                Effect::SaveProvider(st)
            },
        }
    }

    /// Handle a key in the provider form.
    pub fn provider_form_key(&mut self, key: KeyEvent, state: EditProviderState) -> (r: Effect)
        requires
            provider_form_key_ok(state),
        ensures
            provider_form_keyed(*old(self), *final(self), key, state, r),
    {
        let mut st = state;
        match key.code {
            KeyCode::Esc => {
                self.input_mode = InputMode::Normal;
                self.status_message = Some((string_of("Cancelled"), false));
                Effect::Nothing
            },
            KeyCode::Tab | KeyCode::Down => {
                st.next_field();
                self.input_mode = InputMode::EditProvider(st);
                Effect::Nothing
            },
            KeyCode::BackTab | KeyCode::Up => {
                st.prev_field();
                self.input_mode = InputMode::EditProvider(st);
                Effect::Nothing
            },
            KeyCode::Left if st.is_auth_type_field() => {
                st.cycle_auth_type(false);
                self.input_mode = InputMode::EditProvider(st);
                Effect::Nothing
            },
            KeyCode::Right if st.is_auth_type_field() => {
                st.cycle_auth_type(true);
                self.input_mode = InputMode::EditProvider(st);
                Effect::Nothing
            },
            KeyCode::Char('s') if key.modifiers.contains(KeyModifiers::control()) => self.provider_form_save(st),
            KeyCode::Enter => {
                if st.field_index == st.total_fields() - 1 {
                    self.provider_form_save(st)
                } else {
                    st.next_field();
                    self.input_mode = InputMode::EditProvider(st);
                    Effect::Nothing
                }
            },
            KeyCode::Char(c) if !st.is_auth_type_field() => {
                let e = provider_text_key(st, Some(c));
                self.input_mode = InputMode::EditProvider(e);
                Effect::Nothing
            },
            KeyCode::Backspace if !st.is_auth_type_field() => {
                let e = provider_text_key(st, None);
                self.input_mode = InputMode::EditProvider(e);
                Effect::Nothing
            },
            _ => {
                self.input_mode = InputMode::EditProvider(st);
                Effect::Nothing
            },
        }
    }
}

} // verus!
