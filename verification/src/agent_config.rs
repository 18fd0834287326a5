//! Saving an agent form: the body of the request to the gateway, and, when
//! the gateway cannot be reached, the changes to the agent's table in the
//! configuration file (a text field that is empty removes its key, any
//! other value sets it, and a field that is absent leaves it alone).

use vstd::prelude::*;
use crate::agent_form::EditAgentState;
use crate::text::{parse_u32, parse_u32_spec, string_of};

verus! {

broadcast use vstd::string::group_string_axioms;

/// A value written into the table.
#[derive(Debug, Clone, PartialEq, Eq)]
pub enum TableValue {
    Text(String),
    Integer(i64),
    Boolean(bool),
}

/// One change to the table.
#[derive(Debug, Clone, PartialEq, Eq)]
pub enum TableEdit {
    Assign(String, TableValue),
    Remove(String),
}

/// The fields an agent form may carry.
pub struct AgentFields<'a> {
    pub model: Option<&'a str>,
    pub parent_id: Option<&'a str>,
    pub workspace: Option<&'a str>,
    pub max_tool_calls: Option<i64>,
    pub system_prompt: Option<&'a str>,
    pub enabled: Option<bool>,
}

/// What an edit says: its key, and the value it sets (none for a removal).
pub enum EditView {
    SetText(Seq<char>, Seq<char>),
    SetInteger(Seq<char>, i64),
    SetBoolean(Seq<char>, bool),
    Remove(Seq<char>),
}

/// The view of an edit.
pub open spec fn edit_view(e: TableEdit) -> EditView {
    match e {
        TableEdit::Assign(k, TableValue::Text(v)) => EditView::SetText(k@, v@),
        TableEdit::Assign(k, TableValue::Integer(n)) => EditView::SetInteger(k@, n),
        TableEdit::Assign(k, TableValue::Boolean(b)) => EditView::SetBoolean(k@, b),
        TableEdit::Remove(k) => EditView::Remove(k@),
    }
}

/// The edits for one text field: none when absent, a removal when empty,
/// else the new text.
pub open spec fn text_edits(key: Seq<char>, value: Option<Seq<char>>) -> Seq<EditView> {
    match value {
        None => Seq::empty(),
        Some(v) => if v.len() == 0 {
            seq![EditView::Remove(key)]
        } else {
            seq![EditView::SetText(key, v)]
        },
    }
}

/// The view of an optional string slice.
pub open spec fn opt_str(s: Option<&str>) -> Option<Seq<char>> {
    match s {
        Some(t) => Some(t@),
        None => None,
    }
}

/// All edits for the fields, in the order the fields are listed.
pub open spec fn agent_edits_spec(f: AgentFields) -> Seq<EditView> {
    text_edits("model"@, opt_str(f.model)) + text_edits("parent_id"@, opt_str(f.parent_id))
        + text_edits("workspace"@, opt_str(f.workspace)) + match f.max_tool_calls {
        Some(n) => seq![EditView::SetInteger("max_tool_calls"@, n)],
        None => Seq::<EditView>::empty(),
    } + text_edits("system_prompt"@, opt_str(f.system_prompt)) + match f.enabled {
        Some(b) => seq![EditView::SetBoolean("enabled"@, b)],
        None => Seq::<EditView>::empty(),
    }
}

/// The views of a list of edits.
pub open spec fn edits_view(v: Seq<TableEdit>) -> Seq<EditView> {
    v.map_values(|e: TableEdit| edit_view(e))
}

fn push_text_edit(out: &mut Vec<TableEdit>, key: &str, value: Option<&str>)
    ensures
        edits_view(final(out)@) == edits_view(old(out)@) + text_edits(key@, opt_str(value)),
{
    let ghost before = out@;
    match value {
        Some(v) => {
            if v.is_empty() {
                out.push(TableEdit::Remove(string_of(key)));
            } else {
                out.push(TableEdit::Assign(string_of(key), TableValue::Text(string_of(v))));
            }
            assert(edits_view(out@) =~= edits_view(before) + text_edits(key@, opt_str(value)));
        },
        None => {
            assert(edits_view(out@) =~= edits_view(before) + text_edits(key@, opt_str(value)));
        },
    }
}

/// The changes that write an agent form into its table.
pub fn agent_table_edits(fields: &AgentFields) -> (r: Vec<TableEdit>)
    ensures
        edits_view(r@) == agent_edits_spec(*fields),
{
    let mut out: Vec<TableEdit> = Vec::new();
    assert(edits_view(out@) =~= Seq::<EditView>::empty());
    push_text_edit(&mut out, "model", fields.model);
    push_text_edit(&mut out, "parent_id", fields.parent_id);
    push_text_edit(&mut out, "workspace", fields.workspace);
    let ghost mid = out@;
    match fields.max_tool_calls {
        Some(n) => {
            out.push(TableEdit::Assign(string_of("max_tool_calls"), TableValue::Integer(n)));
        },
        None => {},
    }
    assert(edits_view(out@) =~= edits_view(mid) + match fields.max_tool_calls {
        Some(n) => seq![EditView::SetInteger("max_tool_calls"@, n)],
        None => Seq::<EditView>::empty(),
    });
    push_text_edit(&mut out, "system_prompt", fields.system_prompt);
    let ghost mid2 = out@;
    match fields.enabled {
        Some(b) => {
            out.push(TableEdit::Assign(string_of("enabled"), TableValue::Boolean(b)));
        },
        None => {},
    }
    assert(edits_view(out@) =~= edits_view(mid2) + match fields.enabled {
        Some(b) => seq![EditView::SetBoolean("enabled"@, b)],
        None => Seq::<EditView>::empty(),
    });
    out
}

/// A value of the request body.
#[derive(Debug, Clone, PartialEq, Eq)]
pub enum BodyValue {
    Text(String),
    Number(u32),
    /// A decimal number as typed; the caller writes it as a number when it
    /// reads as a finite floating-point value, and leaves the field out
    /// otherwise.
    Decimal(String),
    Flag(bool),
}

/// A field of the request body.
#[derive(Debug, Clone, PartialEq, Eq)]
pub struct BodyField {
    pub key: String,
    pub value: BodyValue,
}

/// What a body field says.
pub enum BodyView {
    Text(Seq<char>, Seq<char>),
    Number(Seq<char>, u32),
    Decimal(Seq<char>, Seq<char>),
    Flag(Seq<char>, bool),
}

/// The view of a body field.
pub open spec fn body_view(f: BodyField) -> BodyView {
    match f.value {
        BodyValue::Text(t) => BodyView::Text(f.key@, t@),
        BodyValue::Number(n) => BodyView::Number(f.key@, n),
        BodyValue::Decimal(t) => BodyView::Decimal(f.key@, t@),
        BodyValue::Flag(b) => BodyView::Flag(f.key@, b),
    }
}

/// The views of body fields.
pub open spec fn body_views(v: Seq<BodyField>) -> Seq<BodyView> {
    v.map_values(|f: BodyField| body_view(f))
}

/// A text field, sent when not empty.
pub open spec fn text_field(key: Seq<char>, v: Seq<char>) -> Seq<BodyView> {
    if v.len() > 0 { seq![BodyView::Text(key, v)] } else { Seq::empty() }
}

/// A whole-number field, sent when it reads as a `u32`.
pub open spec fn number_field(key: Seq<char>, v: Seq<char>) -> Seq<BodyView> {
    match parse_u32_spec(v) {
        Some(n) => seq![BodyView::Number(key, n)],
        None => Seq::empty(),
    }
}

/// A decimal field, passed on when not empty.
pub open spec fn decimal_field(key: Seq<char>, v: Seq<char>) -> Seq<BodyView> {
    if v.len() > 0 { seq![BodyView::Decimal(key, v)] } else { Seq::empty() }
}

/// The body of the request that saves an agent: its id when it is new, the
/// filled-in fields, and whether it is enabled.
pub open spec fn agent_body_spec(st: EditAgentState) -> Seq<BodyView> {
    (if !st.is_edit { seq![BodyView::Text("id"@, st.id@)] } else { Seq::empty() })
        + text_field("model"@, st.model@) + text_field("parent_id"@, st.parent_id@)
        + text_field("workspace"@, st.workspace@) + number_field("max_tool_calls"@, st.max_tool_calls@)
        + decimal_field("temperature"@, st.temperature@) + number_field("max_tokens"@, st.max_tokens@)
        + text_field("system_prompt"@, st.system_prompt@) + seq![BodyView::Flag("enabled"@, st.enabled)]
}

fn push_text_field(out: &mut Vec<BodyField>, key: &str, v: &String)
    ensures
        body_views(final(out)@) == body_views(old(out)@) + text_field(key@, v@),
{
    let ghost before = out@;
    if !v.as_str().is_empty() {
        out.push(BodyField { key: string_of(key), value: BodyValue::Text(v.clone()) });
    }
    assert(body_views(out@) =~= body_views(before) + text_field(key@, v@));
}

fn push_number_field(out: &mut Vec<BodyField>, key: &str, v: &String)
    ensures
        body_views(final(out)@) == body_views(old(out)@) + number_field(key@, v@),
{
    let ghost before = out@;
    match parse_u32(v.as_str()) {
        Some(n) => {
            out.push(BodyField { key: string_of(key), value: BodyValue::Number(n) });
        },
        None => {},
    }
    assert(body_views(out@) =~= body_views(before) + number_field(key@, v@));
}

/// The fields of the request that saves an agent form.
pub fn agent_request_body(st: &EditAgentState) -> (r: Vec<BodyField>)
    ensures
        body_views(r@) == agent_body_spec(*st),
{
    let mut out: Vec<BodyField> = Vec::new();
    if !st.is_edit {
        out.push(BodyField { key: string_of("id"), value: BodyValue::Text(st.id.clone()) });
    }
    assert(body_views(out@) =~= if !st.is_edit {
        seq![BodyView::Text("id"@, st.id@)]
    } else {
        Seq::<BodyView>::empty()
    });
    push_text_field(&mut out, "model", &st.model);
    push_text_field(&mut out, "parent_id", &st.parent_id);
    push_text_field(&mut out, "workspace", &st.workspace);
    push_number_field(&mut out, "max_tool_calls", &st.max_tool_calls);
    let ghost before = out@;
    if !st.temperature.as_str().is_empty() {
        out.push(BodyField { key: string_of("temperature"), value: BodyValue::Decimal(st.temperature.clone()) });
    }
    assert(body_views(out@) =~= body_views(before) + decimal_field("temperature"@, st.temperature@));
    push_number_field(&mut out, "max_tokens", &st.max_tokens);
    push_text_field(&mut out, "system_prompt", &st.system_prompt);
    let ghost before2 = out@;
    out.push(BodyField { key: string_of("enabled"), value: BodyValue::Flag(st.enabled) });
    assert(body_views(out@) =~= body_views(before2) + seq![BodyView::Flag("enabled"@, st.enabled)]);
    out
}

} // verus!
