//! What the chat panel shows: the lines of the messages and where the
//! view is scrolled to.

use vstd::prelude::*;
use crate::chat_state::SessionChatState;
use crate::model::{ChatMessage, ChatRole, ToolCallInfo};
use crate::text::{chars_of, string_from_chars, string_of};

verus! {

broadcast use vstd::string::group_string_axioms;

/// Where the chat view is scrolled to.
#[derive(Debug, Clone, Copy, PartialEq, Eq, Structural)]
pub struct ChatScroll {
    /// The furthest the view can scroll: lines beyond one screen
    pub max_scroll: usize,
    /// The first line shown
    pub offset: usize,
    /// Whether there is more below, so the scroll hint is shown
    pub not_at_bottom: bool,
}

/// The scroll of a chat of `total` wrapped lines shown `height` at a time:
/// at the bottom when following new content, else where it was scrolled,
/// but never past the bottom.
pub open spec fn scroll_of(total: nat, height: nat, scroll: nat, auto_scroll: bool) -> (nat, nat, bool) {
    let max: nat = if total > height { (total - height) as nat } else { 0 };
    let offset: nat = if auto_scroll { max } else if scroll < max { scroll } else { max };
    (max, offset, total > height && offset < max)
}

impl SessionChatState {
    /// Lay the chat out over `total_lines` wrapped lines shown
    /// `view_height` at a time: remember how far it can scroll, and say
    /// where the view is.
    pub fn lay_out(&mut self, total_lines: usize, view_height: usize) -> (r: ChatScroll)
        ensures
            (r.max_scroll as nat, r.offset as nat, r.not_at_bottom)
                == scroll_of(total_lines as nat, view_height as nat, old(self).scroll as nat, old(self).auto_scroll),
            *final(self) == (SessionChatState { max_scroll: r.max_scroll, ..*old(self) }),
    {
        let max = if total_lines > view_height { total_lines - view_height } else { 0 };
        let offset = if self.auto_scroll {
            max
        } else if self.scroll < max {
            self.scroll
        } else {
            max
        };
        self.max_scroll = max;
        ChatScroll { max_scroll: max, offset, not_at_bottom: total_lines > view_height && offset < max }
    }
}

/// A line of text without a trailing carriage return.
pub open spec fn strip_cr(s: Seq<char>) -> Seq<char> {
    if s.len() > 0 && s.last() == '\r' {
        s.drop_last()
    } else {
        s
    }
}

/// Position of the first line feed at or after `i`.
pub open spec fn newline_from(s: Seq<char>, i: int) -> Option<int>
    decreases s.len() - i,
{
    if i < 0 || i >= s.len() {
        None
    } else if s[i] == '\n' {
        Some(i)
    } else {
        newline_from(s, i + 1)
    }
}

/// The lines of a text as `str::lines` gives them: split at line feeds, a
/// carriage return before one dropped, no empty line after a final line
/// feed, none at all for empty text.
pub open spec fn text_lines(s: Seq<char>) -> Seq<Seq<char>>
    decreases s.len(),
{
    if s.len() == 0 {
        Seq::empty()
    } else {
        match newline_from(s, 0) {
            Some(i) => if 0 <= i < s.len() {
                seq![strip_cr(s.take(i))] + text_lines(s.skip(i + 1))
            } else {
                Seq::empty()
            },
            None => seq![strip_cr(s)],
        }
    }
}

proof fn lemma_newline_skip(s: Seq<char>, start: int, j: int)
    requires
        0 <= start <= j <= s.len(),
        forall|k: int| start <= k < j ==> s[k] != '\n',
    ensures
        newline_from(s.skip(start), 0) == match newline_from(s, j) {
            Some(p) => Some(p - start),
            None => None,
        },
    decreases j - start,
{
    let t = s.skip(start);
    lemma_newline_shift(s, start, 0);
    if start < j {
        assert(t[0] == s[start]);
        lemma_newline_skip(s, start + 1, j);
        lemma_newline_shift(s, start, 1);
        lemma_newline_shift(s, start + 1, 0);
    }
}

proof fn lemma_newline_shift(s: Seq<char>, start: int, i: int)
    requires
        0 <= start <= s.len(),
        0 <= i,
    ensures
        newline_from(s.skip(start), i) == match newline_from(s, start + i) {
            Some(p) => Some(p - start),
            None => None,
        },
    decreases s.len() - start - i,
{
    if start + i < s.len() {
        assert(s.skip(start)[i] == s[start + i]);
        lemma_newline_shift(s, start, i + 1);
    }
}

fn strip_cr_of(v: &Vec<char>, lo: usize, hi: usize) -> (r: String)
    requires
        lo <= hi <= v.len(),
    ensures
        r@ == strip_cr(v@.subrange(lo as int, hi as int)),
{
    if hi > lo && v[hi - 1] == '\r' {
        let r = string_from_chars(v, lo, hi - 1);
        assert(v@.subrange(lo as int, hi as int).drop_last() == v@.subrange(lo as int, hi - 1));
        r
    } else {
        string_from_chars(v, lo, hi)
    }
}

/// The lines of a text (see `text_lines`), each behind `indent`.
pub fn indented_lines(text: &str, indent: &str, out: &mut Vec<String>)
    ensures
        final(out)@.len() == old(out)@.len() + text_lines(text@).len(),
        forall|k: int| 0 <= k < old(out)@.len() ==> #[trigger] final(out)@[k] == old(out)@[k],
        forall|k: int| 0 <= k < text_lines(text@).len() ==>
            #[trigger] final(out)@[old(out)@.len() + k]@ == indent@ + text_lines(text@)[k],
{
    let v = chars_of(text);
    let ghost s = text@;
    let ghost n0 = out@.len();
    let mut start: usize = 0;
    let mut j: usize = 0;
    let ghost mut done: Seq<Seq<char>> = Seq::empty();
    let ghost o = out@;
    proof {
        assert(s.skip(0) =~= s);
        assert(done + text_lines(s) =~= text_lines(s));
    }
    while j < v.len()
        invariant
            v@ == s,
            0 <= start <= j <= v@.len(),
            forall|k: int| start <= k < j ==> s[k] != '\n',
            done + text_lines(s.skip(start as int)) == text_lines(s),
            out@.len() == n0 + done.len(),
            n0 == o.len(),
            forall|k: int| 0 <= k < n0 ==> #[trigger] out@[k] == o[k],
            forall|k: int| 0 <= k < done.len() ==> #[trigger] out@[n0 + k]@ == indent@ + done[k],
        decreases v@.len() - j,
    {
        if v[j] == '\n' {
            proof {
                let t = s.skip(start as int);
                lemma_newline_skip(s, start as int, j as int);
                assert(newline_from(s, j as int) == Some(j as int));
                assert(t.len() > 0);
                assert(t.take(j - start) == s.subrange(start as int, j as int));
                assert(t.skip(j - start + 1) == s.skip(j + 1));
            }
            let line = strip_cr_of(&v, start, j);
            let mut l = string_of(indent);
            l.append(line.as_str());
            out.push(l);
            proof {
                let t = s.skip(start as int);
                assert(text_lines(t) == seq![strip_cr(s.subrange(start as int, j as int))] + text_lines(s.skip(j + 1)));
                done = done.push(strip_cr(s.subrange(start as int, j as int)));
                assert(done + text_lines(s.skip(j + 1)) =~= text_lines(s));
            }
            start = j + 1;
        }
        j = j + 1;
    }
    if start < v.len() {
        proof {
            let t = s.skip(start as int);
            lemma_newline_skip(s, start as int, j as int);
            assert(newline_from(s, j as int) is None);
            assert(t == s.subrange(start as int, j as int));
        }
        let line = strip_cr_of(&v, start, j);
        let mut l = string_of(indent);
        l.append(line.as_str());
        out.push(l);
        proof {
            done = done.push(strip_cr(s.subrange(start as int, j as int)));
            assert(done =~= text_lines(s));
        }
    } else {
        proof {
            assert(s.skip(start as int).len() == 0);
            assert(done + Seq::<Seq<char>>::empty() == done);
        }
    }
}

/// One line of the chat panel.
#[derive(Debug, Clone, PartialEq, Eq)]
pub enum ChatLine {
    /// A message's first line: its time in brackets (or nothing) and who
    /// wrote it.
    Header { timestamp: String, prefix: String, role: ChatRole },
    /// A tool call: `[+]` or `[x]`, its name, how long it took in
    /// milliseconds (0 when unknown; written by the caller) and whether its
    /// output can be folded (` [-]`) or unfolded (` [+]`).
    Tool { icon: String, name: String, duration_ms: u64, hint: String, success: bool },
    /// A line of an unfolded tool's output.
    ToolOutput(String),
    /// A line of a message's text.
    Content(String, ChatRole),
    /// The gap after a message.
    Blank,
    /// The note shown in an empty chat.
    Empty(String),
}

/// What a chat line holds.
pub enum LineView {
    Header(Seq<char>, Seq<char>, ChatRole),
    Tool(Seq<char>, Seq<char>, u64, Seq<char>, bool),
    ToolOutput(Seq<char>),
    Content(Seq<char>, ChatRole),
    Blank,
    Empty(Seq<char>),
}

impl View for ChatLine {
    type V = LineView;

    open spec fn view(&self) -> LineView {
        match self {
            ChatLine::Header { timestamp, prefix, role } => LineView::Header(timestamp@, prefix@, *role),
            ChatLine::Tool { icon, name, duration_ms, hint, success } => LineView::Tool(
                icon@,
                name@,
                *duration_ms,
                hint@,
                *success,
            ),
            ChatLine::ToolOutput(t) => LineView::ToolOutput(t@),
            ChatLine::Content(t, r) => LineView::Content(t@, *r),
            ChatLine::Blank => LineView::Blank,
            ChatLine::Empty(t) => LineView::Empty(t@),
        }
    }
}

pub open spec fn lines_view(v: Seq<ChatLine>) -> Seq<LineView> {
    v.map_values(|l: ChatLine| l@)
}

/// Who wrote a message, as its first line says.
pub open spec fn role_prefix(r: ChatRole) -> Seq<char> {
    match r {
        ChatRole::User => "You: "@,
        ChatRole::Assistant => "AI: "@,
        ChatRole::System => "sys: "@,
    }
}

/// The lines of a text, each indented: by four spaces as tool output, by
/// two as a message's text.
pub open spec fn text_line_views(s: Seq<char>, role: Option<ChatRole>) -> Seq<LineView> {
    text_lines(s).map_values(|l: Seq<char>| match role {
        Some(r) => LineView::Content("  "@ + l, r),
        None => LineView::ToolOutput("    "@ + l),
    })
}

/// A tool call's lines: its summary, then its output when unfolded.
pub open spec fn tool_lines(t: ToolCallInfo) -> Seq<LineView> {
    let has_output = t.result@.len() > 0;
    seq![LineView::Tool(
        if t.success { "[+]"@ } else { "[x]"@ },
        " "@ + t.tool_name@,
        t.duration_ms,
        if !has_output { Seq::empty() } else if t.expanded { " [-]"@ } else { " [+]"@ },
        t.success,
    )] + if t.expanded && has_output { text_line_views(t.result@, None) } else { Seq::empty() }
}

pub open spec fn tools_lines(ts: Seq<ToolCallInfo>) -> Seq<LineView>
    decreases ts.len(),
{
    if ts.len() == 0 {
        Seq::empty()
    } else {
        tools_lines(ts.drop_last()) + tool_lines(ts.last())
    }
}

/// A message's lines: the header, its tool calls, its text, a gap.
pub open spec fn message_lines(m: ChatMessage) -> Seq<LineView> {
    seq![LineView::Header(
        match m.timestamp {
            Some(t) => "["@ + t@ + "] "@,
            None => Seq::empty(),
        },
        role_prefix(m.role),
        m.role,
    )] + tools_lines(m.tool_calls@) + text_line_views(m.content@, Some(m.role)) + seq![LineView::Blank]
}

pub open spec fn messages_lines(ms: Seq<ChatMessage>) -> Seq<LineView>
    decreases ms.len(),
{
    if ms.len() == 0 {
        Seq::empty()
    } else {
        messages_lines(ms.drop_last()) + message_lines(ms.last())
    }
}

/// The lines of a chat: a note when it is empty and nothing is coming,
/// else the lines of its messages (the loading indicator is drawn after
/// them by the caller).
pub open spec fn chat_lines_shown(ms: Seq<ChatMessage>, loading: bool) -> Seq<LineView> {
    if ms.len() == 0 && !loading {
        seq![LineView::Empty("No messages yet. Type a message and press Enter."@)]
    } else {
        messages_lines(ms)
    }
}

fn push_text_lines(out: &mut Vec<ChatLine>, text: &str, role: Option<ChatRole>)
    ensures
        lines_view(final(out)@) == lines_view(old(out)@) + text_line_views(text@, role),
{
    let indent = match role {
        Some(_) => "  ",
        None => "    ",
    };
    let mut texts: Vec<String> = Vec::new();
    indented_lines(text, indent, &mut texts);
    assert forall|k: int| 0 <= k < text_lines(text@).len() implies #[trigger] texts@[k]@ == indent@ + text_lines(text@)[k] by {
        assert(texts@[0 + k] == texts@[k]);
    }
    let ghost base = lines_view(out@);
    let ghost want = text_line_views(text@, role);
    let mut i: usize = 0;
    while i < texts.len()
        invariant
            i <= texts@.len(),
            texts@.len() == text_lines(text@).len(),
            forall|k: int| 0 <= k < text_lines(text@).len() ==> #[trigger] texts@[k]@ == indent@ + text_lines(text@)[k],
            indent@ == match role {
                Some(_) => "  "@,
                None => "    "@,
            },
            want == text_line_views(text@, role),
            lines_view(out@) == base + want.take(i as int),
        decreases texts@.len() - i,
    {
        let t = texts[i].clone();
        let line = match role {
            Some(r) => ChatLine::Content(t, r),
            None => ChatLine::ToolOutput(t),
        };
        let ghost before = out@;
        out.push(line);
        proof {
            assert(lines_view(out@) =~= lines_view(before).push(line@));
            assert(want.take(i + 1) =~= want.take(i as int).push(want[i as int]));
        }
        i = i + 1;
    }
    proof {
        assert(want.take(i as int) =~= want);
    }
}

fn push_tool_lines(out: &mut Vec<ChatLine>, t: &ToolCallInfo)
    ensures
        lines_view(final(out)@) == lines_view(old(out)@) + tool_lines(*t),
{
    let has_output = chars_of(t.result.as_str()).len() > 0;
    let hint = if !has_output {
        String::new()
    } else if t.expanded {
        string_of(" [-]")
    } else {
        string_of(" [+]")
    };
    let mut name = string_of(" ");
    name.append(t.tool_name.as_str());
    let line = ChatLine::Tool {
        icon: if t.success { string_of("[+]") } else { string_of("[x]") },
        name,
        duration_ms: t.duration_ms,
        hint,
        success: t.success,
    };
    let ghost before = out@;
    out.push(line);
    proof {
        assert(lines_view(out@) =~= lines_view(before) + seq![line@]);
    }
    if t.expanded && has_output {
        push_text_lines(out, t.result.as_str(), None);
        proof {
            assert(lines_view(before) + seq![line@] + text_line_views(t.result@, None)
                =~= lines_view(before) + tool_lines(*t));
        }
    } else {
        assert(seq![line@] + Seq::<LineView>::empty() =~= seq![line@]);
    }
}

fn push_message_lines(out: &mut Vec<ChatLine>, m: &ChatMessage)
    ensures
        lines_view(final(out)@) == lines_view(old(out)@) + message_lines(*m),
{
    let ghost start = lines_view(out@);
    let timestamp = match &m.timestamp {
        Some(t) => {
            let mut s = string_of("[");
            s.append(t.as_str());
            s.append("] ");
            s
        },
        None => String::new(),
    };
    let prefix = match m.role {
        ChatRole::User => string_of("You: "),
        ChatRole::Assistant => string_of("AI: "),
        ChatRole::System => string_of("sys: "),
    };
    let header = ChatLine::Header { timestamp, prefix, role: m.role };
    let ghost h = header@;
    out.push(header);
    proof {
        assert(lines_view(out@) =~= start + seq![h]);
    }
    let mut i: usize = 0;
    while i < m.tool_calls.len()
        invariant
            i <= m.tool_calls@.len(),
            lines_view(out@) == start + seq![h] + tools_lines(m.tool_calls@.take(i as int)),
        decreases m.tool_calls@.len() - i,
    {
        let ghost mid = lines_view(out@);
        push_tool_lines(out, &m.tool_calls[i]);
        proof {
            let ts = m.tool_calls@.take(i + 1);
            assert(ts.drop_last() =~= m.tool_calls@.take(i as int));
            assert(ts.last() == m.tool_calls@[i as int]);
            assert(lines_view(out@) =~= start + seq![h] + tools_lines(ts));
        }
        i = i + 1;
    }
    proof {
        assert(m.tool_calls@.take(i as int) =~= m.tool_calls@);
    }
    let ghost mid = lines_view(out@);
    push_text_lines(out, m.content.as_str(), Some(m.role));
    let ghost mid2 = lines_view(out@);
    out.push(ChatLine::Blank);
    proof {
        assert(lines_view(out@) =~= mid2.push(LineView::Blank));
        assert(lines_view(out@) =~= start + message_lines(*m));
    }
}

/// The lines of a chat (see `chat_lines_shown`).
pub fn chat_lines(messages: &Vec<ChatMessage>, loading: bool) -> (r: Vec<ChatLine>)
    ensures
        lines_view(r@) == chat_lines_shown(messages@, loading),
{
    let mut out: Vec<ChatLine> = Vec::new();
    if messages.len() == 0 && !loading {
        let e = ChatLine::Empty(string_of("No messages yet. Type a message and press Enter."));
        out.push(e);
        proof {
            assert(lines_view(out@) =~= seq![e@]);
        }
        return out;
    }
    proof {
        assert(lines_view(out@) =~= messages_lines(messages@.take(0)));
    }
    let mut i: usize = 0;
    while i < messages.len()
        invariant
            i <= messages@.len(),
            lines_view(out@) == messages_lines(messages@.take(i as int)),
        decreases messages@.len() - i,
    {
        push_message_lines(&mut out, &messages[i]);
        proof {
            let ms = messages@.take(i + 1);
            assert(ms.drop_last() =~= messages@.take(i as int));
            assert(ms.last() == messages@[i as int]);
        }
        i = i + 1;
    }
    proof {
        assert(messages@.take(i as int) =~= messages@);
    }
    out
}

} // verus!
