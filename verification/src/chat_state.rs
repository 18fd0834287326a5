//! Per-session chat state: the messages, the scroll position and the live
//! "thinking" indicator, and how gateway replies change them.

use vstd::prelude::*;
use crate::model::{ChatMessage, ChatRole, ToolCallInfo, is_clock_time};
use crate::text::{str_byte_len, string_of, utf8_len};

verus! {

broadcast use vstd::string::group_string_axioms;

#[verifier::external_type_specification]
#[verifier::external_body]
pub struct ExInstant(std::time::Instant);

/// The current instant of the monotonic clock (`std::time::Instant::now`).
/// Trusted; which instant comes back depends on the clock, so nothing is
/// stated of it.
#[verifier::external_body]
fn instant_now() -> (r: std::time::Instant) {
    std::time::Instant::now()
}

/// Thinking phase tracking for the AI processing indicator.
#[derive(Debug, Clone)]
pub struct ThinkingState {
    /// Current processing phase ("llm", "tool", etc.)
    pub phase: String,
    /// Name of the tool currently running (if the phase is "tool")
    pub tool_name: Option<String>,
    /// Current iteration number
    pub iteration: Option<usize>,
    /// Cumulative prompt tokens consumed so far
    pub prompt_tokens: u64,
    /// Cumulative completion tokens generated so far
    pub completion_tokens: u64,
    /// Cumulative total tokens
    pub cumulative_total: u64,
    /// When processing started
    pub started_at: Option<std::time::Instant>,
}

/// What the thinking indicator holds.
pub struct ThinkingView {
    pub phase: Seq<char>,
    pub tool_name: Option<Seq<char>>,
    pub iteration: Option<usize>,
    pub prompt_tokens: u64,
    pub completion_tokens: u64,
    pub cumulative_total: u64,
    pub started_at: Option<std::time::Instant>,
}

/// The view of an optional string.
pub open spec fn opt_chars(s: Option<String>) -> Option<Seq<char>> {
    match s {
        Some(t) => Some(t@),
        None => None,
    }
}

impl View for ThinkingState {
    type V = ThinkingView;

    open spec fn view(&self) -> ThinkingView {
        ThinkingView {
            phase: self.phase@,
            tool_name: opt_chars(self.tool_name),
            iteration: self.iteration,
            prompt_tokens: self.prompt_tokens,
            completion_tokens: self.completion_tokens,
            cumulative_total: self.cumulative_total,
            started_at: self.started_at,
        }
    }
}

/// The indicator before anything was reported.
pub open spec fn fresh_thinking() -> ThinkingView {
    ThinkingView {
        phase: Seq::empty(),
        tool_name: None,
        iteration: None,
        prompt_tokens: 0,
        completion_tokens: 0,
        cumulative_total: 0,
        started_at: None,
    }
}

impl Default for ThinkingState {
    fn default() -> (r: ThinkingState)
        ensures
            r@ == fresh_thinking(),
    {
        ThinkingState {
            phase: String::new(),
            tool_name: None,
            iteration: None,
            prompt_tokens: 0,
            completion_tokens: 0,
            cumulative_total: 0,
            started_at: None,
        }
    }
}

/// Per-session chat state.
#[derive(Debug, Clone)]
pub struct SessionChatState {
    pub messages: Vec<ChatMessage>,
    pub scroll: usize,
    pub loading: bool,
    /// Whether the history has been fetched from the gateway
    pub loaded: bool,
    /// When true, the scroll position follows the latest content
    pub auto_scroll: bool,
    /// Last computed maximum scroll value (updated while drawing)
    pub max_scroll: usize,
    /// Live thinking/processing state for the spinner
    pub thinking: ThinkingState,
}

/// What a chat holds.
pub struct ChatView {
    pub messages: Seq<ChatMessage>,
    pub scroll: nat,
    pub loading: bool,
    pub loaded: bool,
    pub auto_scroll: bool,
    pub max_scroll: nat,
    pub thinking: ThinkingView,
}

impl View for SessionChatState {
    type V = ChatView;

    open spec fn view(&self) -> ChatView {
        ChatView {
            messages: self.messages@,
            scroll: self.scroll as nat,
            loading: self.loading,
            loaded: self.loaded,
            auto_scroll: self.auto_scroll,
            max_scroll: self.max_scroll as nat,
            thinking: self.thinking@,
        }
    }
}

/// A chat that nothing happened in yet.
pub open spec fn fresh_chat() -> ChatView {
    ChatView {
        messages: Seq::empty(),
        scroll: 0,
        loading: false,
        loaded: false,
        auto_scroll: true,
        max_scroll: 0,
        thinking: fresh_thinking(),
    }
}

impl Default for SessionChatState {
    fn default() -> (r: SessionChatState)
        ensures
            r@ == fresh_chat(),
    {
        SessionChatState {
            messages: Vec::new(),
            scroll: 0,
            loading: false,
            loaded: false,
            auto_scroll: true,
            max_scroll: 0,
            thinking: ThinkingState::default(),
        }
    }
}

/// An assistant reply stamped with the local time.
pub open spec fn is_reply(m: ChatMessage, content: Seq<char>, tools: Seq<ToolCallInfo>) -> bool {
    &&& m.role == ChatRole::Assistant
    &&& m.content@ == content
    &&& m.timestamp is Some
    &&& is_clock_time(m.timestamp->0@)
    &&& m.tool_calls@ =~= tools
}

/// A system notice without a timestamp.
pub open spec fn is_notice(m: ChatMessage, content: Seq<char>) -> bool {
    &&& m.role == ChatRole::System
    &&& m.content@ == content
    &&& m.timestamp is None
    &&& m.tool_calls@.len() == 0
}

/// `after` is `before` with one message appended at the end.
pub open spec fn appended(before: Seq<ChatMessage>, after: Seq<ChatMessage>) -> bool {
    &&& after.len() == before.len() + 1
    &&& after.take(before.len() as int) =~= before
}

/// `after` is `before` with the text of its last message replaced by
/// `content` and, where `tools` is given, its tool calls replaced too.
pub open spec fn last_rewritten(
    before: Seq<ChatMessage>,
    after: Seq<ChatMessage>,
    content: Seq<char>,
    tools: Option<Seq<ToolCallInfo>>,
) -> bool {
    &&& before.len() > 0
    &&& after.len() == before.len()
    &&& after.take(before.len() - 1) =~= before.take(before.len() - 1)
    &&& after.last().role == before.last().role
    &&& after.last().timestamp == before.last().timestamp
    &&& after.last().content@ == content
    &&& match tools {
        Some(t) => after.last().tool_calls@ == t,
        None => after.last().tool_calls == before.last().tool_calls,
    }
}

/// The last message is an assistant reply still being streamed.
pub open spec fn has_streamed(v: ChatView) -> bool {
    &&& v.messages.len() > 0
    &&& v.messages.last().role == ChatRole::Assistant
    &&& v.loading
}

/// The chat after a reply from the gateway (`tools` given for an agent's
/// reply): a reply already being streamed is finalized, its text replaced
/// when the new text is longer, and otherwise a new reply is appended; the
/// chat stops loading and the indicator is reset.
pub open spec fn reply_received(
    b: ChatView,
    a: ChatView,
    content: Seq<char>,
    tools: Option<Seq<ToolCallInfo>>,
) -> bool {
    &&& a == (ChatView { messages: a.messages, loading: false, thinking: fresh_thinking(), ..b })
    &&& if has_streamed(b) {
        if utf8_len(content) > utf8_len(b.messages.last().content@) {
            last_rewritten(b.messages, a.messages, content, tools)
        } else {
            match tools {
                Some(t) => last_rewritten(b.messages, a.messages, b.messages.last().content@, tools),
                None => a.messages == b.messages,
            }
        }
    } else {
        appended(b.messages, a.messages) && is_reply(
            a.messages.last(),
            content,
            match tools {
                Some(t) => t,
                None => Seq::empty(),
            },
        )
    }
}

/// The chat after an error: a notice is appended, loading stops and the
/// indicator is reset.
pub open spec fn error_received(b: ChatView, a: ChatView, text: Seq<char>) -> bool {
    &&& a == (ChatView { messages: a.messages, loading: false, thinking: fresh_thinking(), ..b })
    &&& appended(b.messages, a.messages)
    &&& is_notice(a.messages.last(), text)
}

/// The chat after a streamed chunk: appended to the reply being streamed,
/// or a new reply.
pub open spec fn chunk_received(b: ChatView, a: ChatView, text: Seq<char>) -> bool {
    &&& a == (ChatView { messages: a.messages, ..b })
    &&& if has_streamed(b) {
        last_rewritten(b.messages, a.messages, b.messages.last().content@ + text, None)
    } else {
        appended(b.messages, a.messages) && is_reply(a.messages.last(), text, Seq::empty())
    }
}

/// The indicator once processing is known to have started: the start time
/// is kept if there was one.
pub open spec fn started(b: ThinkingView, a: ThinkingView) -> bool {
    &&& a.started_at is Some
    &&& b.started_at is Some ==> a.started_at == b.started_at
}

/// The chat after a token usage report.
pub open spec fn usage_recorded(
    b: ChatView,
    a: ChatView,
    prompt_tokens: u64,
    completion_tokens: u64,
    cumulative_total: u64,
) -> bool {
    &&& a == (ChatView { thinking: a.thinking, ..b })
    &&& a.thinking == (ThinkingView {
        prompt_tokens,
        completion_tokens,
        cumulative_total,
        started_at: a.thinking.started_at,
        ..b.thinking
    })
    &&& started(b.thinking, a.thinking)
}

/// The chat after a processing phase report.
pub open spec fn status_recorded(
    b: ChatView,
    a: ChatView,
    phase: Seq<char>,
    tool_name: Option<Seq<char>>,
    iteration: Option<usize>,
) -> bool {
    &&& a == (ChatView { thinking: a.thinking, ..b })
    &&& a.thinking == (ThinkingView {
        phase,
        tool_name,
        iteration,
        started_at: a.thinking.started_at,
        ..b.thinking
    })
    &&& started(b.thinking, a.thinking)
}

/// The butler chat after a streamed chunk: appended to a last assistant
/// message, or a new reply; the view jumps to the end when following.
pub open spec fn butler_chunk_received(b: ChatView, a: ChatView, text: Seq<char>) -> bool {
    &&& a == (ChatView {
        messages: a.messages,
        scroll: if b.auto_scroll { usize::MAX as nat } else { b.scroll },
        ..b
    })
    &&& if b.messages.len() > 0 && b.messages.last().role == ChatRole::Assistant {
        last_rewritten(b.messages, a.messages, b.messages.last().content@ + text, None)
    } else {
        appended(b.messages, a.messages) && is_reply(a.messages.last(), text, Seq::empty())
    }
}

/// The butler chat once its reply is complete: an empty streamed reply is
/// filled in, a reply is appended unless the last message is already one,
/// loading stops and the indicator is reset.
pub open spec fn butler_done_received(b: ChatView, a: ChatView, text: Seq<char>) -> bool {
    &&& a == (ChatView { messages: a.messages, loading: false, thinking: fresh_thinking(), ..b })
    &&& if b.messages.len() == 0 || b.messages.last().role != ChatRole::Assistant {
        appended(b.messages, a.messages) && is_reply(a.messages.last(), text, Seq::empty())
    } else if b.messages.last().content@.len() == 0 {
        last_rewritten(b.messages, a.messages, text, None)
    } else {
        a.messages == b.messages
    }
}

impl SessionChatState {
    /// Index of the last message, which exists.
    fn last_index(&self) -> (i: usize)
        requires
            self.messages@.len() > 0,
        ensures
            i == self.messages@.len() - 1,
    {
        self.messages.len() - 1
    }

    /// Apply a reply from the gateway (with the agent's tool calls, if any).
    pub fn receive_reply(&mut self, content: String, tool_calls: Option<Vec<ToolCallInfo>>)
        ensures
            reply_received(
                old(self)@,
                final(self)@,
                content@,
                match tool_calls {
                    Some(t) => Some(t@),
                    None => None,
                },
            ),
    {
        let streaming = self.messages.len() > 0 && self.loading && match self.messages[self.messages.len() - 1].role {
            ChatRole::Assistant => true,
            _ => false,
        };
        if streaming {
            let i = self.last_index();
            let longer = str_byte_len(content.as_str()) > str_byte_len(self.messages[i].content.as_str());
            if longer {
                self.messages[i].content = content;
            }
            match tool_calls {
                Some(t) => {
                    self.messages[i].tool_calls = t;
                },
                None => {},
            }
            proof {
                assert(self.messages@.take(i as int) =~= old(self).messages@.take(i as int));
            }
        } else {
            let m = match tool_calls {
                Some(t) => ChatMessage::assistant_with_tools(content, t),
                None => ChatMessage::assistant(content),
            };
            self.messages.push(m);
            proof {
                assert(self.messages@.take(old(self).messages@.len() as int) =~= old(self).messages@);
            }
        }
        self.loading = false;
        self.thinking = ThinkingState::default();
    }

    /// Apply an error for this chat: a notice `prefix` followed by `err`.
    pub fn receive_error(&mut self, prefix: &str, err: &str)
        ensures
            error_received(old(self)@, final(self)@, prefix@ + err@),
    {
        let mut text = string_of(prefix);
        text.append(err);
        self.messages.push(ChatMessage::system(text));
        proof {
            assert(self.messages@.take(old(self).messages@.len() as int) =~= old(self).messages@);
        }
        self.loading = false;
        self.thinking = ThinkingState::default();
    }

    /// Apply a streamed chunk of a reply.
    pub fn receive_chunk(&mut self, text: &str)
        ensures
            chunk_received(old(self)@, final(self)@, text@),
    {
        let streaming = self.messages.len() > 0 && self.loading && match self.messages[self.messages.len() - 1].role {
            ChatRole::Assistant => true,
            _ => false,
        };
        if streaming {
            let i = self.last_index();
            self.messages[i].content.append(text);
            proof {
                assert(self.messages@.take(i as int) =~= old(self).messages@.take(i as int));
            }
        } else {
            self.messages.push(ChatMessage::assistant(string_of(text)));
            proof {
                assert(self.messages@.take(old(self).messages@.len() as int) =~= old(self).messages@);
            }
        }
    }

    /// Note that processing has started, keeping an earlier start time.
    fn mark_started(&mut self)
        ensures
            final(self)@ == (ChatView { thinking: final(self)@.thinking, ..old(self)@ }),
            final(self)@.thinking == (ThinkingView {
                started_at: final(self)@.thinking.started_at,
                ..old(self)@.thinking
            }),
            started(old(self)@.thinking, final(self)@.thinking),
    {
        if self.thinking.started_at.is_none() {
            self.thinking.started_at = Some(instant_now());
        }
    }

    /// Record a token usage report.
    pub fn record_token_usage(&mut self, prompt_tokens: u64, completion_tokens: u64, cumulative_total: u64)
        ensures
            usage_recorded(old(self)@, final(self)@, prompt_tokens, completion_tokens, cumulative_total),
    {
        self.thinking.prompt_tokens = prompt_tokens;
        self.thinking.completion_tokens = completion_tokens;
        self.thinking.cumulative_total = cumulative_total;
        self.mark_started();
    }

    /// Record a processing phase report.
    pub fn record_thinking_status(&mut self, phase: String, tool_name: Option<String>, iteration: Option<usize>)
        ensures
            status_recorded(old(self)@, final(self)@, phase@, opt_chars(tool_name), iteration),
    {
        self.thinking.phase = phase;
        self.thinking.tool_name = tool_name;
        self.thinking.iteration = iteration;
        self.mark_started();
    }

    /// Apply a streamed chunk of the butler's reply.
    pub fn butler_chunk(&mut self, text: String)
        ensures
            butler_chunk_received(old(self)@, final(self)@, text@),
    {
        let last_is_reply = self.messages.len() > 0 && match self.messages[self.messages.len() - 1].role {
            ChatRole::Assistant => true,
            _ => false,
        };
        if last_is_reply {
            let i = self.last_index();
            self.messages[i].content.append(text.as_str());
            proof {
                assert(self.messages@.take(i as int) =~= old(self).messages@.take(i as int));
            }
        } else {
            self.messages.push(ChatMessage::assistant(text));
            proof {
                assert(self.messages@.take(old(self).messages@.len() as int) =~= old(self).messages@);
            }
        }
        if self.auto_scroll {
            self.scroll = usize::MAX;
        }
    }

    /// Apply the butler's completed reply.
    pub fn butler_done(&mut self, text: String)
        ensures
            butler_done_received(old(self)@, final(self)@, text@),
    {
        let last_is_reply = self.messages.len() > 0 && match self.messages[self.messages.len() - 1].role {
            ChatRole::Assistant => true,
            _ => false,
        };
        if last_is_reply {
            let i = self.last_index();
            if self.messages[i].content.as_str().is_empty() {
                self.messages[i].content = text;
                proof {
                    assert(self.messages@.take(i as int) =~= old(self).messages@.take(i as int));
                }
            }
        } else {
            self.messages.push(ChatMessage::assistant(text));
            proof {
                assert(self.messages@.take(old(self).messages@.len() as int) =~= old(self).messages@);
            }
        }
        self.loading = false;
        self.thinking = ThinkingState::default();
    }
}

} // verus!
