//! The chat of the selected session, the gateway URLs and the input line.

use vstd::prelude::*;
use crate::app_state::{AppState, chat_changed, chat_pos, prior_chat};
use crate::chat_state::{ChatView, SessionChatState};
use crate::model::{ChatMessage, ToolCallInfo};
use crate::modes::InputMode;
use crate::text::str_eq;

verus! {

broadcast use vstd::string::group_string_axioms;

/// The key of the selected session, if a session is selected.
pub open spec fn active_key(s: AppState) -> Option<Seq<char>> {
    if s.selected_session < s.sessions@.len() {
        Some(s.sessions@[s.selected_session as int].key@)
    } else {
        None
    }
}

/// The chat of the selected session, if it has one.
pub open spec fn active_chat_view(s: AppState) -> Option<ChatView> {
    match active_key(s) {
        Some(k) => if chat_pos(s.session_chats@, k) < s.session_chats@.len() {
            Some(s.session_chats@[chat_pos(s.session_chats@, k)].state@)
        } else {
            None
        },
        None => None,
    }
}

/// The state after the chat of the selected session (made if missing)
/// went through `step`; without a selected session nothing changes.
pub open spec fn active_chat_stepped(b: AppState, a: AppState, step: spec_fn(ChatView, ChatView) -> bool) -> bool {
    match active_key(b) {
        Some(k) => {
            &&& a == (AppState { session_chats: a.session_chats, ..b })
            &&& chat_changed(b.session_chats@, a.session_chats@, k, step)
        },
        None => a == b,
    }
}

/// Whether any tool call of the messages is expanded.
pub open spec fn any_expanded(msgs: Seq<ChatMessage>) -> bool {
    exists|i: int, j: int|
        0 <= i < msgs.len() && 0 <= j < msgs[i].tool_calls@.len() && #[trigger] msgs[i].tool_calls@[j].expanded
}

/// The tool calls are those of `b` with `expanded` set to `v`.
pub open spec fn calls_set(b: Seq<ToolCallInfo>, a: Seq<ToolCallInfo>, v: bool) -> bool {
    &&& a.len() == b.len()
    &&& forall|j: int| 0 <= j < b.len() ==> #[trigger] a[j] == (ToolCallInfo { expanded: v, ..b[j] })
}

/// The messages are those of `b` with every tool call's `expanded` set to `v`.
pub open spec fn messages_set(b: Seq<ChatMessage>, a: Seq<ChatMessage>, v: bool) -> bool {
    &&& a.len() == b.len()
    &&& forall|i: int|
        0 <= i < b.len() ==> #[trigger] a[i] == (ChatMessage { tool_calls: a[i].tool_calls, ..b[i] })
            && calls_set(b[i].tool_calls@, a[i].tool_calls@, v)
}

/// The chat after toggling its tool calls: when any is expanded all
/// collapse, otherwise all expand.
pub open spec fn tools_toggled(b: ChatView, a: ChatView) -> bool {
    &&& a == (ChatView { messages: a.messages, ..b })
    &&& messages_set(b.messages, a.messages, !any_expanded(b.messages))
}

/// Set `expanded` on every call.
fn set_expanded(calls: &mut Vec<ToolCallInfo>, v: bool)
    ensures
        calls_set(old(calls)@, final(calls)@, v),
{
    let mut j: usize = 0;
    while j < calls.len()
        invariant
            j <= calls@.len(),
            calls@.len() == old(calls)@.len(),
            forall|k: int| 0 <= k < j ==> #[trigger] calls@[k] == (ToolCallInfo { expanded: v, ..old(calls)@[k] }),
            forall|k: int| j <= k < calls@.len() ==> #[trigger] calls@[k] == old(calls)@[k],
        decreases calls@.len() - j,
    {
        calls[j].expanded = v;
        j = j + 1;
    }
}

impl SessionChatState {
    /// Whether any tool call of the chat is expanded.
    pub fn any_tool_expanded(&self) -> (r: bool)
        ensures
            r == any_expanded(self.messages@),
    {
        let mut i: usize = 0;
        while i < self.messages.len()
            invariant
                i <= self.messages@.len(),
                forall|a: int, b: int|
                    0 <= a < i && 0 <= b < self.messages@[a].tool_calls@.len() ==> !#[trigger] self.messages@[a].tool_calls@[b].expanded,
            decreases self.messages@.len() - i,
        {
            let calls = &self.messages[i].tool_calls;
            let mut j: usize = 0;
            while j < calls.len()
                invariant
                    i < self.messages@.len(),
                    calls@ == self.messages@[i as int].tool_calls@,
                    j <= calls@.len(),
                    forall|b: int| 0 <= b < j ==> !#[trigger] calls@[b].expanded,
                decreases calls@.len() - j,
            {
                if calls[j].expanded {
                    return true;
                }
                j = j + 1;
            }
            i = i + 1;
        }
        false
    }

    /// Expand every tool call when none is expanded, else collapse them all.
    pub fn toggle_tools(&mut self)
        ensures
            tools_toggled(old(self)@, final(self)@),
    {
        let v = !self.any_tool_expanded();
        let mut i: usize = 0;
        while i < self.messages.len()
            invariant
                i <= self.messages@.len(),
                self.messages@.len() == old(self).messages@.len(),
                self@ == (ChatView { messages: self@.messages, ..old(self)@ }),
                v == !any_expanded(old(self).messages@),
                forall|k: int|
                    0 <= k < i ==> #[trigger] self.messages@[k] == (ChatMessage {
                        tool_calls: self.messages@[k].tool_calls,
                        ..old(self).messages@[k]
                    }) && calls_set(old(self).messages@[k].tool_calls@, self.messages@[k].tool_calls@, v),
                forall|k: int| i <= k < self.messages@.len() ==> #[trigger] self.messages@[k] == old(self).messages@[k],
            decreases self.messages@.len() - i,
        {
            set_expanded(&mut self.messages[i].tool_calls, v);
            i = i + 1;
        }
    }
}

impl AppState {
    /// Whether a modal or text input captures the keys.
    pub fn is_capturing_input(&self) -> (r: bool)
        ensures
            r == !(self.input_mode is Normal),
    {
        match self.input_mode {
            InputMode::Normal => false,
            _ => true,
        }
    }

    /// The key of the selected session.
    pub fn active_session_key(&self) -> (r: Option<&str>)
        ensures
            match r {
                Some(k) => active_key(*self) == Some(k@),
                None => active_key(*self) is None,
            },
    {
        if self.selected_session < self.sessions.len() {
            Some(self.sessions[self.selected_session].key.as_str())
        } else {
            None
        }
    }

    /// Position of the chat of `key`, if it has one.
    pub(crate) fn find_chat(&self, key: &str) -> (r: Option<usize>)
        requires
            self.wf(),
        ensures
            match r {
                Some(p) => p == chat_pos(self.session_chats@, key@) && p < self.session_chats@.len(),
                None => chat_pos(self.session_chats@, key@) == self.session_chats@.len(),
            },
    {
        let mut i: usize = 0;
        while i < self.session_chats.len()
            invariant
                i <= self.session_chats@.len(),
                self.wf(),
                forall|j: int| 0 <= j < i ==> #[trigger] self.session_chats@[j].key@ != key@,
            decreases self.session_chats@.len() - i,
        {
            if str_eq(self.session_chats[i].key.as_str(), key) {
                proof {
                    let c = self.session_chats@;
                    let q = choose|q: int| 0 <= q < c.len() && #[trigger] c[q].key@ == key@;
                    assert(c[i as int].key@ == key@);
                    if q < i {
                        assert(c[q].key@ != key@);
                    } else if q > i {
                        assert(c[i as int].key@ != c[q].key@);
                    }
                }
                return Some(i);
            }
            i = i + 1;
        }
        proof {
            assert(!exists|q: int| 0 <= q < self.session_chats@.len() && #[trigger] self.session_chats@[q].key@ == key@);
        }
        None
    }

    /// The chat of the selected session, if it has one.
    pub fn active_chat(&self) -> (r: Option<&SessionChatState>)
        requires
            self.wf(),
        ensures
            match r {
                Some(c) => active_chat_view(*self) == Some(c@),
                None => active_chat_view(*self) is None,
            },
    {
        match self.active_session_key() {
            Some(key) => match self.find_chat(key) {
                Some(p) => Some(&self.session_chats[p].state),
                None => None,
            },
            None => None,
        }
    }

    /// The chat of the selected session, made if it has none yet.
    pub fn active_chat_mut(&mut self) -> (r: Option<&mut SessionChatState>)
        requires
            old(self).wf(),
        ensures
            r is Some <==> active_key(*old(self)) is Some,
            r is None ==> *final(self) == *old(self),
            r matches Some(c) ==> (*c)@ == prior_chat(old(self).session_chats@, active_key(*old(self))->0),
            r matches Some(c) ==> final(self).wf() && *final(self) == (AppState {
                session_chats: final(self).session_chats,
                ..*old(self)
            }) && chat_changed(
                old(self).session_chats@,
                final(self).session_chats@,
                active_key(*old(self))->0,
                |pv: ChatView, av: ChatView| av == (*final(c))@,
            ),
    {
        if self.selected_session < self.sessions.len() {
            let key = self.sessions[self.selected_session].key.clone();
            let p = self.chat_entry(key.as_str());
            Some(&mut self.session_chats[p].state)
        } else {
            None
        }
    }

    /// The messages of the selected session's chat (none without one).
    pub fn chat_messages(&self) -> (r: &[ChatMessage])
        requires
            self.wf(),
        ensures
            r@ == match active_chat_view(*self) {
                Some(c) => c.messages,
                None => Seq::empty(),
            },
    {
        match self.active_chat() {
            Some(c) => c.messages.as_slice(),
            None => &[],
        }
    }

    /// Whether the selected session's chat is waiting for a reply.
    pub fn chat_loading(&self) -> (r: bool)
        requires
            self.wf(),
        ensures
            r == match active_chat_view(*self) {
                Some(c) => c.loading,
                None => false,
            },
    {
        match self.active_chat() {
            Some(c) => c.loading,
            None => false,
        }
    }

    /// The scroll position of the selected session's chat.
    pub fn chat_scroll(&self) -> (r: usize)
        requires
            self.wf(),
        ensures
            r == match active_chat_view(*self) {
                Some(c) => c.scroll,
                None => 0,
            },
    {
        match self.active_chat() {
            Some(c) => c.scroll,
            None => 0,
        }
    }

    /// Whether the selected session's chat follows its latest content.
    pub fn chat_auto_scroll(&self) -> (r: bool)
        requires
            self.wf(),
        ensures
            r == match active_chat_view(*self) {
                Some(c) => c.auto_scroll,
                None => true,
            },
    {
        match self.active_chat() {
            Some(c) => c.auto_scroll,
            None => true,
        }
    }

    /// Expand or collapse all tool calls of the selected session's chat.
    pub fn toggle_tool_expansion(&mut self)
        requires
            old(self).wf(),
        ensures
            final(self).wf(),
            active_chat_stepped(
                *old(self),
                *final(self),
                |pv: ChatView, av: ChatView| crate::active_chat::tools_toggled(pv, av),
            ),
    {
        if self.selected_session < self.sessions.len() {
            let key = self.sessions[self.selected_session].key.clone();
            let p = self.chat_entry(key.as_str());
            let ghost mid = self.session_chats@;
            self.session_chats[p].state.toggle_tools();
            proof {
                let c = self.session_chats@;
                assert forall|a: int, b: int| 0 <= a < b < c.len() implies #[trigger] c[a].key@ != #[trigger] c[b].key@ by {
                    assert(mid[a].key@ != mid[b].key@);
                    if a != p as int {
                        assert(c[a] == mid[a]);
                    }
                    if b != p as int {
                        assert(c[b] == mid[b]);
                    }
                }
            }
        }
    }

    /// The HTTP URL of an API path on the gateway.
    pub fn api_url(&self, path: &str) -> (r: String)
        ensures
            r@ == self.gateway_http_url@ + path@,
    {
        let mut r = self.gateway_http_url.clone();
        r.append(path);
        r
    }

    /// The WebSocket URL of the gateway.
    pub fn ws_url(&self) -> (r: String)
        ensures
            r == self.gateway_url,
    {
        self.gateway_url.clone()
    }

    /// Empty the input line and put the cursor at its start.
    pub fn clear_input(&mut self)
        ensures
            *final(self) == (AppState { input_buffer: final(self).input_buffer, input_cursor: 0, ..*old(self) }),
            final(self).input_buffer@.len() == 0,
    {
        self.input_buffer = String::new();
        self.input_cursor = 0;
    }
}

} // verus!
