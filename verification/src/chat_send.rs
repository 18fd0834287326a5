//! Sending from the chat input: taking the typed message, recording it in
//! the selected session's chat, and preparing to send the last message
//! again. The request itself goes out from the caller.

use vstd::prelude::*;
use crate::active_chat::{active_chat_stepped, active_chat_view, active_key};
use crate::app_state::{AppState, chat_pos, lemma_keys_kept};
use crate::chat_state::{ChatView, SessionChatState};
use crate::model::{ChatMessage, ChatRole, is_clock_time};
use crate::text::{trim, trim_spec};

verus! {

broadcast use vstd::string::group_string_axioms;

/// The messages without the system notices at their end.
pub open spec fn without_trailing_notices(m: Seq<ChatMessage>) -> Seq<ChatMessage>
    decreases m.len(),
{
    if m.len() > 0 && m.last().role == ChatRole::System {
        without_trailing_notices(m.drop_last())
    } else {
        m
    }
}

/// The messages to keep when retrying: trailing notices go, and then the
/// reply they followed.
pub open spec fn retry_trimmed(m: Seq<ChatMessage>) -> Seq<ChatMessage> {
    let t = without_trailing_notices(m);
    if t.len() > 0 && t.last().role == ChatRole::Assistant {
        t.drop_last()
    } else {
        t
    }
}

/// The text of the last message from the user, if any.
pub open spec fn last_user_text(m: Seq<ChatMessage>) -> Option<Seq<char>>
    decreases m.len(),
{
    if m.len() == 0 {
        None
    } else if m.last().role == ChatRole::User {
        Some(m.last().content@)
    } else {
        last_user_text(m.drop_last())
    }
}

/// The chat after a user message was recorded: appended, stamped with the
/// local time, and the chat waits for the reply following it.
pub open spec fn user_message_added(b: ChatView, a: ChatView, text: Seq<char>) -> bool {
    &&& a == (ChatView { messages: a.messages, loading: true, auto_scroll: true, ..b })
    &&& a.messages.len() == b.messages.len() + 1
    &&& a.messages.take(b.messages.len() as int) =~= b.messages
    &&& a.messages.last().role == ChatRole::User
    &&& a.messages.last().content@ == text
    &&& a.messages.last().timestamp is Some
    &&& is_clock_time(a.messages.last().timestamp->0@)
    &&& a.messages.last().tool_calls@.len() == 0
}

/// The chat when the last message is sent again: the trailing notices and
/// the reply go, and the chat waits for a new reply.
pub open spec fn retry_set(b: ChatView, a: ChatView) -> bool {
    a == (ChatView { messages: retry_trimmed(b.messages), loading: true, auto_scroll: true, ..b })
}

impl SessionChatState {
    /// Whether the last message is a system notice.
    fn ends_with_notice(&self) -> (r: bool)
        ensures
            r == (self.messages@.len() > 0 && self.messages@.last().role == ChatRole::System),
    {
        self.messages.len() > 0 && match self.messages[self.messages.len() - 1].role {
            ChatRole::System => true,
            _ => false,
        }
    }

    /// The text of the last user message.
    fn last_user_message(&self) -> (r: Option<String>)
        ensures
            match r {
                Some(t) => last_user_text(self.messages@) == Some(t@),
                None => last_user_text(self.messages@) is None,
            },
    {
        let mut i = self.messages.len();
        assert(self.messages@.take(i as int) =~= self.messages@);
        while i > 0
            invariant
                i <= self.messages@.len(),
                last_user_text(self.messages@) == last_user_text(self.messages@.take(i as int)),
            decreases i,
        {
            let ghost pre = self.messages@.take(i as int);
            assert(pre.drop_last() =~= self.messages@.take(i - 1));
            assert(pre.last() == self.messages@[i - 1]);
            match self.messages[i - 1].role {
                ChatRole::User => {
                    return Some(self.messages[i - 1].content.clone());
                },
                _ => {},
            }
            i = i - 1;
        }
        assert(self.messages@.take(0) =~= Seq::<ChatMessage>::empty());
        None
    }

    /// Drop the trailing notices and the reply before them; wait for a new
    /// reply.
    fn set_retry(&mut self)
        ensures
            retry_set(old(self)@, final(self)@),
    {
        let ghost m0 = self.messages@;
        while self.ends_with_notice()
            invariant
                without_trailing_notices(self.messages@) == without_trailing_notices(m0),
                self@ == (ChatView { messages: self@.messages, ..old(self)@ }),
            decreases self.messages@.len(),
        {
            self.messages.pop();
        }
        assert(without_trailing_notices(self.messages@) == self.messages@);
        let is_reply = self.messages.len() > 0 && match self.messages[self.messages.len() - 1].role {
            ChatRole::Assistant => true,
            _ => false,
        };
        if is_reply {
            self.messages.pop();
        }
        self.loading = true;
        self.auto_scroll = true;
    }

    /// Record a message from the user and wait for the reply.
    pub fn add_user_message(&mut self, text: String)
        ensures
            user_message_added(old(self)@, final(self)@, text@),
    {
        self.messages.push(ChatMessage::user(text));
        self.loading = true;
        self.auto_scroll = true;
    }
}

impl AppState {
    /// The typed message, trimmed, for sending; an input of white space
    /// only is cleared and gives nothing.
    pub fn take_chat_message(&mut self) -> (r: Option<String>)
        ensures
            match r {
                Some(t) => t@ == trim_spec(old(self).input_buffer@) && t@.len() > 0 && *final(self)
                    == *old(self),
                None => trim_spec(old(self).input_buffer@).len() == 0 && *final(self) == (AppState {
                    input_buffer: final(self).input_buffer,
                    input_cursor: 0,
                    ..*old(self)
                }) && final(self).input_buffer@.len() == 0,
            },
    {
        let message = trim(self.input_buffer.as_str());
        if message.as_str().is_empty() {
            self.clear_input();
            None
        } else {
            Some(message)
        }
    }

    /// Record a sent message in the selected session's chat (made if
    /// missing), which then waits for the reply, and clear the input.
    pub fn queue_chat_message(&mut self, text: String)
        requires
            old(self).wf(),
        ensures
            final(self).wf(),
            final(self).input_buffer@.len() == 0,
            final(self).input_cursor == 0,
            active_chat_stepped(
                *old(self),
                AppState {
                    input_buffer: old(self).input_buffer,
                    input_cursor: old(self).input_cursor,
                    ..*final(self)
                },
                |pv: ChatView, av: ChatView| user_message_added(pv, av, text@),
            ),
    {
        let ghost t = text@;
        if self.selected_session < self.sessions.len() {
            let key = self.sessions[self.selected_session].key.clone();
            let p = self.chat_entry(key.as_str());
            let ghost mid = self.session_chats@;
            self.session_chats[p].state.add_user_message(text);
            proof {
                lemma_keys_kept(mid, self.session_chats@, p as int);
            }
        }
        self.clear_input();
    }

    /// Prepare to send the last user message again: unless the selected
    /// session's chat is already waiting for a reply, drop the notices and
    /// the reply that followed that message, and give its text to send.
    pub fn retry_last_message(&mut self) -> (r: Option<String>)
        requires
            old(self).wf(),
        ensures
            final(self).wf(),
            match active_chat_view(*old(self)) {
                Some(c) => if c.loading || last_user_text(c.messages) is None {
                    r is None && *final(self) == *old(self)
                } else {
                    &&& r is Some
                    &&& last_user_text(c.messages) == Some(r->0@)
                    &&& active_chat_stepped(
                        *old(self),
                        *final(self),
                        |pv: ChatView, av: ChatView| retry_set(pv, av),
                    )
                },
                None => r is None && *final(self) == *old(self),
            },
    {
        if self.selected_session >= self.sessions.len() {
            return None;
        }
        let key = self.sessions[self.selected_session].key.clone();
        let mut i: usize = 0;
        while i < self.session_chats.len()
            invariant
                i <= self.session_chats@.len(),
                *self == *old(self),
                self.wf(),
                self.selected_session < self.sessions@.len(),
                key@ == self.sessions@[self.selected_session as int].key@,
                forall|j: int| 0 <= j < i ==> #[trigger] self.session_chats@[j].key@ != key@,
            decreases self.session_chats@.len() - i,
        {
            if crate::text::str_eq(self.session_chats[i].key.as_str(), key.as_str()) {
                proof {
                    let c = self.session_chats@;
                    let q = choose|q: int| 0 <= q < c.len() && #[trigger] c[q].key@ == key@;
                    assert(c[i as int].key@ == key@);
                    if q < i {
                        assert(c[q].key@ != key@);
                    } else if q > i {
                        assert(c[i as int].key@ != c[q].key@);
                    }
                    assert(chat_pos(c, key@) == i);
                }
                if self.session_chats[i].state.loading {
                    return None;
                }
                let found = self.session_chats[i].state.last_user_message();
                match found {
                    Some(text) => {
                        let ghost mid = self.session_chats@;
                        self.session_chats[i].state.set_retry();
                        proof {
                            lemma_keys_kept(mid, self.session_chats@, i as int);
                            assert(active_key(*old(self)) == Some(key@));
                            assert(self.session_chats@.len() == mid.len());
                            assert(self.session_chats@[i as int].key == mid[i as int].key);
                        }
                        return Some(text);
                    },
                    None => {
                        return None;
                    },
                }
            }
            i = i + 1;
        }
        proof {
            assert(!exists|q: int| 0 <= q < self.session_chats@.len() && #[trigger] self.session_chats@[q].key@ == key@);
        }
        None
    }
}

} // verus!
