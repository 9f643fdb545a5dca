use vstd::prelude::*;
use crate::json::request_body;
use crate::json::response_output;
use crate::message::Message;
use crate::message::Role;

verus! {

/// Per-turn backend failure as the library sees it. Transport failures never
/// reach the library — the I/O shell around it reports those itself — so the
/// one case decided here is a response body outside the protocol's grammar.
#[derive(Clone, Copy, Debug, PartialEq, Eq, Structural)]
pub enum NetworkError {
    MalformedResponse,
}

/// Error raised by a conversation operation that would break the log's
/// invariant.
#[derive(Clone, Copy, Debug, PartialEq, Eq, Structural)]
pub enum ContextError {
    /// The operation would remove the system prompt at position zero.
    SystemPromptProtected,
}

/// The ordered conversation log. Position zero always holds the system
/// prompt; entries are appended in chronological order, and only the last
/// entry can be removed, never the system prompt.
pub struct ConversationContext {
    messages: Vec<Message>,
}

impl ConversationContext {
    /// The log as a sequence of messages, oldest first.
    pub closed spec fn log(&self) -> Seq<Message> {
        self.messages@
    }

    /// Invariant: the log is never empty and starts with the system prompt.
    pub open spec fn wf(&self) -> bool {
        &&& self.log().len() >= 1
        &&& self.log()[0].role == Role::System
    }

    /// A fresh conversation seeded with its system prompt.
    pub fn new(sys_prompt: String) -> (c: Self)
        ensures
            c.wf(),
            c.log().len() == 1,
            c.log()[0] == (Message { role: Role::System, content: sys_prompt }),
    {
        let mut messages: Vec<Message> = Vec::new();
        messages.push(Message::system(sys_prompt));
        ConversationContext { messages }
    }

    /// How many messages the log holds.
    pub fn len(&self) -> (n: usize)
        ensures
            n == self.log().len(),
    {
        self.messages.len()
    }

    /// The message at position `i`.
    pub fn message_at(&self, i: usize) -> (m: &Message)
        requires
            i < self.log().len(),
        ensures
            *m == self.log()[i as int],
    {
        &self.messages[i]
    }

    /// The newest message.
    pub fn last(&self) -> (m: &Message)
        requires
            self.log().len() >= 1,
        ensures
            *m == self.log().last(),
    {
        &self.messages[self.messages.len() - 1]
    }

    /// Append a user turn.
    pub fn append_user(&mut self, text: String)
        requires
            old(self).wf(),
        ensures
            final(self).wf(),
            final(self).log() == old(self).log().push(
                (Message { role: Role::User, content: text }),
            ),
    {
        self.messages.push(Message::user(text));
    }

    /// Append an assistant turn.
    pub fn append_assistant(&mut self, text: String)
        requires
            old(self).wf(),
        ensures
            final(self).wf(),
            final(self).log() == old(self).log().push(
                (Message { role: Role::Assistant, content: text }),
            ),
    {
        self.messages.push(Message::assistant(text));
    }

    /// Append a further system instruction after the initial prompt.
    pub fn append_system(&mut self, text: String)
        requires
            old(self).wf(),
        ensures
            final(self).wf(),
            final(self).log() == old(self).log().push(
                (Message { role: Role::System, content: text }),
            ),
    {
        self.messages.push(Message::system(text));
    }

    /// Replace the content of the system prompt at position zero.
    pub fn set_system(&mut self, text: String)
        requires
            old(self).wf(),
        ensures
            final(self).wf(),
            final(self).log() == old(self).log().update(
                0,
                (Message { role: Role::System, content: text }),
            ),
    {
        let replacement = Message::system(text);
        self.messages.set(0, replacement);
    }

    /// Remove the newest message. Fails, leaving the log unchanged, when only
    /// the system prompt is left: the prompt at position zero is never
    /// removed.
    pub fn remove_last(&mut self) -> (r: Result<(), ContextError>)
        requires
            old(self).wf(),
        ensures
            final(self).wf(),
            old(self).log().len() == 1 ==> {
                &&& r == Result::<(), ContextError>::Err(ContextError::SystemPromptProtected)
                &&& final(self).log() == old(self).log()
            },
            old(self).log().len() > 1 ==> {
                &&& r is Ok
                &&& final(self).log() == old(self).log().drop_last()
            },
    {
        if self.messages.len() <= 1 {
            Err(ContextError::SystemPromptProtected)
        } else {
            self.messages.pop();
            Ok(())
        }
    }

    /// The request body for one backend round trip: the whole log,
    /// serialized verbatim in chronological order.
    pub fn encode_request(&self) -> (r: String)
        ensures
            r@ == request_body(self.log()),
    {
        crate::json::encode_request(&self.messages)
    }

    /// Take the backend's answer to the round trip: a well-formed response
    /// appends exactly its output as a new assistant message; a malformed
    /// one fails and leaves the conversation completely unchanged — no
    /// partial append, so a failed turn can simply be retried.
    pub fn apply_response(&mut self, body: &str) -> (r: Result<(), NetworkError>)
        requires
            old(self).wf(),
        ensures
            final(self).wf(),
            response_output(body@) is None ==> {
                &&& r == Result::<(), NetworkError>::Err(NetworkError::MalformedResponse)
                &&& final(self).log() == old(self).log()
            },
            response_output(body@) matches Some(out) ==> {
                &&& r is Ok
                &&& final(self).log().len() == old(self).log().len() + 1
                &&& final(self).log().drop_last() == old(self).log()
                &&& final(self).log().last().role == Role::Assistant
                &&& final(self).log().last().content@ == out
            },
    {
        match crate::json::parse_response(body) {
            Some(output) => {
                self.messages.push(Message::assistant(output));
                proof {
                    assert(final(self).log().drop_last() =~= old(self).log());
                }
                Ok(())
            },
            None => Err(NetworkError::MalformedResponse),
        }
    }
}

} // verus!
