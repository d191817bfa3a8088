//! Transcript messages: a role tag plus free text.
//!
//! The ordered sequence of these messages *is* the prompt that a completion
//! request carries, so their order and roles matter to every contract in the
//! crate.

use vstd::prelude::*;

verus! {

/// Who a transcript entry speaks for.  `Error` marks a synthetic entry that
/// records a failed turn in the transcript instead of crashing the caller.
#[derive(Clone, Copy, PartialEq, Eq, Structural, Debug)]
pub enum Role {
    System,
    User,
    Assistant,
    Error,
}

/// One transcript entry.  Immutable once created; the session only ever
/// appends messages or truncates back to the initial system message.
#[derive(Debug)]
pub struct ChatMessage {
    pub role: Role,
    pub content: String,
}

/// The mathematical model of a message: its role and its text as a
/// sequence of characters.
#[verifier::ext_equal]
pub ghost struct MessageView {
    pub role: Role,
    pub content: Seq<char>,
}

impl View for ChatMessage {
    type V = MessageView;

    open spec fn view(&self) -> MessageView {
        MessageView { role: self.role, content: self.content@ }
    }
}

impl Clone for ChatMessage {
    fn clone(&self) -> (r: Self)
        ensures
            r == *self,
    {
        ChatMessage { role: self.role, content: self.content.clone() }
    }
}

impl ChatMessage {
    /// Build a message from a role and its text.
    pub fn new(role: Role, content: String) -> (m: ChatMessage)
        ensures
            m@ == (MessageView { role: role, content: content@ }),
    {
        ChatMessage { role, content }
    }
}

/// The model of the single message every fresh or reset transcript holds.
pub open spec fn system_message_view(prompt: Seq<char>) -> MessageView {
    MessageView { role: Role::System, content: prompt }
}

} // verus!
