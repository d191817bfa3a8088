//! The conversation session: an ordered transcript with a persistent
//! system-prompt prefix, a fixed model identifier, and the credential the
//! completion endpoint is addressed with.
//!
//! A turn is split in two around the network round trip, which happens
//! outside the library: [`OpenAPI::prepare_turn`] appends the user's message
//! and builds the outbound request, and [`OpenAPI::finish_turn`] absorbs the
//! round trip's outcome back into the transcript — the winning choice on
//! success, a synthetic error-role message on failure.  A failed turn is
//! recorded, never thrown: the transcript keeps the user message that was
//! attempted, followed by the description of what went wrong.

use vstd::prelude::*;
use crate::client::{complete_outcome, reply_view};
use crate::message::{system_message_view, ChatMessage, MessageView, Role};
use crate::model::{model_id, Model};
use crate::wire::{history_view, CompletionRequest, CompletionResponse, RequestView};

verus! {

/// The smallest generation budget a turn may ask for.
pub const MIN_MAX_TOKENS: usize = 1;

/// The largest generation budget a turn may ask for.
pub const MAX_MAX_TOKENS: usize = 32768;

/// The caller tag forwarded with every request.
pub open spec fn caller_tag_view() -> Seq<char> {
    "agent"@
}

/// The documented placeholder credential that `start_session` rejects.
pub open spec fn placeholder_credential_view() -> Seq<char> {
    "<your-openai-api-key-here>"@
}

/// The documented placeholder credential, as shown to the user before a real
/// credential is supplied.
pub fn placeholder_credential() -> (r: &'static str)
    ensures
        r@ == placeholder_credential_view(),
{
    "<your-openai-api-key-here>"
}

/// One conversation session.  The transcript is public so a front-end can
/// render it in order with read-only access; all mutation goes through the
/// session's operations.
#[derive(Debug)]
pub struct OpenAPI {
    api_key: String,
    model: Model,
    system_prompt: String,
    pub messages: Vec<ChatMessage>,
}

/// The mathematical model of a session.
#[verifier::ext_equal]
pub ghost struct SessionView {
    pub api_key: Seq<char>,
    pub model: Model,
    pub system_prompt: Seq<char>,
    pub history: Seq<MessageView>,
}

impl View for OpenAPI {
    type V = SessionView;

    closed spec fn view(&self) -> SessionView {
        SessionView {
            api_key: self.api_key@,
            model: self.model,
            system_prompt: self.system_prompt@,
            history: history_view(self.messages@),
        }
    }
}

/// A session as `new` creates it: the transcript holds exactly the one
/// system message carrying the system prompt.
pub open spec fn fresh_view(api_key: Seq<char>, model: Model, system_prompt: Seq<char>) -> SessionView {
    SessionView {
        api_key: api_key,
        model: model,
        system_prompt: system_prompt,
        history: seq![system_message_view(system_prompt)],
    }
}

/// What reset does to a session: the transcript goes back to the single
/// initial system message; credential, model and system prompt are kept.
pub open spec fn reset_view(s: SessionView) -> SessionView {
    SessionView { history: seq![system_message_view(s.system_prompt)], ..s }
}

/// What appending one message does to a session.
pub open spec fn appended_view(s: SessionView, m: MessageView) -> SessionView {
    SessionView { history: s.history.push(m), ..s }
}

/// The session invariant: the transcript is never empty and its first
/// element is always the system message carrying the system prompt.
pub open spec fn well_formed(s: SessionView) -> bool {
    &&& s.history.len() >= 1
    &&& s.history[0] == system_message_view(s.system_prompt)
}

impl OpenAPI {
    /// Create a session whose transcript holds exactly the initial system
    /// message.
    pub fn new(api_key: String, model: Model, system_prompt: String) -> (s: OpenAPI)
        ensures
            s@ == fresh_view(api_key@, model, system_prompt@),
    {
        let first = ChatMessage::new(Role::System, system_prompt.clone());
        let mut messages: Vec<ChatMessage> = Vec::new();
        messages.push(first);
        let s = OpenAPI { api_key, model, system_prompt, messages };
        proof {
            assert(s@.history =~= seq![system_message_view(s.system_prompt@)]);
        }
        s
    }

    /// The credential the session was started with, for the transport's
    /// authorization header.
    pub fn credential(&self) -> (r: &String)
        ensures
            r@ == self@.api_key,
    {
        &self.api_key
    }

    /// Append the user's message for one turn and build the completion
    /// request for it: the session's model identifier, the full transcript
    /// including the new user message, exactly one sampled choice, no
    /// streaming, the caller's generation budget, and the fixed caller tag.
    pub fn prepare_turn(&mut self, user_prompt: String, max_tokens: usize) -> (req:
        CompletionRequest)
        requires
            MIN_MAX_TOKENS <= max_tokens <= MAX_MAX_TOKENS,
        ensures
            final(self)@ == appended_view(
                old(self)@,
                MessageView { role: Role::User, content: user_prompt@ },
            ),
            req@ == (RequestView {
                model: model_id(old(self)@.model),
                messages: final(self)@.history,
                n: 1,
                stream: false,
                max_tokens: max_tokens as int,
                user: caller_tag_view(),
            }),
    {
        let message = ChatMessage::new(Role::User, user_prompt);
        proof {
            crate::wire::lemma_history_view_push(self.messages@, message);
        }
        self.messages.push(message);
        let request_messages = clone_messages(&self.messages);
        let req = CompletionRequest {
            model: self.model.to_string(),
            messages: request_messages,
            n: 1,
            stream: false,
            max_tokens,
            user: "agent".to_owned(),
        };
        req
    }

    /// Absorb the outcome of one network round trip: append the reply the
    /// turn produced — the first choice's message, or a synthetic
    /// error-role message describing the failure — and return it.
    pub fn finish_turn(&mut self, outcome: Result<CompletionResponse, String>) -> (reply:
        ChatMessage)
        ensures
            reply@ == reply_view(outcome),
            final(self)@ == appended_view(old(self)@, reply_view(outcome)),
    {
        let reply = match complete_outcome(outcome) {
            Ok(message) => message,
            Err(failure) => ChatMessage::new(Role::Error, failure.describe()),
        };
        proof {
            crate::wire::lemma_history_view_push(self.messages@, reply);
        }
        let recorded = reply.clone();
        self.messages.push(recorded);
        reply
    }

    /// Truncate the transcript back to the single initial system message;
    /// credential, model and system prompt are unchanged.
    pub fn clear_chat(&mut self)
        ensures
            final(self)@ == reset_view(old(self)@),
    {
        let first = ChatMessage::new(Role::System, self.system_prompt.clone());
        let mut messages: Vec<ChatMessage> = Vec::new();
        messages.push(first);
        self.messages = messages;
        proof {
            assert(self@.history =~= seq![system_message_view(self.system_prompt@)]);
        }
    }
}

/// A session-lifecycle failure.  Each is recovered at the session boundary
/// and shown to the user; none is fatal.
#[derive(Clone, Copy, PartialEq, Eq, Structural, Debug)]
pub enum SessionError {
    /// `start_session` was given the documented placeholder credential.
    InvalidCredential,
    /// `start_session` was called while a session exists.
    SessionAlreadyActive,
    /// A turn, clear or end was attempted with no session started.
    NoActiveSession,
}

/// The human-readable text a lifecycle failure leaves in the front-end's
/// transcript.
pub open spec fn session_error_text(e: SessionError) -> Seq<char> {
    match e {
        SessionError::InvalidCredential => "the supplied credential is the documented placeholder; enter a real credential and try again"@,
        SessionError::SessionAlreadyActive => "a chat session is already in progress; end or clear it before starting a new one"@,
        SessionError::NoActiveSession => "no chat session is active; start one first"@,
    }
}

impl SessionError {
    /// Render the failure as the text of a synthetic transcript message.
    pub fn describe(&self) -> (r: String)
        ensures
            r@ == session_error_text(*self),
    {
        match self {
            SessionError::InvalidCredential => "the supplied credential is the documented placeholder; enter a real credential and try again".to_owned(),
            SessionError::SessionAlreadyActive => "a chat session is already in progress; end or clear it before starting a new one".to_owned(),
            SessionError::NoActiveSession => "no chat session is active; start one first".to_owned(),
        }
    }
}

/// Start a chat in the front-end's single session slot.  Rejected with
/// `SessionAlreadyActive` while a session exists (the slot is untouched,
/// never silently overwritten), and with `InvalidCredential` for the
/// documented placeholder credential (no session is left behind).
pub fn start_session(
    slot: &mut Option<OpenAPI>,
    api_key: String,
    model: Model,
    system_prompt: String,
) -> (r: Result<(), SessionError>)
    ensures
        (match *old(slot) {
            Some(_) => r == Err::<(), SessionError>(SessionError::SessionAlreadyActive)
                && *final(slot) == *old(slot),
            None => if api_key@ == placeholder_credential_view() {
                r == Err::<(), SessionError>(SessionError::InvalidCredential) && (*final(slot)) is None
            } else {
                r == Ok::<(), SessionError>(()) && ((*final(slot)) matches Some(s) && s@ == fresh_view(
                    api_key@,
                    model,
                    system_prompt@,
                ))
            },
        }),
{
    if slot.is_some() {
        return Err(SessionError::SessionAlreadyActive);
    }
    let placeholder = placeholder_credential().to_owned();
    if api_key == placeholder {
        return Err(SessionError::InvalidCredential);
    }
    *slot = Some(OpenAPI::new(api_key, model, system_prompt));
    Ok(())
}

/// End the chat: the session leaves the slot and is dropped, so credential
/// and model are no longer retained.  With no active session the attempt is
/// surfaced, not fatal.
pub fn end_session(slot: &mut Option<OpenAPI>) -> (r: Result<(), SessionError>)
    ensures
        (*final(slot)) is None,
        r == if (*old(slot)) is Some {
            Ok::<(), SessionError>(())
        } else {
            Err::<(), SessionError>(SessionError::NoActiveSession)
        },
{
    match slot.take() {
        Some(_) => Ok(()),
        None => Err(SessionError::NoActiveSession),
    }
}

/// Clear the chat: the active session's transcript goes back to the single
/// initial system message and the session stays in the slot.  With no active
/// session the attempt is surfaced, not fatal.
pub fn clear_session(slot: &mut Option<OpenAPI>) -> (r: Result<(), SessionError>)
    ensures
        (match *old(slot) {
            None => r == Err::<(), SessionError>(SessionError::NoActiveSession)
                && (*final(slot)) is None,
            Some(s) => r == Ok::<(), SessionError>(()) && ((*final(slot)) matches Some(after) && after@
                == reset_view(s@)),
        }),
{
    match slot.take() {
        Some(mut s) => {
            s.clear_chat();
            *slot = Some(s);
            Ok(())
        },
        None => Err(SessionError::NoActiveSession),
    }
}

/// Copy a transcript for the outbound request payload.
fn clone_messages(msgs: &Vec<ChatMessage>) -> (r: Vec<ChatMessage>)
    ensures
        r@ == msgs@,
{
    let cloned_msgs = msgs.clone();
    proof {
        assert forall|i: int| 0 <= i < msgs@.len() implies cloned_msgs@[i] == msgs@[i] by {
            assert(vstd::pervasive::cloned::<ChatMessage>(msgs@[i], cloned_msgs@[i]));
        }
        assert(cloned_msgs@ =~= msgs@);
    }
    cloned_msgs
}

} // verus!
