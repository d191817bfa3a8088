//! The completion client's result mapping.
//!
//! The network round trip itself happens outside the library; it hands back
//! either a decoded [`CompletionResponse`] or the transport's own description
//! of what failed (a connection error, a non-success status, or a malformed
//! body).  Everything the client decides about that outcome is verified here.

use vstd::prelude::*;
use vstd::string::StringExecFns;
use crate::message::{ChatMessage, MessageView, Role};
use crate::wire::CompletionResponse;

verus! {

/// A failed completion attempt.
#[derive(Debug)]
pub enum CompletionError {
    /// Connection error, non-success status, or malformed body, with the
    /// transport's description of it.
    Transport(String),
    /// A well-formed response that carried zero choices; recoverable and
    /// reportable rather than fatal.
    EmptyResponse,
}

/// The human-readable text a completion failure leaves in the transcript.
pub open spec fn completion_error_text(e: CompletionError) -> Seq<char> {
    match e {
        CompletionError::Transport(detail) => "completion transport failure: "@ + detail@,
        CompletionError::EmptyResponse => "the completion endpoint returned no choices for the prompt"@,
    }
}

impl CompletionError {
    /// Render the failure as the text of a synthetic transcript message.
    pub fn describe(&self) -> (r: String)
        ensures
            r@ == completion_error_text(*self),
    {
        match self {
            CompletionError::Transport(detail) => {
                let mut text = "completion transport failure: ".to_owned();
                text.append(detail.as_str());
                text
            },
            CompletionError::EmptyResponse => {
                "the completion endpoint returned no choices for the prompt".to_owned()
            },
        }
    }
}

/// Map the outcome of one network round trip to the first completion choice
/// or a typed failure: a transport failure stays a transport failure, a
/// success with no choices is an empty response, and a success with at least
/// one choice yields exactly the first choice's message.
pub fn complete_outcome(outcome: Result<CompletionResponse, String>) -> (r: Result<
    ChatMessage,
    CompletionError,
>)
    ensures
        (match outcome {
            Err(detail) => r == Err::<ChatMessage, CompletionError>(
                CompletionError::Transport(detail),
            ),
            Ok(resp) => if resp.choices@.len() == 0 {
                r == Err::<ChatMessage, CompletionError>(CompletionError::EmptyResponse)
            } else {
                r matches Ok(m) && m == resp.choices@[0].message
            },
        }),
{
    match outcome {
        Ok(resp) => {
            if resp.choices.len() > 0 {
                Ok(resp.choices[0].message.clone())
            } else {
                Err(CompletionError::EmptyResponse)
            }
        },
        Err(detail) => Err(CompletionError::Transport(detail)),
    }
}

/// The message one turn appends after the network round trip: the first
/// choice's message on success, and a synthetic error-role message naming
/// the failure otherwise.
pub open spec fn reply_view(outcome: Result<CompletionResponse, String>) -> MessageView {
    match outcome {
        Ok(resp) => if resp.choices@.len() > 0 {
            resp.choices@[0].message@
        } else {
            MessageView {
                role: Role::Error,
                content: completion_error_text(CompletionError::EmptyResponse),
            }
        },
        Err(detail) => MessageView {
            role: Role::Error,
            content: completion_error_text(CompletionError::Transport(detail)),
        },
    }
}

/// Every failed round trip — a transport failure or a response with zero
/// choices — is absorbed as an error-role transcript message, never an
/// interruption of the caller.
pub proof fn lemma_failed_outcome_reply_is_error(outcome: Result<CompletionResponse, String>)
    requires
        !(outcome matches Ok(resp) && resp.choices@.len() > 0),
    ensures
        reply_view(outcome).role == Role::Error,
{
}

} // verus!
