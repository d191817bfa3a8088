//! The two wire entities of the completion endpoint: the request built for
//! one turn and the response that comes back.
//!
//! The library holds only the fields its logic reads or fixes per turn.  The
//! generation parameters that are fixed, fractional constants of the protocol
//! (temperature one half, zero presence and frequency penalties, server-default
//! top-p, no stop sequences, an empty logit-bias map) are applied verbatim by
//! the encoder that serializes the request outside the library; they are not
//! user-configurable and carry no decision the session logic depends on.

use vstd::prelude::*;
use crate::message::{ChatMessage, MessageView};

verus! {

/// The view of a whole transcript: each message replaced by its model.
pub open spec fn history_view(msgs: Seq<ChatMessage>) -> Seq<MessageView> {
    msgs.map_values(|m: ChatMessage| m@)
}

/// Appending a message to a transcript appends its view to the transcript's
/// view.
pub proof fn lemma_history_view_push(msgs: Seq<ChatMessage>, m: ChatMessage)
    ensures
        history_view(msgs.push(m)) == history_view(msgs).push(m@),
{
    assert(history_view(msgs.push(m)) =~= history_view(msgs).push(m@));
}

/// One outbound chat-completion request: the model identifier, the full
/// message history accumulated so far (it is the prompt), and the per-turn
/// generation parameters the session fixes.
pub struct CompletionRequest {
    pub model: String,
    pub messages: Vec<ChatMessage>,
    /// How many candidate choices to sample; the session always asks for one.
    pub n: usize,
    /// Whether to stream tokens; the session never streams.
    pub stream: bool,
    /// Upper bound on generated tokens for this turn.
    pub max_tokens: usize,
    /// The caller tag forwarded with every request.
    pub user: String,
}

/// The mathematical model of a request.
#[verifier::ext_equal]
pub ghost struct RequestView {
    pub model: Seq<char>,
    pub messages: Seq<MessageView>,
    pub n: int,
    pub stream: bool,
    pub max_tokens: int,
    pub user: Seq<char>,
}

impl View for CompletionRequest {
    type V = RequestView;

    open spec fn view(&self) -> RequestView {
        RequestView {
            model: self.model@,
            messages: history_view(self.messages@),
            n: self.n as int,
            stream: self.stream,
            max_tokens: self.max_tokens as int,
            user: self.user@,
        }
    }
}

/// Token usage counters reported by the endpoint; each may be absent.
#[derive(Clone, Copy, Debug)]
pub struct Usage {
    pub prompt_tokens: Option<u32>,
    pub completion_tokens: Option<u32>,
    pub total_tokens: Option<u32>,
}

/// One candidate reply in a completion response.
#[derive(Debug)]
pub struct Choice {
    pub message: ChatMessage,
    pub index: usize,
    pub finish_reason: Option<String>,
    pub usage: Option<Usage>,
}

/// One decoded chat-completion response.
#[derive(Debug)]
pub struct CompletionResponse {
    pub id: String,
    pub object: String,
    pub created: u128,
    pub model: String,
    pub usage: Usage,
    pub choices: Vec<Choice>,
}

} // verus!
