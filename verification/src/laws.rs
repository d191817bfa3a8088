//! The laws of the conversation session, stated over the views that the
//! operations' contracts speak of and proved once and for all.

use vstd::prelude::*;
use crate::client::{lemma_failed_outcome_reply_is_error, reply_view};
use crate::message::{system_message_view, MessageView, Role};
use crate::model::Model;
use crate::session::{appended_view, fresh_view, reset_view, well_formed, SessionView};
use crate::wire::CompletionResponse;

verus! {

/// A transcript of `n` completed turns: the initial system message carrying
/// the system prompt, then strictly alternating user and assistant messages,
/// two per turn — `1 + 2 * n` messages in all.
pub open spec fn alternating_turns(h: Seq<MessageView>, prompt: Seq<char>, n: nat) -> bool {
    &&& h.len() == 1 + 2 * n
    &&& h[0] == system_message_view(prompt)
    &&& forall|i: int| 1 <= i < h.len() && i % 2 == 1 ==> (#[trigger] h[i]).role == Role::User
    &&& forall|i: int| 1 <= i < h.len() && i % 2 == 0 ==> (#[trigger] h[i]).role == Role::Assistant
}

/// A fresh session's transcript is a transcript of zero turns.
pub proof fn lemma_fresh_alternating(api_key: Seq<char>, model: Model, prompt: Seq<char>)
    ensures
        alternating_turns(fresh_view(api_key, model, prompt).history, prompt, 0),
{
}

/// One successful turn — the user's message followed by an assistant reply —
/// extends a transcript of `n` turns to a transcript of `n + 1` turns.  So
/// after any sequence of `n` successful turns the transcript holds exactly
/// `1 + 2 * n` messages, alternating user and assistant after the system
/// message.
pub proof fn lemma_turn_extends_alternation(
    h: Seq<MessageView>,
    prompt: Seq<char>,
    n: nat,
    user_msg: MessageView,
    reply: MessageView,
)
    requires
        alternating_turns(h, prompt, n),
        user_msg.role == Role::User,
        reply.role == Role::Assistant,
    ensures
        alternating_turns(h.push(user_msg).push(reply), prompt, n + 1),
{
    let h2 = h.push(user_msg).push(reply);
    assert(h2[0] == h[0]);
    assert forall|i: int| 1 <= i < h2.len() && i % 2 == 1 implies (#[trigger] h2[i]).role
        == Role::User by {
        if i < h.len() {
            assert(h2[i] == h[i]);
        } else if i == h.len() {
            assert(h2[i] == user_msg);
        } else {
            assert(i == h.len() + 1);
            assert(i % 2 == 0);
        }
    }
    assert forall|i: int| 1 <= i < h2.len() && i % 2 == 0 implies (#[trigger] h2[i]).role
        == Role::Assistant by {
        if i < h.len() {
            assert(h2[i] == h[i]);
        } else if i == h.len() {
            assert(i % 2 == 1);
        } else {
            assert(h2[i] == reply);
        }
    }
}

/// One successful turn of the session itself: `prepare_turn` appends the
/// user's message and `finish_turn` appends the reply, so when the round
/// trip returns at least one choice whose message is an assistant message,
/// a session holding `n` completed turns holds `n + 1` afterwards.
pub proof fn lemma_session_turn_alternation(
    s: SessionView,
    prompt: Seq<char>,
    n: nat,
    user_text: Seq<char>,
    outcome: Result<CompletionResponse, String>,
)
    requires
        alternating_turns(s.history, prompt, n),
        outcome matches Ok(resp) && resp.choices@.len() > 0 && resp.choices@[0].message@.role
            == Role::Assistant,
    ensures
        ({
            let user_msg = MessageView { role: Role::User, content: user_text };
            let after = appended_view(appended_view(s, user_msg), reply_view(outcome));
            alternating_turns(after.history, prompt, n + 1)
        }),
{
    let user_msg = MessageView { role: Role::User, content: user_text };
    lemma_turn_extends_alternation(s.history, prompt, n, user_msg, reply_view(outcome));
}

/// Starting a session and immediately resetting it changes nothing: for any
/// system prompt the transcript is exactly the one system message carrying
/// that prompt.
pub proof fn lemma_reset_after_start(api_key: Seq<char>, model: Model, prompt: Seq<char>)
    ensures
        reset_view(fresh_view(api_key, model, prompt)) == fresh_view(api_key, model, prompt),
        reset_view(fresh_view(api_key, model, prompt)).history == seq![system_message_view(prompt)],
{
    assert(reset_view(fresh_view(api_key, model, prompt)) =~= fresh_view(api_key, model, prompt));
}

/// Reset is idempotent: resetting twice is resetting once.
pub proof fn lemma_reset_idempotent(s: SessionView)
    ensures
        reset_view(reset_view(s)) == reset_view(s),
{
    assert(reset_view(reset_view(s)) =~= reset_view(s));
}

/// Reset restores the transcript to exactly one element — the original
/// system message — regardless of what any number of turns appended, and
/// touches neither credential, model nor system prompt.
pub proof fn lemma_reset_restores_system_message(s: SessionView)
    ensures
        reset_view(s).history.len() == 1,
        reset_view(s).history[0] == system_message_view(s.system_prompt),
        reset_view(s).api_key == s.api_key,
        reset_view(s).model == s.model,
        reset_view(s).system_prompt == s.system_prompt,
{
}

/// A fresh session satisfies the session invariant: the transcript starts
/// with the system message carrying the system prompt.
pub proof fn lemma_fresh_well_formed(api_key: Seq<char>, model: Model, prompt: Seq<char>)
    ensures
        well_formed(fresh_view(api_key, model, prompt)),
{
}

/// Appending a message — as both halves of a turn do — preserves the
/// session invariant.
pub proof fn lemma_append_preserves_well_formed(s: SessionView, m: MessageView)
    requires
        well_formed(s),
    ensures
        well_formed(appended_view(s, m)),
{
}

/// Reset re-establishes the session invariant from any state.
pub proof fn lemma_reset_well_formed(s: SessionView)
    ensures
        well_formed(reset_view(s)),
{
}

/// A failed turn — a transport failure or a response with zero choices —
/// leaves the transcript with the user's message already appended, followed
/// by one synthetic error-role message; nothing before them is rolled back
/// and the caller is never interrupted.
pub proof fn lemma_failed_turn_transcript(
    s: SessionView,
    user_text: Seq<char>,
    outcome: Result<CompletionResponse, String>,
)
    requires
        !(outcome matches Ok(resp) && resp.choices@.len() > 0),
    ensures
        ({
            let user_msg = MessageView { role: Role::User, content: user_text };
            let after = appended_view(appended_view(s, user_msg), reply_view(outcome));
            &&& after.history.len() == s.history.len() + 2
            &&& after.history[s.history.len() as int] == user_msg
            &&& after.history.last().role == Role::Error
            &&& after.history.subrange(0, s.history.len() as int) == s.history
        }),
{
    lemma_failed_outcome_reply_is_error(outcome);
    let user_msg = MessageView { role: Role::User, content: user_text };
    let after = appended_view(appended_view(s, user_msg), reply_view(outcome));
    assert(after.history.subrange(0, s.history.len() as int) =~= s.history);
}

} // verus!
