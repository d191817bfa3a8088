use gpt_chat::message::{ChatMessage, Role};
use gpt_chat::model::Model;
use gpt_chat::session::{
    clear_session, end_session, placeholder_credential, start_session, OpenAPI, SessionError,
};
use gpt_chat::wire::{Choice, CompletionResponse, Usage};

fn no_usage() -> Usage {
    Usage { prompt_tokens: None, completion_tokens: None, total_tokens: None }
}

fn assistant_response(text: &str) -> CompletionResponse {
    CompletionResponse {
        id: "x".to_string(),
        object: "y".to_string(),
        created: 0,
        model: "gpt-4".to_string(),
        usage: no_usage(),
        choices: vec![Choice {
            message: ChatMessage::new(Role::Assistant, text.to_string()),
            index: 0,
            finish_reason: None,
            usage: None,
        }],
    }
}

fn empty_response() -> CompletionResponse {
    CompletionResponse {
        id: "x".to_string(),
        object: "y".to_string(),
        created: 0,
        model: "gpt-4".to_string(),
        usage: no_usage(),
        choices: Vec::new(),
    }
}

#[test]
fn start_with_placeholder_fails_and_leaves_no_session() {
    let mut slot: Option<OpenAPI> = None;
    let r = start_session(
        &mut slot,
        placeholder_credential().to_string(),
        Model::Gpt3_5Turbo,
        "You are a friendly assistant.".to_string(),
    );
    assert_eq!(r, Err(SessionError::InvalidCredential));
    assert!(slot.is_none());
}

#[test]
fn start_while_active_is_rejected_and_session_kept() {
    let mut slot: Option<OpenAPI> = None;
    let first = start_session(
        &mut slot,
        "sk-real".to_string(),
        Model::Gpt4,
        "first prompt".to_string(),
    );
    assert_eq!(first, Ok(()));
    let second = start_session(
        &mut slot,
        "sk-other".to_string(),
        Model::Gpt3_5Turbo,
        "second prompt".to_string(),
    );
    assert_eq!(second, Err(SessionError::SessionAlreadyActive));
    let session = slot.as_ref().unwrap();
    assert_eq!(session.messages.len(), 1);
    assert_eq!(session.messages[0].content, "first prompt");
}

#[test]
fn start_then_reset_yields_single_system_message() {
    for prompt in ["", "be nice", "You are a friendly assistant."] {
        let mut slot: Option<OpenAPI> = None;
        let r = start_session(
            &mut slot,
            "sk-real".to_string(),
            Model::Gpt4,
            prompt.to_string(),
        );
        assert_eq!(r, Ok(()));
        assert_eq!(clear_session(&mut slot), Ok(()));
        let session = slot.as_ref().unwrap();
        assert_eq!(session.messages.len(), 1);
        assert!(session.messages[0].role == Role::System);
        assert_eq!(session.messages[0].content, prompt);
    }
}

#[test]
fn successful_turns_alternate_user_assistant() {
    let mut session =
        OpenAPI::new("sk-real".to_string(), Model::Gpt4, "be nice".to_string());
    let turns = 3;
    for i in 0..turns {
        let question = format!("question {i}");
        let _req = session.prepare_turn(question, 50);
        let reply = session.finish_turn(Ok(assistant_response("an answer")));
        assert!(reply.role == Role::Assistant);
    }
    assert_eq!(session.messages.len(), 1 + 2 * turns);
    assert!(session.messages[0].role == Role::System);
    for i in 1..session.messages.len() {
        if i % 2 == 1 {
            assert!(session.messages[i].role == Role::User);
        } else {
            assert!(session.messages[i].role == Role::Assistant);
        }
    }
}

#[test]
fn zero_choices_appends_user_then_error() {
    let mut session =
        OpenAPI::new("sk-real".to_string(), Model::Gpt4, "be nice".to_string());
    let _req = session.prepare_turn("anything there?".to_string(), 50);
    let reply = session.finish_turn(Ok(empty_response()));
    assert!(reply.role == Role::Error);
    assert_eq!(session.messages.len(), 3);
    assert!(session.messages[1].role == Role::User);
    assert_eq!(session.messages[1].content, "anything there?");
    assert!(session.messages[2].role == Role::Error);
    assert_eq!(
        session.messages[2].content,
        "the completion endpoint returned no choices for the prompt"
    );
}

#[test]
fn reset_after_turns_restores_original_system_message() {
    let mut session =
        OpenAPI::new("sk-real".to_string(), Model::Gpt4, "original prompt".to_string());
    for _ in 0..2 {
        let _req = session.prepare_turn("hi".to_string(), 50);
        let _reply = session.finish_turn(Ok(assistant_response("hello")));
    }
    let _req = session.prepare_turn("hi".to_string(), 50);
    let _reply = session.finish_turn(Err("connection refused".to_string()));
    session.clear_chat();
    assert_eq!(session.messages.len(), 1);
    assert!(session.messages[0].role == Role::System);
    assert_eq!(session.messages[0].content, "original prompt");
}

#[test]
fn reset_is_idempotent() {
    let mut session =
        OpenAPI::new("sk-real".to_string(), Model::Gpt4, "original prompt".to_string());
    let _req = session.prepare_turn("hi".to_string(), 50);
    let _reply = session.finish_turn(Ok(assistant_response("hello")));
    session.clear_chat();
    session.clear_chat();
    assert_eq!(session.messages.len(), 1);
    assert!(session.messages[0].role == Role::System);
    assert_eq!(session.messages[0].content, "original prompt");
}

#[test]
fn mock_turn_returns_and_appends_assistant_hi() {
    let mut session =
        OpenAPI::new("sk-real".to_string(), Model::Gpt4, "be nice".to_string());
    let req = session.prepare_turn("hello".to_string(), 50);
    assert_eq!(req.max_tokens, 50);
    let reply = session.finish_turn(Ok(assistant_response("hi")));
    assert!(reply.role == Role::Assistant);
    assert_eq!(reply.content, "hi");
    assert_eq!(session.messages.len(), 3);
    let appended = session.messages.last().unwrap();
    assert!(appended.role == Role::Assistant);
    assert_eq!(appended.content, "hi");
}

#[test]
fn http_500_surfaces_single_transport_error_message() {
    let mut session =
        OpenAPI::new("sk-real".to_string(), Model::Gpt4, "be nice".to_string());
    let _req = session.prepare_turn("hello".to_string(), 50);
    let before = session.messages.len();
    let reply = session.finish_turn(Err("HTTP 500 Internal Server Error".to_string()));
    assert!(reply.role == Role::Error);
    assert_eq!(session.messages.len(), before + 1);
    assert_eq!(
        session.messages.last().unwrap().content,
        "completion transport failure: HTTP 500 Internal Server Error"
    );
}

#[test]
fn request_carries_model_history_and_fixed_parameters() {
    let mut session =
        OpenAPI::new("sk-real".to_string(), Model::Gpt3_5Turbo, "be nice".to_string());
    let req = session.prepare_turn("hello".to_string(), 128);
    assert_eq!(req.model, "gpt-3.5-turbo");
    assert_eq!(req.n, 1);
    assert!(!req.stream);
    assert_eq!(req.max_tokens, 128);
    assert_eq!(req.user, "agent");
    assert_eq!(req.messages.len(), 2);
    assert!(req.messages[0].role == Role::System);
    assert_eq!(req.messages[0].content, "be nice");
    assert!(req.messages[1].role == Role::User);
    assert_eq!(req.messages[1].content, "hello");
}

#[test]
fn turn_budget_bounds_are_accepted() {
    let mut session =
        OpenAPI::new("sk-real".to_string(), Model::Gpt4, "be nice".to_string());
    let smallest = session.prepare_turn("one token".to_string(), 1);
    assert_eq!(smallest.max_tokens, 1);
    let largest = session.prepare_turn("many tokens".to_string(), 32768);
    assert_eq!(largest.max_tokens, 32768);
}

#[test]
fn end_session_drops_the_session() {
    let mut slot: Option<OpenAPI> = None;
    let r = start_session(
        &mut slot,
        "sk-real".to_string(),
        Model::Gpt4,
        "be nice".to_string(),
    );
    assert_eq!(r, Ok(()));
    assert_eq!(end_session(&mut slot), Ok(()));
    assert!(slot.is_none());
    assert_eq!(end_session(&mut slot), Err(SessionError::NoActiveSession));
}

#[test]
fn clear_without_session_is_surfaced() {
    let mut slot: Option<OpenAPI> = None;
    assert_eq!(clear_session(&mut slot), Err(SessionError::NoActiveSession));
    assert!(slot.is_none());
}

#[test]
fn session_error_descriptions() {
    assert_eq!(
        SessionError::InvalidCredential.describe(),
        "the supplied credential is the documented placeholder; enter a real credential and try again"
    );
    assert_eq!(
        SessionError::SessionAlreadyActive.describe(),
        "a chat session is already in progress; end or clear it before starting a new one"
    );
    assert_eq!(
        SessionError::NoActiveSession.describe(),
        "no chat session is active; start one first"
    );
}

#[test]
fn credential_is_the_one_supplied() {
    let session =
        OpenAPI::new("sk-real".to_string(), Model::Gpt4, "be nice".to_string());
    assert_eq!(session.credential(), "sk-real");
}
