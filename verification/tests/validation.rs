use copilot_chat::request::{LanguageModelRequest, LanguageModelRequestMessage, Role};
use copilot_chat::validate::{validate, ValidationError};

fn msg(role: Role, content: &str) -> LanguageModelRequestMessage {
    LanguageModelRequestMessage { role, content: content.to_string() }
}

#[test]
fn empty_conversation_is_empty_prompt() {
    let req = LanguageModelRequest { messages: vec![] };
    assert_eq!(validate(&req), Err(ValidationError::EmptyPrompt));
}

#[test]
fn blank_last_message_is_empty_prompt() {
    let req = LanguageModelRequest {
        messages: vec![msg(Role::System, "be brief"), msg(Role::User, " \t\r\n  ")],
    };
    assert_eq!(validate(&req), Err(ValidationError::EmptyPrompt));
}

#[test]
fn last_message_not_from_user_is_rejected() {
    let req = LanguageModelRequest {
        messages: vec![msg(Role::User, "hello"), msg(Role::Assistant, "hi there")],
    };
    assert_eq!(validate(&req), Err(ValidationError::LastMessageMustBeUser));
}

#[test]
fn content_rule_wins_over_role_rule() {
    let req = LanguageModelRequest { messages: vec![msg(Role::Assistant, "   ")] };
    assert_eq!(validate(&req), Err(ValidationError::EmptyPrompt));
}

#[test]
fn well_formed_conversation_passes() {
    let req = LanguageModelRequest {
        messages: vec![msg(Role::System, "be brief"), msg(Role::User, "  hello ")],
    };
    assert_eq!(validate(&req), Ok(()));
}

#[test]
fn only_the_last_message_is_checked() {
    let req = LanguageModelRequest {
        messages: vec![msg(Role::Assistant, "   "), msg(Role::User, "question")],
    };
    assert_eq!(validate(&req), Ok(()));
}

#[test]
fn validation_error_messages() {
    assert_eq!(
        ValidationError::EmptyPrompt.message(),
        "Empty prompts aren't allowed. Please provide a non-empty prompt."
    );
    assert_eq!(
        ValidationError::LastMessageMustBeUser.message(),
        "The final message must be from the user. To provide a system prompt, you must provide the system prompt followed by a user prompt."
    );
}
