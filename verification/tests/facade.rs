use copilot_chat::credentials::{ApiKey, AuthError, CopilotChatSettings, KeyDecision};
use copilot_chat::provider::{
    AuthenticateError, CompletionError, CopilotChatLanguageModelProvider, CopilotStatus,
    OpenAiModel, ResetCredentialsError, SignOutEvent,
};
use copilot_chat::request::{LanguageModelRequest, LanguageModelRequestMessage, Role};
use copilot_chat::validate::ValidationError;
use copilot_chat::wire::{CopilotChatRole, Model};

fn msg(role: Role, content: &str) -> LanguageModelRequestMessage {
    LanguageModelRequestMessage { role, content: content.to_string() }
}

fn authenticated_provider() -> CopilotChatLanguageModelProvider {
    CopilotChatLanguageModelProvider::new(
        Some("oauth-token".to_string()),
        CopilotChatSettings { low_speed_timeout: Some(250) },
    )
}

#[test]
fn provider_identity() {
    let provider = authenticated_provider();
    assert_eq!(provider.id().0, "copilot_chat");
    assert_eq!(provider.name().0, "GitHub Copilot Chat");
}

#[test]
fn the_catalog_is_stable() {
    let provider = authenticated_provider();
    let models = provider.provided_models();
    assert_eq!(models.len(), 2);
    assert_eq!(models[0].id().0, "gpt-4");
    assert_eq!(models[0].name().0, "GPT-4");
    assert_eq!(models[0].max_token_count(), 8192);
    assert_eq!(models[0].telemetry_id(), "copilot_chat/gpt-4");
    assert_eq!(models[0].tokenizer_model(), OpenAiModel::Four);
    assert_eq!(models[1].id().0, "gpt-3.5-turbo");
    assert_eq!(models[1].name().0, "GPT-3.5");
    assert_eq!(models[1].max_token_count(), 16385);
    assert_eq!(models[1].telemetry_id(), "copilot_chat/gpt-3.5-turbo");
    assert_eq!(models[1].tokenizer_model(), OpenAiModel::ThreePointFiveTurbo);
    assert_eq!(models[0].provider_id().0, "copilot_chat");
    assert_eq!(models[0].provider_name().0, "GitHub Copilot Chat");
}

#[test]
fn authenticate_succeeds_when_a_token_is_held() {
    let provider = authenticated_provider();
    assert!(provider.is_authenticated());
    assert!(provider.authenticate(&CopilotStatus::Disabled).is_ok());
}

#[test]
fn authenticate_reports_the_sign_in_status() {
    let provider = CopilotChatLanguageModelProvider::new(None, CopilotChatSettings::default());
    assert!(!provider.is_authenticated());
    assert!(provider.authenticate(&CopilotStatus::Authorized).is_ok());
    assert!(matches!(
        provider.authenticate(&CopilotStatus::Disabled),
        Err(AuthenticateError::Disabled)
    ));
    assert!(matches!(
        provider.authenticate(&CopilotStatus::Starting),
        Err(AuthenticateError::Starting)
    ));
    assert!(matches!(
        provider.authenticate(&CopilotStatus::SigningIn),
        Err(AuthenticateError::SigningIn)
    ));
    assert!(matches!(
        provider.authenticate(&CopilotStatus::SignedOut),
        Err(AuthenticateError::SignedOut)
    ));
    assert!(matches!(
        provider.authenticate(&CopilotStatus::Unauthorized),
        Err(AuthenticateError::Unauthorized)
    ));
    match provider.authenticate(&CopilotStatus::Errored("boom".to_string())) {
        Err(e @ AuthenticateError::Errored(_)) => assert_eq!(
            e.message(),
            "Received the following error while signing into Copilot: boom"
        ),
        other => panic!("expected the reported error, got {:?}", other),
    }
}

#[test]
fn translation_preserves_order_content_and_roles() {
    let provider = authenticated_provider();
    let models = provider.provided_models();
    let request = LanguageModelRequest {
        messages: vec![
            msg(Role::User, "first"),
            msg(Role::Assistant, "second"),
            msg(Role::System, "third"),
            msg(Role::User, "fourth"),
        ],
    };
    let wire = models[0].to_copilot_chat_request(request);
    assert_eq!(wire.model, Model::Gpt4);
    assert_eq!(wire.messages.len(), 4);
    let expected = [
        (CopilotChatRole::User, "first"),
        (CopilotChatRole::Assistant, "second"),
        (CopilotChatRole::System, "third"),
        (CopilotChatRole::User, "fourth"),
    ];
    for (message, (role, content)) in wire.messages.iter().zip(expected.iter()) {
        assert_eq!(message.role, *role);
        assert_eq!(message.content, *content);
    }
}

#[test]
fn stream_completion_rejects_before_any_network_work() {
    let provider = authenticated_provider();
    let models = provider.provided_models();
    let empty = LanguageModelRequest { messages: vec![] };
    assert!(matches!(
        models[0].stream_completion(&provider.state, empty),
        Err(CompletionError::Validation(ValidationError::EmptyPrompt))
    ));
    let wrong_role = LanguageModelRequest {
        messages: vec![msg(Role::User, "hi"), msg(Role::Assistant, "hello")],
    };
    assert!(matches!(
        models[0].stream_completion(&provider.state, wrong_role),
        Err(CompletionError::Validation(ValidationError::LastMessageMustBeUser))
    ));
}

#[test]
fn stream_completion_plans_a_refresh_without_a_cached_key() {
    let provider = authenticated_provider();
    let models = provider.provided_models();
    let request = LanguageModelRequest { messages: vec![msg(Role::User, "hi")] };
    match models[0].stream_completion(&provider.state, request) {
        Ok(prepared) => {
            assert_eq!(prepared.low_speed_timeout, Some(250));
            assert_eq!(prepared.request.model, Model::Gpt4);
            match prepared.key_plan {
                KeyDecision::Refresh(token) => assert_eq!(token, "oauth-token"),
                other => panic!("expected a refresh plan, got {:?}", other),
            }
        }
        other => panic!("expected a prepared completion, got {:?}", other),
    }
}

#[test]
fn stream_completion_uses_a_fresh_cached_key() {
    let mut provider = authenticated_provider();
    let models = provider.provided_models();
    let far_future: i64 = i64::MAX - 400;
    provider
        .state
        .apply_refresh_outcome(Ok(ApiKey { value: "bearer".to_string(), expires_at: far_future }))
        .expect("storing must succeed");
    let request = LanguageModelRequest { messages: vec![msg(Role::User, "hi")] };
    match models[1].stream_completion_at(&provider.state, request, 0) {
        Ok(prepared) => match prepared.key_plan {
            KeyDecision::UseCached(key) => {
                assert_eq!(key.value, "bearer");
                assert_eq!(key.expires_at, far_future);
            }
            other => panic!("expected the cached key, got {:?}", other),
        },
        other => panic!("expected a prepared completion, got {:?}", other),
    }
}

#[test]
fn reset_credentials_clears_everything_on_success() {
    let mut provider = authenticated_provider();
    provider
        .state
        .apply_refresh_outcome(Ok(ApiKey { value: "bearer".to_string(), expires_at: 99 }))
        .expect("storing must succeed");
    assert!(provider.reset_credentials(SignOutEvent::SignedOut).is_ok());
    assert!(!provider.is_authenticated());
    assert!(provider.state.api_key.is_none());

    let models = provider.provided_models();
    let request = LanguageModelRequest { messages: vec![msg(Role::User, "hi")] };
    assert!(matches!(
        models[0].stream_completion(&provider.state, request),
        Err(CompletionError::Auth(AuthError::NotAuthenticated))
    ));
}

#[test]
fn failed_sign_out_leaves_the_credentials() {
    let mut provider = authenticated_provider();
    let outcome = provider.reset_credentials(SignOutEvent::Failed("busy".to_string()));
    match outcome {
        Err(ResetCredentialsError::SignOutFailed(detail)) => assert_eq!(detail, "busy"),
        other => panic!("expected a sign-out failure, got {:?}", other),
    }
    assert!(provider.is_authenticated());
}

#[test]
fn unavailable_copilot_is_reported() {
    let mut provider = authenticated_provider();
    let outcome = provider.reset_credentials(SignOutEvent::Unavailable);
    match outcome {
        Err(e @ ResetCredentialsError::CopilotNotAvailable) => assert_eq!(
            e.message(),
            "Copilot is not available. Please ensure Copilot is enabled and running and try again."
        ),
        other => panic!("expected the unavailable error, got {:?}", other),
    }
    assert!(provider.is_authenticated());
}
