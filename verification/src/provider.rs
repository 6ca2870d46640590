//! The provider facade: the operations exposed to the enclosing application,
//! composed from the validator, the translator, the token refresher and the
//! model catalog.
//!
//! The facade holds no transport.  Where an operation needs the network or
//! the external sign-in flow, the facade exposes the decision as a
//! function of the credential state and the observed event, and the caller
//! performs the outside work and feeds its outcome back in.

use vstd::prelude::*;
use crate::credentials::{
    now_unix_seconds, spec_key_decision, AuthError, CopilotChatSettings, KeyDecision, State,
    ensure_valid_key,
};
use crate::request::{
    LanguageModelId, LanguageModelName, LanguageModelProviderId, LanguageModelProviderName,
    LanguageModelRequest,
};
use crate::validate::{spec_validation, validate, ValidationError};
use crate::wire::{
    spec_model_display_name, spec_model_id, spec_wire_role, wire_role, ChatMessage,
    CopilotChatRequest, Model,
};

verus! {

/// The status the external sign-in flow reports of the Copilot service.
#[derive(Clone, Debug)]
pub enum CopilotStatus {
    Disabled,
    Starting,
    SigningIn,
    SignedOut,
    Unauthorized,
    Authorized,
    Errored(String),
}

/// Why `authenticate` could not report success: the sign-in flow's status,
/// surfaced with a descriptive, non-retriable explanation.  The handshake
/// itself is never attempted here.
#[derive(Clone, Debug)]
pub enum AuthenticateError {
    Disabled,
    Starting,
    SigningIn,
    SignedOut,
    Unauthorized,
    Errored(String),
}

impl AuthenticateError {
    /// The user-facing explanation of this failure.
    pub fn message(&self) -> (r: String)
        ensures
            *self is Disabled ==> r@ == "Copilot must be enabled for Copilot Chat to work. Please enable Copilot and try again."@,
            *self is Starting ==> r@ == "Copilot is still starting, please wait for Copilot to start then try again"@,
            *self is SigningIn ==> r@ == "Still signing into Copilot..."@,
            *self is SignedOut ==> r@ == "You have signed out of Copilot. Please sign in to Copilot and try again."@,
            *self is Unauthorized ==> r@ == "Unable to authorize with Copilot. Please make sure that you have an active Copilot and Copilot Chat subscription."@,
            self matches AuthenticateError::Errored(e) ==> r@
                == "Received the following error while signing into Copilot: "@ + e@,
    {
        match self {
            AuthenticateError::Disabled => String::from_str(
                "Copilot must be enabled for Copilot Chat to work. Please enable Copilot and try again.",
            ),
            AuthenticateError::Starting => String::from_str(
                "Copilot is still starting, please wait for Copilot to start then try again",
            ),
            AuthenticateError::SigningIn => String::from_str("Still signing into Copilot..."),
            AuthenticateError::SignedOut => String::from_str(
                "You have signed out of Copilot. Please sign in to Copilot and try again.",
            ),
            AuthenticateError::Unauthorized => String::from_str(
                "Unable to authorize with Copilot. Please make sure that you have an active Copilot and Copilot Chat subscription.",
            ),
            AuthenticateError::Errored(e) => String::from_str(
                "Received the following error while signing into Copilot: ",
            ).concat(e.as_str()),
        }
    }
}

/// What the caller observed of the external sign-out operation.
#[derive(Clone, Debug)]
pub enum SignOutEvent {
    /// The Copilot service is not available at all.
    Unavailable,
    /// The sign-out operation failed with this detail.
    Failed(String),
    /// The sign-out operation completed.
    SignedOut,
}

/// Why `reset_credentials` failed; the store is then left untouched.
#[derive(Clone, Debug)]
pub enum ResetCredentialsError {
    CopilotNotAvailable,
    SignOutFailed(String),
}

impl ResetCredentialsError {
    /// The user-facing explanation of this failure.
    pub fn message(&self) -> (r: String)
        ensures
            *self is CopilotNotAvailable ==> r@ == "Copilot is not available. Please ensure Copilot is enabled and running and try again."@,
            self matches ResetCredentialsError::SignOutFailed(e) ==> r@ == e@,
    {
        match self {
            ResetCredentialsError::CopilotNotAvailable => String::from_str(
                "Copilot is not available. Please ensure Copilot is enabled and running and try again.",
            ),
            ResetCredentialsError::SignOutFailed(e) => e.clone(),
        }
    }
}

/// A failure of the completion pipeline before the streaming call: the
/// request was rejected locally, or no usable credential could be decided.
#[derive(Debug)]
pub enum CompletionError {
    Validation(ValidationError),
    Auth(AuthError),
}

impl CompletionError {
    /// The user-facing explanation of this failure: the wrapped stage's own.
    pub fn message(&self) -> (r: String)
        ensures
            self matches CompletionError::Validation(e) ==> (e is EmptyPrompt ==> r@
                == "Empty prompts aren't allowed. Please provide a non-empty prompt."@)
                && (e is LastMessageMustBeUser ==> r@
                == "The final message must be from the user. To provide a system prompt, you must provide the system prompt followed by a user prompt."@),
            self matches CompletionError::Auth(e) ==> (e is NotAuthenticated ==> r@
                == "You must be signed in to Copilot to use Copilot Chat."@) && (e matches
            AuthError::RefreshFailed(detail) ==> r@ == detail@),
    {
        match self {
            CompletionError::Validation(e) => String::from_str(e.message()),
            CompletionError::Auth(e) => e.message(),
        }
    }
}

/// Everything the caller needs to perform the streaming call: the translated
/// wire request, the key decision, and the configured timeout, passed
/// through unchanged.
#[derive(Debug)]
pub struct PreparedCompletion {
    pub request: CopilotChatRequest,
    pub key_plan: KeyDecision,
    pub low_speed_timeout: Option<u64>,
}

/// Whether a state counts as authenticated: a long-lived token is held.
pub open spec fn spec_is_authenticated(state: State) -> bool {
    state.oauth_token is Some
}

/// The verdict `authenticate` owes: success when already authenticated or
/// when the sign-in flow reports authorization, and otherwise the
/// descriptive error for the reported status.
pub open spec fn spec_authenticate(state: State, status: CopilotStatus) -> Result<
    (),
    AuthenticateError,
> {
    if spec_is_authenticated(state) {
        Ok(())
    } else {
        match status {
            CopilotStatus::Authorized => Ok(()),
            CopilotStatus::Disabled => Err(AuthenticateError::Disabled),
            CopilotStatus::Starting => Err(AuthenticateError::Starting),
            CopilotStatus::SigningIn => Err(AuthenticateError::SigningIn),
            CopilotStatus::SignedOut => Err(AuthenticateError::SignedOut),
            CopilotStatus::Unauthorized => Err(AuthenticateError::Unauthorized),
            CopilotStatus::Errored(e) => Err(AuthenticateError::Errored(e)),
        }
    }
}

/// The verdict `reset_credentials` owes for each observed sign-out event.
pub open spec fn spec_reset_outcome(event: SignOutEvent) -> Result<(), ResetCredentialsError> {
    match event {
        SignOutEvent::SignedOut => Ok(()),
        SignOutEvent::Unavailable => Err(ResetCredentialsError::CopilotNotAvailable),
        SignOutEvent::Failed(detail) => Err(ResetCredentialsError::SignOutFailed(detail)),
    }
}

/// Whether `wire` is the translation of `req` for `model`: the model tag is
/// the given one, message order and content are preserved exactly, and each
/// role is mapped onto the wire.  No reordering, deduplication or truncation.
pub open spec fn spec_is_translation(
    req: LanguageModelRequest,
    model: Model,
    wire: CopilotChatRequest,
) -> bool {
    &&& wire.model == model
    &&& wire.messages@.len() == req.messages@.len()
    &&& forall|i: int|
        0 <= i < req.messages@.len() ==> {
            &&& (#[trigger] wire.messages@[i]).role == spec_wire_role(req.messages@[i].role)
            &&& wire.messages@[i].content@ == req.messages@[i].content@
        }
}

/// How the completion pipeline rejects a call before any network work: a
/// validation failure first, then a missing long-lived token.
pub open spec fn spec_completion_rejection(state: State, req: LanguageModelRequest) -> Option<
    CompletionError,
> {
    match spec_validation(req) {
        Some(e) => Some(CompletionError::Validation(e)),
        None => if state.oauth_token is None {
            Some(CompletionError::Auth(AuthError::NotAuthenticated))
        } else {
            None
        },
    }
}

/// The Copilot Chat provider: the model catalog and the four operations the
/// enclosing application sees, over an injected credential state.
#[derive(Debug)]
pub struct CopilotChatLanguageModelProvider {
    pub state: State,
}

impl CopilotChatLanguageModelProvider {
    /// A provider instance over the token currently held by the external
    /// sign-in flow; no ephemeral key is cached yet.
    pub fn new(oauth_token: Option<String>, settings: CopilotChatSettings) -> (r: Self)
        ensures
            r.state.oauth_token == oauth_token,
            r.state.api_key is None,
            r.state.settings == settings,
            r.state.wf(),
    {
        CopilotChatLanguageModelProvider { state: State::new(oauth_token, settings) }
    }

    /// The stable identifier of this provider.
    pub fn id(&self) -> (r: LanguageModelProviderId)
        ensures
            r.0@ == "copilot_chat"@,
    {
        LanguageModelProviderId(String::from_str("copilot_chat"))
    }

    /// The name of this provider as shown to the user.
    pub fn name(&self) -> (r: LanguageModelProviderName)
        ensures
            r.0@ == "GitHub Copilot Chat"@,
    {
        LanguageModelProviderName(String::from_str("GitHub Copilot Chat"))
    }

    /// The models this provider offers, in the catalog's stable order.
    pub fn provided_models(&self) -> (r: Vec<CopilotChatLanguageModel>)
        ensures
            r@.len() == 2,
            r@[0].model == Model::Gpt4,
            r@[0].id.0@ == spec_model_id(Model::Gpt4),
            r@[1].model == Model::Gpt3_5Turbo,
            r@[1].id.0@ == spec_model_id(Model::Gpt3_5Turbo),
    {
        let mut models: Vec<CopilotChatLanguageModel> = Vec::new();
        models.push(
            CopilotChatLanguageModel {
                id: LanguageModelId(String::from_str(Model::Gpt4.id())),
                model: Model::Gpt4,
            },
        );
        models.push(
            CopilotChatLanguageModel {
                id: LanguageModelId(String::from_str(Model::Gpt3_5Turbo.id())),
                model: Model::Gpt3_5Turbo,
            },
        );
        models
    }

    /// Whether the user is signed in: a long-lived token is held.
    pub fn is_authenticated(&self) -> (r: bool)
        ensures
            r == spec_is_authenticated(self.state),
    {
        self.state.oauth_token.is_some()
    }

    /// Reports success when already authenticated, and otherwise the
    /// descriptive error for the status the sign-in flow reports.  The
    /// handshake itself is left to that flow.
    pub fn authenticate(&self, status: &CopilotStatus) -> (r: Result<(), AuthenticateError>)
        ensures
            r == spec_authenticate(self.state, *status),
    {
        if self.is_authenticated() {
            return Ok(());
        }
        match status {
            CopilotStatus::Authorized => Ok(()),
            CopilotStatus::Disabled => Err(AuthenticateError::Disabled),
            CopilotStatus::Starting => Err(AuthenticateError::Starting),
            CopilotStatus::SigningIn => Err(AuthenticateError::SigningIn),
            CopilotStatus::SignedOut => Err(AuthenticateError::SignedOut),
            CopilotStatus::Unauthorized => Err(AuthenticateError::Unauthorized),
            CopilotStatus::Errored(e) => Err(AuthenticateError::Errored(e.clone())),
        }
    }

    /// Applies the outcome of the delegated sign-out.  On success the store
    /// is cleared entirely — both credentials together; on failure it is
    /// left exactly as it stands.
    pub fn reset_credentials(&mut self, event: SignOutEvent) -> (r: Result<
        (),
        ResetCredentialsError,
    >)
        requires
            old(self).state.wf(),
        ensures
            final(self).state.wf(),
            r == spec_reset_outcome(event),
            r is Ok ==> !spec_is_authenticated(final(self).state) && final(self).state.api_key
                is None && final(self).state.settings == old(self).state.settings,
            r is Err ==> final(self).state == old(self).state,
    {
        match event {
            SignOutEvent::SignedOut => {
                self.state.clear();
                Ok(())
            },
            SignOutEvent::Unavailable => Err(ResetCredentialsError::CopilotNotAvailable),
            SignOutEvent::Failed(detail) => Err(ResetCredentialsError::SignOutFailed(detail)),
        }
    }

    /// Applies a token notification from the external sign-in flow.
    pub fn set_oauth_token(&mut self, token: Option<String>)
        requires
            old(self).state.wf(),
        ensures
            final(self).state.wf(),
            final(self).state.oauth_token == token,
            final(self).state.settings == old(self).state.settings,
            token is Some ==> final(self).state.api_key == old(self).state.api_key,
            token is None ==> final(self).state.api_key is None,
    {
        self.state.set_oauth_token(token);
    }

    /// Replaces the configuration; the credentials stand.
    pub fn set_settings(&mut self, settings: CopilotChatSettings)
        requires
            old(self).state.wf(),
        ensures
            final(self).state.wf(),
            final(self).state.settings == settings,
            final(self).state.oauth_token == old(self).state.oauth_token,
            final(self).state.api_key == old(self).state.api_key,
    {
        self.state.set_settings(settings);
    }
}

/// The tokenizer-compatible model family a catalog model counts tokens
/// against; counting itself is delegated to the external tokenizer.
#[derive(Clone, Copy, Debug, PartialEq, Eq, Structural)]
pub enum OpenAiModel {
    Four,
    ThreePointFiveTurbo,
}

/// One model of the catalog, as handed to the enclosing application.
#[derive(Debug)]
pub struct CopilotChatLanguageModel {
    pub id: LanguageModelId,
    pub model: Model,
}

impl CopilotChatLanguageModel {
    /// The identifier of this model.
    pub fn id(&self) -> (r: LanguageModelId)
        ensures
            r.0@ == self.id.0@,
    {
        LanguageModelId(self.id.0.clone())
    }

    /// The name of this model as shown to the user.
    pub fn name(&self) -> (r: LanguageModelName)
        ensures
            r.0@ == spec_model_display_name(self.model),
    {
        LanguageModelName(String::from_str(self.model.display_name()))
    }

    /// The name of the provider this model belongs to.
    pub fn provider_name(&self) -> (r: LanguageModelProviderName)
        ensures
            r.0@ == "GitHub Copilot Chat"@,
    {
        LanguageModelProviderName(String::from_str("GitHub Copilot Chat"))
    }

    /// The stable identifier of the provider this model belongs to.
    pub fn provider_id(&self) -> (r: LanguageModelProviderId)
        ensures
            r.0@ == "copilot_chat"@,
    {
        LanguageModelProviderId(String::from_str("copilot_chat"))
    }

    /// The identifier under which calls of this model are reported:
    /// the provider identifier and the model's wire identifier.
    pub fn telemetry_id(&self) -> (r: String)
        ensures
            r@ == "copilot_chat/"@ + spec_model_id(self.model),
    {
        String::from_str("copilot_chat/").concat(self.model.id())
    }

    /// The largest token count this model accepts in one request.
    pub fn max_token_count(&self) -> (r: usize)
        ensures
            r == crate::wire::spec_model_max_token_count(self.model),
    {
        self.model.max_token_count()
    }

    /// The tokenizer-compatible family this model counts tokens against.
    /// The count itself comes from the external tokenizer, which the caller
    /// invokes with this family.
    pub fn tokenizer_model(&self) -> (r: OpenAiModel)
        ensures
            self.model is Gpt4 ==> r == OpenAiModel::Four,
            self.model is Gpt3_5Turbo ==> r == OpenAiModel::ThreePointFiveTurbo,
    {
        match self.model {
            Model::Gpt4 => OpenAiModel::Four,
            Model::Gpt3_5Turbo => OpenAiModel::ThreePointFiveTurbo,
        }
    }

    /// Translates a provider-neutral request into the wire format: message
    /// order and content are preserved exactly, each role is mapped onto the
    /// wire, and the model tag is this model's.
    pub fn to_copilot_chat_request(&self, request: LanguageModelRequest) -> (r: CopilotChatRequest)
        ensures
            spec_is_translation(request, self.model, r),
    {
        let mut messages: Vec<ChatMessage> = Vec::new();
        let mut i: usize = 0;
        while i < request.messages.len()
            invariant
                0 <= i <= request.messages@.len(),
                messages@.len() == i,
                forall|j: int|
                    0 <= j < i as int ==> {
                        &&& (#[trigger] messages@[j]).role == spec_wire_role(
                            request.messages@[j].role,
                        )
                        &&& messages@[j].content@ == request.messages@[j].content@
                    },
            decreases request.messages@.len() - i,
        {
            let msg = &request.messages[i];
            messages.push(ChatMessage { role: wire_role(msg.role), content: msg.content.clone() });
            i = i + 1;
        }
        CopilotChatRequest::new(self.model, messages)
    }

    /// The completion pipeline up to the streaming call, at the given time
    /// (seconds of Unix time): validate, then translate, then decide the
    /// key.  Any stage's failure short-circuits the rest, so a rejected call
    /// spends no network round trip.
    pub fn stream_completion_at(
        &self,
        state: &State,
        request: LanguageModelRequest,
        now: i64,
    ) -> (r: Result<PreparedCompletion, CompletionError>)
        ensures
            (r matches Err(e) ==> spec_completion_rejection(*state, request) == Some(e)),
            (spec_completion_rejection(*state, request) matches Some(e) ==> r == Err::<
                PreparedCompletion,
                CompletionError,
            >(e)),
            r matches Ok(p) ==> {
                &&& spec_completion_rejection(*state, request) is None
                &&& spec_is_translation(request, self.model, p.request)
                &&& spec_key_decision(*state, now as int) == Ok::<KeyDecision, AuthError>(
                    p.key_plan,
                )
                &&& p.low_speed_timeout == state.settings.low_speed_timeout
            },
    {
        if let Err(e) = validate(&request) {
            return Err(CompletionError::Validation(e));
        }
        let wire = self.to_copilot_chat_request(request);
        match ensure_valid_key(state, now) {
            Err(e) => Err(CompletionError::Auth(e)),
            Ok(plan) => Ok(
                PreparedCompletion {
                    request: wire,
                    key_plan: plan,
                    low_speed_timeout: state.settings.low_speed_timeout,
                },
            ),
        }
    }

    /// The completion pipeline up to the streaming call, read against the
    /// system clock.  Whatever the clock read: a rejected request is
    /// rejected exactly as [`Self::stream_completion_at`] says, a cached key
    /// handed out is the stored one, and a renewal carries the stored
    /// long-lived token.
    pub fn stream_completion(&self, state: &State, request: LanguageModelRequest) -> (r: Result<
        PreparedCompletion,
        CompletionError,
    >)
        ensures
            (r matches Err(e) ==> spec_completion_rejection(*state, request) == Some(e)),
            (spec_completion_rejection(*state, request) matches Some(e) ==> r == Err::<
                PreparedCompletion,
                CompletionError,
            >(e)),
            r matches Ok(p) ==> {
                &&& spec_completion_rejection(*state, request) is None
                &&& spec_is_translation(request, self.model, p.request)
                &&& (p.key_plan matches KeyDecision::UseCached(k) ==> state.api_key == Some(k))
                &&& (p.key_plan matches KeyDecision::Refresh(t) ==> state.oauth_token == Some(t))
                &&& p.low_speed_timeout == state.settings.low_speed_timeout
            },
    {
        let now: i64 = now_unix_seconds();
        self.stream_completion_at(state, request, now)
    }
}

} // verus!
