//! The laws of the provider, stated over the same spec functions its
//! contracts use and proved once for all inputs.

use vstd::prelude::*;
use crate::credentials::{
    spec_credential_phase, spec_key_decision, spec_key_is_fresh, ApiKey, AuthError,
    CredentialPhase, KeyDecision, State,
};
use crate::provider::{
    spec_completion_rejection, spec_is_authenticated, spec_is_translation, CompletionError,
};
use crate::request::{LanguageModelRequest, Role};
use crate::validate::{spec_is_blank, spec_validation, ValidationError};
use crate::wire::{spec_neutral_role, spec_wire_role, CopilotChatRequest, Model};

verus! {

/// A conversation that is empty, or whose last message is blank once
/// trimmed, is rejected as an empty prompt before any network work — for
/// every credential state, so no network call is ever owed for it.
pub proof fn lemma_empty_prompt_rejected(state: State, req: LanguageModelRequest)
    requires
        req.messages@.len() == 0 || spec_is_blank(req.messages@.last().content@),
    ensures
        spec_validation(req) == Some(ValidationError::EmptyPrompt),
        spec_completion_rejection(state, req) == Some(
            CompletionError::Validation(ValidationError::EmptyPrompt),
        ),
{
}

/// A conversation whose last message carries content but does not come from
/// the user is rejected before any network work — for every credential
/// state.
pub proof fn lemma_last_message_must_be_user(state: State, req: LanguageModelRequest)
    requires
        req.messages@.len() > 0,
        !spec_is_blank(req.messages@.last().content@),
        req.messages@.last().role != Role::User,
    ensures
        spec_validation(req) == Some(ValidationError::LastMessageMustBeUser),
        spec_completion_rejection(state, req) == Some(
            CompletionError::Validation(ValidationError::LastMessageMustBeUser),
        ),
{
}

/// With a token and a cached key held, the refresher renews exactly when
/// less than the five-minute threshold of life is left, and otherwise hands
/// back the cached key unchanged, with no network call.
pub proof fn lemma_refresh_threshold(state: State, token: String, key: ApiKey, now: int)
    requires
        state.oauth_token == Some(token),
        state.api_key == Some(key),
    ensures
        spec_key_is_fresh(key, now) ==> spec_key_decision(state, now) == Ok::<
            KeyDecision,
            AuthError,
        >(KeyDecision::UseCached(key)),
        !spec_key_is_fresh(key, now) ==> spec_key_decision(state, now) == Ok::<
            KeyDecision,
            AuthError,
        >(KeyDecision::Refresh(token)),
{
}

/// Translation round-trip: a translated request has exactly as many
/// messages as its source, and mapping each wire message back — the role
/// through the inverse role mapping, the content as it stands — recovers
/// the source conversation, in order.
pub proof fn lemma_translation_round_trip(
    req: LanguageModelRequest,
    model: Model,
    wire: CopilotChatRequest,
)
    requires
        spec_is_translation(req, model, wire),
    ensures
        wire.messages@.len() == req.messages@.len(),
        forall|i: int|
            0 <= i < req.messages@.len() ==> spec_neutral_role(
                (#[trigger] wire.messages@[i]).role,
            ) == req.messages@[i].role,
        forall|i: int|
            0 <= i < req.messages@.len() ==> (#[trigger] wire.messages@[i]).content@
                == req.messages@[i].content@,
{
    assert forall|i: int| 0 <= i < req.messages@.len() implies spec_neutral_role(
        (#[trigger] wire.messages@[i]).role,
    ) == req.messages@[i].role by {
        assert(wire.messages@[i].role == spec_wire_role(req.messages@[i].role));
    }
}

/// The refresher's decision is a function of the credential phase alone:
/// an unauthenticated state fails the call, a valid key is handed back as
/// it stands, and in every other phase the key is renewed with the held
/// token — never evicting anything first.
pub proof fn lemma_phase_decides_refresh(state: State, now: int)
    ensures
        spec_credential_phase(state, now) is Unauthenticated <==> spec_key_decision(state, now)
            == Err::<KeyDecision, AuthError>(AuthError::NotAuthenticated),
        spec_credential_phase(state, now) is KeyValid <==> (spec_key_decision(state, now) matches
        Ok(d) && d is UseCached),
        spec_credential_phase(state, now) is AuthenticatedNoKey || spec_credential_phase(
            state,
            now,
        ) is KeyExpiring <==> (spec_key_decision(state, now) matches Ok(d) && d is Refresh),
{
}

/// Time only ever moves a state from holding a valid key to holding an
/// expiring one, never the reverse: the phase at a later time is the same,
/// unless a valid key has come within the threshold of its expiry.
pub proof fn lemma_time_only_expires(state: State, now: int, later: int)
    requires
        now <= later,
    ensures
        spec_credential_phase(state, later) == spec_credential_phase(state, now)
            || (spec_credential_phase(state, now) is KeyValid && spec_credential_phase(
            state,
            later,
        ) is KeyExpiring),
{
}

/// After a sign-out has cleared the store, the provider reports itself
/// unauthenticated, and a well-formed completion request is rejected as not
/// authenticated before any network call.
pub proof fn lemma_signed_out_stream_fails(state: State, req: LanguageModelRequest)
    requires
        state.oauth_token is None,
        spec_validation(req) is None,
    ensures
        !spec_is_authenticated(state),
        spec_completion_rejection(state, req) == Some(
            CompletionError::Auth(AuthError::NotAuthenticated),
        ),
{
}

} // verus!
