//! The credential store and the token refresher.
//!
//! The store pairs the long-lived OAuth token from the external sign-in flow
//! with the short-lived bearer key derived from it.  The refresher decides,
//! from the store and the current time alone, whether the cached key may be
//! used or must be renewed over the network; the caller performs the network
//! call and hands its outcome back.

use vstd::prelude::*;

verus! {

/// Configuration of the provider: one optional duration, in milliseconds,
/// bounding both the refresh call and the streaming call.
#[derive(Clone, Copy, Debug, PartialEq, Eq, Structural)]
pub struct CopilotChatSettings {
    pub low_speed_timeout: Option<u64>,
}

impl Default for CopilotChatSettings {
    /// By default no timeout is configured.
    fn default() -> (r: Self)
        ensures
            r.low_speed_timeout is None,
    {
        CopilotChatSettings { low_speed_timeout: None }
    }
}

/// The ephemeral bearer key: a value and its expiry, always created and
/// replaced together, never observed apart.
#[derive(Debug)]
pub struct ApiKey {
    /// The bearer credential sent with each completion call.
    pub value: String,
    /// Expiry as seconds of Unix time.
    pub expires_at: i64,
}

/// The credential state of the provider.
#[derive(Debug)]
pub struct State {
    /// The long-lived token from the external sign-in flow, if signed in.
    pub oauth_token: Option<String>,
    /// The cached ephemeral key, if one was fetched and not yet cleared.
    pub api_key: Option<ApiKey>,
    /// The provider configuration.
    pub settings: CopilotChatSettings,
}

impl State {
    /// The store invariant: an ephemeral key is only ever held together with
    /// the long-lived token it was derived from.
    pub open spec fn wf(&self) -> bool {
        self.oauth_token is None ==> self.api_key is None
    }

    /// A fresh state for a provider instance: the token as supplied by the
    /// sign-in flow, no cached key yet.
    pub fn new(oauth_token: Option<String>, settings: CopilotChatSettings) -> (r: State)
        ensures
            r.oauth_token == oauth_token,
            r.api_key is None,
            r.settings == settings,
            r.wf(),
    {
        State { oauth_token, api_key: None, settings }
    }

    /// Applies a token notification from the external sign-in flow.  Clearing
    /// the token also drops the cached key, which was derived from it;
    /// replacing it keeps the cached key, which stands until it expires.
    pub fn set_oauth_token(&mut self, token: Option<String>)
        requires
            old(self).wf(),
        ensures
            final(self).wf(),
            final(self).oauth_token == token,
            final(self).settings == old(self).settings,
            token is Some ==> final(self).api_key == old(self).api_key,
            token is None ==> final(self).api_key is None,
    {
        if token.is_none() {
            self.api_key = None;
        }
        self.oauth_token = token;
    }

    /// Replaces the configuration; the credentials stand.
    pub fn set_settings(&mut self, settings: CopilotChatSettings)
        requires
            old(self).wf(),
        ensures
            final(self).wf(),
            final(self).settings == settings,
            final(self).oauth_token == old(self).oauth_token,
            final(self).api_key == old(self).api_key,
    {
        self.settings = settings;
    }

    /// Signs out: both credentials are cleared together.
    pub fn clear(&mut self)
        ensures
            final(self).wf(),
            final(self).oauth_token is None,
            final(self).api_key is None,
            final(self).settings == old(self).settings,
    {
        self.oauth_token = None;
        self.api_key = None;
    }
}

/// How much life a cached key must have left, in seconds, to be used without
/// renewal: five minutes, so a key does not expire under an in-flight stream.
pub const KEY_FRESHNESS_THRESHOLD_SECONDS: i64 = 300;

/// Whether a cached key still has at least the threshold of life left at the
/// given time.
pub open spec fn spec_key_is_fresh(key: ApiKey, now: int) -> bool {
    key.expires_at - now >= KEY_FRESHNESS_THRESHOLD_SECONDS
}

/// Whether a cached key still has at least the threshold of life left.
pub fn key_is_fresh(key: &ApiKey, now: i64) -> (r: bool)
    ensures
        r == spec_key_is_fresh(*key, now as int),
{
    (key.expires_at as i128) - (now as i128) >= KEY_FRESHNESS_THRESHOLD_SECONDS as i128
}

/// A credential failure surfaced to the caller; never retried internally.
#[derive(Debug)]
pub enum AuthError {
    /// No long-lived token is held: the user is not signed in.
    NotAuthenticated,
    /// The token endpoint could not supply a new key; the detail is the
    /// transport's or the endpoint's own account of the failure.
    RefreshFailed(String),
}

impl AuthError {
    /// The user-facing explanation of this failure.
    pub fn message(&self) -> (r: String)
        ensures
            *self is NotAuthenticated ==> r@ == "You must be signed in to Copilot to use Copilot Chat."@,
            self matches AuthError::RefreshFailed(detail) ==> r@ == detail@,
    {
        match self {
            AuthError::NotAuthenticated => String::from_str(
                "You must be signed in to Copilot to use Copilot Chat.",
            ),
            AuthError::RefreshFailed(detail) => detail.clone(),
        }
    }
}

/// What the refresher decided from the store and the clock.
#[derive(Debug)]
pub enum KeyDecision {
    /// The cached key is fresh: use it, with no network call.
    UseCached(ApiKey),
    /// No usable key is cached: renew it with this long-lived token.
    Refresh(String),
}

/// The decision owed for each state and time: no token fails the call;
/// a cached key with five minutes of life is used as it stands; anything
/// else is renewed with the long-lived token.
pub open spec fn spec_key_decision(state: State, now: int) -> Result<KeyDecision, AuthError> {
    match state.oauth_token {
        None => Err(AuthError::NotAuthenticated),
        Some(token) => match state.api_key {
            Some(key) => if spec_key_is_fresh(key, now) {
                Ok(KeyDecision::UseCached(key))
            } else {
                Ok(KeyDecision::Refresh(token))
            },
            None => Ok(KeyDecision::Refresh(token)),
        },
    }
}

/// Decides whether the cached key may be used at time `now` (seconds of Unix
/// time) or must be renewed.  Reads only; the store is left as it stands.
pub fn ensure_valid_key(state: &State, now: i64) -> (r: Result<KeyDecision, AuthError>)
    ensures
        r == spec_key_decision(*state, now as int),
{
    match &state.oauth_token {
        None => Err(AuthError::NotAuthenticated),
        Some(token) => match &state.api_key {
            Some(key) => {
                if key_is_fresh(key, now) {
                    Ok(KeyDecision::UseCached(ApiKey {
                        value: key.value.clone(),
                        expires_at: key.expires_at,
                    }))
                } else {
                    Ok(KeyDecision::Refresh(token.clone()))
                }
            },
            None => Ok(KeyDecision::Refresh(token.clone())),
        },
    }
}

impl State {
    /// Applies the outcome of a renewal call to the store.  On success the
    /// new value and expiry are stored together, atomically as a pair, and
    /// returned.  On failure nothing is evicted — the stale key stands, so a
    /// later call may retry — and the failure is surfaced as
    /// [`AuthError::RefreshFailed`].
    pub fn apply_refresh_outcome(&mut self, outcome: Result<ApiKey, String>) -> (r: Result<
        ApiKey,
        AuthError,
    >)
        requires
            old(self).wf(),
            old(self).oauth_token is Some,
        ensures
            final(self).wf(),
            final(self).oauth_token == old(self).oauth_token,
            final(self).settings == old(self).settings,
            outcome matches Ok(key) ==> final(self).api_key == Some(key) && r == Ok::<
                ApiKey,
                AuthError,
            >(key),
            outcome matches Err(detail) ==> final(self).api_key == old(self).api_key && r == Err::<
                ApiKey,
                AuthError,
            >(AuthError::RefreshFailed(detail)),
    {
        match outcome {
            Ok(key) => {
                self.api_key = Some(ApiKey { value: key.value.clone(), expires_at: key.expires_at });
                Ok(key)
            },
            Err(detail) => Err(AuthError::RefreshFailed(detail)),
        }
    }
}

/// The credential dimension of the provider, read off a state and a time.
#[derive(Clone, Copy, Debug, PartialEq, Eq, Structural)]
pub enum CredentialPhase {
    /// No long-lived token is held.
    Unauthenticated,
    /// A token is held, but no ephemeral key is cached.
    AuthenticatedNoKey,
    /// A cached key with at least the threshold of life left.
    KeyValid,
    /// A cached key with less than the threshold of life left.
    KeyExpiring,
}

/// The phase a state is in at the given time.
pub open spec fn spec_credential_phase(state: State, now: int) -> CredentialPhase {
    match state.oauth_token {
        None => CredentialPhase::Unauthenticated,
        Some(_) => match state.api_key {
            None => CredentialPhase::AuthenticatedNoKey,
            Some(key) => if spec_key_is_fresh(key, now) {
                CredentialPhase::KeyValid
            } else {
                CredentialPhase::KeyExpiring
            },
        },
    }
}

/// Relies on `chrono::Utc::now`: reads the system clock as seconds of Unix
/// time.  Nothing is promised of the value: callers state what holds of
/// every reading.
#[verifier::external_body]
pub(crate) fn now_unix_seconds() -> i64 {
    chrono::Utc::now().timestamp()
}

} // verus!
