//! Conversation validation: the checks made before any network round trip.
//!
//! The Copilot Chat service restricts the final message of a conversation, so
//! a malformed request is rejected locally, with a clearer explanation than
//! the service would give.

use vstd::prelude::*;
use crate::request::{LanguageModelRequest, Role};

verus! {

/// The character sequence left after removing leading and trailing
/// whitespace, as `str::trim` computes it.
pub uninterp spec fn trimmed(s: Seq<char>) -> Seq<char>;

/// Relies on `str::trim`: returns the slice with leading and trailing
/// whitespace removed; an empty slice stays empty.
#[verifier::external_body]
fn trim_str(s: &str) -> (r: &str)
    ensures
        r@ == trimmed(s@),
        s@.len() == 0 ==> r@.len() == 0,
{
    s.trim()
}

/// Whether a string consists of whitespace alone (or is empty): nothing of it
/// survives trimming.
pub open spec fn spec_is_blank(s: Seq<char>) -> bool {
    trimmed(s).len() == 0
}

/// Whether a string consists of whitespace alone (or is empty).
pub fn is_blank(s: &str) -> (r: bool)
    ensures
        r == spec_is_blank(s@),
{
    trim_str(s).is_empty()
}

/// Why a request was rejected before dispatch.
#[derive(Clone, Copy, Debug, PartialEq, Eq, Structural)]
pub enum ValidationError {
    /// The conversation is empty, or its last message carries no content
    /// once surrounding whitespace is removed.
    EmptyPrompt,
    /// The last message of the conversation was not written by the user.
    LastMessageMustBeUser,
}

impl ValidationError {
    /// The user-facing explanation of this rejection.
    pub fn message(&self) -> (r: &'static str)
        ensures
            *self is EmptyPrompt ==> r@ == "Empty prompts aren't allowed. Please provide a non-empty prompt."@,
            *self is LastMessageMustBeUser ==> r@ == "The final message must be from the user. To provide a system prompt, you must provide the system prompt followed by a user prompt."@,
    {
        match self {
            ValidationError::EmptyPrompt => "Empty prompts aren't allowed. Please provide a non-empty prompt.",
            ValidationError::LastMessageMustBeUser => "The final message must be from the user. To provide a system prompt, you must provide the system prompt followed by a user prompt.",
        }
    }
}

/// The verdict the validator owes a request: the first failing rule wins.
/// An empty conversation, or a last message that is blank, is an empty
/// prompt; then the last message must come from the user.
pub open spec fn spec_validation(req: LanguageModelRequest) -> Option<ValidationError> {
    if req.messages@.len() == 0 {
        Some(ValidationError::EmptyPrompt)
    } else if spec_is_blank(req.messages@.last().content@) {
        Some(ValidationError::EmptyPrompt)
    } else if req.messages@.last().role != Role::User {
        Some(ValidationError::LastMessageMustBeUser)
    } else {
        None
    }
}

/// Rejects a malformed conversation before any network call is spent on it.
pub fn validate(req: &LanguageModelRequest) -> (r: Result<(), ValidationError>)
    ensures
        r == (match spec_validation(*req) {
            Some(e) => Err::<(), ValidationError>(e),
            None => Ok(()),
        }),
{
    let n: usize = req.messages.len();
    if n == 0 {
        return Err(ValidationError::EmptyPrompt);
    }
    let last = &req.messages[n - 1];
    if is_blank(last.content.as_str()) {
        return Err(ValidationError::EmptyPrompt);
    }
    if !matches!(last.role, Role::User) {
        return Err(ValidationError::LastMessageMustBeUser);
    }
    Ok(())
}

} // verus!
