//! Provider-neutral chat request types.
//!
//! These are the inputs the enclosing application hands to the provider: an
//! ordered conversation of role-tagged messages addressed to one model.

use vstd::prelude::*;

verus! {

/// Identifier of a language model, as surfaced to the application.
#[derive(Clone, Debug)]
pub struct LanguageModelId(pub String);

/// Human-readable name of a language model.
#[derive(Clone, Debug)]
pub struct LanguageModelName(pub String);

/// Identifier of a language model provider.
#[derive(Clone, Debug)]
pub struct LanguageModelProviderId(pub String);

/// Human-readable name of a language model provider.
#[derive(Clone, Debug)]
pub struct LanguageModelProviderName(pub String);

/// Author of one conversation message.
#[derive(Clone, Copy, Debug, PartialEq, Eq, Structural)]
pub enum Role {
    User,
    Assistant,
    System,
}

/// One provider-neutral conversation message.
#[derive(Clone, Debug)]
pub struct LanguageModelRequestMessage {
    pub role: Role,
    pub content: String,
}

/// A provider-neutral chat request: an ordered, transient conversation.
#[derive(Clone, Debug)]
pub struct LanguageModelRequest {
    pub messages: Vec<LanguageModelRequestMessage>,
}

} // verus!
