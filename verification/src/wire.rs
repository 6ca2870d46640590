//! The Copilot Chat wire format: the model tags and message shape sent to the
//! completion endpoint, and the mapping from the provider-neutral roles.

use vstd::prelude::*;
use crate::request::Role;

verus! {

/// A model offered by the Copilot Chat service, drawn from a fixed catalog
/// that is immutable for the process lifetime.
#[derive(Clone, Copy, Debug, PartialEq, Eq, Structural)]
pub enum Model {
    Gpt4,
    Gpt3_5Turbo,
}

/// The wire identifier of each catalog model.
pub open spec fn spec_model_id(m: Model) -> Seq<char> {
    match m {
        Model::Gpt4 => "gpt-4"@,
        Model::Gpt3_5Turbo => "gpt-3.5-turbo"@,
    }
}

/// The display name of each catalog model.
pub open spec fn spec_model_display_name(m: Model) -> Seq<char> {
    match m {
        Model::Gpt4 => "GPT-4"@,
        Model::Gpt3_5Turbo => "GPT-3.5"@,
    }
}

/// The context-window limit of each catalog model, in tokens.
pub open spec fn spec_model_max_token_count(m: Model) -> nat {
    match m {
        Model::Gpt4 => 8192,
        Model::Gpt3_5Turbo => 16385,
    }
}

impl Model {
    /// The identifier used for this model on the wire.
    pub fn id(&self) -> (r: &'static str)
        ensures
            r@ == spec_model_id(*self),
    {
        match self {
            Model::Gpt4 => "gpt-4",
            Model::Gpt3_5Turbo => "gpt-3.5-turbo",
        }
    }

    /// The name under which this model is shown to the user.
    pub fn display_name(&self) -> (r: &'static str)
        ensures
            r@ == spec_model_display_name(*self),
    {
        match self {
            Model::Gpt4 => "GPT-4",
            Model::Gpt3_5Turbo => "GPT-3.5",
        }
    }

    /// The largest token count this model accepts in one request.
    pub fn max_token_count(&self) -> (r: usize)
        ensures
            r == spec_model_max_token_count(*self),
    {
        match self {
            Model::Gpt4 => 8192,
            Model::Gpt3_5Turbo => 16385,
        }
    }
}

/// Author of one message in the wire format.
#[derive(Clone, Copy, Debug, PartialEq, Eq, Structural)]
pub enum CopilotChatRole {
    User,
    Assistant,
    System,
}

/// One message in the wire format.
#[derive(Clone, Debug)]
pub struct ChatMessage {
    pub role: CopilotChatRole,
    pub content: String,
}

/// The request body sent to the completion endpoint: the model tag and the
/// conversation, in order.
#[derive(Clone, Debug)]
pub struct CopilotChatRequest {
    pub model: Model,
    pub messages: Vec<ChatMessage>,
}

impl CopilotChatRequest {
    /// Assembles a wire request from its parts, changing neither.
    pub fn new(model: Model, messages: Vec<ChatMessage>) -> (r: CopilotChatRequest)
        ensures
            r.model == model,
            r.messages == messages,
    {
        CopilotChatRequest { model, messages }
    }
}

/// The wire role for each provider-neutral role.
pub open spec fn spec_wire_role(r: Role) -> CopilotChatRole {
    match r {
        Role::User => CopilotChatRole::User,
        Role::Assistant => CopilotChatRole::Assistant,
        Role::System => CopilotChatRole::System,
    }
}

/// The provider-neutral role for each wire role: the inverse of
/// [`spec_wire_role`].
pub open spec fn spec_neutral_role(w: CopilotChatRole) -> Role {
    match w {
        CopilotChatRole::User => Role::User,
        CopilotChatRole::Assistant => Role::Assistant,
        CopilotChatRole::System => Role::System,
    }
}

/// Maps a provider-neutral role onto the wire.
pub fn wire_role(r: Role) -> (w: CopilotChatRole)
    ensures
        w == spec_wire_role(r),
{
    match r {
        Role::User => CopilotChatRole::User,
        Role::Assistant => CopilotChatRole::Assistant,
        Role::System => CopilotChatRole::System,
    }
}

/// The role mapping is a bijection: mapping onto the wire and back recovers
/// every role, in either direction.
pub proof fn lemma_role_mapping_bijective()
    ensures
        forall|r: Role| spec_neutral_role(spec_wire_role(r)) == r,
        forall|w: CopilotChatRole| spec_wire_role(spec_neutral_role(w)) == w,
{
}

} // verus!
