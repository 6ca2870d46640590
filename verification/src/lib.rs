//! A credential-refreshing streaming chat-completion client for the GitHub
//! Copilot Chat service.
//!
//! The library validates outgoing conversation requests, translates a
//! provider-neutral chat request into the Copilot Chat wire format, decides
//! when the cached ephemeral bearer key must be renewed, and adapts the raw
//! response stream into a sequence of text deltas.  Network transport, the
//! sign-in handshake and all presentation live outside the library: callers
//! perform the I/O and feed the observed results back in.

pub mod credentials;
pub mod laws;
pub mod provider;
pub mod request;
pub mod stream;
pub mod validate;
pub mod wire;

pub use request::LanguageModelId;
pub use request::LanguageModelName;
pub use request::LanguageModelProviderId;
pub use request::LanguageModelProviderName;
pub use request::LanguageModelRequest;
pub use request::LanguageModelRequestMessage;
pub use request::Role;
