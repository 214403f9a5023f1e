//! Verification and dispatch of signed chat-platform interaction callbacks.
//!
//! A request is first authenticated (`signature`), then decoded by the
//! caller and routed (`dispatch`) through the routing tables (`registry`,
//! `pattern`); the handler's outcome becomes the reply (`response`).
//! `rest` gives the addresses of the outbound API calls.
pub mod context;
pub mod dispatch;
pub mod pattern;
pub mod registry;
pub mod response;
pub mod rest;
pub mod signature;
pub mod text;

pub use context::InteractionContext;
pub use dispatch::{Gate, HttpReply, InteractionEvent, InteractionKind, Route};
pub use pattern::CustomIdPattern;
pub use registry::Interactions;
pub use response::{InteractionResponse, MessageBuilder};
pub use rest::{Client, MemberEditBuilder, RestInteraction};
pub use signature::validate_headers;
pub use text::ToOwnedString;
