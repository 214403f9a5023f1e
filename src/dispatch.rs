//! The request pipeline: authenticate, then (after the caller decodes the
//! body) classify and route, then turn the handler's outcome into the reply.
use vstd::prelude::*;
use crate::pattern::utf8_of;
use crate::registry::{first_match, lookup, Interactions};
use crate::response::{
    acknowledge, error_message, handler_error, is_acknowledge, is_ephemeral_text,
    InteractionResponse, COMMAND_NOT_REGISTERED, COMPONENT_NOT_REGISTERED, ERROR_PREFIX,
};
use crate::signature::{check_outcome, header_bytes, validate_headers, SignatureError};

verus! {

/// HTTP status of a rejected signature.
pub const UNAUTHORIZED: u16 = 401;

/// HTTP status of a request that cannot be served.
pub const BAD_REQUEST: u16 = 400;

/// Body of the reply to a request whose signature fails the check.
pub const INVALID_TOKEN: &'static str = "Invalid token";

/// Body of the reply to an interaction of a kind that is not served.
pub const MISSING_IMPLEMENTATION: &'static str = "Missing implementation";

/// Body of the reply to an interaction that lacks the data of its kind.
pub const MISSING_DATA: &'static str = "Missing data";

/// Body of the reply to a request whose body does not decode.
pub const MALFORMED_BODY: &'static str = "Malformed interaction";

/// The kinds of interaction, as far as routing tells them apart.
#[derive(PartialEq, Eq, Structural, Debug, Clone, Copy)]
pub enum InteractionKind {
    /// A liveness probe.
    Ping,
    /// A slash command.
    ApplicationCommand,
    /// A click on a UI component.
    MessageComponent,
    /// Anything else.
    Other,
}

/// What this library reads of a decoded interaction: its kind, the command
/// name or the component's custom id that its data carries, the guild and
/// the acting user (by id), and the token that addresses follow-ups.
pub struct InteractionEvent {
    pub kind: InteractionKind,
    pub command_name: Option<String>,
    pub custom_id: Option<String>,
    pub guild_id: Option<u64>,
    pub user_id: Option<u64>,
    pub token: String,
}

/// The HTTP reply to a request.
pub enum HttpReply {
    /// Success, with the response envelope as the JSON body.
    Json(InteractionResponse),
    /// Failure, with a status and a plain-text body.
    Error { status: u16, message: String },
}

/// `r` is the failure with status `status` and body `message`.
pub open spec fn is_error_reply(r: HttpReply, status: u16, message: Seq<char>) -> bool {
    match r {
        HttpReply::Error { status: s, message: m } => s == status && m@ == message,
        HttpReply::Json(_) => false,
    }
}

/// `r` is a success whose envelope is an ephemeral reply with text `text`.
pub open spec fn is_ephemeral_json(r: HttpReply, text: Seq<char>) -> bool {
    match r {
        HttpReply::Json(resp) => is_ephemeral_text(resp, text),
        HttpReply::Error { .. } => false,
    }
}

/// What follows authentication.
pub enum Gate {
    /// Stop and send this reply; the body is not to be decoded.
    Reject(HttpReply),
    /// The signature holds: decode the body and route it.
    Decode,
}

/// Where a decoded interaction goes.
pub enum Route<'a, C, M> {
    /// Send this reply; no handler runs.
    Respond(HttpReply),
    /// Run this command handler.
    Command(&'a C),
    /// Run this component handler.
    Component(&'a M),
}

fn error_reply(status: u16, message: &str) -> (r: HttpReply)
    ensures
        is_error_reply(r, status, message@),
{
    HttpReply::Error { status, message: message.to_owned() }
}

/// The reply to an authenticated request whose body does not decode as an
/// interaction: 400.
pub fn malformed_body() -> (r: HttpReply)
    ensures
        is_error_reply(r, BAD_REQUEST, MALFORMED_BODY@),
{
    error_reply(BAD_REQUEST, MALFORMED_BODY)
}

/// The reply to a handler's outcome: its response as it is, or for a
/// failure with `message` an ephemeral reply with the error prefix followed
/// by the message. Either way a success at the HTTP level.
pub fn handler_reply(outcome: Result<InteractionResponse, String>) -> (r: HttpReply)
    ensures
        outcome is Ok ==> r == HttpReply::Json(outcome->Ok_0),
        outcome is Err ==> is_ephemeral_json(r, ERROR_PREFIX@ + outcome->Err_0@),
{
    match outcome {
        Ok(response) => HttpReply::Json(response),
        Err(message) => HttpReply::Json(handler_error(message.as_str())),
    }
}

impl<C, M> Interactions<C, M> {
    /// Authenticates a request before anything reads its body: a signature
    /// that fails the check (a missing header included) ends the request
    /// with 401 "Invalid token"; a malformed key or signature is an error.
    pub fn authenticate(&self, signature: Option<&str>, timestamp: Option<&str>, body: &[u8]) -> (r: Result<Gate, SignatureError>)
        ensures
            ({
                let outcome = check_outcome(
                    header_bytes(signature),
                    header_bytes(timestamp),
                    body@,
                    self.public_key_text_bytes(),
                );
                &&& outcome is Err <==> r is Err
                &&& outcome is Err ==> r->Err_0 == outcome->Err_0
                &&& outcome == Ok::<bool, SignatureError>(true) <==> r == Ok::<Gate, SignatureError>(Gate::Decode)
                &&& outcome == Ok::<bool, SignatureError>(false) ==> r is Ok && r->Ok_0 is Reject
                    && is_error_reply(r->Ok_0->Reject_0, UNAUTHORIZED, INVALID_TOKEN@)
            }),
    {
        match validate_headers(signature, timestamp, body, self.public_key()) {
            Ok(true) => Ok(Gate::Decode),
            Ok(false) => Ok(Gate::Reject(error_reply(UNAUTHORIZED, INVALID_TOKEN))),
            Err(e) => Err(e),
        }
    }

    /// Routes a decoded interaction: a liveness probe is acknowledged; a
    /// command goes to the handler registered under its name, a component
    /// to the first rule that selects its custom id; with no such handler
    /// the user is told so in an ephemeral reply; data missing for the kind
    /// and other kinds end the request with 400.
    pub fn route(&self, event: &InteractionEvent) -> (r: Route<'_, C, M>)
        ensures
            event.kind == InteractionKind::Ping ==> r is Respond && r->Respond_0 is Json
                && is_acknowledge(r->Respond_0->Json_0),
            event.kind == InteractionKind::Other ==> r is Respond
                && is_error_reply(r->Respond_0, BAD_REQUEST, MISSING_IMPLEMENTATION@),
            event.kind == InteractionKind::ApplicationCommand ==> match event.command_name {
                None => r is Respond && is_error_reply(r->Respond_0, BAD_REQUEST, MISSING_DATA@),
                Some(name) => match lookup(self.command_table(), utf8_of(name@)) {
                    Some(h) => r is Command && *r->Command_0 == h,
                    None => r is Respond && is_ephemeral_json(r->Respond_0, COMMAND_NOT_REGISTERED@),
                },
            },
            event.kind == InteractionKind::MessageComponent ==> match event.custom_id {
                None => r is Respond && is_error_reply(r->Respond_0, BAD_REQUEST, MISSING_DATA@),
                Some(id) => match first_match(self.component_table(), utf8_of(id@)) {
                    Some(h) => r is Component && *r->Component_0 == h,
                    None => r is Respond && is_ephemeral_json(r->Respond_0, COMPONENT_NOT_REGISTERED@),
                },
            },
    {
        match event.kind {
            InteractionKind::Ping => Route::Respond(HttpReply::Json(acknowledge())),
            InteractionKind::ApplicationCommand => match &event.command_name {
                None => Route::Respond(error_reply(BAD_REQUEST, MISSING_DATA)),
                Some(name) => match self.find_command(name.as_str()) {
                    Some(h) => Route::Command(h),
                    None => Route::Respond(
                        HttpReply::Json(error_message(COMMAND_NOT_REGISTERED.to_owned())),
                    ),
                },
            },
            InteractionKind::MessageComponent => match &event.custom_id {
                None => Route::Respond(error_reply(BAD_REQUEST, MISSING_DATA)),
                Some(id) => match self.find_component(id.as_str()) {
                    Some(h) => Route::Component(h),
                    None => Route::Respond(
                        HttpReply::Json(error_message(COMPONENT_NOT_REGISTERED.to_owned())),
                    ),
                },
            },
            InteractionKind::Other => Route::Respond(error_reply(BAD_REQUEST, MISSING_IMPLEMENTATION)),
        }
    }
}

} // verus!
