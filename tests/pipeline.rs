use ed25519_dalek::{Keypair, PublicKey, SecretKey, Signer};
use interactions::dispatch::handler_reply;
use interactions::response::{error_message, message_reply, ResponseType, EPHEMERAL};
use interactions::{Client, CustomIdPattern, InteractionContext, Gate, HttpReply, InteractionEvent, InteractionKind, Interactions, MessageBuilder, Route};

fn keypair() -> Keypair {
    let secret = SecretKey::from_bytes(&[3u8; 32]).unwrap();
    let public = PublicKey::from(&secret);
    Keypair { secret, public }
}

fn endpoint() -> Interactions<&'static str, &'static str> {
    let mut i = Interactions::new(hex::encode(keypair().public.as_bytes()), String::from("bot-token"));
    i.register_application_command_handler("ping", "ping-handler");
    i.register_message_component_handler(CustomIdPattern::starts_with("role:"), "role-handler");
    i
}

fn signed(timestamp: &str, body: &[u8]) -> String {
    let mut message = timestamp.as_bytes().to_vec();
    message.extend_from_slice(body);
    hex::encode(keypair().sign(&message).to_bytes())
}

fn event(kind: InteractionKind, name: Option<&str>, custom_id: Option<&str>) -> InteractionEvent {
    InteractionEvent {
        kind,
        command_name: name.map(String::from),
        custom_id: custom_id.map(String::from),
        guild_id: Some(11),
        user_id: None,
        token: String::from("interaction-token"),
    }
}

fn ephemeral_text(reply: &HttpReply) -> Option<String> {
    match reply {
        HttpReply::Json(r) => {
            assert_eq!(r.kind, ResponseType::ChannelMessageWithSource);
            let d = r.data.as_ref().unwrap();
            assert_eq!(d.flags, Some(EPHEMERAL));
            d.content.clone()
        }
        HttpReply::Error { .. } => None,
    }
}

#[test]
fn valid_request_passes_the_gate() {
    let body = br#"{"type":1}"#;
    let sig = signed("99", body);
    let gate = endpoint().authenticate(Some(sig.as_str()), Some("99"), body).unwrap();
    assert!(matches!(gate, Gate::Decode));
}

#[test]
fn tampered_signature_is_rejected_before_decoding() {
    let body = br#"{"type":1}"#;
    let mut sig = hex::decode(signed("99", body)).unwrap();
    sig[5] ^= 0x10;
    let sig = hex::encode(sig);
    match endpoint().authenticate(Some(sig.as_str()), Some("99"), body).unwrap() {
        Gate::Reject(HttpReply::Error { status, message }) => {
            assert_eq!(status, 401);
            assert_eq!(message, "Invalid token");
        }
        _ => panic!("expected a rejection"),
    }
}

#[test]
fn missing_header_is_rejected() {
    match endpoint().authenticate(None, Some("99"), b"{}").unwrap() {
        Gate::Reject(HttpReply::Error { status, .. }) => assert_eq!(status, 401),
        _ => panic!("expected a rejection"),
    }
}

#[test]
fn liveness_probe_is_acknowledged() {
    let e = endpoint();
    match e.route(&event(InteractionKind::Ping, None, None)) {
        Route::Respond(HttpReply::Json(r)) => {
            assert_eq!(r.kind, ResponseType::Pong);
            assert!(r.data.is_none());
        }
        _ => panic!("expected an acknowledgement"),
    }
}

#[test]
fn registered_command_routes_to_its_handler() {
    let e = endpoint();
    match e.route(&event(InteractionKind::ApplicationCommand, Some("ping"), None)) {
        Route::Command(h) => assert_eq!(*h, "ping-handler"),
        _ => panic!("expected the command handler"),
    }
}

#[test]
fn unregistered_command_gets_an_ephemeral_reply() {
    let e = endpoint();
    match e.route(&event(InteractionKind::ApplicationCommand, Some("unknown"), None)) {
        Route::Respond(reply) => {
            assert_eq!(ephemeral_text(&reply), Some(String::from("This command is not registered")));
        }
        _ => panic!("expected a reply"),
    }
}

#[test]
fn component_routes_by_prefix() {
    let e = endpoint();
    match e.route(&event(InteractionKind::MessageComponent, None, Some("role:123"))) {
        Route::Component(h) => assert_eq!(*h, "role-handler"),
        _ => panic!("expected the component handler"),
    }
}

#[test]
fn unregistered_component_gets_an_ephemeral_reply() {
    let e = endpoint();
    match e.route(&event(InteractionKind::MessageComponent, None, Some("rolex"))) {
        Route::Respond(reply) => {
            assert_eq!(ephemeral_text(&reply), Some(String::from("This message component is not registered")));
        }
        _ => panic!("expected a reply"),
    }
}

#[test]
fn other_kinds_are_bad_requests() {
    let e = endpoint();
    match e.route(&event(InteractionKind::Other, Some("ping"), None)) {
        Route::Respond(HttpReply::Error { status, message }) => {
            assert_eq!(status, 400);
            assert_eq!(message, "Missing implementation");
        }
        _ => panic!("expected a bad request"),
    }
}

#[test]
fn command_without_data_is_a_bad_request() {
    let e = endpoint();
    match e.route(&event(InteractionKind::ApplicationCommand, None, None)) {
        Route::Respond(HttpReply::Error { status, message }) => {
            assert_eq!(status, 400);
            assert_eq!(message, "Missing data");
        }
        _ => panic!("expected a bad request"),
    }
}

#[test]
fn failing_handler_gets_an_ephemeral_error_reply() {
    let reply = handler_reply(Err(String::from("rate limited")));
    assert_eq!(ephemeral_text(&reply), Some(String::from("An error occurred: rate limited")));
}

#[test]
fn successful_handler_reply_is_forwarded() {
    let response = message_reply(false, MessageBuilder::new().content("done"));
    match handler_reply(Ok(response)) {
        HttpReply::Json(r) => {
            assert_eq!(r.kind, ResponseType::ChannelMessageWithSource);
            let d = r.data.unwrap();
            assert_eq!(d.content.as_deref(), Some("done"));
            assert_eq!(d.flags, None);
        }
        _ => panic!("expected the handler's response"),
    }
}

#[test]
fn error_message_is_ephemeral_text() {
    let r = error_message(String::from("nope"));
    let d = r.data.unwrap();
    assert_eq!(d.content.as_deref(), Some("nope"));
    assert_eq!(d.flags, Some(64));
    assert!(d.title.is_none() && d.custom_id.is_none() && d.tts.is_none() && d.embeds.is_none());
}

#[test]
fn reply_adds_the_ephemeral_flag_to_existing_flags() {
    let mut m = MessageBuilder::new();
    m.flags = Some(4);
    let r = message_reply(true, m);
    assert_eq!(r.data.unwrap().flags, Some(68));
    let r = message_reply(true, MessageBuilder::new().title("t").custom_id("c"));
    let d = r.data.unwrap();
    assert_eq!(d.flags, Some(64));
    assert_eq!(d.title.as_deref(), Some("t"));
    assert_eq!(d.custom_id.as_deref(), Some("c"));
}

#[test]
fn context_carries_identity_and_token() {
    let e = endpoint();
    let ev = event(InteractionKind::ApplicationCommand, Some("ping"), None);
    let ctx = InteractionContext::create((), &ev, "data", e.token(), 5u8);
    assert_eq!(ctx.guild_id(), Some(11));
    assert_eq!(ctx.user_id(), None);
    assert_eq!(ctx.data, "data");
    assert_eq!(ctx.env, 5);
    assert_eq!(ctx.rest.authorization(), "Bot bot-token");
    let r = ctx.followup(true, MessageBuilder::new().content("hi"));
    let d = r.data.unwrap();
    assert_eq!(d.flags, Some(64));
    assert_eq!(d.content.as_deref(), Some("hi"));
}

#[test]
fn rest_interaction_followups() {
    let c = Client::new("bot");
    let ephemeral = c.interaction(77, String::from("itok"), true);
    assert_eq!(ephemeral.followup_path(), "https://discord.com/api/webhooks/77/itok");
    assert_eq!(ephemeral.followup_message(MessageBuilder::new()).flags, Some(64));
    let visible = c.interaction(77, String::from("itok"), false);
    assert_eq!(visible.followup_message(MessageBuilder::new()).flags, None);
}

#[test]
fn undecodable_body_is_a_bad_request() {
    match interactions::dispatch::malformed_body() {
        HttpReply::Error { status, message } => {
            assert_eq!(status, 400);
            assert_eq!(message, "Malformed interaction");
        }
        _ => panic!("expected a bad request"),
    }
}

#[test]
fn reply_keeps_the_rest_of_the_payload() {
    let mut m = MessageBuilder::new().content("c");
    m.tts = Some(true);
    m.embeds = Some(Vec::new());
    m.components = Some(Vec::new());
    let r = message_reply(true, m);
    let d = r.data.unwrap();
    assert_eq!(d.tts, Some(true));
    assert!(d.embeds.is_some() && d.components.is_some());
    assert!(d.attachments.is_none() && d.choices.is_none() && d.allowed_mentions.is_none());
}
