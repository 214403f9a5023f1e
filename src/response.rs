//! Replies to interactions: the message payload and the response envelope.
use vstd::prelude::*;
use twilight_model::application::command::CommandOptionChoice;
use twilight_model::application::component::Component;
use twilight_model::channel::embed::Embed;
use twilight_model::channel::message::AllowedMentions;
use twilight_model::http::attachment::Attachment;
use crate::text::ToOwnedString;

verus! {

#[verifier::external_type_specification]
#[verifier::external_body]
pub struct ExAllowedMentions(AllowedMentions);

#[verifier::external_type_specification]
#[verifier::external_body]
pub struct ExAttachment(Attachment);

#[verifier::external_type_specification]
#[verifier::external_body]
pub struct ExCommandOptionChoice(CommandOptionChoice);

#[verifier::external_type_specification]
#[verifier::external_body]
pub struct ExComponent(Component);

#[verifier::external_type_specification]
#[verifier::external_body]
pub struct ExEmbed(Embed);

/// The message flag that shows a reply to the invoking user only.
pub const EPHEMERAL: u64 = 64;

/// The text of the reply to a command that has no handler.
pub const COMMAND_NOT_REGISTERED: &'static str = "This command is not registered";

/// The text of the reply to a component that has no handler.
pub const COMPONENT_NOT_REGISTERED: &'static str = "This message component is not registered";

/// The text that precedes a handler's error message in its reply.
pub const ERROR_PREFIX: &'static str = "An error occurred: ";

/// The payload of a message reply. Message flags are kept as their bits.
pub struct MessageBuilder {
    pub allowed_mentions: Option<AllowedMentions>,
    pub attachments: Option<Vec<Attachment>>,
    pub choices: Option<Vec<CommandOptionChoice>>,
    pub components: Option<Vec<Component>>,
    pub content: Option<String>,
    pub custom_id: Option<String>,
    pub embeds: Option<Vec<Embed>>,
    pub flags: Option<u64>,
    pub title: Option<String>,
    pub tts: Option<bool>,
}

/// The text of an optional string field.
pub open spec fn text_of(s: Option<String>) -> Option<Seq<char>> {
    match s {
        Some(t) => Some(t@),
        None => None,
    }
}

/// `a` and `b` hold the same mentions policy, attachments, choices, UI
/// components and embeds.
pub open spec fn same_rich_content(a: MessageBuilder, b: MessageBuilder) -> bool {
    &&& a.allowed_mentions == b.allowed_mentions
    &&& a.attachments == b.attachments
    &&& a.choices == b.choices
    &&& a.components == b.components
    &&& a.embeds == b.embeds
}

/// The flag bits after adding the ephemeral flag to `flags`.
pub open spec fn with_ephemeral(flags: Option<u64>) -> Option<u64> {
    match flags {
        Some(f) => Some(f | EPHEMERAL),
        None => Some(EPHEMERAL),
    }
}

impl MessageBuilder {
    /// Every field of the payload is unset.
    pub open spec fn is_empty(&self) -> bool {
        &&& self.allowed_mentions is None
        &&& self.attachments is None
        &&& self.choices is None
        &&& self.components is None
        &&& self.content is None
        &&& self.custom_id is None
        &&& self.embeds is None
        &&& self.flags is None
        &&& self.title is None
        &&& self.tts is None
    }

    /// The payload with nothing set.
    pub fn new() -> (r: MessageBuilder)
        ensures
            r.is_empty(),
    {
        MessageBuilder {
            allowed_mentions: None,
            attachments: None,
            choices: None,
            components: None,
            content: None,
            custom_id: None,
            embeds: None,
            flags: None,
            title: None,
            tts: None,
        }
    }

    /// Sets the message text.
    pub fn content<S: ToOwnedString>(self, content: S) -> (r: MessageBuilder)
        ensures
            text_of(r.content) == Some(content.text()),
            same_rich_content(r, self),
            r.custom_id == self.custom_id,
            r.title == self.title,
            r.flags == self.flags,
            r.tts == self.tts,
    {
        MessageBuilder { content: Some(content.to_owned_string()), ..self }
    }

    /// Sets the custom id (of a modal).
    pub fn custom_id<S: ToOwnedString>(self, custom_id: S) -> (r: MessageBuilder)
        ensures
            text_of(r.custom_id) == Some(custom_id.text()),
            same_rich_content(r, self),
            r.content == self.content,
            r.title == self.title,
            r.flags == self.flags,
            r.tts == self.tts,
    {
        MessageBuilder { custom_id: Some(custom_id.to_owned_string()), ..self }
    }

    /// Sets the title (of a modal).
    pub fn title<S: ToOwnedString>(self, title: S) -> (r: MessageBuilder)
        ensures
            text_of(r.title) == Some(title.text()),
            same_rich_content(r, self),
            r.content == self.content,
            r.custom_id == self.custom_id,
            r.flags == self.flags,
            r.tts == self.tts,
    {
        MessageBuilder { title: Some(title.to_owned_string()), ..self }
    }

    /// Adds the ephemeral flag to the message flags, keeping the others.
    pub fn mark_ephemeral(&mut self)
        ensures
            final(self).flags == with_ephemeral(old(self).flags),
            final(self).content == old(self).content,
            final(self).custom_id == old(self).custom_id,
            final(self).title == old(self).title,
            final(self).tts == old(self).tts,
            same_rich_content(*final(self), *old(self)),
    {
        let flags = match self.flags {
            Some(f) => f | EPHEMERAL,
            None => EPHEMERAL,
        };
        self.flags = Some(flags);
    }
}

impl Default for MessageBuilder {
    fn default() -> (r: MessageBuilder)
        ensures
            r.is_empty(),
    {
        MessageBuilder::new()
    }
}

/// The kinds of response to an interaction.
#[derive(PartialEq, Eq, Structural, Debug, Clone, Copy)]
pub enum ResponseType {
    /// Answers a liveness probe.
    Pong,
    ChannelMessageWithSource,
    DeferredChannelMessageWithSource,
    DeferredUpdateMessage,
    UpdateMessage,
    ApplicationCommandAutocompleteResult,
    Modal,
}

/// The response envelope: its kind and, for a message, its payload.
pub struct InteractionResponse {
    pub kind: ResponseType,
    pub data: Option<MessageBuilder>,
}

/// `r` acknowledges a liveness probe: kind `Pong`, no payload.
pub open spec fn is_acknowledge(r: InteractionResponse) -> bool {
    r.kind == ResponseType::Pong && r.data is None
}

/// `r` is a message reply seen by the invoking user only, whose text is
/// `text` and which sets nothing else.
pub open spec fn is_ephemeral_text(r: InteractionResponse, text: Seq<char>) -> bool {
    &&& r.kind == ResponseType::ChannelMessageWithSource
    &&& r.data is Some
    &&& text_of(r.data->0.content) == Some(text)
    &&& r.data->0.flags == Some(EPHEMERAL)
    &&& r.data->0.allowed_mentions is None
    &&& r.data->0.attachments is None
    &&& r.data->0.choices is None
    &&& r.data->0.components is None
    &&& r.data->0.custom_id is None
    &&& r.data->0.embeds is None
    &&& r.data->0.title is None
    &&& r.data->0.tts is None
}

/// The answer to a liveness probe.
pub fn acknowledge() -> (r: InteractionResponse)
    ensures
        is_acknowledge(r),
{
    InteractionResponse { kind: ResponseType::Pong, data: None }
}

/// A reply with text `message`, visible to the invoking user only.
pub fn error_message(message: String) -> (r: InteractionResponse)
    ensures
        is_ephemeral_text(r, message@),
{
    let mut data = MessageBuilder::new();
    data.content = Some(message);
    data.flags = Some(EPHEMERAL);
    InteractionResponse { kind: ResponseType::ChannelMessageWithSource, data: Some(data) }
}

/// A message reply carrying `message`; with `ephemeral` the ephemeral flag
/// is added to its flags.
pub fn message_reply(ephemeral: bool, message: MessageBuilder) -> (r: InteractionResponse)
    ensures
        r.kind == ResponseType::ChannelMessageWithSource,
        r.data is Some,
        r.data->0.flags == if ephemeral { with_ephemeral(message.flags) } else { message.flags },
        r.data->0.content == message.content,
        r.data->0.custom_id == message.custom_id,
        r.data->0.title == message.title,
        r.data->0.tts == message.tts,
        same_rich_content(r.data->0, message),
{
    let mut message = message;
    if ephemeral {
        message.mark_ephemeral();
    }
    InteractionResponse { kind: ResponseType::ChannelMessageWithSource, data: Some(message) }
}

/// The reply to a handler that failed with `message`: the error prefix
/// followed by the message, visible to the invoking user only.
pub fn handler_error(message: &str) -> (r: InteractionResponse)
    ensures
        is_ephemeral_text(r, ERROR_PREFIX@ + message@),
{
    let mut text = String::from_str(ERROR_PREFIX);
    text.append(message);
    error_message(text)
}

} // verus!
