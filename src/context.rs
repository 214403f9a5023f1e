//! The per-request object handed to a handler.
use vstd::prelude::*;
use crate::dispatch::InteractionEvent;
use crate::response::{message_reply, same_rich_content, with_ephemeral, InteractionResponse, MessageBuilder, ResponseType};
use crate::rest::Client;

verus! {

/// What a handler receives: the interaction as received (`raw`), the data of
/// its kind (`data`), a client bound to the bot's token (`rest`), and the
/// host's capabilities (`env`), with the caller's identity read off the
/// interaction.
pub struct InteractionContext<R, D, E> {
    pub raw: R,
    pub data: D,
    pub rest: Client,
    pub env: E,
    pub guild_id: Option<u64>,
    pub user_id: Option<u64>,
}

impl<R, D, E> InteractionContext<R, D, E> {
    /// The context of the interaction `event` (received as `raw`, with data
    /// `data`), for the bot with token `token`.
    pub fn create(raw: R, event: &InteractionEvent, data: D, token: &str, env: E) -> (r: Self)
        ensures
            r.raw == raw,
            r.data == data,
            r.env == env,
            r.rest.token_text() == token@,
            r.guild_id == event.guild_id,
            r.user_id == event.user_id,
    {
        InteractionContext {
            raw,
            data,
            rest: Client::new(token),
            env,
            guild_id: event.guild_id,
            user_id: event.user_id,
        }
    }

    /// The guild the interaction came from, if any.
    pub fn guild_id(&self) -> (r: Option<u64>)
        ensures
            r == self.guild_id,
    {
        self.guild_id
    }

    /// The user who acted, if known.
    pub fn user_id(&self) -> (r: Option<u64>)
        ensures
            r == self.user_id,
    {
        self.user_id
    }

    /// A reply with `message`; with `ephemeral` it is shown to the invoking
    /// user only.
    pub fn followup(&self, ephemeral: bool, message: MessageBuilder) -> (r: InteractionResponse)
        ensures
            r.kind == ResponseType::ChannelMessageWithSource,
            r.data is Some,
            r.data->0.flags == if ephemeral { with_ephemeral(message.flags) } else { message.flags },
            r.data->0.content == message.content,
            r.data->0.custom_id == message.custom_id,
            r.data->0.title == message.title,
            r.data->0.tts == message.tts,
            same_rich_content(r.data->0, message),
    {
        message_reply(ephemeral, message)
    }
}

} // verus!
