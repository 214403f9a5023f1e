//! Addresses and payloads of the outbound calls to the chat platform's API.
//! The calls themselves are made by the caller; this module decides what
//! they are sent to.
use vstd::prelude::*;
use crate::response::{same_rich_content, with_ephemeral, MessageBuilder};
use crate::text::ToOwnedString;

verus! {

/// Root of the platform's API.
pub const API_BASE: &'static str = "https://discord.com/api";

/// Audit-log reason sent with the role changes.
pub const ROLE_AUDIT_REASON: &'static str = "Reaction Role invoked";

/// The decimal digit `d` (below ten) as a character.
pub open spec fn digit_char(d: nat) -> char {
    seq!['0', '1', '2', '3', '4', '5', '6', '7', '8', '9'][d as int]
}

/// The decimal text of `n`: its digits, most significant first, with no
/// sign and no leading zero.
pub open spec fn decimal(n: nat) -> Seq<char>
    decreases n,
{
    if n < 10 {
        seq![digit_char(n)]
    } else {
        decimal(n / 10).push(digit_char(n % 10))
    }
}

/// The decimal digit `d` (below ten) as a one-character string.
fn digit_str(d: u64) -> (r: &'static str)
    requires
        d < 10,
    ensures
        r@ == seq![digit_char(d as nat)],
{
    proof {
        reveal_strlit("0");
        reveal_strlit("1");
        reveal_strlit("2");
        reveal_strlit("3");
        reveal_strlit("4");
        reveal_strlit("5");
        reveal_strlit("6");
        reveal_strlit("7");
        reveal_strlit("8");
        reveal_strlit("9");
    }
    if d == 0 {
        "0"
    } else if d == 1 {
        "1"
    } else if d == 2 {
        "2"
    } else if d == 3 {
        "3"
    } else if d == 4 {
        "4"
    } else if d == 5 {
        "5"
    } else if d == 6 {
        "6"
    } else if d == 7 {
        "7"
    } else if d == 8 {
        "8"
    } else {
        "9"
    }
}

/// The decimal text of `n`.
pub fn decimal_string(n: u64) -> (r: String)
    ensures
        r@ == decimal(n as nat),
    decreases n,
{
    if n < 10 {
        String::from_str(digit_str(n))
    } else {
        let mut r = decimal_string(n / 10);
        r.append(digit_str(n % 10));
        r
    }
}

/// The query of a channel-messages request: at most one anchor (`around`,
/// else `before`, else `after`), then the `limit` if given.
pub open spec fn messages_query(around: Option<u64>, before: Option<u64>, after: Option<u64>, limit: Option<u8>) -> Seq<char> {
    let anchor = if around is Some {
        "?around="@ + decimal(around->0 as nat)
    } else if before is Some {
        "?before="@ + decimal(before->0 as nat)
    } else if after is Some {
        "?after="@ + decimal(after->0 as nat)
    } else {
        Seq::<char>::empty()
    };
    let anchored = around is Some || before is Some || after is Some;
    match limit {
        Some(l) => anchor + (if anchored { "&"@ } else { "?"@ }) + "limit="@ + decimal(l as nat),
        None => anchor,
    }
}

/// The address of a guild member.
pub fn guild_member_path(guild_id: u64, member_id: u64) -> (r: String)
    ensures
        r@ == API_BASE@ + "/guilds/"@ + decimal(guild_id as nat) + "/members/"@ + decimal(member_id as nat),
{
    let mut r = String::from_str(API_BASE);
    r.append("/guilds/");
    r.append(decimal_string(guild_id).as_str());
    r.append("/members/");
    r.append(decimal_string(member_id).as_str());
    r
}

/// The address of one role of a guild member.
pub fn member_role_path(guild_id: u64, member_id: u64, role_id: u64) -> (r: String)
    ensures
        r@ == API_BASE@ + "/guilds/"@ + decimal(guild_id as nat) + "/members/"@ + decimal(member_id as nat)
            + "/roles/"@ + decimal(role_id as nat),
{
    let mut r = guild_member_path(guild_id, member_id);
    r.append("/roles/");
    r.append(decimal_string(role_id).as_str());
    r
}

/// The address of the messages of a channel.
pub fn channel_messages_base(channel_id: u64) -> (r: String)
    ensures
        r@ == API_BASE@ + "/channels/"@ + decimal(channel_id as nat) + "/messages"@,
{
    let mut r = String::from_str(API_BASE);
    r.append("/channels/");
    r.append(decimal_string(channel_id).as_str());
    r.append("/messages");
    r
}

/// The address of one message of a channel.
pub fn message_path(channel_id: u64, message_id: u64) -> (r: String)
    ensures
        r@ == API_BASE@ + "/channels/"@ + decimal(channel_id as nat) + "/messages/"@ + decimal(message_id as nat),
{
    let mut r = String::from_str(API_BASE);
    r.append("/channels/");
    r.append(decimal_string(channel_id).as_str());
    r.append("/messages/");
    r.append(decimal_string(message_id).as_str());
    r
}

/// The address that lists messages of a channel, around, before or after a
/// message (the first of these that is given), at most `limit` of them.
pub fn channel_messages_path(
    channel_id: u64,
    around: Option<u64>,
    before: Option<u64>,
    after: Option<u64>,
    limit: Option<u8>,
) -> (r: String)
    ensures
        r@ == API_BASE@ + "/channels/"@ + decimal(channel_id as nat) + "/messages"@
            + messages_query(around, before, after, limit),
{
    let mut r = channel_messages_base(channel_id);
    let ghost base = r@;
    let mut first_query = true;
    if let Some(a) = around {
        first_query = false;
        r.append("?around=");
        r.append(decimal_string(a).as_str());
    } else if let Some(b) = before {
        first_query = false;
        r.append("?before=");
        r.append(decimal_string(b).as_str());
    } else if let Some(c) = after {
        first_query = false;
        r.append("?after=");
        r.append(decimal_string(c).as_str());
    }
    if let Some(l) = limit {
        if first_query {
            r.append("?");
        } else {
            r.append("&");
        }
        r.append("limit=");
        r.append(decimal_string(l as u64).as_str());
    }
    assert(r@ =~= base + messages_query(around, before, after, limit));
    r
}

/// The address of a follow-up message of an interaction.
pub fn webhook_path(application_id: u64, interaction_token: &str) -> (r: String)
    ensures
        r@ == API_BASE@ + "/webhooks/"@ + decimal(application_id as nat) + "/"@ + interaction_token@,
{
    let mut r = String::from_str(API_BASE);
    r.append("/webhooks/");
    r.append(decimal_string(application_id).as_str());
    r.append("/");
    r.append(interaction_token);
    r
}

/// The value of the authorization header of a bot.
pub fn authorization(token: &str) -> (r: String)
    ensures
        r@ == "Bot "@ + token@,
{
    let mut r = String::from_str("Bot ");
    r.append(token);
    r
}

/// What the outbound calls of a bot are made with: its token.
pub struct Client {
    token: String,
}

/// What the follow-up calls of one interaction are made with.
pub struct RestInteraction {
    token: String,
    app_id: u64,
    ephemeral: bool,
}

impl Client {
    pub closed spec fn token_text(&self) -> Seq<char> {
        self.token@
    }

    /// A client for the bot with token `token`.
    pub fn new<S: ToOwnedString>(token: S) -> (r: Client)
        ensures
            r.token_text() == token.text(),
    {
        Client { token: token.to_owned_string() }
    }

    /// The value of the authorization header of every call.
    pub fn authorization(&self) -> (r: String)
        ensures
            r@ == "Bot "@ + self.token_text(),
    {
        authorization(self.token.as_str())
    }

    /// The follow-up channel of the interaction with token
    /// `interaction_token` of application `app_id`; with `ephemeral` every
    /// follow-up is shown to the invoking user only.
    pub fn interaction(&self, app_id: u64, interaction_token: String, ephemeral: bool) -> (r: RestInteraction)
        ensures
            r.token_text() == interaction_token@,
            r.app_id() == app_id,
            r.ephemeral() == ephemeral,
    {
        RestInteraction { token: interaction_token, app_id, ephemeral }
    }
}

impl RestInteraction {
    pub closed spec fn token_text(&self) -> Seq<char> {
        self.token@
    }

    pub closed spec fn app_id(&self) -> u64 {
        self.app_id
    }

    pub closed spec fn ephemeral(&self) -> bool {
        self.ephemeral
    }

    /// The address that follow-up messages are posted to.
    pub fn followup_path(&self) -> (r: String)
        ensures
            r@ == API_BASE@ + "/webhooks/"@ + decimal(self.app_id() as nat) + "/"@ + self.token_text(),
    {
        webhook_path(self.app_id, self.token.as_str())
    }

    /// The message that a follow-up posts: `message`, with the ephemeral
    /// flag added when this channel is ephemeral.
    pub fn followup_message(&self, message: MessageBuilder) -> (r: MessageBuilder)
        ensures
            r.flags == if self.ephemeral() { with_ephemeral(message.flags) } else { message.flags },
            r.content == message.content,
            r.custom_id == message.custom_id,
            r.title == message.title,
            r.tts == message.tts,
            same_rich_content(r, message),
    {
        let mut message = message;
        if self.ephemeral {
            message.mark_ephemeral();
        }
        message
    }
}

/// The changes to a guild member that a modify call sends. Ids are kept as
/// their numbers.
pub struct MemberEditBuilder {
    pub nick: Option<String>,
    pub roles: Option<Vec<u64>>,
    pub mute: Option<bool>,
    pub deaf: Option<bool>,
    pub channel_id: Option<u64>,
    pub communication_disabled_until: Option<String>,
}

impl MemberEditBuilder {
    /// Changes nothing.
    pub fn new() -> (r: MemberEditBuilder)
        ensures
            r.nick is None,
            r.roles is None,
            r.mute is None,
            r.deaf is None,
            r.channel_id is None,
            r.communication_disabled_until is None,
    {
        MemberEditBuilder {
            nick: None,
            roles: None,
            mute: None,
            deaf: None,
            channel_id: None,
            communication_disabled_until: None,
        }
    }

    /// Sets the nickname.
    pub fn nick<S: ToOwnedString>(self, nick: S) -> (r: MemberEditBuilder)
        ensures
            r.nick is Some && r.nick->0@ == nick.text(),
            r.roles == self.roles,
            r.mute == self.mute,
            r.deaf == self.deaf,
            r.channel_id == self.channel_id,
            r.communication_disabled_until == self.communication_disabled_until,
    {
        MemberEditBuilder { nick: Some(nick.to_owned_string()), ..self }
    }

    /// Sets the member's roles to exactly `roles`.
    pub fn roles(self, roles: Vec<u64>) -> (r: MemberEditBuilder)
        ensures
            r.roles is Some && r.roles->0@ == roles@,
            r.nick == self.nick,
            r.mute == self.mute,
            r.deaf == self.deaf,
            r.channel_id == self.channel_id,
            r.communication_disabled_until == self.communication_disabled_until,
    {
        MemberEditBuilder { roles: Some(roles), ..self }
    }
}

impl Default for MemberEditBuilder {
    fn default() -> (r: MemberEditBuilder)
        ensures
            r.nick is None,
            r.roles is None,
            r.mute is None,
            r.deaf is None,
            r.channel_id is None,
            r.communication_disabled_until is None,
    {
        MemberEditBuilder::new()
    }
}

} // verus!
