pub mod channel;
pub mod utils;

use std::collections::VecDeque;
use vstd::prelude::*;
use crate::init::State;
use crate::utils::{is_utc_text, is_clock_reading};
use crate::twitch::channel::{
    IrcCommand, IrcMessage, TwitchMessage, is_chat_message, chat_message_of, twitch_message_view,
};

verus! {

/// The IRC connection settings of the bot.
pub struct IrcConfig {
    pub nickname: String,
    pub server: String,
    pub channels: Vec<String>,
    pub port: u16,
    pub use_ssl: bool,
    pub password: String,
}

/// The Twitch chat server.
pub open spec fn twitch_server() -> Seq<char> {
    "irc.chat.twitch.tv"@
}

/// The connection to Twitch chat as `nickname`, authenticated by `token`,
/// joining the channel `#<channel>` over TLS on port 443.
pub fn twitch_config(nickname: &str, token: &str, channel: &str) -> (c: IrcConfig)
    ensures
        c.nickname@ == nickname@,
        c.server@ == twitch_server(),
        c.channels@.len() == 1,
        c.channels@[0]@ == "#"@ + channel@,
        c.port == 443,
        c.use_ssl,
        c.password@ == token@,
{
    let mut channels: Vec<String> = Vec::new();
    channels.push(String::from_str("#").concat(channel));
    IrcConfig {
        nickname: String::from_str(nickname),
        server: String::from_str("irc.chat.twitch.tv"),
        channels,
        port: 443,
        use_ssl: true,
        password: String::from_str(token),
    }
}

/// What the bot does with a message from the chat server.
pub enum IrcReaction {
    /// Send this answer back.
    Reply(IrcMessage),
    /// The chat message was buffered.
    Queued,
    /// The message is no chat message; here it is, to be logged.
    Unrecognized(IrcMessage),
}

/// `m` answers the ping `ping`: a `PONG` to the same server.
pub open spec fn is_pong_to(m: IrcMessage, server: Seq<char>) -> bool {
    &&& m.tags is None
    &&& m.prefix is None
    &&& m.command matches IrcCommand::Pong(s, second) && s@ == server && second is None
}

/// Reacts to a message from the chat server, stamping a chat message with
/// `timestamp`: answers a ping with a pong, buffers a chat message, and
/// hands back anything else.
pub fn react_at(state: &mut State, message: IrcMessage, timestamp: String) -> (r: IrcReaction)
    ensures
        final(state).running == old(state).running,
        match message.command {
            IrcCommand::Ping(server, _) => r matches IrcReaction::Reply(answer) && is_pong_to(answer, server@)
                && final(state).messages@ == old(state).messages@,
            _ => if is_chat_message(message) {
                r is Queued && final(state).messages@.len() == old(state).messages@.len() + 1
                    && final(state).messages@.drop_last() == old(state).messages@
                    && twitch_message_view(final(state).messages@.last()) == chat_message_of(message, timestamp@)
            } else {
                r matches IrcReaction::Unrecognized(back) && back == message
                    && final(state).messages@ == old(state).messages@
            },
        },
{
    if let IrcCommand::Ping(server, _) = &message.command {
        let answer = IrcMessage { tags: None, prefix: None, command: IrcCommand::Pong(server.clone(), None) };
        return IrcReaction::Reply(answer);
    }
    match TwitchMessage::from_message_at(message, timestamp) {
        Ok(m) => {
            state.add_message(m);
            IrcReaction::Queued
        },
        Err(back) => IrcReaction::Unrecognized(back),
    }
}

/// Reacts to a message from the chat server, stamping a chat message with
/// the current time (a reading of the clock taken during the call): answers a ping with a pong, buffers a chat message, and
/// hands back anything else.
pub fn react(state: &mut State, message: IrcMessage) -> (r: IrcReaction)
    ensures
        final(state).running == old(state).running,
        match message.command {
            IrcCommand::Ping(server, _) => r matches IrcReaction::Reply(answer) && is_pong_to(answer, server@)
                && final(state).messages@ == old(state).messages@,
            _ => if is_chat_message(message) {
                r is Queued && final(state).messages@.len() == old(state).messages@.len() + 1
                    && final(state).messages@.drop_last() == old(state).messages@
                    && exists|t: String| #[trigger] is_clock_reading(t) && is_utc_text(t@)
                        && twitch_message_view(final(state).messages@.last()) == chat_message_of(message, t@)
            } else {
                r matches IrcReaction::Unrecognized(back) && back == message
                    && final(state).messages@ == old(state).messages@
            },
        },
{
    let needs_time = match &message.command {
        IrcCommand::Ping(_, _) => false,
        _ => true,
    };
    let timestamp = if needs_time { crate::utils::now_utc_iso8601() } else { String::new() };
    let ghost reading = timestamp;
    assert(needs_time ==> is_clock_reading(reading));
    react_at(state, message, timestamp)
}

/// At each interval: hands out the buffered messages, oldest first, where
/// there are any, and empties the buffer.
pub fn on_interval(state: &mut State) -> (r: Option<VecDeque<TwitchMessage>>)
    ensures
        final(state).messages@.len() == 0,
        final(state).running == old(state).running,
        match r {
            Some(batch) => old(state).messages@.len() > 0 && batch@ == old(state).messages@,
            None => old(state).messages@.len() == 0,
        },
{
    let messages = state.take_messages();
    if messages.len() == 0 {
        None
    } else {
        Some(messages)
    }
}

/// A chat message that arrives is handed out at the next interval, after
/// every message buffered before it, and the interval leaves the buffer empty:
/// `before` is the buffer before the message arrives, `queued` the buffer
/// `react_at` leaves, `batch` what `on_interval` then hands out and `after`
/// the buffer it leaves.
pub proof fn law_chat_message_delivered_in_order(
    before: Seq<TwitchMessage>,
    message: IrcMessage,
    timestamp: Seq<char>,
    queued: Seq<TwitchMessage>,
    batch: Seq<TwitchMessage>,
    after: Seq<TwitchMessage>,
)
    requires
        queued.len() == before.len() + 1,
        queued.drop_last() == before,
        twitch_message_view(queued.last()) == chat_message_of(message, timestamp),
        batch == queued,
        after.len() == 0,
    ensures
        batch.len() == before.len() + 1,
        forall|i: int| 0 <= i < before.len() ==> batch[i] == before[i],
        twitch_message_view(batch[before.len() as int]) == chat_message_of(message, timestamp),
        after.len() == 0,
{
    assert forall|i: int| 0 <= i < before.len() implies batch[i] == before[i] by {
        assert(queued.drop_last()[i] == queued[i]);
    }
}

/// A chat message that `react` buffers carries, as its timestamp, the very
/// text a reading of the clock gave (an ISO 8601 time in UTC), along with the
/// whole text of the `PRIVMSG` it was read from.
pub proof fn law_buffered_chat_message_stamped_with_clock_reading(message: IrcMessage, buffered: TwitchMessage)
    requires
        is_chat_message(message),
        exists|t: String| #[trigger] is_clock_reading(t) && is_utc_text(t@)
            && twitch_message_view(buffered) == chat_message_of(message, t@),
    ensures
        exists|t: String| #[trigger] is_clock_reading(t) && buffered.timestamp@ == t@,
        is_utc_text(buffered.timestamp@),
        message.command matches IrcCommand::Privmsg(_, text) && buffered.message@ == text@,
{
    let t = choose|t: String| #[trigger] is_clock_reading(t) && is_utc_text(t@)
        && twitch_message_view(buffered) == chat_message_of(message, t@);
    assert(buffered.timestamp@ == t@);
}

} // verus!
