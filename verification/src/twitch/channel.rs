use vstd::prelude::*;
use crate::error::{Error, ErrorKind};
use crate::json_tree::Json;
use crate::utils::{now_utc_iso8601, is_utc_text, is_clock_reading};

verus! {

/// An IRCv3 message tag: a key with an optional value.
#[derive(Clone, Debug)]
pub struct IrcTag {
    pub key: String,
    pub value: Option<String>,
}

/// The IRC commands the bot reads or writes; every other command is `Other`.
#[derive(Clone, Debug)]
pub enum IrcCommand {
    /// `PING server1 [server2]`
    Ping(String, Option<String>),
    /// `PONG server [server2]`
    Pong(String, Option<String>),
    /// `PRIVMSG target :text`
    Privmsg(String, String),
    /// `PART channel [comment]`
    Part(String, Option<String>),
    /// `CAP REQ :capabilities`
    CapRequest(String),
    /// Any other command.
    Other,
}

/// An IRC message: optional tags, an optional prefix (its source) and a command.
#[derive(Clone, Debug)]
pub struct IrcMessage {
    pub tags: Option<Vec<IrcTag>>,
    pub prefix: Option<String>,
    pub command: IrcCommand,
}

/// A chat message as the bot keeps it.
#[derive(Clone, Debug)]
pub struct TwitchMessage {
    pub from: String,
    pub message: String,
    pub moderator: bool,
    pub timestamp: String,
}

/// The number of characters of `p` before its first `'!'` (all of them when it has none).
pub open spec fn bang_index(p: Seq<char>) -> nat
    decreases p.len(),
{
    if p.len() == 0 {
        0
    } else if p[0] == '!' {
        0
    } else {
        1 + bang_index(p.drop_first())
    }
}

/// The nickname in a message prefix `nick!user@host`: the text before the first `'!'`.
pub open spec fn prefix_user(p: Seq<char>) -> Seq<char> {
    p.take(bang_index(p) as int)
}

/// The tag that marks a moderator: `mod=1`.
pub open spec fn is_mod_tag(t: IrcTag) -> bool {
    t.key@ == "mod"@ && t.value is Some && t.value.unwrap()@ == "1"@
}

/// Some tag of `ts` is the moderator tag.
pub open spec fn has_mod_tag_in(ts: Seq<IrcTag>) -> bool {
    exists|i: int| 0 <= i < ts.len() && #[trigger] is_mod_tag(ts[i])
}

/// The message carries the moderator tag.
pub open spec fn has_mod_tag(tags: Option<Vec<IrcTag>>) -> bool {
    tags is Some && has_mod_tag_in(tags.unwrap()@)
}

/// A chat message can be read from `m`: it has a prefix and is a `PRIVMSG`.
pub open spec fn is_chat_message(m: IrcMessage) -> bool {
    m.prefix is Some && m.command is Privmsg
}

/// The chat message read from `m`, stamped with `timestamp`.
pub open spec fn chat_message_of(m: IrcMessage, timestamp: Seq<char>) -> (Seq<char>, Seq<char>, bool, Seq<char>) {
    (
        prefix_user(m.prefix.unwrap()@),
        match m.command {
            IrcCommand::Privmsg(_, text) => text@,
            _ => Seq::empty(),
        },
        has_mod_tag(m.tags),
        timestamp,
    )
}

/// The fields of a chat message, as texts.
pub open spec fn twitch_message_view(m: TwitchMessage) -> (Seq<char>, Seq<char>, bool, Seq<char>) {
    (m.from@, m.message@, m.moderator, m.timestamp@)
}

proof fn lemma_bang_index(p: Seq<char>, i: int)
    requires
        0 <= i <= p.len(),
        forall|j: int| 0 <= j < i ==> p[j] != '!',
        i == p.len() || p[i] == '!',
    ensures
        bang_index(p) == i,
    decreases p.len(),
{
    if p.len() > 0 && i > 0 {
        assert forall|j: int| 0 <= j < i - 1 implies p.drop_first()[j] != '!' by {
            assert(p.drop_first()[j] == p[j + 1]);
        }
        lemma_bang_index(p.drop_first(), i - 1);
    }
}

/// The nickname in a message prefix: the text before the first `'!'`.
pub fn user_of_prefix(prefix: &str) -> (user: String)
    ensures
        user@ == prefix_user(prefix@),
{
    let n = prefix.unicode_len();
    let mut i: usize = 0;
    while i < n && prefix.get_char(i) != '!'
        invariant
            n == prefix@.len(),
            i <= n,
            forall|j: int| 0 <= j < i ==> prefix@[j] != '!',
        decreases n - i,
    {
        i = i + 1;
    }
    proof {
        lemma_bang_index(prefix@, i as int);
    }
    String::from_str(prefix.substring_char(0, i))
}

/// Tells whether two texts are equal.
pub fn texts_equal(a: &str, b: &str) -> (r: bool)
    ensures
        r == (a@ == b@),
{
    let n = a.unicode_len();
    if n != b.unicode_len() {
        return false;
    }
    let mut i: usize = 0;
    while i < n
        invariant
            n == a@.len(),
            n == b@.len(),
            i <= n,
            forall|j: int| 0 <= j < i ==> a@[j] == b@[j],
        decreases n - i,
    {
        if a.get_char(i) != b.get_char(i) {
            return false;
        }
        i = i + 1;
    }
    assert(a@ =~= b@);
    true
}

/// Tells whether a tag is the moderator tag `mod=1`.
fn mod_tag(t: &IrcTag) -> (r: bool)
    ensures
        r == is_mod_tag(*t),
{
    if !texts_equal(t.key.as_str(), "mod") {
        return false;
    }
    match &t.value {
        Some(v) => texts_equal(v.as_str(), "1"),
        None => false,
    }
}

/// Tells whether the tags hold the moderator tag.
pub fn contains_mod_tag(tags: &Option<Vec<IrcTag>>) -> (r: bool)
    ensures
        r == has_mod_tag(*tags),
{
    match tags {
        Some(ts) => {
            let n = ts.len();
            let mut i: usize = 0;
            while i < n
                invariant
                    n == ts@.len(),
                    i <= n,
                    *tags == Some(*ts),
                    forall|j: int| 0 <= j < i ==> !is_mod_tag(#[trigger] ts@[j]),
                decreases n - i,
            {
                if mod_tag(&ts[i]) {
                    assert(is_mod_tag(ts@[i as int]));
                    return true;
                }
                i = i + 1;
            }
            false
        },
        None => false,
    }
}

impl TwitchMessage {
    /// Reads a chat message from an IRC message, stamped with `timestamp`;
    /// gives the IRC message back where it has no prefix or is no `PRIVMSG`.
    pub fn from_message_at(message: IrcMessage, timestamp: String) -> (r: Result<TwitchMessage, IrcMessage>)
        ensures
            match r {
                Ok(m) => is_chat_message(message) && twitch_message_view(m) == chat_message_of(message, timestamp@),
                Err(back) => !is_chat_message(message) && back == message,
            },
            r matches Ok(m) ==> {
                &&& m.from@ == prefix_user(message.prefix.unwrap()@)
                &&& message.command matches IrcCommand::Privmsg(_, text) && m.message@ == text@
                &&& m.moderator <==> (message.tags matches Some(ts)
                    && exists|i: int| 0 <= i < ts@.len() && #[trigger] is_mod_tag(ts@[i]))
                &&& m.timestamp@ == timestamp@
            },
    {
        let user = match &message.prefix {
            Some(prefix) => user_of_prefix(prefix.as_str()),
            None => {
                return Err(message);
            },
        };
        let body = match &message.command {
            IrcCommand::Privmsg(_, payload) => payload.clone(),
            _ => {
                return Err(message);
            },
        };
        let moderator = contains_mod_tag(&message.tags);
        Ok(TwitchMessage { from: user, message: body, moderator, timestamp })
    }

    /// Reads a chat message from an IRC message, stamped with the current time
    /// (a reading of the clock taken during the call);
    /// gives the IRC message back where it has no prefix or is no `PRIVMSG`.
    pub fn from_message(message: IrcMessage) -> (r: Result<TwitchMessage, IrcMessage>)
        ensures
            match r {
                Ok(m) => is_chat_message(message) && exists|t: String| #[trigger] is_clock_reading(t) && is_utc_text(t@)
                    && twitch_message_view(m) == chat_message_of(message, t@),
                Err(back) => !is_chat_message(message) && back == message,
            },
    {
        if message.prefix.is_none() {
            return Err(message);
        }
        match &message.command {
            IrcCommand::Privmsg(_, _) => {},
            _ => {
                return Err(message);
            },
        }
        let timestamp = now_utc_iso8601();
        let ghost reading = timestamp;
        assert(is_clock_reading(reading));
        Self::from_message_at(message, timestamp)
    }

    /// The message as a JSON object with the members `from`, `message`,
    /// `moderator` and `timestamp`, in that order.
    pub fn into_json(self) -> (j: Json)
        ensures
            j matches Json::Object(entries) && entries@.len() == 4
                && entries@[0].0@ == "from"@ && entries@[0].1 == Json::Str(self.from)
                && entries@[1].0@ == "message"@ && entries@[1].1 == Json::Str(self.message)
                && entries@[2].0@ == "moderator"@ && entries@[2].1 == Json::Boolean(self.moderator)
                && entries@[3].0@ == "timestamp"@ && entries@[3].1 == Json::Str(self.timestamp),
    {
        let mut entries: Vec<(String, Json)> = Vec::new();
        entries.push((String::from_str("from"), Json::Str(self.from)));
        entries.push((String::from_str("message"), Json::Str(self.message)));
        entries.push((String::from_str("moderator"), Json::Boolean(self.moderator)));
        entries.push((String::from_str("timestamp"), Json::Str(self.timestamp)));
        Json::Object(entries)
    }
}

/// The text sent for a chat message: `"@<recipient> - <message>"` when it is
/// addressed to someone, else the message itself.
pub open spec fn chat_text(recipient: Option<Seq<char>>, message: Seq<char>) -> Seq<char> {
    match recipient {
        Some(r) => "@"@ + r + " - "@ + message,
        None => message,
    }
}

/// The view of an optional text.
pub open spec fn opt_text(s: Option<String>) -> Option<Seq<char>> {
    match s {
        Some(t) => Some(t@),
        None => None,
    }
}

/// The text of a chat message, addressed to `recipient` where there is one.
pub fn compose_chat_text(recipient: Option<String>, message: String) -> (text: String)
    ensures
        text@ == chat_text(opt_text(recipient), message@),
        recipient matches Some(r) ==> text@ == "@"@ + r@ + " - "@ + message@,
        recipient is None ==> text@ == message@,
{
    match recipient {
        Some(r) => {
            let t = String::from_str("@").concat(r.as_str()).concat(" - ").concat(message.as_str());
            t
        },
        None => message,
    }
}

/// The message that leaves `room`.
pub open spec fn is_part_of(m: IrcMessage, room: Seq<char>) -> bool {
    &&& m.tags is None
    &&& m.prefix is None
    &&& m.command matches IrcCommand::Part(chan, comment) && chan@ == room && comment is None
}

/// The message that says `text` in `room`.
pub open spec fn is_privmsg_of(m: IrcMessage, room: Seq<char>, text: Seq<char>) -> bool {
    &&& m.tags is None
    &&& m.prefix is None
    &&& m.command matches IrcCommand::Privmsg(target, body) && target@ == room && body@ == text
}

/// The chat room the bot watches, and the handle of the IRC client that
/// talks to it once one is connected.
pub struct Channel<C> {
    room: String,
    client: Option<C>,
}

impl<C: Clone> Channel<C> {
    /// The room's name.
    pub closed spec fn room(&self) -> Seq<char> {
        self.room@
    }

    /// The client handle, where one was set.
    pub closed spec fn client(&self) -> Option<C> {
        self.client
    }

    /// A channel for the first of the configured channels, with no client yet.
    pub fn new(channels: &Option<Vec<String>>) -> (c: Self)
        requires
            channels is Some,
            channels.unwrap()@.len() > 0,
        ensures
            c.room() == channels.unwrap()@[0]@,
            c.client() is None,
    {
        let list = channels.as_ref().unwrap();
        Channel { room: list[0].clone(), client: None }
    }

    /// The room's name.
    pub fn room_name(&self) -> (r: &str)
        ensures
            r@ == self.room(),
    {
        self.room.as_str()
    }

    /// Sets the client that talks to the room.
    pub fn set_client(&mut self, client: C)
        ensures
            final(self).room() == old(self).room(),
            final(self).client() == Some(client),
    {
        self.client = Some(client);
    }

    /// A clone of the client, where one was set.
    pub fn inner(&self) -> (r: Option<C>)
        ensures
            r is Some <==> self.client() is Some,
            r matches Some(x) ==> cloned::<C>(self.client().unwrap(), x),
    {
        match &self.client {
            Some(c) => Some(c.clone()),
            None => None,
        }
    }

    /// The message that says `message` in the room, addressed to `recipient`
    /// where there is one, with the client to send it through; an error where
    /// no client was set.
    pub fn send_message(&self, recipient: Option<String>, message: String) -> (r: Result<(C, IrcMessage), Error>)
        ensures
            match r {
                Ok(out) => {
                    &&& self.client() is Some && cloned::<C>(self.client().unwrap(), out.0)
                    &&& is_privmsg_of(out.1, self.room(), chat_text(opt_text(recipient), message@))
                    &&& out.1.command matches IrcCommand::Privmsg(_, text) && match recipient {
                        Some(r) => text@ == "@"@ + r@ + " - "@ + message@,
                        None => text@ == message@,
                    }
                },
                Err(e) => self.client() is None && e@ == (ErrorKind::TwitchError, "Twitch IRC client not initialized."@),
            },
    {
        let client = match &self.client {
            Some(c) => c.clone(),
            None => {
                return Err(Error::new(ErrorKind::TwitchError, String::from_str("Twitch IRC client not initialized.")));
            },
        };
        let text = compose_chat_text(recipient, message);
        let room = self.room.clone();
        let out = IrcMessage { tags: None, prefix: None, command: IrcCommand::Privmsg(room, text) };
        Ok((client, out))
    }

    /// The message that leaves the room, with the client to send it through;
    /// nothing where no client was set.
    pub fn close(&self) -> (r: Option<(C, IrcMessage)>)
        ensures
            r is Some <==> self.client() is Some,
            r matches Some(out) ==> cloned::<C>(self.client().unwrap(), out.0) && is_part_of(out.1, self.room()),
    {
        let client = match &self.client {
            Some(c) => c.clone(),
            None => {
                return None;
            },
        };
        let room = self.room.clone();
        Some((client, IrcMessage { tags: None, prefix: None, command: IrcCommand::Part(room, None) }))
    }
}

proof fn lemma_bang_index_bounds(p: Seq<char>)
    ensures
        bang_index(p) <= p.len(),
        forall|j: int| 0 <= j < bang_index(p) ==> p[j] != '!',
        bang_index(p) == p.len() || p[bang_index(p) as int] == '!',
    decreases p.len(),
{
    if p.len() > 0 && p[0] != '!' {
        lemma_bang_index_bounds(p.drop_first());
        assert forall|j: int| 0 <= j < bang_index(p) implies p[j] != '!' by {
            if j > 0 {
                assert(p[j] == p.drop_first()[j - 1]);
            }
        }
    }
}

/// A chat message read from an IRC message: its sender is the text of the
/// prefix before the first `'!'` (all of it where there is none), its text is
/// the whole `PRIVMSG` text, it is from a moderator exactly when some tag of
/// the message is `mod=1`, and it carries the timestamp it was stamped with.
pub proof fn law_chat_message_fields(message: IrcMessage, timestamp: Seq<char>)
    requires
        is_chat_message(message),
    ensures
        ({
            let (from, text, moderator, stamp) = chat_message_of(message, timestamp);
            let p = message.prefix.unwrap()@;
            &&& from.len() <= p.len()
            &&& from == p.take(from.len() as int)
            &&& forall|j: int| 0 <= j < from.len() ==> from[j] != '!'
            &&& from.len() == p.len() || p[from.len() as int] == '!'
            &&& message.command matches IrcCommand::Privmsg(_, body) && text == body@
            &&& moderator <==> (message.tags matches Some(ts) && exists|i: int| 0 <= i < ts@.len()
                && (#[trigger] ts@[i]).key@ == "mod"@ && (ts@[i].value matches Some(v) && v@ == "1"@))
            &&& stamp == timestamp
        }),
{
    lemma_bang_index_bounds(message.prefix.unwrap()@);
    if let Some(ts) = message.tags {
        if has_mod_tag_in(ts@) {
            let i = choose|i: int| 0 <= i < ts@.len() && #[trigger] is_mod_tag(ts@[i]);
            assert(ts@[i].key@ == "mod"@ && (ts@[i].value matches Some(v) && v@ == "1"@));
        }
        if exists|i: int| 0 <= i < ts@.len() && (#[trigger] ts@[i]).key@ == "mod"@ && (ts@[i].value matches Some(v) && v@ == "1"@) {
            let i = choose|i: int| 0 <= i < ts@.len() && (#[trigger] ts@[i]).key@ == "mod"@ && (ts@[i].value matches Some(v) && v@ == "1"@);
            assert(is_mod_tag(ts@[i]));
        }
    }
}

/// The text sent for a chat message addressed to `recipient` is made of
/// `'@'`, the whole recipient, `" - "` and the whole message, in that order,
/// and nothing else; a message addressed to nobody is sent as it is.
pub proof fn law_chat_text_holds_recipient_and_whole_message(recipient: Seq<char>, message: Seq<char>)
    ensures
        chat_text(Some(recipient), message).len() == recipient.len() + message.len() + 4,
        chat_text(Some(recipient), message)[0] == '@',
        chat_text(Some(recipient), message).subrange(1, recipient.len() + 1int) == recipient,
        chat_text(Some(recipient), message)[recipient.len() + 1int] == ' ',
        chat_text(Some(recipient), message)[recipient.len() + 2int] == '-',
        chat_text(Some(recipient), message)[recipient.len() + 3int] == ' ',
        chat_text(Some(recipient), message).subrange(recipient.len() + 4int, recipient.len() + message.len() + 4int) == message,
        chat_text(None, message) == message,
{
    reveal_strlit("@");
    reveal_strlit(" - ");
    let t = chat_text(Some(recipient), message);
    assert(t.subrange(1, recipient.len() + 1int) =~= recipient);
    assert(t.subrange(recipient.len() + 4int, recipient.len() + message.len() + 4int) =~= message);
}

} // verus!
