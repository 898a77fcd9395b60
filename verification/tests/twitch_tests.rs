use std::collections::VecDeque;
use twitch_bot::error::ErrorKind;
use twitch_bot::init::State;
use twitch_bot::json_tree::Json;
use twitch_bot::twitch::channel::{
    compose_chat_text, contains_mod_tag, texts_equal, user_of_prefix, Channel, IrcCommand, IrcMessage,
    IrcTag, TwitchMessage,
};
use twitch_bot::twitch::utils::enable_capabilities;
use twitch_bot::twitch::{on_interval, react, react_at, twitch_config, IrcReaction};

fn privmsg(prefix: Option<&str>, text: &str, tags: Option<Vec<IrcTag>>) -> IrcMessage {
    IrcMessage {
        tags,
        prefix: prefix.map(String::from),
        command: IrcCommand::Privmsg(String::from("#room"), String::from(text)),
    }
}

fn tag(key: &str, value: Option<&str>) -> IrcTag {
    IrcTag { key: String::from(key), value: value.map(String::from) }
}

fn chat(from: &str) -> TwitchMessage {
    TwitchMessage {
        from: String::from(from),
        message: String::from("hi"),
        moderator: false,
        timestamp: String::from("t"),
    }
}

#[test]
fn user_is_text_before_bang() {
    assert_eq!(user_of_prefix("nick!user@host"), "nick");
    assert_eq!(user_of_prefix("server.example"), "server.example");
    assert_eq!(user_of_prefix("!x"), "");
    assert_eq!(user_of_prefix("a!b!c"), "a");
    assert_eq!(user_of_prefix(""), "");
}

#[test]
fn moderator_tag_is_mod_1() {
    assert!(contains_mod_tag(&Some(vec![tag("color", Some("red")), tag("mod", Some("1"))])));
    assert!(!contains_mod_tag(&Some(vec![tag("mod", Some("0"))])));
    assert!(!contains_mod_tag(&Some(vec![tag("mod", None)])));
    assert!(!contains_mod_tag(&Some(vec![])));
    assert!(!contains_mod_tag(&None));
    assert!(texts_equal("ab", "ab"));
    assert!(!texts_equal("ab", "abc"));
}

#[test]
fn chat_message_is_read_from_privmsg() {
    let m = privmsg(Some("alice!alice@twitch"), "hello", Some(vec![tag("mod", Some("1"))]));
    let t = TwitchMessage::from_message_at(m, String::from("2017-01-01T00:00:00Z")).unwrap();
    assert_eq!(t.from, "alice");
    assert_eq!(t.message, "hello");
    assert!(t.moderator);
    assert_eq!(t.timestamp, "2017-01-01T00:00:00Z");
    let live = TwitchMessage::from_message(privmsg(Some("bob"), "yo", None)).unwrap();
    assert_eq!(live.from, "bob");
    assert!(!live.moderator);
    assert!(live.timestamp.ends_with('Z'));
}

#[test]
fn other_messages_are_given_back() {
    let no_prefix = privmsg(None, "hello", None);
    let back = TwitchMessage::from_message_at(no_prefix, String::new()).unwrap_err();
    assert!(back.prefix.is_none());
    let join = IrcMessage { tags: None, prefix: Some(String::from("a!b")), command: IrcCommand::Other };
    assert!(matches!(TwitchMessage::from_message(join).unwrap_err().command, IrcCommand::Other));
}

#[test]
fn message_as_json() {
    let j = TwitchMessage {
        from: String::from("a"),
        message: String::from("m"),
        moderator: true,
        timestamp: String::from("t"),
    }
    .into_json();
    match j {
        Json::Object(entries) => {
            let names: Vec<&str> = entries.iter().map(|(k, _)| k.as_str()).collect();
            assert_eq!(names, vec!["from", "message", "moderator", "timestamp"]);
            assert!(matches!(&entries[2].1, Json::Boolean(true)));
            assert!(matches!(&entries[0].1, Json::Str(s) if s == "a"));
        }
        _ => panic!("not an object"),
    }
}

#[test]
fn ping_is_answered_with_pong() {
    let mut state = State::default();
    let ping = IrcMessage { tags: None, prefix: None, command: IrcCommand::Ping(String::from("tmi"), None) };
    match react(&mut state, ping) {
        IrcReaction::Reply(m) => assert!(matches!(m.command, IrcCommand::Pong(ref s, None) if s == "tmi")),
        _ => panic!("no pong"),
    }
    assert!(state.messages.is_empty());
}

#[test]
fn chat_is_buffered_and_delivered_in_order() {
    let mut state = State::default();
    assert!(matches!(react_at(&mut state, privmsg(Some("a!a"), "one", None), String::from("t1")), IrcReaction::Queued));
    assert!(matches!(react_at(&mut state, privmsg(Some("b!b"), "two", None), String::from("t2")), IrcReaction::Queued));
    let other = IrcMessage { tags: None, prefix: None, command: IrcCommand::Other };
    assert!(matches!(react_at(&mut state, other, String::from("t3")), IrcReaction::Unrecognized(_)));
    let batch = on_interval(&mut state).unwrap();
    let texts: Vec<&str> = batch.iter().map(|m| m.message.as_str()).collect();
    assert_eq!(texts, vec!["one", "two"]);
    assert_eq!(batch[1].timestamp, "t2");
    assert!(state.messages.is_empty());
    assert!(on_interval(&mut state).is_none());
    assert!(state.running);
}

#[test]
fn take_messages_empties_buffer() {
    let mut state = State { running: false, messages: VecDeque::new() };
    state.add_message(chat("a"));
    state.add_message(chat("b"));
    let taken = state.take_messages();
    assert_eq!(taken.len(), 2);
    assert_eq!(taken[0].from, "a");
    assert_eq!(taken[1].from, "b");
    assert!(state.messages.is_empty());
    assert!(!state.running);
}

#[test]
fn channel_sends_through_its_client() {
    let mut channel: Channel<u8> = Channel::new(&Some(vec![String::from("#room"), String::from("#other")]));
    assert_eq!(channel.room_name(), "#room");
    assert!(channel.inner().is_none());
    let e = channel.send_message(None, String::from("hi")).unwrap_err();
    assert_eq!(e.kind(), ErrorKind::TwitchError);
    assert_eq!(e.details(), "Twitch IRC client not initialized.");
    assert!(channel.close().is_none());
    channel.set_client(7);
    assert_eq!(channel.inner(), Some(7));
    let (client, m) = channel.send_message(Some(String::from("bob")), String::from("hi")).unwrap();
    assert_eq!(client, 7);
    assert!(matches!(m.command, IrcCommand::Privmsg(ref room, ref text) if room == "#room" && text == "@bob - hi"));
    let (_, part) = channel.close().unwrap();
    assert!(matches!(part.command, IrcCommand::Part(ref room, None) if room == "#room"));
}

#[test]
fn chat_text_addresses_recipient() {
    assert_eq!(compose_chat_text(Some(String::from("bob")), String::from("hi")), "@bob - hi");
    assert_eq!(compose_chat_text(None, String::from("hi")), "hi");
}

#[test]
fn config_joins_the_channel() {
    let c = twitch_config("bot", "oauth:x", "room");
    assert_eq!(c.nickname, "bot");
    assert_eq!(c.server, "irc.chat.twitch.tv");
    assert_eq!(c.channels, vec![String::from("#room")]);
    assert_eq!(c.port, 443);
    assert!(c.use_ssl);
    assert_eq!(c.password, "oauth:x");
}

#[test]
fn capability_request_asks_for_tags() {
    let m = enable_capabilities();
    assert!(matches!(m.command, IrcCommand::CapRequest(ref c) if c == ":twitch.tv/tags"));
    assert!(m.tags.is_none() && m.prefix.is_none());
}

#[test]
fn timestamps_have_the_utc_form() {
    let mut state = State::default();
    assert!(matches!(react(&mut state, privmsg(Some("a!a"), "one", None)), IrcReaction::Queued));
    let t = &state.messages[0].timestamp;
    assert!(t.ends_with('Z') && t.len() >= 20 && t.len() <= 33 && t.is_ascii());
}
