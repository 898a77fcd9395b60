use vstd::prelude::*;
use crate::error::{Error, ErrorKind};
use crate::json_tree::{
    Json, json_get, json_as_str, json_as_u16, json_as_u16_panics, json_parsed, member, as_str, as_u16,
    as_u16_panics, deref_json, parse_json, has_long_fraction, has_long_fraction_spec,
};

verus! {

/// The Twitch account and channel of the bot.
#[derive(Clone, Debug, Eq, PartialEq)]
pub struct Twitch {
    pub username: String,
    pub token: String,
    pub channel: String,
}

/// The bot's settings file.
#[derive(Clone, Debug, Eq, PartialEq)]
pub struct Settings {
    pub twitch: Twitch,
    pub workers: u16,
    pub db: String,
}

/// The fields of the Twitch settings, as texts.
pub open spec fn twitch_view(t: Twitch) -> (Seq<char>, Seq<char>, Seq<char>) {
    (t.username@, t.token@, t.channel@)
}

/// The text of the error for a missing or mistyped field `key` of the group `group`.
pub open spec fn missing_field_text(group: Seq<char>, key: Seq<char>) -> Seq<char> {
    "Missing or invalid `"@ + key + "` field in `"@ + group + "` settings."@
}

/// The error for a missing or mistyped field `key` of the group `group`.
pub fn missing_field(group: &str, key: &str) -> (e: Error)
    ensures
        e@ == (ErrorKind::Config, missing_field_text(group@, key@)),
{
    let text = String::from_str("Missing or invalid `").concat(key).concat("` field in `").concat(
        group,
    ).concat("` settings.");
    Error::new(ErrorKind::Config, text)
}

/// A configuration error with the given message.
pub fn config_error<T>(message: String) -> (r: Result<T, Error>)
    ensures
        r matches Err(e) && e@ == (ErrorKind::Config, message@),
{
    Err(Error::new(ErrorKind::Config, message))
}

/// The Twitch settings read from the document `data`, or the text of the
/// configuration error for the first of `username`, `token`, `channel` that
/// is not a string member of `data["twitch"]`.
pub open spec fn twitch_outcome(data: Option<Json>) -> Result<(Seq<char>, Seq<char>, Seq<char>), Seq<char>> {
    let tw = json_get(data, "twitch"@);
    let username = json_as_str(json_get(tw, "username"@));
    let token = json_as_str(json_get(tw, "token"@));
    let channel = json_as_str(json_get(tw, "channel"@));
    if username is None {
        Err(missing_field_text("twitch"@, "username"@))
    } else if token is None {
        Err(missing_field_text("twitch"@, "token"@))
    } else if channel is None {
        Err(missing_field_text("twitch"@, "channel"@))
    } else {
        Ok((username.unwrap(), token.unwrap(), channel.unwrap()))
    }
}

/// Reads the Twitch settings from `data["twitch"]`.
pub fn read_twitch(data: &Json) -> (r: Result<Twitch, Error>)
    ensures
        match r {
            Ok(t) => twitch_outcome(Some(*data)) == Ok::<_, Seq<char>>(twitch_view(t)),
            Err(e) => e@.0 == ErrorKind::Config && twitch_outcome(Some(*data)) == Err::<(Seq<char>, Seq<char>, Seq<char>), _>(e@.1),
        },
        r matches Ok(t) ==> {
            &&& t.username@ == json_as_str(json_get(json_get(Some(*data), "twitch"@), "username"@)).unwrap()
            &&& t.token@ == json_as_str(json_get(json_get(Some(*data), "twitch"@), "token"@)).unwrap()
            &&& t.channel@ == json_as_str(json_get(json_get(Some(*data), "twitch"@), "channel"@)).unwrap()
        },
{
    let tw = data.get("twitch");
    let username = match as_str(member(tw, "username")) {
        Some(s) => String::from_str(s),
        None => {
            return Err(missing_field("twitch", "username"));
        },
    };
    let token = match as_str(member(tw, "token")) {
        Some(s) => String::from_str(s),
        None => {
            return Err(missing_field("twitch", "token"));
        },
    };
    let channel = match as_str(member(tw, "channel")) {
        Some(s) => String::from_str(s),
        None => {
            return Err(missing_field("twitch", "channel"));
        },
    };
    Ok(Twitch { username, token, channel })
}

/// The Twitch settings read from a document are its string members
/// `twitch.username`, `twitch.token` and `twitch.channel`, whole and
/// unchanged, also when they are read as part of the whole settings file;
/// reading them succeeds exactly when all three are strings.
pub proof fn law_twitch_settings_are_the_string_members(data: Option<Json>)
    ensures
        ({
            let tw = json_get(data, "twitch"@);
            let username = json_as_str(json_get(tw, "username"@));
            let token = json_as_str(json_get(tw, "token"@));
            let channel = json_as_str(json_get(tw, "channel"@));
            &&& (twitch_outcome(data) is Ok) <==> (username is Some && token is Some && channel is Some)
            &&& twitch_outcome(data) matches Ok(t) ==> t.0 == username.unwrap() && t.1 == token.unwrap()
                && t.2 == channel.unwrap()
            &&& settings_outcome(data) matches Ok(v) ==> v.2 == (username.unwrap(), token.unwrap(), channel.unwrap())
        }),
{
}

/// The fields of the settings: workers, database path and Twitch settings.
pub open spec fn settings_view(s: Settings) -> (u16, Seq<char>, (Seq<char>, Seq<char>, Seq<char>)) {
    (s.workers, s.db@, twitch_view(s.twitch))
}

/// The settings read from a parsed settings file (`None` where the file was no
/// JSON document), or the text of the configuration error for the first thing
/// that is missing or mistyped: the document, `workers` (a `u16`), `db` (a
/// string), then the Twitch settings.
pub open spec fn settings_outcome(payload: Option<Json>) -> Result<(u16, Seq<char>, (Seq<char>, Seq<char>, Seq<char>)), Seq<char>> {
    if payload is None {
        Err("Error reading configuration settings."@)
    } else if json_as_u16(json_get(payload, "workers"@)) is None {
        Err("Error reading workers from settings."@)
    } else if json_as_str(json_get(payload, "db"@)) is None {
        Err("Error reading database file path from settings."@)
    } else {
        match twitch_outcome(payload) {
            Ok(t) => Ok((json_as_u16(json_get(payload, "workers"@)).unwrap(), json_as_str(json_get(payload, "db"@)).unwrap(), t)),
            Err(e) => Err(e),
        }
    }
}

/// Reads the settings from a parsed settings file; `None` stands for a file
/// that was no JSON document.
pub fn read_from_json(payload: Option<&Json>) -> (r: Result<Settings, Error>)
    requires
        !json_as_u16_panics(json_get(deref_json(payload), "workers"@)),
    ensures
        match r {
            Ok(s) => settings_outcome(deref_json(payload)) == Ok::<_, Seq<char>>(settings_view(s)),
            Err(e) => e@.0 == ErrorKind::Config && settings_outcome(deref_json(payload)) == Err::<(u16, Seq<char>, (Seq<char>, Seq<char>, Seq<char>)), _>(e@.1),
        },
{
    let payload = match payload {
        Some(p) => p,
        None => {
            return config_error(String::from_str("Error reading configuration settings."));
        },
    };
    let workers = match as_u16(payload.get("workers")) {
        Some(w) => w,
        None => {
            return config_error(String::from_str("Error reading workers from settings."));
        },
    };
    let db = match as_str(payload.get("db")) {
        Some(d) => String::from_str(d),
        None => {
            return config_error(String::from_str("Error reading database file path from settings."));
        },
    };
    let twitch = read_twitch(payload)?;
    Ok(Settings { workers, db, twitch })
}

/// Reading `workers` from the document would panic (its value overflows `u64`).
pub fn workers_overflow(doc: Option<&Json>) -> (b: bool)
    ensures
        b == json_as_u16_panics(json_get(deref_json(doc), "workers"@)),
{
    match doc {
        Some(d) => as_u16_panics(d.get("workers")),
        None => as_u16_panics(None),
    }
}

/// Reads the settings from the text of a settings file.
pub fn read_from_text(payload: &str) -> (r: Result<Settings, Error>)
    requires
        !has_long_fraction_spec(payload@),
        !json_as_u16_panics(json_get(json_parsed(payload@), "workers"@)),
    ensures
        match r {
            Ok(s) => settings_outcome(json_parsed(payload@)) == Ok::<_, Seq<char>>(settings_view(s)),
            Err(e) => e@.0 == ErrorKind::Config && settings_outcome(json_parsed(payload@)) == Err::<(u16, Seq<char>, (Seq<char>, Seq<char>, Seq<char>)), _>(e@.1),
        },
{
    let parsed = parse_json(payload);
    match &parsed {
        Ok(doc) => read_from_json(Some(doc)),
        Err(_) => read_from_json(None),
    }
}

/// Reads the settings from the text of a settings file, or gives `None`
/// where reading it could panic: where the text holds a fraction too long
/// for the JSON reader, or where reading `workers` overflows.
pub fn checked_read_from_text(payload: &str) -> (r: Option<Result<Settings, Error>>)
    ensures
        match r {
            None => has_long_fraction_spec(payload@) || json_as_u16_panics(json_get(json_parsed(payload@), "workers"@)),
            Some(Ok(s)) => settings_outcome(json_parsed(payload@)) == Ok::<_, Seq<char>>(settings_view(s)),
            Some(Err(e)) => e@.0 == ErrorKind::Config && settings_outcome(json_parsed(payload@)) == Err::<(u16, Seq<char>, (Seq<char>, Seq<char>, Seq<char>)), _>(e@.1),
        },
{
    if has_long_fraction(payload) {
        return None;
    }
    let parsed = parse_json(payload);
    let overflow = match &parsed {
        Ok(doc) => workers_overflow(Some(doc)),
        Err(_) => workers_overflow(None),
    };
    if overflow {
        None
    } else {
        Some(read_from_text(payload))
    }
}

} // verus!
