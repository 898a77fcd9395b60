use twitch_bot::error::ErrorKind;
use twitch_bot::init::settings::{checked_read_from_text, read_from_text, workers_overflow, config_error, missing_field, read_from_json, read_twitch, Settings, Twitch};
use twitch_bot::json_tree::{Json, JsonNumber};

fn s(text: &str) -> Json {
    Json::Str(String::from(text))
}

fn num(mantissa: u64, exponent: i16) -> Json {
    Json::Number(JsonNumber { positive: true, mantissa, exponent })
}

fn obj(members: Vec<(&str, Json)>) -> Json {
    Json::Object(members.into_iter().map(|(k, v)| (String::from(k), v)).collect())
}

fn twitch_obj() -> Json {
    obj(vec![("username", s("bot")), ("token", s("oauth:abc")), ("channel", s("room"))])
}

#[test]
fn reads_complete_settings() {
    let doc = obj(vec![("workers", num(4, 0)), ("db", s("state.json")), ("twitch", twitch_obj())]);
    let settings = read_from_json(Some(&doc)).unwrap();
    assert_eq!(
        settings,
        Settings {
            twitch: Twitch {
                username: String::from("bot"),
                token: String::from("oauth:abc"),
                channel: String::from("room"),
            },
            workers: 4,
            db: String::from("state.json"),
        }
    );
}

#[test]
fn unparsable_file_is_a_config_error() {
    let e = read_from_json(None).unwrap_err();
    assert_eq!(e.kind(), ErrorKind::Config);
    assert_eq!(e.details(), "Error reading configuration settings.");
}

#[test]
fn workers_must_be_a_u16() {
    for workers in [s("4"), num(70000, 0), Json::Null, Json::Boolean(true),
        Json::Number(JsonNumber { positive: false, mantissa: 4, exponent: 0 })] {
        let doc = obj(vec![("workers", workers), ("db", s("d")), ("twitch", twitch_obj())]);
        let e = read_from_json(Some(&doc)).unwrap_err();
        assert_eq!(e.details(), "Error reading workers from settings.");
    }
    let doc = obj(vec![("db", s("d")), ("twitch", twitch_obj())]);
    assert_eq!(read_from_json(Some(&doc)).unwrap_err().details(), "Error reading workers from settings.");
}

#[test]
fn workers_read_as_the_json_crate_reads_them() {
    let doc = obj(vec![("workers", num(2, 2)), ("db", s("d")), ("twitch", twitch_obj())]);
    assert_eq!(read_from_json(Some(&doc)).unwrap().workers, 200);
    let doc = obj(vec![("workers", num(15, -1)), ("db", s("d")), ("twitch", twitch_obj())]);
    assert_eq!(read_from_json(Some(&doc)).unwrap().workers, 15);
}

#[test]
fn db_must_be_a_string() {
    let doc = obj(vec![("workers", num(1, 0)), ("db", num(1, 0)), ("twitch", twitch_obj())]);
    let e = read_from_json(Some(&doc)).unwrap_err();
    assert_eq!(e.kind(), ErrorKind::Config);
    assert_eq!(e.details(), "Error reading database file path from settings.");
}

#[test]
fn twitch_fields_are_checked_in_order() {
    let doc = obj(vec![("workers", num(1, 0)), ("db", s("d"))]);
    assert_eq!(
        read_from_json(Some(&doc)).unwrap_err().details(),
        "Missing or invalid `username` field in `twitch` settings."
    );
    let tw = obj(vec![("username", s("u")), ("channel", num(3, 0))]);
    let doc = obj(vec![("workers", num(1, 0)), ("db", s("d")), ("twitch", tw)]);
    assert_eq!(
        read_from_json(Some(&doc)).unwrap_err().details(),
        "Missing or invalid `token` field in `twitch` settings."
    );
    let tw = obj(vec![("username", s("u")), ("token", s("t"))]);
    let e = read_twitch(&obj(vec![("twitch", tw)])).unwrap_err();
    assert_eq!(e.kind(), ErrorKind::Config);
    assert_eq!(e.details(), "Missing or invalid `channel` field in `twitch` settings.");
}

#[test]
fn first_member_of_a_name_wins() {
    let tw = obj(vec![("username", s("first")), ("username", s("second")), ("token", s("t")), ("channel", s("c"))]);
    let t = read_twitch(&obj(vec![("twitch", tw)])).unwrap();
    assert_eq!(t.username, "first");
}

#[test]
fn missing_field_message() {
    let e = missing_field("twitch", "token");
    assert_eq!(e.kind(), ErrorKind::Config);
    assert_eq!(e.to_string(), "Config Error: Missing or invalid `token` field in `twitch` settings.");
}

#[test]
fn config_error_wraps_message() {
    let r: Result<u8, _> = config_error(String::from("bad"));
    let e = r.unwrap_err();
    assert_eq!(e.kind(), ErrorKind::Config);
    assert_eq!(e.details(), "bad");
}

#[test]
fn reads_settings_from_text() {
    let text = "{\"workers\": 4, \"db\": \"state.json\", \"twitch\": {\"username\": \"bot\", \"token\": \"t\", \"channel\": \"c\"}}";
    let settings = read_from_text(text).unwrap();
    assert_eq!(settings.workers, 4);
    assert_eq!(settings.db, "state.json");
    assert_eq!(settings.twitch.channel, "c");
    assert_eq!(read_from_text("not json").unwrap_err().details(), "Error reading configuration settings.");
    assert_eq!(
        read_from_text("{\"workers\": 1, \"db\": \"d\"}").unwrap_err().details(),
        "Missing or invalid `username` field in `twitch` settings."
    );
    assert!(checked_read_from_text("{\"workers\": 1e30}").is_none());
    let long = format!("{{\"workers\": 0.{}}}", "0".repeat(32769));
    assert!(checked_read_from_text(&long).is_none());
    assert!(checked_read_from_text(text).unwrap().is_ok());
    let doc = obj(vec![("workers", num(1, 25))]);
    assert!(workers_overflow(Some(&doc)));
    assert!(!workers_overflow(None));
}
