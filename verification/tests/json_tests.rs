use twitch_bot::json_tree::{as_str, as_u16, as_u16_panics, has_long_fraction, member, parse_json, stringify_json, Json, JsonNumber, MAX_FRACTION_RUN};

fn obj(members: Vec<(&str, Json)>) -> Json {
    Json::Object(members.into_iter().map(|(k, v)| (String::from(k), v)).collect())
}

#[test]
fn indexing_finds_members() {
    let doc = obj(vec![("a", Json::Str(String::from("x"))), ("b", obj(vec![("c", Json::Boolean(true))]))]);
    assert_eq!(as_str(doc.get("a")), Some("x"));
    assert!(doc.get("z").is_none());
    assert!(matches!(member(doc.get("b"), "c"), Some(Json::Boolean(true))));
    assert!(member(doc.get("a"), "c").is_none());
    assert!(member(None, "c").is_none());
    assert!(Json::Array(vec![Json::Null]).get("a").is_none());
}

#[test]
fn as_str_only_for_strings() {
    assert_eq!(as_str(Some(&Json::Boolean(false))), None);
    assert_eq!(as_str(None), None);
    assert_eq!(as_str(Some(&Json::Str(String::new()))), Some(""));
}

#[test]
fn as_u16_follows_the_json_crate() {
    let n = |positive, mantissa, exponent| Json::Number(JsonNumber { positive, mantissa, exponent });
    assert_eq!(as_u16(Some(&n(true, 65535, 0))), Some(65535));
    assert_eq!(as_u16(Some(&n(true, 65536, 0))), None);
    assert_eq!(as_u16(Some(&n(true, 6, 4))), Some(60000));
    assert_eq!(as_u16(Some(&n(true, 7, 4))), None);
    assert_eq!(as_u16(Some(&n(true, 10, -1))), Some(10));
    assert_eq!(as_u16(Some(&n(false, 1, 0))), None);
    assert_eq!(as_u16(Some(&n(true, 1, 19))), None);
    assert_eq!(as_u16(Some(&n(true, 0, 19))), Some(0));
    assert_eq!(as_u16(Some(&Json::Str(String::from("1")))), None);
    assert_eq!(as_u16(None), None);
}

#[test]
fn parse_and_stringify_round_trip() {
    let doc = parse_json("{\"a\": [1, true, null, \"x\"], \"b\": 2.5}").unwrap();
    assert_eq!(stringify_json(&doc), "{\"a\":[1,true,null,\"x\"],\"b\":2.5}");
    match &doc {
        Json::Object(entries) => {
            assert_eq!(entries[0].0, "a");
            assert!(matches!(&entries[1].1, Json::Number(JsonNumber { positive: true, mantissa: 25, exponent: -1 })));
        }
        _ => panic!("not an object"),
    }
    assert!(parse_json("{").is_err());
    assert_eq!(stringify_json(&Json::Str(String::from("q\""))), "\"q\\\"\"");
}

#[test]
fn overflow_of_u16_reading_is_detected() {
    let n = |positive, mantissa, exponent| Json::Number(JsonNumber { positive, mantissa, exponent });
    assert!(as_u16_panics(Some(&n(true, 1, 20))));
    assert!(as_u16_panics(Some(&n(true, 2, 19))));
    assert!(!as_u16_panics(Some(&n(true, 1, 19))));
    assert!(!as_u16_panics(Some(&n(false, 1, 30))));
    assert!(!as_u16_panics(Some(&n(true, 5, 0))));
    assert!(!as_u16_panics(None));
}

#[test]
fn long_fractions_are_found() {
    let limit = MAX_FRACTION_RUN as usize;
    let at_limit = format!("0.{}", "0".repeat(limit));
    let over = format!("0.{}", "0".repeat(limit + 1));
    assert!(!has_long_fraction(&at_limit));
    assert!(has_long_fraction(&over));
    assert!(has_long_fraction(&format!("[1, {}]", over)));
    assert!(!has_long_fraction(&format!("1.{}x{}", "5".repeat(limit), "5".repeat(limit))));
    assert!(!has_long_fraction("1.5"));
    assert!(!has_long_fraction(""));
    assert!(parse_json(&at_limit).is_ok());
}

#[test]
fn parse_error_carries_the_parser_text() {
    let e = parse_json("[1,").unwrap_err();
    assert!(!e.is_empty());
    assert!(parse_json("").is_err());
}
