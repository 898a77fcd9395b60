use twitch_bot::error::{print_error, Error, ErrorKind};

#[test]
fn kinds_have_labels() {
    assert_eq!(ErrorKind::Config.to_str(), "Config Error");
    assert_eq!(ErrorKind::IO.to_str(), "IO Error");
    assert_eq!(ErrorKind::TwitchError.to_str(), "Twitch Error");
    assert_eq!(ErrorKind::ParseError.to_str(), "Parse Error");
    assert_eq!(ErrorKind::Unknown.to_str(), "Unknown Error");
}

#[test]
fn error_keeps_kind_and_details() {
    let e = Error::new(ErrorKind::IO, String::from("disk gone"));
    assert_eq!(e.details(), "disk gone");
    assert_eq!(e.kind(), ErrorKind::IO);
    assert_eq!(e.to_string(), "IO Error: disk gone");
}

#[test]
fn error_with_empty_details() {
    let e = Error::new(ErrorKind::Unknown, String::new());
    assert_eq!(e.to_string(), "Unknown Error: ");
}

#[test]
fn print_error_uses_debug_text() {
    let e = print_error(ErrorKind::ParseError, format!("{:?}", "x".parse::<u32>().unwrap_err()));
    assert_eq!(e.kind(), ErrorKind::ParseError);
    assert!(e.to_string().starts_with("Parse Error: "));
}
