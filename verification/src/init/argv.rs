use vstd::prelude::*;
use crate::error::{Error, ErrorKind};

verus! {

/// The command line options of the bot.
#[derive(Clone, Debug, Eq, PartialEq)]
pub struct Argv {
    pub key: String,
    pub secret: String,
    pub flo: String,
    pub channel: String,
    pub interval: u32,
}

/// The interval, in seconds, between two deliveries when none is given.
pub const DEFAULT_INTERVAL: u32 = 3;

impl Default for Argv {
    /// Empty texts and the default interval.
    fn default() -> (a: Self)
        ensures
            a.key@.len() == 0,
            a.secret@.len() == 0,
            a.flo@.len() == 0,
            a.channel@.len() == 0,
            a.interval == DEFAULT_INTERVAL,
    {
        Argv {
            key: String::new(),
            secret: String::new(),
            flo: String::new(),
            channel: String::new(),
            interval: DEFAULT_INTERVAL,
        }
    }
}

/// A decimal digit.
pub open spec fn is_decimal_digit(c: char) -> bool {
    '0' <= c <= '9'
}

/// The number that a sequence of decimal digits denotes.
pub open spec fn digits_value(s: Seq<char>) -> int
    decreases s.len(),
{
    if s.len() == 0 {
        0
    } else {
        digits_value(s.drop_last()) * 10 + ((s.last() as int) - ('0' as int))
    }
}

/// What `str::parse::<u32>` accepts: an optional `+` followed by one or more
/// decimal digits denoting a number that fits in `u32`.
pub open spec fn decimal_u32(s: Seq<char>) -> Option<u32> {
    let d = if s.len() > 0 && s[0] == '+' { s.drop_first() } else { s };
    if d.len() > 0 && (forall|i: int| 0 <= i < d.len() ==> #[trigger] is_decimal_digit(d[i]))
        && digits_value(d) <= u32::MAX {
        Some(digits_value(d) as u32)
    } else {
        None
    }
}

/// The `Debug` text of the error `str::parse::<u32>` gives for a text it refuses.
pub uninterp spec fn u32_parse_error_text(text: Seq<char>) -> Seq<char>;

/// `str::parse::<u32>`, its error given as the error's `Debug` text. Claimed,
/// as std documents `u32::from_str_radix`: the text must be an optional `+`
/// followed by decimal digits only, and the number must fit in `u32`;
/// otherwise it is an error, whose text depends on the parsed text alone
/// (`u32_parse_error_text`). The text itself std does not document.
#[verifier::external_body]
fn parse_u32(text: &str) -> (r: Result<u32, String>)
    ensures
        match r {
            Ok(v) => decimal_u32(text@) == Some(v),
            Err(e) => decimal_u32(text@) is None && e@ == u32_parse_error_text(text@),
        },
{
    match text.parse::<u32>() {
        Ok(v) => Ok(v),
        Err(e) => Err(format!("{:?}", e)),
    }
}

/// The view of an optional text.
pub open spec fn opt_str(s: Option<&str>) -> Option<Seq<char>> {
    match s {
        Some(t) => Some(t@),
        None => None,
    }
}

/// Overwrites `target` with the given value, where there is one.
pub fn merge_string(value: Option<&str>, target: &mut String)
    ensures
        final(target)@ == match value {
            Some(v) => v@,
            None => old(target)@,
        },
{
    if let Some(v) = value {
        *target = String::from_str(v);
    }
}

/// Overwrites `target` with the given value read as a decimal `u32`, where
/// there is one; a value that is no such number is a parse error, carrying
/// the parse failure's debug text, and leaves `target` as it was.
pub fn merge_int(value: Option<&str>, target: &mut u32) -> (r: Result<(), Error>)
    ensures
        match value {
            None => r is Ok && *final(target) == *old(target),
            Some(v) => match decimal_u32(v@) {
                Some(n) => r is Ok && *final(target) == n,
                None => r matches Err(e) && e@ == (ErrorKind::ParseError, u32_parse_error_text(v@)) && *final(target) == *old(target),
            },
        },
{
    if let Some(v) = value {
        match parse_u32(v) {
            Ok(n) => {
                *target = n;
            },
            Err(text) => {
                return Err(Error::new(ErrorKind::ParseError, text));
            },
        }
    }
    Ok(())
}

/// The options built from the values given for `k` (key), `s` (secret),
/// `f` (flo), `c` (channel) and `i` (interval), over the defaults.
pub fn read_values(
    k: Option<&str>,
    s: Option<&str>,
    f: Option<&str>,
    c: Option<&str>,
    i: Option<&str>,
) -> (r: Result<Argv, Error>)
    ensures
        match r {
            Ok(a) => {
                &&& a.key@ == opt_str(k).unwrap_or(Seq::empty())
                &&& a.secret@ == opt_str(s).unwrap_or(Seq::empty())
                &&& a.flo@ == opt_str(f).unwrap_or(Seq::empty())
                &&& a.channel@ == opt_str(c).unwrap_or(Seq::empty())
                &&& a.interval == match i {
                    Some(t) => decimal_u32(t@).unwrap(),
                    None => DEFAULT_INTERVAL,
                }
                &&& (i matches Some(t) ==> decimal_u32(t@) is Some)
            },
            Err(e) => i matches Some(t) && decimal_u32(t@) is None && e@ == (ErrorKind::ParseError, u32_parse_error_text(t@)),
        },
{
    let mut argv = Argv::default();
    merge_string(k, &mut argv.key);
    merge_string(s, &mut argv.secret);
    merge_string(f, &mut argv.flo);
    merge_string(c, &mut argv.channel);
    merge_int(i, &mut argv.interval)?;
    Ok(argv)
}

} // verus!
