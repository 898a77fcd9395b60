#![allow(deprecated)]
use json::JsonValue;
use json::number::Number;
use json::object::Object;
use vstd::prelude::*;
use vstd::arithmetic::power::pow;
use crate::twitch::channel::texts_equal;

verus! {

/// A JSON number as the `json` crate keeps it: a sign, a mantissa and a
/// decimal exponent, worth `mantissa * 10^exponent` with that sign.
#[derive(Clone, Copy, Debug, PartialEq, Eq, Structural)]
pub struct JsonNumber {
    pub positive: bool,
    pub mantissa: u64,
    pub exponent: i16,
}

/// A parsed JSON document, with the same shape as `json::JsonValue`.
/// Object members keep their order.
#[derive(Debug)]
pub enum Json {
    Null,
    Str(String),
    Number(JsonNumber),
    Boolean(bool),
    Object(Vec<(String, Json)>),
    Array(Vec<Json>),
}

/// The value behind an optional reference.
pub open spec fn deref_json(v: Option<&Json>) -> Option<Json> {
    match v {
        Some(x) => Some(*x),
        None => None,
    }
}

/// The value of the first member of `entries` named `key`.
pub open spec fn first_member(entries: Seq<(String, Json)>, key: Seq<char>) -> Option<Json>
    decreases entries.len(),
{
    if entries.len() == 0 {
        None
    } else if entries[0].0@ == key {
        Some(entries[0].1)
    } else {
        first_member(entries.drop_first(), key)
    }
}

/// `v[key]`: the member `key` of an object; `None` stands for the `null` that
/// indexing a non-object or a missing member gives.
pub open spec fn json_get(v: Option<Json>, key: Seq<char>) -> Option<Json> {
    match v {
        Some(Json::Object(entries)) => first_member(entries@, key),
        _ => None,
    }
}

/// `v.as_str()`.
pub open spec fn json_as_str(v: Option<Json>) -> Option<Seq<char>> {
    match v {
        Some(Json::Str(s)) => Some(s@),
        _ => None,
    }
}

/// The integer a non-negative JSON number converts to when read as an
/// unsigned integer: the mantissa, scaled up by a positive exponent (a
/// negative exponent is dropped, as the `json` crate does).
pub open spec fn number_magnitude(n: JsonNumber) -> int {
    if n.exponent <= 0 {
        n.mantissa as int
    } else {
        n.mantissa * pow(10, n.exponent as nat)
    }
}

/// Reading a number as an unsigned integer overflows `u64`; the `json` crate
/// panics there.
pub open spec fn number_overflows(n: JsonNumber) -> bool {
    n.positive && n.exponent > 0 && (pow(10, n.exponent as nat) > u64::MAX || number_magnitude(n)
        > u64::MAX)
}

/// `v.as_u16()`.
pub open spec fn json_as_u16(v: Option<Json>) -> Option<u16> {
    match v {
        Some(Json::Number(n)) => if n.positive && number_magnitude(n) <= u16::MAX {
            Some(number_magnitude(n) as u16)
        } else {
            None
        },
        _ => None,
    }
}

/// Reading `v` as `u16` would panic.
pub open spec fn json_as_u16_panics(v: Option<Json>) -> bool {
    match v {
        Some(Json::Number(n)) => number_overflows(n),
        _ => false,
    }
}

proof fn lemma_first_member_skip(entries: Seq<(String, Json)>, key: Seq<char>, i: int)
    requires
        0 <= i < entries.len(),
    ensures
        first_member(entries.skip(i), key) == if entries[i].0@ == key {
            Some(entries[i].1)
        } else {
            first_member(entries.skip(i + 1), key)
        },
{
    assert(entries.skip(i).drop_first() =~= entries.skip(i + 1));
}

impl Json {
    /// `self[key]`, with `None` for the `null` that indexing yields where the
    /// member is absent or `self` is not an object.
    pub fn get(&self, key: &str) -> (r: Option<&Json>)
        ensures
            match r {
                Some(m) => json_get(Some(*self), key@) == Some(*m),
                None => json_get(Some(*self), key@) is None,
            },
    {
        match self {
            Json::Object(entries) => {
                let n = entries.len();
                let mut i: usize = 0;
                assert(entries@.skip(0) =~= entries@);
                while i < n
                    invariant
                        n == entries@.len(),
                        i <= n,
                        json_get(Some(*self), key@) == first_member(entries@, key@),
                        first_member(entries@, key@) == first_member(entries@.skip(i as int), key@),
                    decreases n - i,
                {
                    proof {
                        lemma_first_member_skip(entries@, key@, i as int);
                    }
                    let entry = &entries[i];
                    if texts_equal(entry.0.as_str(), key) {
                        assert(entries@[i as int].0@ == key@);
                        return Some(&entry.1);
                    }
                    i = i + 1;
                }
                assert(entries@.skip(n as int).len() == 0);
                None
            },
            _ => None,
        }
    }
}

/// `v[key]` for a value that may itself be the `null` of a missing member.
pub fn member<'a>(v: Option<&'a Json>, key: &str) -> (r: Option<&'a Json>)
    ensures
        deref_json(r) == json_get(deref_json(v), key@),
{
    match v {
        Some(j) => j.get(key),
        None => None,
    }
}

/// `v.as_str()`.
pub fn as_str(v: Option<&Json>) -> (r: Option<&str>)
    ensures
        match r {
            Some(s) => json_as_str(deref_json(v)) == Some(s@),
            None => json_as_str(deref_json(v)) is None,
        },
{
    match v {
        Some(Json::Str(s)) => Some(s.as_str()),
        _ => None,
    }
}

/// `10^exponent`, or `None` where it exceeds `u64::MAX`.
fn checked_power_of_ten(exponent: u32) -> (r: Option<u64>)
    ensures
        match r {
            Some(p) => p == pow(10, exponent as nat),
            None => pow(10, exponent as nat) > u64::MAX,
        },
{
    let mut p: u64 = 1;
    let mut i: u32 = 0;
    proof {
        vstd::arithmetic::power::lemma_pow0(10);
    }
    while i < exponent
        invariant
            i <= exponent,
            p == pow(10, i as nat),
        decreases exponent - i,
    {
        proof {
            vstd::arithmetic::power::lemma_pow_adds(10, i as nat, 1);
            vstd::arithmetic::power::lemma_pow1(10);
        }
        match p.checked_mul(10) {
            Some(q) => {
                p = q;
            },
            None => {
                proof {
                    vstd::arithmetic::power::lemma_pow_increases(10, (i + 1) as nat, exponent as nat);
                }
                return None;
            },
        }
        i = i + 1;
    }
    Some(p)
}

/// `v.as_u16()`.
pub fn as_u16(v: Option<&Json>) -> (r: Option<u16>)
    requires
        !json_as_u16_panics(deref_json(v)),
    ensures
        r == json_as_u16(deref_json(v)),
{
    match v {
        Some(Json::Number(n)) => {
            if !n.positive {
                return None;
            }
            let magnitude: u64 = if n.exponent <= 0 {
                n.mantissa
            } else {
                let e: u32 = n.exponent as u32;
                match checked_power_of_ten(e) {
                    Some(p) => {
                        proof {
                            vstd::arithmetic::mul::lemma_mul_is_commutative(n.mantissa as int, p as int);
                        }
                        n.mantissa * p
                    },
                    None => {
                        return None;
                    },
                }
            };
            if magnitude <= 65535 {
                Some(magnitude as u16)
            } else {
                None
            }
        },
        _ => None,
    }
}

/// Reading `v` as `u16` would panic: it is a positive number with a positive
/// exponent whose value overflows `u64`.
pub fn as_u16_panics(v: Option<&Json>) -> (b: bool)
    ensures
        b == json_as_u16_panics(deref_json(v)),
{
    match v {
        Some(Json::Number(n)) => {
            if !n.positive || n.exponent <= 0 {
                return false;
            }
            let e: u32 = n.exponent as u32;
            match checked_power_of_ten(e) {
                Some(p) => {
                    proof {
                        vstd::arithmetic::mul::lemma_mul_is_commutative(n.mantissa as int, p as int);
                    }
                    n.mantissa.checked_mul(p).is_none()
                },
                None => true,
            }
        },
        _ => false,
    }
}

#[verifier::external_type_specification]
#[verifier::external_body]
pub struct ExJsonValue(JsonValue);

/// The document `json::parse` reads from a text, `None` where it fails.
pub uninterp spec fn json_parsed(text: Seq<char>) -> Option<Json>;

/// The `Debug` text of the error `json::parse` gives for a text it refuses.
pub uninterp spec fn json_parse_error_text(text: Seq<char>) -> Seq<char>;

/// The number of fraction digits a JSON number reader could count right
/// before it overflows the `i16` exponent it decrements once per digit.
pub const MAX_FRACTION_RUN: u64 = 32768;

/// A decimal digit.
pub open spec fn is_digit_char(c: char) -> bool {
    '0' <= c <= '9'
}

/// How many decimal digits follow the last `'.'` of `s` up to its end, or
/// -1 where `s` does not end in `'.'` followed by digits only.
pub open spec fn fraction_run(s: Seq<char>) -> int
    decreases s.len(),
{
    if s.len() == 0 {
        -1
    } else if s.last() == '.' {
        0
    } else if is_digit_char(s.last()) && fraction_run(s.drop_last()) >= 0 {
        fraction_run(s.drop_last()) + 1
    } else {
        -1
    }
}

/// Some `'.'` of `s` is followed directly by more than `MAX_FRACTION_RUN`
/// decimal digits.
pub open spec fn has_long_fraction_spec(s: Seq<char>) -> bool
    decreases s.len(),
{
    if s.len() == 0 {
        false
    } else {
        has_long_fraction_spec(s.drop_last()) || fraction_run(s) > MAX_FRACTION_RUN
    }
}

proof fn lemma_long_fraction_prefix(s: Seq<char>, k: int)
    requires
        0 <= k <= s.len(),
        has_long_fraction_spec(s.take(k)),
    ensures
        has_long_fraction_spec(s),
    decreases s.len(),
{
    if k == s.len() {
        assert(s.take(k) =~= s);
    } else {
        assert(s.drop_last().take(k) =~= s.take(k));
        lemma_long_fraction_prefix(s.drop_last(), k);
    }
}

/// Tells whether some `'.'` of the text is followed directly by more than
/// `MAX_FRACTION_RUN` decimal digits.
pub fn has_long_fraction(text: &str) -> (b: bool)
    ensures
        b == has_long_fraction_spec(text@),
{
    let n = text.unicode_len();
    let mut i: usize = 0;
    let mut run: u64 = 0;
    let mut in_run = false;
    assert(text@.take(0) =~= Seq::<char>::empty());
    while i < n
        invariant
            n == text@.len(),
            i <= n,
            run <= MAX_FRACTION_RUN,
            in_run ==> fraction_run(text@.take(i as int)) == run,
            !in_run ==> fraction_run(text@.take(i as int)) == -1,
            !has_long_fraction_spec(text@.take(i as int)),
        decreases n - i,
    {
        let c = text.get_char(i);
        assert(text@.take(i + 1).drop_last() =~= text@.take(i as int));
        assert(text@.take(i + 1).last() == c);
        if c == '.' {
            in_run = true;
            run = 0;
        } else if '0' <= c && c <= '9' && in_run {
            if run == MAX_FRACTION_RUN {
                proof {
                    lemma_long_fraction_prefix(text@, i + 1);
                }
                return true;
            }
            run = run + 1;
        } else {
            in_run = false;
        }
        i = i + 1;
    }
    assert(text@.take(n as int) =~= text@);
    false
}

/// The text `json::stringify` writes for a document.
pub uninterp spec fn json_text(doc: Json) -> Seq<char>;

/// Moves a `json::JsonValue` into the library's `Json`, variant for variant
/// (the short and the long string representations both become `Str`, and a
/// number keeps its sign, mantissa and exponent as `Number::as_parts` gives
/// them). It serves the bodies of `parse_json`; nothing is claimed of it.
#[verifier::external_body]
fn json_tree_of(v: &JsonValue) -> Json {
    match v {
        JsonValue::Null => Json::Null,
        JsonValue::Short(s) => Json::Str(s.as_str().to_owned()),
        JsonValue::String(s) => Json::Str(s.clone()),
        JsonValue::Number(n) => {
            let (positive, mantissa, exponent) = n.as_parts();
            Json::Number(JsonNumber { positive, mantissa, exponent })
        },
        JsonValue::Boolean(b) => Json::Boolean(*b),
        JsonValue::Object(o) => Json::Object(o.iter().map(|(k, x)| (k.to_owned(), json_tree_of(x))).collect()),
        JsonValue::Array(a) => Json::Array(a.iter().map(json_tree_of).collect()),
    }
}

/// Moves the library's `Json` into a `json::JsonValue`, variant for variant
/// (members inserted in order, a number rebuilt with `Number::from_parts`).
/// It serves the body of `stringify_json`; nothing is claimed of it.
#[verifier::external_body]
fn json_value_of(j: &Json) -> JsonValue {
    match j {
        Json::Null => JsonValue::Null,
        Json::Str(s) => JsonValue::String(s.clone()),
        Json::Number(n) => JsonValue::Number(Number::from_parts(n.positive, n.mantissa, n.exponent)),
        Json::Boolean(b) => JsonValue::Boolean(*b),
        Json::Object(entries) => {
            let mut object = Object::new();
            entries.iter().for_each(|(k, v)| object.insert(k, json_value_of(v)));
            JsonValue::Object(object)
        },
        Json::Array(items) => JsonValue::Array(items.iter().map(json_value_of).collect()),
    }
}

/// `json::parse`: the document a text holds, or the `Debug` text of the
/// parser's error. Claimed: both depend on the text alone (`json_parsed`,
/// `json_parse_error_text`). The parser panics in debug builds where a
/// fraction has more digits than its `i16` exponent can count
/// (parser.rs, `expect_fraction!`); `requires` leaves out every text with a
/// `'.'` followed by more than `MAX_FRACTION_RUN` digits, which holds all
/// such texts (and some on which the parser would not panic, such as long
/// fractions whose mantissa stops growing, or such digits inside a string).
#[verifier::external_body]
pub fn parse_json(text: &str) -> (r: Result<Json, String>)
    requires
        !has_long_fraction_spec(text@),
    ensures
        match r {
            Ok(doc) => json_parsed(text@) == Some(doc),
            Err(e) => json_parsed(text@) is None && e@ == json_parse_error_text(text@),
        },
{
    match json::parse(text) {
        Ok(v) => Ok(json_tree_of(&v)),
        Err(e) => Err(format!("{:?}", e)),
    }
}

/// `json::stringify`: the compact JSON text of a document. Claimed: the text
/// depends on the document alone (`json_text`).
#[verifier::external_body]
pub fn stringify_json(doc: &Json) -> (text: String)
    ensures
        text@ == json_text(*doc),
{
    json::stringify(json_value_of(doc))
}

} // verus!
