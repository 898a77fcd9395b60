use std::sync::Arc;
use std::sync::atomic::{AtomicUsize, Ordering};
use vstd::prelude::*;
use vstd::utf8::is_ascii_chars;

verus! {

/// The value a counter holds after a decrement from `previous` that stops at zero.
pub open spec fn spec_decremented(previous: usize) -> usize {
    if previous == 0 { 0 } else { (previous - 1) as usize }
}

/// The value a counter holds after an increment from `previous` that wraps at `usize::MAX`.
pub open spec fn spec_incremented(previous: usize) -> usize {
    if previous == usize::MAX { 0 } else { (previous + 1) as usize }
}

/// What `decr_atomic` reports, given the value the counter held before.
pub fn decremented(previous: usize) -> (r: usize)
    ensures
        r == spec_decremented(previous),
{
    previous.saturating_sub(1)
}

/// What `incr_atomic` reports, given the value the counter held before.
pub fn incremented(previous: usize) -> (r: usize)
    ensures
        r == spec_incremented(previous),
{
    previous.wrapping_add(1)
}

/// Atomically decrements the counter and reports the decremented value,
/// reporting zero where the counter held zero.
pub fn decr_atomic(size: &Arc<AtomicUsize>) -> (r: usize)
    ensures
        r < usize::MAX,
        exists|previous: usize| r == spec_decremented(previous),
{
    let previous = size.fetch_sub(1, Ordering::SeqCst);
    decremented(previous)
}

/// Atomically increments the counter and reports the incremented value.
pub fn incr_atomic(size: &Arc<AtomicUsize>) -> (r: usize)
    ensures
        exists|previous: usize| r == spec_incremented(previous),
{
    let previous = size.fetch_add(1, Ordering::SeqCst);
    incremented(previous)
}

/// Reads the counter.
pub fn read_atomic(size: &Arc<AtomicUsize>) -> (r: usize) {
    size.load(Ordering::SeqCst)
}

/// Stores `val` into the counter and reports the value it replaced.
pub fn set_atomic(size: &Arc<AtomicUsize>, val: usize) -> (r: usize) {
    size.swap(val, Ordering::SeqCst)
}

/// A decrement undoes an increment, except from `usize::MAX`, where the
/// increment wraps to zero and the decrement stops there.
pub proof fn law_decrement_undoes_increment(x: usize)
    requires
        x < usize::MAX,
    ensures
        spec_decremented(spec_incremented(x)) == x,
{
}

/// An increment undoes a decrement from any non-zero value.
pub proof fn law_increment_undoes_decrement(x: usize)
    requires
        x > 0,
    ensures
        spec_incremented(spec_decremented(x)) == x,
{
}

/// Seconds from the UNIX epoch to the first instant chrono's calendar holds,
/// -262144-01-01T00:00:00.
pub const MIN_EPOCH_SECONDS: i64 = -8_334_632_937_600;

/// Seconds from the UNIX epoch to the last whole second chrono's calendar
/// holds, 262143-12-31T23:59:59.
pub const MAX_EPOCH_SECONDS: i64 = 8_210_298_412_799;

/// The form of chrono's rendering of a UTC instant: 20 to 33 ASCII
/// characters ending in `Z`.
pub open spec fn is_utc_text(t: Seq<char>) -> bool {
    &&& 20 <= t.len() <= 33
    &&& is_ascii_chars(t)
    &&& t.last() == 'Z'
}

/// The current UTC time, taken apart into plain values.
pub struct UtcNow {
    /// Whole non-leap seconds since the UNIX epoch.
    pub secs: i64,
    /// Milliseconds since the last second boundary (above 999 within a leap second).
    pub millis: i64,
    /// The debug rendering of the instant, an ISO 8601 date and time.
    pub text: String,
}

/// Reads the clock with `chrono::UTC::now()` and takes the instant apart with
/// `DateTime::timestamp`, `DateTime::timestamp_subsec_millis` and its `Debug`
/// rendering. Claimed, from chrono's source: the seconds lie within the range
/// of chrono's calendar, and the milliseconds lie in `0..=1999` as its
/// documentation states. Of the text, claimed from the `Debug`
/// implementations of `DateTime` (naive date and time, then the offset),
/// `NaiveDate` (a year of at least four digits, signed outside 0..=9999,
/// then two-digit month and day), `NaiveTime` (two-digit hours, minutes and
/// seconds, then up to nine fraction digits) and `UTC` (`Z`): it is 20 to 33
/// ASCII characters and ends in `Z`. Which text it is depends on the clock
/// and is not claimed.
#[verifier::external_body]
fn utc_now() -> (now: UtcNow)
    ensures
        MIN_EPOCH_SECONDS <= now.secs <= MAX_EPOCH_SECONDS,
        0 <= now.millis <= 1999,
        20 <= now.text@.len() <= 33,
        is_ascii_chars(now.text@),
        now.text@.last() == 'Z',
{
    let now = chrono::UTC::now();
    UtcNow {
        secs: now.timestamp(),
        millis: i64::from(now.timestamp_subsec_millis()),
        text: format!("{:?}", now),
    }
}

/// Milliseconds since the UNIX epoch of an instant given as whole seconds and
/// the milliseconds past them.
pub fn utc_millis(secs: i64, millis: i64) -> (ms: i64)
    requires
        MIN_EPOCH_SECONDS <= secs <= MAX_EPOCH_SECONDS,
        0 <= millis <= 1999,
    ensures
        ms == secs * 1000 + millis,
{
    secs * 1000 + millis
}

/// The current time in milliseconds since the UNIX epoch.
pub fn now_utc_ms() -> (ms: i64)
    ensures
        MIN_EPOCH_SECONDS * 1000 <= ms <= MAX_EPOCH_SECONDS * 1000 + 1999,
{
    let now = utc_now();
    utc_millis(now.secs, now.millis)
}

/// The current time as an ISO 8601 text in UTC: date, `T`, time, `Z`.
pub fn now_utc_iso8601() -> (text: String)
    ensures
        is_utc_text(text@),
{
    let now = utc_now();
    now.text
}

/// `t` is a text that a reading of the clock by `now_utc_iso8601` returned:
/// no text is one unless a call of that function gave it back.
pub open spec fn is_clock_reading(t: String) -> bool {
    call_ensures(now_utc_iso8601, (), t)
}

/// Every text the clock gives is an ISO 8601 time in UTC.
pub proof fn law_clock_reading_is_utc_text(t: String)
    requires
        is_clock_reading(t),
    ensures
        is_utc_text(t@),
        t@.last() == 'Z',
{
}

} // verus!
