//! Points in time, made by `chrono` from counts since the UNIX epoch.

use vstd::prelude::*;
use crate::types::Timestamp;

verus! {

/// Seconds that make a `chrono` time: from the first second of `NaiveDate::MIN` to the
/// last of `NaiveDate::MAX` (years -262143 and 262142), the ends of its calendar.
pub open spec fn seconds_in_range(seconds: int) -> bool {
    -8_334_601_228_800 <= seconds <= 8_210_266_876_799
}

/// Whether a timestamp is one `chrono` can hold (its seconds within the range above, or
/// at most a little further out) with fewer than two seconds of nanoseconds (leap seconds).
pub open spec fn timestamp_valid(t: Timestamp) -> bool {
    -9_000_000_000_000 <= t.seconds <= 9_000_000_000_000 && t.nanoseconds < 2_000_000_000
}

/// Trusted: `chrono::DateTime::<Utc>::from_timestamp(seconds, 0)`. It gives the time of
/// that many seconds after the epoch exactly where the seconds are in the range above.
#[verifier::external_body]
pub(crate) fn timestamp_from_seconds(seconds: i64) -> (r: Option<Timestamp>)
    ensures
        r matches Some(t) ==> t.seconds == seconds && t.nanoseconds == 0,
        r is Some <==> seconds_in_range(seconds as int),
{
    match chrono::DateTime::<chrono::Utc>::from_timestamp(seconds, 0) {
        Some(t) => Some(Timestamp { seconds: t.timestamp(), nanoseconds: t.timestamp_subsec_nanos() }),
        None => None,
    }
}

/// Trusted: `chrono::DateTime::<Utc>::from_timestamp_micros(micros)`: the seconds are
/// the micros divided by a million rounding down, the nanoseconds the remainder in
/// nanoseconds; a time exactly where the seconds are in range.
#[verifier::external_body]
pub(crate) fn timestamp_from_micros(micros: i64) -> (r: Option<Timestamp>)
    ensures
        r matches Some(t) ==> t.seconds == (micros as int) / 1_000_000 && t.nanoseconds == ((
        micros as int) % 1_000_000) * 1000,
        r is Some <==> seconds_in_range((micros as int) / 1_000_000),
{
    match chrono::DateTime::<chrono::Utc>::from_timestamp_micros(micros) {
        Some(t) => Some(Timestamp { seconds: t.timestamp(), nanoseconds: t.timestamp_subsec_nanos() }),
        None => None,
    }
}

/// Trusted: `chrono::DateTime::<Utc>::from_timestamp_millis(millis)`: the seconds are
/// the millis divided by a thousand rounding down, the nanoseconds the remainder in
/// nanoseconds; a time exactly where the seconds are in range.
#[verifier::external_body]
pub(crate) fn timestamp_from_millis(millis: i64) -> (r: Option<Timestamp>)
    ensures
        r matches Some(t) ==> t.seconds == (millis as int) / 1000 && t.nanoseconds == ((
        millis as int) % 1000) * 1_000_000,
        r is Some <==> seconds_in_range((millis as int) / 1000),
{
    match chrono::DateTime::<chrono::Utc>::from_timestamp_millis(millis) {
        Some(t) => Some(Timestamp { seconds: t.timestamp(), nanoseconds: t.timestamp_subsec_nanos() }),
        None => None,
    }
}

/// Milliseconds since the epoch (`DateTime::timestamp_millis`).
pub open spec fn millis_of(t: Timestamp) -> int {
    t.seconds * 1000 + (t.nanoseconds / 1_000_000) as int
}

/// Milliseconds since the epoch (`DateTime::timestamp_millis`).
pub fn timestamp_millis(t: Timestamp) -> (r: i64)
    requires
        timestamp_valid(t),
    ensures
        r == millis_of(t),
{
    t.seconds * 1000 + (t.nanoseconds / 1_000_000) as i64
}

/// The time `millis` milliseconds after the epoch where `chrono` gives one; otherwise the epoch.
pub open spec fn from_millis_or_epoch(t: Timestamp, millis: int) -> bool {
    if seconds_in_range(millis / 1000) {
        t.seconds == millis / 1000 && t.nanoseconds == (millis % 1000) * 1_000_000
    } else {
        t.is_epoch()
    }
}

/// A time from milliseconds since the epoch, or the epoch where `chrono` has none.
pub fn timestamp_from_millis_or_epoch(millis: i64) -> (r: Timestamp)
    ensures
        from_millis_or_epoch(r, millis as int),
{
    match timestamp_from_millis(millis) {
        Some(t) => t,
        None => Timestamp::epoch(),
    }
}

/// The time `seconds` after the epoch where `chrono` gives one; otherwise the epoch.
pub open spec fn from_seconds_or_epoch(t: Timestamp, seconds: int) -> bool {
    if seconds_in_range(seconds) {
        t.seconds == seconds && t.nanoseconds == 0
    } else {
        t.is_epoch()
    }
}

/// `DateTime::<Utc>::from_timestamp(seconds, 0).unwrap_or_default()`.
pub fn timestamp_from_seconds_or_epoch(seconds: i64) -> (r: Timestamp)
    ensures
        from_seconds_or_epoch(r, seconds as int),
{
    match timestamp_from_seconds(seconds) {
        Some(t) => t,
        None => Timestamp::epoch(),
    }
}

/// Trusted: `std::time::SystemTime::now().duration_since(UNIX_EPOCH)`, read as whole
/// seconds and the nanoseconds past them (below a second, as `Duration` documents); `None`
/// where the system clock reads before the epoch (where `chrono::Utc::now` panics).
/// Nothing is claimed of which time it is: the system clock decides.
#[verifier::external_body]
pub(crate) fn system_clock() -> (r: Option<(u64, u32)>)
    ensures
        r matches Some((s, n)) ==> n < 1_000_000_000,
{
    match std::time::SystemTime::now().duration_since(std::time::UNIX_EPOCH) {
        Ok(d) => Some((d.as_secs(), d.subsec_nanos())),
        Err(_) => None,
    }
}

/// The current time (what `chrono::Utc::now()` gives); the epoch, which stands for no
/// time, where the system clock reads before the epoch or beyond the range of times.
pub fn utc_now() -> (r: Timestamp)
    ensures
        timestamp_valid(r),
{
    match system_clock() {
        Some((seconds, nanoseconds)) => if seconds <= 9_000_000_000_000 {
            Timestamp { seconds: seconds as i64, nanoseconds }
        } else {
            Timestamp::epoch()
        },
        None => Timestamp::epoch(),
    }
}

/// The instant (seconds and nanoseconds since the epoch) that RFC 3339 text names, as
/// `chrono::DateTime::parse_from_rfc3339` reads it; none where it refuses the text.
pub uninterp spec fn rfc3339_instant(text: Seq<char>) -> Option<(i64, u32)>;

/// Trusted: `chrono::DateTime::parse_from_rfc3339`, converted to UTC; its error becomes
/// `None`. Which texts it accepts is named, not stated; a time it gives is within its calendar.
#[verifier::external_body]
pub(crate) fn parse_rfc3339(text: &str) -> (r: Option<Timestamp>)
    ensures
        match r {
            Some(t) => rfc3339_instant(text@) == Some((t.seconds, t.nanoseconds)) && timestamp_valid(t),
            None => rfc3339_instant(text@) is None,
        },
{
    match chrono::DateTime::parse_from_rfc3339(text) {
        Ok(t) => {
            let u = t.with_timezone(&chrono::Utc);
            Some(Timestamp { seconds: u.timestamp(), nanoseconds: u.timestamp_subsec_nanos() })
        },
        Err(_) => None,
    }
}

/// The calendar date and time (UTC) of a count of seconds since the epoch, written
/// `YYYY-MM-DDTHH:MM:SS` as `chrono`'s `format("%Y-%m-%dT%H:%M:%S")` writes it; the
/// empty text where `chrono` has no time that many seconds from the epoch.
pub uninterp spec fn utc_seconds_text(seconds: i64) -> Seq<char>;

/// Trusted: `chrono::DateTime::<Utc>::from_timestamp(seconds, 0)` formatted with
/// `"%Y-%m-%dT%H:%M:%S"`, or the empty text where it gives no time. The text is named,
/// not stated.
#[verifier::external_body]
pub(crate) fn format_utc_seconds(seconds: i64) -> (r: String)
    ensures
        r@ == utc_seconds_text(seconds),
{
    match chrono::DateTime::<chrono::Utc>::from_timestamp(seconds, 0) {
        Some(t) => t.format("%Y-%m-%dT%H:%M:%S").to_string(),
        None => String::new(),
    }
}

} // verus!
