//! The calls this library makes into std's integer parser and into chrono.
use vstd::prelude::*;
use crate::civil::{CivilDateTime, civil_seconds, is_digit};
use crate::model::{Instant, seconds_in_range};
use chrono::{DateTime, Local, NaiveDate, TimeZone};
use std::fmt::Write;

verus! {

/// A non-empty run of decimal digits.
pub open spec fn all_digits(s: Seq<char>) -> bool {
    s.len() > 0 && forall|i: int| 0 <= i < s.len() ==> is_digit(#[trigger] s[i])
}

/// The value of a run of decimal digits.
pub open spec fn digits_value(s: Seq<char>) -> int
    decreases s.len(),
{
    if s.len() == 0 {
        0
    } else {
        digits_value(s.drop_last()) * 10 + ((s.last() as int) - ('0' as int))
    }
}

/// The integer an optional sign followed by decimal digits denotes.
pub open spec fn int_literal(s: Seq<char>) -> Option<int> {
    if s.len() > 0 && s[0] == '-' && all_digits(s.skip(1)) {
        Some(-digits_value(s.skip(1)))
    } else if s.len() > 0 && s[0] == '+' && all_digits(s.skip(1)) {
        Some(digits_value(s.skip(1)))
    } else if all_digits(s) {
        Some(digits_value(s))
    } else {
        None
    }
}

/// The signed 64-bit integer a text denotes, if it is an integer literal in range.
pub open spec fn i64_of_text(s: Seq<char>) -> Option<i64> {
    match int_literal(s) {
        Some(v) => if i64::MIN <= v <= i64::MAX { Some(v as i64) } else { None },
        None => None,
    }
}

/// Relies on `<i64 as FromStr>::from_str`: an optional `+` or `-`, then one or
/// more ASCII digits, with a value that fits in `i64`; anything else is an error.
#[verifier::external_body]
pub(crate) fn parse_i64(s: &str) -> (r: Option<i64>)
    ensures
        r == i64_of_text(s@),
{
    s.parse::<i64>().ok()
}

/// Relies on chrono's `DateTime::<Utc>::from_timestamp`: with a sub-second part
/// below one second it succeeds exactly for seconds between `DateTime::MIN_UTC`
/// and `DateTime::MAX_UTC`.
#[verifier::external_body]
pub(crate) fn timestamp_representable(secs: i64, nanos: u32) -> (r: bool)
    requires
        nanos < 1_000_000_000,
    ensures
        r == seconds_in_range(secs as int),
{
    DateTime::from_timestamp(secs, nanos).is_some()
}

/// Relies on chrono's `NaiveDate::from_ymd_opt`, `and_hms_opt`, `and_utc` and
/// `timestamp`: the unix seconds of a valid civil time read as UTC.
#[verifier::external_body]
pub(crate) fn utc_seconds_of_civil(c: &CivilDateTime) -> (r: i64)
    requires
        c.wf(),
    ensures
        r == civil_seconds(*c),
{
    let date = NaiveDate::from_ymd_opt(c.year, c.month, c.day).unwrap();
    date.and_hms_opt(c.hour, c.minute, c.second).unwrap().and_utc().timestamp()
}

/// How a wall-clock time maps to instants in the local zone.
#[derive(Copy, Clone, Debug, PartialEq, Eq, Structural)]
pub enum LocalMapping {
    /// The time falls in a spring-forward gap: no instant has it.
    Gap,
    /// Exactly one instant, in unix seconds.
    Single(i64),
    /// The time falls in a fall-back fold: two instants have it.
    Fold,
}

/// Relies on chrono's `Local::from_local_datetime`, which reads the process's
/// zone rules; a single result is an in-range `DateTime` and gives its unix seconds.
#[verifier::external_body]
pub(crate) fn local_mapping_of_civil(c: &CivilDateTime) -> (r: LocalMapping)
    requires
        c.wf(),
    ensures
        r matches LocalMapping::Single(s) ==> seconds_in_range(s as int),
{
    let date = NaiveDate::from_ymd_opt(c.year, c.month, c.day).unwrap();
    let naive = date.and_hms_opt(c.hour, c.minute, c.second).unwrap();
    match Local.from_local_datetime(&naive) {
        chrono::MappedLocalTime::None => LocalMapping::Gap,
        chrono::MappedLocalTime::Single(dt) => LocalMapping::Single(dt.timestamp()),
        chrono::MappedLocalTime::Ambiguous(_, _) => LocalMapping::Fold,
    }
}

/// The character of a decimal digit value.
pub open spec fn digit_char(v: int) -> char {
    if v == 0 { '0' } else if v == 1 { '1' } else if v == 2 { '2' } else if v == 3 { '3' }
    else if v == 4 { '4' } else if v == 5 { '5' } else if v == 6 { '6' } else if v == 7 { '7' }
    else if v == 8 { '8' } else { '9' }
}

/// A value below 100 written as two zero-padded digits.
pub open spec fn two_digit_text(v: int) -> Seq<char> {
    seq![digit_char(v / 10), digit_char(v % 10)]
}

/// A civil time with a four-digit year written `YYYY-MM-DDTHH:MM:SS`.
pub open spec fn rfc3339_prefix(c: CivilDateTime) -> Seq<char> {
    two_digit_text(c.year as int / 100) + two_digit_text(c.year as int % 100) + seq!['-']
        + two_digit_text(c.month as int) + seq!['-'] + two_digit_text(c.day as int) + seq!['T']
        + two_digit_text(c.hour as int) + seq![':'] + two_digit_text(c.minute as int) + seq![':']
        + two_digit_text(c.second as int)
}

/// The text starts with the date and time of the instant `secs` in UTC,
/// wherever that falls in a four-digit year.
pub open spec fn shows_civil_time(t: Seq<char>, secs: int) -> bool {
    forall|c: CivilDateTime| c.wf() && #[trigger] civil_seconds(c) == secs
        ==> t.len() >= 19 && t.take(19) == rfc3339_prefix(c)
}

/// What chrono's `DateTime::<Utc>::to_rfc3339` renders for an instant.
pub uninterp spec fn rfc3339_text(secs: int, nanos: int) -> Seq<char>;

/// What chrono's `DateTime::<Utc>::format` renders for a strftime pattern,
/// or `None` where the pattern is not accepted.
pub uninterp spec fn strftime_text(fmt: Seq<char>, secs: int, nanos: int) -> Option<Seq<char>>;

/// Relies on chrono's `DateTime::<Utc>::to_rfc3339`: the instant in UTC as
/// date, time, sub-second digits when non-zero, and a `+00:00` offset; for
/// years 0 to 9999 the date and time come first as `YYYY-MM-DDTHH:MM:SS`.
#[verifier::external_body]
pub(crate) fn utc_rfc3339(i: &Instant) -> (r: String)
    requires
        i.wf(),
    ensures
        r@ == rfc3339_text(i.secs as int, i.nanos as int),
        shows_civil_time(r@, i.secs as int),
{
    DateTime::from_timestamp(i.secs, i.nanos).unwrap().to_rfc3339()
}

/// Relies on chrono's `DateTime::<Utc>::format`: renders the pattern, and
/// reports a pattern it cannot render as a formatting error.
#[verifier::external_body]
pub(crate) fn utc_strftime(i: &Instant, fmt: &str) -> (r: Option<String>)
    requires
        i.wf(),
    ensures
        r is Some <==> strftime_text(fmt@, i.secs as int, i.nanos as int) is Some,
        r matches Some(t) ==> strftime_text(fmt@, i.secs as int, i.nanos as int) == Some(t@),
{
    let dt = DateTime::from_timestamp(i.secs, i.nanos).unwrap();
    let mut out = String::new();
    write!(out, "{}", dt.format(fmt)).ok().map(|_| out)
}

/// Relies on chrono's `DateTime::with_timezone(&Local)` and `to_rfc3339`: the
/// instant in the process's zone, with the offset in force at that instant.
#[verifier::external_body]
pub(crate) fn local_rfc3339(i: &Instant) -> (r: String)
    requires
        i.wf(),
{
    DateTime::from_timestamp(i.secs, i.nanos).unwrap().with_timezone(&Local).to_rfc3339()
}

/// Relies on chrono's `DateTime::with_timezone(&Local)` and `format`: the
/// pattern rendered in the process's zone, `None` where it cannot be rendered.
#[verifier::external_body]
pub(crate) fn local_strftime(i: &Instant, fmt: &str) -> (r: Option<String>)
    requires
        i.wf(),
{
    let dt = DateTime::from_timestamp(i.secs, i.nanos).unwrap().with_timezone(&Local);
    let mut out = String::new();
    write!(out, "{}", dt.format(fmt)).ok().map(|_| out)
}

} // verus!
