use vstd::prelude::*;
use crate::bridge::{LocalMapping, i64_of_text, local_mapping_of_civil, parse_i64, timestamp_representable, utc_seconds_of_civil};
use crate::civil::{CivilDateTime, civil_of_text, civil_seconds, parse_civil};
use crate::model::{Instant, ParsedAs, TimeError, TsUnit, TzChoice, seconds_in_range};

verus! {

/// Magnitudes at or above this are read as milliseconds when no unit is forced.
pub const MILLIS_THRESHOLD: i64 = 1_000_000_000_000;

pub open spec fn abs_int(x: int) -> int {
    if x < 0 { -x } else { x }
}

/// The unit a numeric input is read in: the forced one, or autodetected by magnitude.
pub open spec fn unit_for(raw: int, forced: Option<TsUnit>) -> TsUnit {
    match forced {
        Some(u) => u,
        None => if abs_int(raw) >= MILLIS_THRESHOLD { TsUnit::Millis } else { TsUnit::Seconds },
    }
}

/// Integer division truncating toward zero.
pub open spec fn trunc_div(a: int, b: int) -> int {
    if a >= 0 { a / b } else { -((-a) / b) }
}

/// Whole seconds of `raw` read in `unit` (milliseconds truncate toward zero).
pub open spec fn whole_seconds(raw: int, unit: TsUnit) -> int {
    match unit {
        TsUnit::Seconds => raw,
        TsUnit::Millis => trunc_div(raw, 1000),
    }
}

/// Sub-second nanoseconds of `raw` read in `unit`: the magnitude of the
/// millisecond remainder, whatever the sign of `raw`.
pub open spec fn sub_second_nanos(raw: int, unit: TsUnit) -> int {
    match unit {
        TsUnit::Seconds => 0,
        TsUnit::Millis => (abs_int(raw) % 1000) * 1_000_000,
    }
}

/// The instant a numeric input denotes in `unit`, when its seconds are representable.
pub open spec fn timestamp_instant(raw: int, unit: TsUnit) -> Option<Instant> {
    let s = whole_seconds(raw, unit);
    if seconds_in_range(s) {
        Some(Instant { secs: s as i64, nanos: sub_second_nanos(raw, unit) as u32 })
    } else {
        None
    }
}

/// Picks the unit for a numeric input: the forced one if given, else
/// milliseconds when the magnitude is at least 10^12, seconds otherwise.
pub fn detect_unit(raw: i64, forced: Option<TsUnit>) -> (r: TsUnit)
    ensures
        r == unit_for(raw as int, forced),
{
    match forced {
        Some(u) => u,
        None => {
            if raw >= MILLIS_THRESHOLD || raw <= -MILLIS_THRESHOLD {
                TsUnit::Millis
            } else {
                TsUnit::Seconds
            }
        },
    }
}

/// Converts a numeric timestamp to an instant, with the forced or autodetected unit.
pub fn parse_timestamp_to_utc(raw: i64, forced: Option<TsUnit>) -> (r: Result<(Instant, TsUnit), TimeError>)
    ensures
        match r {
            Ok((i, u)) => u == unit_for(raw as int, forced)
                && timestamp_instant(raw as int, u) == Some(i)
                && i.wf(),
            Err(e) => e == TimeError::InvalidTimestamp
                && timestamp_instant(raw as int, unit_for(raw as int, forced)) is None,
        },
{
    let unit = detect_unit(raw, forced);
    let (secs, nanos): (i64, u32) = match unit {
        TsUnit::Seconds => (raw, 0u32),
        TsUnit::Millis => {
            let secs = raw / 1000;
            let rem = raw % 1000;
            let ms: u32 = if rem < 0 { (-rem) as u32 } else { rem as u32 };
            (secs, ms * 1_000_000)
        },
    };
    if timestamp_representable(secs, nanos) {
        Ok((Instant { secs, nanos }, unit))
    } else {
        Err(TimeError::InvalidTimestamp)
    }
}

/// Civil times with a four-digit year lie well inside the representable range.
pub proof fn lemma_civil_seconds_in_range(c: CivilDateTime)
    requires
        c.wf(),
    ensures
        seconds_in_range(civil_seconds(c)),
{
    let y = c.year as int;
    let m = c.month as int;
    let d = c.day as int;
    let y0 = if m <= 2 { y - 1 } else { y };
    let era = y0 / 400;
    let yoe = y0 - era * 400;
    let mp = if m > 2 { m - 3 } else { m + 9 };
    let doy = (153 * mp + 2) / 5 + d - 1;
    let doe = yoe * 365 + yoe / 4 - yoe / 100 + doy;
    assert(-1 <= era <= 24);
    assert(0 <= yoe < 400);
    assert(0 <= mp <= 11);
    assert(0 <= (153 * mp + 2) / 5 <= 337);
    assert(0 <= doy <= 368);
    assert(0 <= doe <= 400 * 365 + 100 + 368);
    assert(-1000000 <= era * 146097 + doe - 719468 <= 4000000) by (nonlinear_arith)
        requires
            -1 <= era <= 24,
            0 <= doe <= 400 * 365 + 100 + 368,
    ;
    let days = era * 146097 + doe - 719468;
    assert(days == crate::civil::days_from_civil(y, m, d));
    assert(-1000000 * 86400 <= days * 86400 <= 4000000 * 86400) by (nonlinear_arith)
        requires
            -1000000 <= days <= 4000000,
    ;
}

/// The instant of a civil time read as UTC.
pub fn utc_instant_of_civil(c: &CivilDateTime) -> (r: Instant)
    requires
        c.wf(),
    ensures
        r == (Instant { secs: civil_seconds(*c) as i64, nanos: 0 }),
        r.wf(),
{
    proof { lemma_civil_seconds_in_range(*c); }
    Instant { secs: utc_seconds_of_civil(c), nanos: 0 }
}

/// Decides the local-zone reading of a civil time from how the zone maps it:
/// exactly one instant is accepted; a gap or a fold is a zone error.
pub fn resolve_local_mapping(mapping: LocalMapping) -> (r: Result<Instant, TimeError>)
    requires
        mapping matches LocalMapping::Single(s) ==> seconds_in_range(s as int),
    ensures
        match mapping {
            LocalMapping::Single(s) => r == Ok::<Instant, TimeError>(Instant { secs: s, nanos: 0 }),
            _ => r == Err::<Instant, TimeError>(TimeError::AmbiguousLocalTime),
        },
        r matches Ok(i) ==> i.wf(),
{
    match mapping {
        LocalMapping::Single(s) => Ok(Instant { secs: s, nanos: 0 }),
        LocalMapping::Gap => Err(TimeError::AmbiguousLocalTime),
        LocalMapping::Fold => Err(TimeError::AmbiguousLocalTime),
    }
}

/// Reads an input as a numeric timestamp or, failing that, as
/// `YYYY/MM/DD HH:MM:SS` civil time in the chosen input zone.
pub fn parse_input_to_utc(input: &str, input_tz: TzChoice, forced_ts: Option<TsUnit>) -> (r: Result<(Instant, ParsedAs), TimeError>)
    ensures
        r matches Ok((i, _)) ==> i.wf(),
        match i64_of_text(input@) {
            Some(raw) => {
                let u = unit_for(raw as int, forced_ts);
                match timestamp_instant(raw as int, u) {
                    Some(i) => r == Ok::<(Instant, ParsedAs), TimeError>((i, ParsedAs::Timestamp { unit: u, raw })),
                    None => r == Err::<(Instant, ParsedAs), TimeError>(TimeError::InvalidTimestamp),
                }
            },
            None => match civil_of_text(input@) {
                None => r == Err::<(Instant, ParsedAs), TimeError>(TimeError::BadFormat),
                Some(c) => match input_tz {
                    TzChoice::Utc => r == Ok::<(Instant, ParsedAs), TimeError>(
                        (Instant { secs: civil_seconds(c) as i64, nanos: 0 }, ParsedAs::Formatted)),
                    TzChoice::Local => match r {
                        Ok((i, p)) => p == ParsedAs::Formatted && i.nanos == 0,
                        Err(e) => e == TimeError::AmbiguousLocalTime,
                    },
                },
            },
        },
{
    if let Some(raw) = parse_i64(input) {
        return match parse_timestamp_to_utc(raw, forced_ts) {
            Ok((i, unit)) => Ok((i, ParsedAs::Timestamp { unit, raw })),
            Err(e) => Err(e),
        };
    }
    let civil = match parse_civil(input) {
        Some(c) => c,
        None => return Err(TimeError::BadFormat),
    };
    match input_tz {
        TzChoice::Utc => Ok((utc_instant_of_civil(&civil), ParsedAs::Formatted)),
        TzChoice::Local => {
            let mapping = local_mapping_of_civil(&civil);
            match resolve_local_mapping(mapping) {
                Ok(i) => Ok((i, ParsedAs::Formatted)),
                Err(e) => Err(e),
            }
        },
    }
}

} // verus!
