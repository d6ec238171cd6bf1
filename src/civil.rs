use vstd::prelude::*;

verus! {

/// A calendar date and wall-clock time with no zone attached.
#[derive(Copy, Clone, Debug, PartialEq, Eq, Structural)]
pub struct CivilDateTime {
    pub year: i32,
    pub month: u32,
    pub day: u32,
    pub hour: u32,
    pub minute: u32,
    pub second: u32,
}

pub open spec fn is_leap_year(y: int) -> bool {
    (y % 4 == 0 && y % 100 != 0) || y % 400 == 0
}

pub open spec fn days_in_month(y: int, m: int) -> int {
    if m == 2 {
        if is_leap_year(y) { 29 } else { 28 }
    } else if m == 4 || m == 6 || m == 9 || m == 11 {
        30
    } else {
        31
    }
}

impl CivilDateTime {
    /// A four-digit year and in-range month, day, hour, minute and second.
    pub open spec fn wf(self) -> bool {
        0 <= self.year <= 9999
            && 1 <= self.month <= 12
            && 1 <= self.day <= days_in_month(self.year as int, self.month as int)
            && self.hour < 24
            && self.minute < 60
            && self.second < 60
    }
}

/// Days from 1970-01-01 to the given proleptic Gregorian date.
pub open spec fn days_from_civil(y: int, m: int, d: int) -> int {
    let y0 = if m <= 2 { y - 1 } else { y };
    let era = y0 / 400;
    let yoe = y0 - era * 400;
    let mp = if m > 2 { m - 3 } else { m + 9 };
    let doy = (153 * mp + 2) / 5 + d - 1;
    let doe = yoe * 365 + yoe / 4 - yoe / 100 + doy;
    era * 146097 + doe - 719468
}

/// Unix seconds of a civil time read as UTC.
pub open spec fn civil_seconds(c: CivilDateTime) -> int {
    days_from_civil(c.year as int, c.month as int, c.day as int) * 86400
        + c.hour * 3600 + c.minute * 60 + c.second
}

pub open spec fn is_digit(c: char) -> bool {
    '0' <= c && c <= '9'
}

pub open spec fn digit_value(c: char) -> int {
    (c as int) - ('0' as int)
}

pub open spec fn two_digits(s: Seq<char>, i: int) -> int {
    digit_value(s[i]) * 10 + digit_value(s[i + 1])
}

pub open spec fn four_digits(s: Seq<char>, i: int) -> int {
    two_digits(s, i) * 100 + two_digits(s, i + 2)
}

/// Positions of the text `YYYY/MM/DD HH:MM:SS` that hold digits.
pub open spec fn is_digit_position(i: int) -> bool {
    0 <= i < 19 && i != 4 && i != 7 && i != 10 && i != 13 && i != 16
}

/// The text has the exact shape `YYYY/MM/DD HH:MM:SS`.
pub open spec fn matches_pattern(s: Seq<char>) -> bool {
    &&& s.len() == 19
    &&& forall|i: int| is_digit_position(i) ==> is_digit(#[trigger] s[i])
    &&& s[4] == '/' && s[7] == '/' && s[10] == ' ' && s[13] == ':' && s[16] == ':'
}

/// The fields read from a text of the pattern's shape.
pub open spec fn pattern_fields(s: Seq<char>) -> CivilDateTime {
    CivilDateTime {
        year: four_digits(s, 0) as i32,
        month: two_digits(s, 5) as u32,
        day: two_digits(s, 8) as u32,
        hour: two_digits(s, 11) as u32,
        minute: two_digits(s, 14) as u32,
        second: two_digits(s, 17) as u32,
    }
}

/// The civil time that a text denotes, if it matches the pattern with in-range fields.
pub open spec fn civil_of_text(s: Seq<char>) -> Option<CivilDateTime> {
    if matches_pattern(s) && pattern_fields(s).wf() {
        Some(pattern_fields(s))
    } else {
        None
    }
}

fn digit_at(s: &str, i: usize) -> (r: Option<u32>)
    requires
        i < s@.len(),
    ensures
        r is Some <==> is_digit(s@[i as int]),
        r matches Some(v) ==> v == digit_value(s@[i as int]),
{
    let c = s.get_char(i);
    if '0' <= c && c <= '9' {
        Some((c as u32) - ('0' as u32))
    } else {
        None
    }
}

fn two_digits_at(s: &str, i: usize) -> (r: Option<u32>)
    requires
        i + 1 < s@.len(),
        i < 19,
    ensures
        r is Some <==> (is_digit(s@[i as int]) && is_digit(s@[i + 1])),
        r matches Some(v) ==> v == two_digits(s@, i as int),
{
    let a = digit_at(s, i)?;
    let b = digit_at(s, i + 1)?;
    Some(a * 10 + b)
}

/// Whether `m` of year `y` has day `d`.
pub fn day_in_month(y: i32, m: u32, d: u32) -> (r: bool)
    requires
        1 <= m <= 12,
    ensures
        r == (1 <= d <= days_in_month(y as int, m as int)),
{
    let leap = (y % 4 == 0 && y % 100 != 0) || y % 400 == 0;
    let last: u32 = if m == 2 {
        if leap { 29 } else { 28 }
    } else if m == 4 || m == 6 || m == 9 || m == 11 {
        30
    } else {
        31
    };
    1 <= d && d <= last
}

/// Reads `YYYY/MM/DD HH:MM:SS` (zero-padded, exactly these separators)
/// into a civil time, rejecting any other shape and out-of-range fields.
pub fn parse_civil(s: &str) -> (r: Option<CivilDateTime>)
    ensures
        r == civil_of_text(s@),
{
    if s.unicode_len() != 19 {
        return None;
    }
    let sep_ok = s.get_char(4) == '/' && s.get_char(7) == '/' && s.get_char(10) == ' '
        && s.get_char(13) == ':' && s.get_char(16) == ':';
    if !sep_ok {
        return None;
    }
    let y_hi = two_digits_at(s, 0);
    let y_lo = two_digits_at(s, 2);
    let month = two_digits_at(s, 5);
    let day = two_digits_at(s, 8);
    let hour = two_digits_at(s, 11);
    let minute = two_digits_at(s, 14);
    let second = two_digits_at(s, 17);
    match (y_hi, y_lo, month, day, hour, minute, second) {
        (Some(yh), Some(yl), Some(mo), Some(d), Some(h), Some(mi), Some(se)) => {
            assert(matches_pattern(s@)) by {
                assert forall|i: int| is_digit_position(i) implies is_digit(#[trigger] s@[i]) by {
                    if i < 4 {
                    } else if i < 7 {
                    } else if i < 10 {
                    } else if i < 13 {
                    } else if i < 16 {
                    } else {
                    }
                }
            }
            let year = (yh * 100 + yl) as i32;
            let c = CivilDateTime { year, month: mo, day: d, hour: h, minute: mi, second: se };
            assert(c == pattern_fields(s@));
            if 1 <= mo && mo <= 12 && day_in_month(year, mo, d) && h < 24 && mi < 60 && se < 60 {
                Some(c)
            } else {
                None
            }
        },
        _ => {
            assert(!matches_pattern(s@)) by {
                if matches_pattern(s@) {
                    assert(is_digit_position(0) && is_digit_position(1) && is_digit_position(2));
                    assert(is_digit_position(3) && is_digit_position(5) && is_digit_position(6));
                    assert(is_digit_position(8) && is_digit_position(9) && is_digit_position(11));
                    assert(is_digit_position(12) && is_digit_position(14) && is_digit_position(15));
                    assert(is_digit_position(17) && is_digit_position(18));
                }
            }
            None
        },
    }
}

} // verus!
