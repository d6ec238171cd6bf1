use vstd::prelude::*;
use vstd::arithmetic::div_mod::{lemma_fundamental_div_mod, lemma_mod_multiples_basic};
use crate::bridge::{digit_char, rfc3339_prefix, shows_civil_time, two_digit_text};
use crate::civil::{civil_of_text, civil_seconds, digit_value, is_digit, is_digit_position, pattern_fields, two_digits};
use crate::model::{Instant, TsUnit, seconds_in_range};
use crate::resolve::{MILLIS_THRESHOLD, abs_int, sub_second_nanos, timestamp_instant, trunc_div, unit_for, whole_seconds};

verus! {

/// Forcing a unit overrides autodetection, whatever the magnitude.
pub proof fn lemma_forced_unit_wins(raw: int, u: TsUnit)
    ensures
        unit_for(raw, Some(u)) == u,
{
}

/// Any integer of magnitude below 10^12 is read as seconds, and resolves to
/// an instant whose unix seconds are that integer.
pub proof fn lemma_small_magnitude_is_seconds(s: i64)
    requires
        abs_int(s as int) < MILLIS_THRESHOLD,
    ensures
        unit_for(s as int, None) == TsUnit::Seconds,
        timestamp_instant(s as int, TsUnit::Seconds) matches Some(i)
            && i.unix_seconds_spec() == s
            && i.nanos == 0,
{
}

/// Read as milliseconds, a non-negative integer (or a whole number of
/// seconds) whose seconds are representable resolves to an instant whose
/// unix milliseconds are that integer.
pub proof fn lemma_millis_reading_exact(m: i64)
    requires
        m >= 0 || m % 1000 == 0,
        seconds_in_range(trunc_div(m as int, 1000)),
    ensures
        timestamp_instant(m as int, TsUnit::Millis) matches Some(i)
            && i.unix_millis_spec() == m,
{
    let a = abs_int(m as int);
    lemma_fundamental_div_mod(a, 1000);
    let q = a / 1000;
    let rem = a % 1000;
    assert(0 <= rem < 1000);
    assert((rem * 1_000_000) / 1_000_000 == rem) by {
        lemma_mod_multiples_basic(rem, 1_000_000);
        lemma_fundamental_div_mod(rem * 1_000_000, 1_000_000);
        assert((rem * 1_000_000) / 1_000_000 == rem) by (nonlinear_arith)
            requires
                0 <= rem < 1000,
        ;
    }
    if m < 0 {
        assert(rem == 0) by {
            lemma_fundamental_div_mod(m as int, 1000);
            let q2 = (m as int) / 1000;
            assert(m as int == 1000 * q2);
            assert(a == 1000 * (-q2));
            lemma_mod_multiples_basic(-q2, 1000);
        }
    }
    let i = Instant { secs: whole_seconds(m as int, TsUnit::Millis) as i64, nanos: sub_second_nanos(m as int, TsUnit::Millis) as u32 };
    assert(timestamp_instant(m as int, TsUnit::Millis) == Some(i));
}

/// Any integer of magnitude at least 10^12 is read as milliseconds; where it
/// is non-negative (or a whole number of seconds) and its seconds are
/// representable, it resolves to an instant whose unix milliseconds are that integer.
pub proof fn lemma_large_magnitude_is_millis(m: i64)
    requires
        abs_int(m as int) >= MILLIS_THRESHOLD,
        m >= 0 || m % 1000 == 0,
        seconds_in_range(trunc_div(m as int, 1000)),
    ensures
        unit_for(m as int, None) == TsUnit::Millis,
        timestamp_instant(m as int, TsUnit::Millis) matches Some(i)
            && i.unix_millis_spec() == m,
{
    lemma_millis_reading_exact(m);
}

/// Whole-second instants survive a trip through unix seconds.
pub proof fn lemma_seconds_round_trip(i: Instant)
    requires
        i.wf(),
        i.nanos == 0,
    ensures
        timestamp_instant(i.unix_seconds_spec(), TsUnit::Seconds) == Some(i),
{
}

/// Millisecond-resolution instants at or after the epoch, and whole-second
/// instants before it, survive a trip through unix milliseconds.
pub proof fn lemma_millis_round_trip(i: Instant)
    requires
        i.wf(),
        i.nanos % 1_000_000 == 0,
        i.secs >= 0 || i.nanos == 0,
    ensures
        timestamp_instant(i.unix_millis_spec(), TsUnit::Millis) == Some(i),
{
    let k: int = i.nanos as int / 1_000_000;
    lemma_fundamental_div_mod(i.nanos as int, 1_000_000);
    assert(0 <= k < 1000);
    let m = i.unix_millis_spec();
    if i.secs >= 0 {
        assert(m >= 0);
        assert(m / 1000 == i.secs && m % 1000 == k) by {
            vstd::arithmetic::div_mod::lemma_fundamental_div_mod_converse(m, 1000, i.secs as int, k);
        }
    } else {
        assert(k == 0);
        assert(-m == (-i.secs) * 1000);
        assert((-m) / 1000 == -i.secs && (-m) % 1000 == 0) by {
            vstd::arithmetic::div_mod::lemma_fundamental_div_mod_converse(-m, 1000, -i.secs, 0);
        }
    }
}

/// A pattern text with `-` between date fields and `T` before the time.
pub open spec fn iso_form(x: Seq<char>) -> Seq<char> {
    x.update(4, '-').update(7, '-').update(10, 'T')
}

proof fn lemma_digit_char(ch: char)
    requires
        is_digit(ch),
    ensures
        digit_char(digit_value(ch)) == ch,
{
}

proof fn lemma_two_digit_text(x: Seq<char>, i: int)
    requires
        0 <= i,
        i + 1 < x.len(),
        is_digit(x[i]),
        is_digit(x[i + 1]),
    ensures
        two_digit_text(two_digits(x, i)) == x.subrange(i, i + 2),
{
    let a = digit_value(x[i]);
    let b = digit_value(x[i + 1]);
    vstd::arithmetic::div_mod::lemma_fundamental_div_mod_converse(a * 10 + b, 10, a, b);
    lemma_digit_char(x[i]);
    lemma_digit_char(x[i + 1]);
    assert(two_digit_text(two_digits(x, i)) =~= x.subrange(i, i + 2));
}

/// Reading a valid `YYYY/MM/DD HH:MM:SS` text as UTC and rendering the
/// instant by default in UTC gives back the same date and time, written
/// `YYYY-MM-DDTHH:MM:SS`, at the start of the rendering.
pub proof fn lemma_formatted_round_trip(x: Seq<char>, t: Seq<char>)
    requires
        civil_of_text(x) is Some,
        shows_civil_time(t, civil_seconds(civil_of_text(x).unwrap())),
    ensures
        t.len() >= 19,
        t.take(19) == iso_form(x),
{
    let c = civil_of_text(x).unwrap();
    assert(c.wf() && civil_seconds(c) == civil_seconds(c));
    assert(c == pattern_fields(x));
    assert(is_digit_position(0) && is_digit_position(1) && is_digit_position(2));
    assert(is_digit_position(3) && is_digit_position(5) && is_digit_position(6));
    assert(is_digit_position(8) && is_digit_position(9) && is_digit_position(11));
    assert(is_digit_position(12) && is_digit_position(14) && is_digit_position(15));
    assert(is_digit_position(17) && is_digit_position(18));
    lemma_two_digit_text(x, 0);
    lemma_two_digit_text(x, 2);
    lemma_two_digit_text(x, 5);
    lemma_two_digit_text(x, 8);
    lemma_two_digit_text(x, 11);
    lemma_two_digit_text(x, 14);
    lemma_two_digit_text(x, 17);
    let hi = two_digits(x, 0);
    let lo = two_digits(x, 2);
    assert(0 <= hi < 100 && 0 <= lo < 100);
    vstd::arithmetic::div_mod::lemma_fundamental_div_mod_converse(hi * 100 + lo, 100, hi, lo);
    assert(c.year as int == hi * 100 + lo);
    assert(rfc3339_prefix(c) =~= iso_form(x).take(19));
}

} // verus!
