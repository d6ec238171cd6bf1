use vstd::prelude::*;
use crate::bridge::{shows_civil_time, local_rfc3339, local_strftime, rfc3339_text, strftime_text, utc_rfc3339, utc_strftime};
use crate::model::{Instant, TzChoice};

verus! {

/// Renders an instant in the output zone: RFC 3339 by default, or the given
/// strftime pattern. `None` only where the pattern cannot be rendered.
pub fn format_output(utc_dt: &Instant, output_tz: TzChoice, fmt: Option<&str>) -> (r: Option<String>)
    requires
        utc_dt.wf(),
    ensures
        fmt is None ==> r is Some,
        output_tz == TzChoice::Utc && fmt is None ==> (r matches Some(t)
            && t@ == rfc3339_text(utc_dt.secs as int, utc_dt.nanos as int)
            && shows_civil_time(t@, utc_dt.secs as int)),
        output_tz == TzChoice::Utc && fmt is Some ==> (match r {
            Some(t) => strftime_text(fmt.unwrap()@, utc_dt.secs as int, utc_dt.nanos as int) == Some(t@),
            None => strftime_text(fmt.unwrap()@, utc_dt.secs as int, utc_dt.nanos as int) is None,
        }),
{
    match (output_tz, fmt) {
        (TzChoice::Utc, Some(f)) => utc_strftime(utc_dt, f),
        (TzChoice::Local, Some(f)) => local_strftime(utc_dt, f),
        (TzChoice::Utc, None) => Some(utc_rfc3339(utc_dt)),
        (TzChoice::Local, None) => Some(local_rfc3339(utc_dt)),
    }
}

} // verus!
