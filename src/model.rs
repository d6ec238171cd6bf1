use vstd::prelude::*;

verus! {

/// Earliest unix second that the calendar engine can hold (January 1 of year -262143).
pub const MIN_UNIX_SECONDS: i64 = -8334601228800;

/// Latest unix second that the calendar engine can hold (December 31 of year 262142, 23:59:59).
pub const MAX_UNIX_SECONDS: i64 = 8210266876799;

/// Process exit status for a parse failure.
pub const EXIT_PARSE: i32 = 3;

/// Process exit status for a local-time ambiguity or gap.
pub const EXIT_TZ: i32 = 4;

/// Which zone applies at an input or output boundary.
#[derive(Copy, Clone, Debug, PartialEq, Eq, Structural)]
pub enum TzChoice {
    Utc,
    Local,
}

pub open spec fn tz_label(t: TzChoice) -> Seq<char> {
    match t {
        TzChoice::Utc => "UTC"@,
        TzChoice::Local => "local"@,
    }
}

impl TzChoice {
    /// The label used for this zone in structured output.
    pub fn as_str(&self) -> (r: &'static str)
        ensures
            r@ == tz_label(*self),
    {
        match self {
            TzChoice::Utc => {
                proof { reveal_strlit("UTC"); }
                "UTC"
            },
            TzChoice::Local => {
                proof { reveal_strlit("local"); }
                "local"
            },
        }
    }
}

/// How the magnitude of a numeric input maps to an instant.
#[derive(Copy, Clone, Debug, PartialEq, Eq, Structural)]
pub enum TsUnit {
    Seconds,
    Millis,
}

pub open spec fn unit_label(u: TsUnit) -> Seq<char> {
    match u {
        TsUnit::Seconds => "seconds"@,
        TsUnit::Millis => "millis"@,
    }
}

impl TsUnit {
    /// The label used for this unit in structured output.
    pub fn as_str(&self) -> (r: &'static str)
        ensures
            r@ == unit_label(*self),
    {
        match self {
            TsUnit::Seconds => {
                proof { reveal_strlit("seconds"); }
                "seconds"
            },
            TsUnit::Millis => {
                proof { reveal_strlit("millis"); }
                "millis"
            },
        }
    }
}

/// How an input was read: as a number in some unit, or as formatted civil time.
#[derive(Copy, Clone, Debug, PartialEq, Eq, Structural)]
pub enum ParsedAs {
    Timestamp { unit: TsUnit, raw: i64 },
    Formatted,
}

pub open spec fn parsed_label(p: ParsedAs) -> Seq<char> {
    match p {
        ParsedAs::Timestamp { .. } => "timestamp"@,
        ParsedAs::Formatted => "formatted"@,
    }
}

impl ParsedAs {
    /// The label of the path taken, for structured output.
    pub fn as_str(&self) -> (r: &'static str)
        ensures
            r@ == parsed_label(*self),
    {
        match self {
            ParsedAs::Timestamp { .. } => {
                proof { reveal_strlit("timestamp"); }
                "timestamp"
            },
            ParsedAs::Formatted => {
                proof { reveal_strlit("formatted"); }
                "formatted"
            },
        }
    }

    /// The resolved unit, present only for numeric inputs.
    pub fn unit(&self) -> (r: Option<TsUnit>)
        ensures
            r == (match *self {
                ParsedAs::Timestamp { unit, .. } => Some(unit),
                ParsedAs::Formatted => None::<TsUnit>,
            }),
    {
        match self {
            ParsedAs::Timestamp { unit, .. } => Some(*unit),
            ParsedAs::Formatted => None,
        }
    }
}

/// Why an input could not be turned into an instant.
#[derive(Copy, Clone, Debug, PartialEq, Eq, Structural)]
pub enum TimeError {
    /// A numeric input whose seconds fall outside the representable range.
    InvalidTimestamp,
    /// A non-numeric input that does not match `YYYY/MM/DD HH:MM:SS`.
    BadFormat,
    /// A local wall-clock time that falls in a DST gap or fold.
    AmbiguousLocalTime,
}

pub open spec fn is_parse_error(e: TimeError) -> bool {
    e == TimeError::InvalidTimestamp || e == TimeError::BadFormat
}

impl TimeError {
    /// Whether this is a parse failure (as opposed to a time-zone failure).
    pub fn is_parse(&self) -> (r: bool)
        ensures
            r == is_parse_error(*self),
    {
        match self {
            TimeError::InvalidTimestamp => true,
            TimeError::BadFormat => true,
            TimeError::AmbiguousLocalTime => false,
        }
    }

    /// Process exit status for this error: one for parse failures, another for zone failures.
    pub fn exit_code(&self) -> (r: i32)
        ensures
            is_parse_error(*self) ==> r == EXIT_PARSE,
            !is_parse_error(*self) ==> r == EXIT_TZ,
    {
        if self.is_parse() {
            EXIT_PARSE
        } else {
            EXIT_TZ
        }
    }

    /// Human-readable description of the error.
    pub fn message(&self) -> (r: &'static str)
        ensures
            *self == TimeError::InvalidTimestamp ==> r@ == "Invalid unix timestamp"@,
            *self == TimeError::BadFormat ==> r@ == "Expected format: YYYY/MM/DD HH:MM:SS"@,
            *self == TimeError::AmbiguousLocalTime ==> r@
                == "Ambiguous or non-existent local time (DST transition)"@,
    {
        match self {
            TimeError::InvalidTimestamp => {
                proof { reveal_strlit("Invalid unix timestamp"); }
                "Invalid unix timestamp"
            },
            TimeError::BadFormat => {
                proof { reveal_strlit("Expected format: YYYY/MM/DD HH:MM:SS"); }
                "Expected format: YYYY/MM/DD HH:MM:SS"
            },
            TimeError::AmbiguousLocalTime => {
                proof { reveal_strlit("Ambiguous or non-existent local time (DST transition)"); }
                "Ambiguous or non-existent local time (DST transition)"
            },
        }
    }
}

/// An absolute point in time: whole seconds since the unix epoch plus a
/// non-negative sub-second part in nanoseconds.
#[derive(Copy, Clone, Debug, PartialEq, Eq, Structural)]
pub struct Instant {
    pub secs: i64,
    pub nanos: u32,
}

pub open spec fn seconds_in_range(secs: int) -> bool {
    MIN_UNIX_SECONDS <= secs <= MAX_UNIX_SECONDS
}

impl Instant {
    /// The seconds lie in the representable range and the sub-second part is below one second.
    pub open spec fn wf(self) -> bool {
        seconds_in_range(self.secs as int) && self.nanos < 1_000_000_000
    }

    pub open spec fn unix_seconds_spec(self) -> int {
        self.secs as int
    }

    /// Milliseconds since the epoch: whole seconds times 1000 plus whole sub-second milliseconds.
    pub open spec fn unix_millis_spec(self) -> int {
        self.secs * 1000 + self.nanos / 1_000_000
    }

    /// Whole seconds since the epoch (negative before it).
    pub fn unix_seconds(&self) -> (r: i64)
        ensures
            r == self.unix_seconds_spec(),
    {
        self.secs
    }

    /// Milliseconds since the epoch.
    pub fn unix_millis(&self) -> (r: i64)
        requires
            self.wf(),
        ensures
            r == self.unix_millis_spec(),
    {
        self.secs * 1000 + (self.nanos / 1_000_000) as i64
    }
}

} // verus!
