use vstd::prelude::*;

verus! {

/// Which single output an invocation produces.
#[derive(Copy, Clone, Debug, PartialEq, Eq, Structural)]
pub enum OutputMode {
    /// The rendered datetime string.
    Text,
    /// Unix seconds only.
    Unix,
    /// One JSON object describing the conversion.
    Json,
}

/// A combination of options that cannot be honoured.
#[derive(Copy, Clone, Debug, PartialEq, Eq, Structural)]
pub enum ConfigError {
    /// Unix-only and JSON-only output were both asked for.
    ConflictingOutputs,
}

/// Chooses the output from the unix-only and JSON-only flags; asking for
/// both is rejected before any input is looked at.
pub fn select_output_mode(unix: bool, json: bool) -> (r: Result<OutputMode, ConfigError>)
    ensures
        unix && json ==> r == Err::<OutputMode, ConfigError>(ConfigError::ConflictingOutputs),
        unix && !json ==> r == Ok::<OutputMode, ConfigError>(OutputMode::Unix),
        !unix && json ==> r == Ok::<OutputMode, ConfigError>(OutputMode::Json),
        !unix && !json ==> r == Ok::<OutputMode, ConfigError>(OutputMode::Text),
{
    if unix && json {
        Err(ConfigError::ConflictingOutputs)
    } else if unix {
        Ok(OutputMode::Unix)
    } else if json {
        Ok(OutputMode::Json)
    } else {
        Ok(OutputMode::Text)
    }
}

impl ConfigError {
    /// Human-readable description of the error.
    pub fn message(&self) -> (r: &'static str)
        ensures
            r@ == "the options --unix and --json cannot be used together"@,
    {
        proof { reveal_strlit("the options --unix and --json cannot be used together"); }
        "the options --unix and --json cannot be used together"
    }
}

} // verus!
