//! Failures of one interaction. None of them stops the process: each is
//! reported to the user through the diagnostic reply.

use vstd::prelude::*;

verus! {

#[derive(Debug, Clone, Copy, PartialEq, Eq, Structural)]
pub enum BotError {
    /// A required option (the descriptor) was not supplied.
    MissingRequiredOption,
    /// The format value is not one of the marker letters.
    InvalidFormatMarker,
    /// The timezone descriptor could not be parsed.
    UnrecognizedTimezone,
    /// The local time does not map to exactly one instant in the zone.
    AmbiguousOrInvalidLocalTime,
    /// The interaction names no registered command.
    UnknownCommand,
}

} // verus!
