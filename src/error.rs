use vstd::prelude::*;

verus! {

/// Why the engine refused to act.
#[derive(Clone, Copy, Debug, PartialEq, Eq, Structural)]
pub enum GcodeError {
    /// A parameter makes the requested work meaningless: a zero filament
    /// diameter, line spacing, layer height, diameter or height.
    InvalidConfiguration,
    /// A coordinate or the cumulative feed would leave the range that the
    /// machine's integer registers hold.
    OutOfRange,
}

} // verus!
