//! The faults that the library itself detects.

use vstd::prelude::*;

verus! {

/// Why a command stops before it has done its work.
///
/// Faults of the file system and of the network are the calling program's: it
/// meets them while reading, writing and sending, and they never reach the
/// library.
#[derive(Clone, Copy, Debug, PartialEq, Eq, Structural)]
pub enum CommandError {
    /// The amount of a holding is not a number.
    InvalidAmount,
    /// The state file is there, but what it holds is not a state.
    StateCorrupt,
    /// The stored credential cannot be sent as an HTTP header value.
    InvalidHeader,
}

} // verus!
