//! Errors that a caller can fix.

use vstd::prelude::*;

verus! {

/// Misuse of the library: the input is rejected as a whole and nothing is
/// reported for it.
#[derive(Clone, Copy, Debug, PartialEq, Eq, Structural)]
pub enum InputError {
    /// The search pattern has no bytes.
    EmptyPattern,
    /// The file is too short to hold a table at the place it is declared.
    TableOutOfFile,
}

} // verus!
