//! The ways in which a lookup or a selection can fail.

use vstd::prelude::*;

verus! {

/// Why a request to one of the services gave no usable answer.
#[derive(Clone, Copy, Debug, PartialEq, Eq, Structural)]
pub enum LookupError {
    /// The request could not be sent, or no complete body came back.
    Network,
    /// The body came back but does not hold what was expected of it.
    Parse,
}

/// Why a line typed at the selection prompt names no entry of the list.
#[derive(Clone, Copy, Debug, PartialEq, Eq, Structural)]
pub enum ChoiceError {
    /// The line is not an unsigned decimal number that fits the machine word.
    NotANumber,
    /// The number is not below the length of the list.
    OutOfRange,
}

} // verus!
