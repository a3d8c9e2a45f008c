//! The ways an operation on handles can be refused.

use vstd::prelude::*;

verus! {

/// Why an operation was refused. A refused operation leaves the tape as it
/// was.
#[derive(Debug, Clone, Copy, PartialEq, Eq, Structural)]
pub enum Error {
    /// An operation on two handles was given a handle that does not belong
    /// to the tape: it carries the identity of another tape, or it names no
    /// position of this one.
    TapeMismatch,
    /// A sum over no handles at all: there is no handle to return.
    EmptySum,
}

} // verus!
