//! Handles to the values recorded on a tape.

use vstd::prelude::*;

verus! {

/// A differentiable value: a number together with the position of the node
/// that stands for it on its tape, and the identity of that tape.
///
/// A handle does not borrow its tape. Every operation that records something
/// takes the tape as an argument, and the handle must belong to that tape:
/// it carries the tape's identity and names one of its positions.
#[derive(Debug)]
pub struct Var<S> {
    /// Value of the variable.
    pub val: S,
    /// Position of the variable's node on its tape.
    pub(crate) location: usize,
    /// Identity of the tape that this variable is associated with.
    pub(crate) tape: u64,
}

impl<S: Copy> Clone for Var<S> {
    fn clone(&self) -> (copy: Self)
        ensures
            copy == *self,
    {
        *self
    }
}

impl<S: Copy> Copy for Var<S> {

}

impl<S: Copy> Var<S> {
    /// The handle for the node at `location` of the tape `tape`, with value
    /// `val`.
    pub(crate) fn at(val: S, location: usize, tape: u64) -> (v: Self)
        ensures
            v.val() == val,
            v.location() == location,
            v.tape() == tape,
    {
        Var { val, location, tape }
    }

    /// The value of the variable.
    pub closed spec fn spec_val(&self) -> S {
        self.val
    }

    /// Get the value of the variable.
    #[verifier::when_used_as_spec(spec_val)]
    pub fn val(&self) -> (v: S)
        ensures
            v == self.val(),
    {
        self.val
    }

    /// The position of this variable's node.
    pub closed spec fn spec_location(&self) -> usize {
        self.location
    }

    /// The position of this variable's node on its tape.
    #[verifier::when_used_as_spec(spec_location)]
    pub fn location(&self) -> (at: usize)
        ensures
            at == self.location(),
    {
        self.location
    }

    /// The identity of this variable's tape.
    pub closed spec fn spec_tape(&self) -> u64 {
        self.tape
    }

    /// The identity of the tape that this variable is associated with.
    #[verifier::when_used_as_spec(spec_tape)]
    pub fn tape(&self) -> (id: u64)
        ensures
            id == self.tape(),
    {
        self.tape
    }
}

} // verus!
