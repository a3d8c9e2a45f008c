//! What one elementary step does to a tape.
//!
//! Every elementary operation computes a value and appends exactly one node.
//! The predicates here say where that node stands and what it depends on;
//! each operation adds which numbers its value and its weights are. (The
//! difference and the quotient of two variables are two elementary
//! operations each, and so take two steps.)

use crate::scalar::{is_from, Real};
use crate::tape::{appended, Node, Tape};
use crate::var::Var;
use vstd::prelude::*;

verus! {

/// The first weight of the node that was recorded last.
pub open spec fn slope0<S>(nodes: Seq<Node<S>>) -> S {
    nodes.last().weights[0]
}

/// The second weight of the node that was recorded last.
pub open spec fn slope1<S>(nodes: Seq<Node<S>>) -> S {
    nodes.last().weights[1]
}

/// The step from `pre` to `post` recorded `out` as a function of `x` alone:
/// one node was appended, `out` names it on the tape of `x`, it depends on
/// `x` by its first weight, and its second weight is zero.
pub open spec fn unary_step<S: Real>(
    pre: Seq<Node<S>>,
    post: Seq<Node<S>>,
    x: Var<S>,
    out: Var<S>,
) -> bool {
    &&& appended(pre, post, x.location(), x.location())
    &&& out.location() == pre.len()
    &&& out.tape() == x.tape()
    &&& is_from(0, slope1(post))
}

/// The step from `pre` to `post` recorded `out` as a function of `x` alone,
/// where `x` is the right operand of an operation whose left operand is a
/// fixed number: one node was appended, `out` names it on the tape of `x`,
/// its first weight is zero, and it depends on `x` by its second weight.
pub open spec fn right_step<S: Real>(
    pre: Seq<Node<S>>,
    post: Seq<Node<S>>,
    x: Var<S>,
    out: Var<S>,
) -> bool {
    &&& appended(pre, post, x.location(), x.location())
    &&& out.location() == pre.len()
    &&& out.tape() == x.tape()
    &&& is_from(0, slope0(post))
}

/// The step from `pre` to `post` recorded `out` as a function of `x` and
/// `y`, two handles of one tape: one node was appended, `out` names it on
/// that tape, and it depends on `x` by its first weight and on `y` by its
/// second.
pub open spec fn binary_step<S: Real>(
    pre: Seq<Node<S>>,
    post: Seq<Node<S>>,
    x: Var<S>,
    y: Var<S>,
    out: Var<S>,
) -> bool {
    &&& appended(pre, post, x.location(), y.location())
    &&& out.location() == pre.len()
    &&& x.tape() == y.tape()
    &&& out.tape() == x.tape()
}

impl<S: Real> Var<S> {
    /// Records `val` as a function of `self` with slope `slope`.
    pub(crate) fn record(&self, tape: &mut Tape<S>, val: S, slope: S) -> (out: Var<S>)
        requires
            old(tape).holds(self),
        ensures
            unary_step(old(tape)@, final(tape)@, *self, out),
            out.val() == val,
            slope0(final(tape)@) == slope,
            final(tape).continues(old(tape)),
    {
        let zero = S::from_i32(0);
        let at = self.location();
        let location = tape.add_node(at, at, slope, zero);
        Var::at(val, location, tape.id())
    }

    /// Records `val` as a function of `self`, the right operand of an
    /// operation on a fixed number, with slope `slope`.
    pub(crate) fn record_right(&self, tape: &mut Tape<S>, val: S, slope: S) -> (out: Var<S>)
        requires
            old(tape).holds(self),
        ensures
            right_step(old(tape)@, final(tape)@, *self, out),
            out.val() == val,
            slope1(final(tape)@) == slope,
            final(tape).continues(old(tape)),
    {
        let zero = S::from_i32(0);
        let at = self.location();
        let location = tape.add_node(at, at, zero, slope);
        Var::at(val, location, tape.id())
    }

    /// Records `val` as a function of `self` and `rhs` with the slopes `w0`
    /// and `w1`.
    pub(crate) fn record_with(
        &self,
        tape: &mut Tape<S>,
        rhs: &Var<S>,
        val: S,
        w0: S,
        w1: S,
    ) -> (out: Var<S>)
        requires
            old(tape).holds(self),
            old(tape).holds(rhs),
        ensures
            binary_step(old(tape)@, final(tape)@, *self, *rhs, out),
            out.val() == val,
            slope0(final(tape)@) == w0,
            slope1(final(tape)@) == w1,
            final(tape).continues(old(tape)),
    {
        let location = tape.add_node(self.location(), rhs.location(), w0, w1);
        Var::at(val, location, tape.id())
    }
}

} // verus!
