//! Reading gradients out of the result of a backward pass.

use crate::var::Var;
use vstd::prelude::*;

verus! {

/// Every handle of `vars` names a position of a vector of `n` adjoints.
pub open spec fn all_within<S: Copy>(n: nat, vars: Seq<Var<S>>) -> bool {
    forall|k: int| 0 <= k < vars.len() ==> (#[trigger] vars[k]).location() < n
}

/// `out` holds, for each handle of `vars` in order, the adjoint at the
/// handle's position.
pub open spec fn picked<A, S: Copy>(adjoints: Seq<A>, vars: Seq<Var<S>>, out: Seq<A>) -> bool {
    &&& out.len() == vars.len()
    &&& forall|k: int|
        0 <= k < vars.len() ==> #[trigger] out[k] == adjoints[vars[k].location() as int]
}

/// Calculate gradients with respect to particular variables.
///
/// `self` is the result of a backward pass. The query `v` is a handle or an
/// ordered collection of handles, and the answer has the same shape and
/// order. This is a lookup: nothing is computed, and the adjoints may be of
/// any type that can be copied.
pub trait Gradient<T, R> {
    /// Whether every position that `v` asks for has an adjoint in `self`.
    spec fn covers(&self, v: T) -> bool;

    /// Whether `r` is the adjoint, or the adjoints in order, at the
    /// positions that `v` names.
    spec fn answers(&self, v: T, r: R) -> bool;

    /// Calculate the gradient with respect to variable(s) `v`.
    fn wrt(&self, v: T) -> (r: R)
        requires
            self.covers(v),
        ensures
            self.answers(v, r),
    ;
}

/// The adjoints at the positions of `vars`, in order.
fn pick<A: Copy, S: Copy>(adjoints: &Vec<A>, vars: &[Var<S>]) -> (out: Vec<A>)
    requires
        all_within(adjoints@.len(), vars@),
    ensures
        picked(adjoints@, vars@, out@),
{
    let mut jac: Vec<A> = Vec::new();
    let mut k: usize = 0;
    while k < vars.len()
        invariant
            k <= vars@.len(),
            all_within(adjoints@.len(), vars@),
            picked(adjoints@, vars@.take(k as int), jac@),
        decreases vars@.len() - k,
    {
        let at = vars[k].location();
        jac.push(adjoints[at]);
        k += 1;
    }
    jac
}

/// Calculate the gradient with respect to variable `v`.
impl<'a, A: Copy, S: Copy> Gradient<&'a Var<S>, A> for Vec<A> {
    open spec fn covers(&self, v: &'a Var<S>) -> bool {
        v.location() < self@.len()
    }

    open spec fn answers(&self, v: &'a Var<S>, r: A) -> bool {
        r == self@[v.location() as int]
    }

    fn wrt(&self, v: &'a Var<S>) -> (r: A) {
        self[v.location()]
    }
}

/// Calculate the gradient with respect to all variables in `v`. Returns a
/// vector of the gradients with respect to the variables of `v`, in the
/// same order.
impl<'a, A: Copy, S: Copy> Gradient<&'a Vec<Var<S>>, Vec<A>> for Vec<A> {
    open spec fn covers(&self, v: &'a Vec<Var<S>>) -> bool {
        all_within(self@.len(), v@)
    }

    open spec fn answers(&self, v: &'a Vec<Var<S>>, r: Vec<A>) -> bool {
        picked(self@, v@, r@)
    }

    fn wrt(&self, v: &'a Vec<Var<S>>) -> (r: Vec<A>) {
        pick(self, v.as_slice())
    }
}

/// Calculate the gradient with respect to all variables in `v`. Returns a
/// vector of the gradients with respect to the variables of `v`, in the
/// same order.
impl<'a, A: Copy, S: Copy> Gradient<&'a [Var<S>], Vec<A>> for Vec<A> {
    open spec fn covers(&self, v: &'a [Var<S>]) -> bool {
        all_within(self@.len(), v@)
    }

    open spec fn answers(&self, v: &'a [Var<S>], r: Vec<A>) -> bool {
        picked(self@, v@, r@)
    }

    fn wrt(&self, v: &'a [Var<S>]) -> (r: Vec<A>) {
        pick(self, v)
    }
}

/// Calculate the gradient with respect to all variables in `v`. Returns a
/// vector of the gradients with respect to the variables of `v`, in the
/// same order.
impl<A: Copy, S: Copy, const N: usize> Gradient<[Var<S>; N], Vec<A>> for Vec<A> {
    open spec fn covers(&self, v: [Var<S>; N]) -> bool {
        all_within(self@.len(), v@)
    }

    open spec fn answers(&self, v: [Var<S>; N], r: Vec<A>) -> bool {
        picked(self@, v@, r@)
    }

    fn wrt(&self, v: [Var<S>; N]) -> (r: Vec<A>) {
        pick(self, v.as_slice())
    }
}

/// Calculate the gradient with respect to all variables in `v`. Returns a
/// vector of the gradients with respect to the variables of `v`, in the
/// same order.
impl<'a, A: Copy, S: Copy, const N: usize> Gradient<&'a [Var<S>; N], Vec<A>> for Vec<A> {
    open spec fn covers(&self, v: &'a [Var<S>; N]) -> bool {
        all_within(self@.len(), v@)
    }

    open spec fn answers(&self, v: &'a [Var<S>; N], r: Vec<A>) -> bool {
        picked(self@, v@, r@)
    }

    fn wrt(&self, v: &'a [Var<S>; N]) -> (r: Vec<A>) {
        pick(self, v.as_slice())
    }
}

} // verus!
