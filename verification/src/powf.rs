//! Powers with a real exponent: a variable raised to a variable, a variable
//! raised to a fixed number, and a fixed number raised to a variable.

use crate::error::Error;
use crate::rules::{is_third, pow_base_slope, pow_exponent_slope, pow_slope};
use crate::scalar::{is_div, is_from, is_mul, is_pow, is_ln, is_sub, Real};
use crate::step::{binary_step, right_step, slope0, slope1, unary_step};
use crate::tape::{Node, Tape};
use crate::var::Var;
use vstd::prelude::*;

verus! {

/// The step from `pre` to `post` recorded `out` as `x^y`: the slope towards
/// `x` is `y * x^(y - 1)`, and the slope towards `y` is `x^y * ln x`.
pub open spec fn powf_step<S: Real>(
    pre: Seq<Node<S>>,
    post: Seq<Node<S>>,
    x: Var<S>,
    y: Var<S>,
    out: Var<S>,
) -> bool {
    &&& binary_step(pre, post, x, y, out)
    &&& is_pow(x.val(), y.val(), out.val())
    &&& pow_slope(x.val(), y.val(), slope0(post))
    &&& pow_exponent_slope(x.val(), y.val(), slope1(post))
}

/// The step from `pre` to `post` recorded `out` as `x^c` for a fixed `c`:
/// the slope is `c * x^(c - 1)`.
pub open spec fn powf_scalar_step<S: Real>(
    pre: Seq<Node<S>>,
    post: Seq<Node<S>>,
    x: Var<S>,
    c: S,
    out: Var<S>,
) -> bool {
    &&& unary_step(pre, post, x, out)
    &&& is_pow(x.val(), c, out.val())
    &&& pow_slope(x.val(), c, slope0(post))
}

/// The step from `pre` to `post` recorded `out` as `c^x` for a fixed `c`:
/// the slope is `x * c^(x - 1)`.
pub open spec fn rpowf_step<S: Real>(
    pre: Seq<Node<S>>,
    post: Seq<Node<S>>,
    c: S,
    x: Var<S>,
    out: Var<S>,
) -> bool {
    &&& right_step(pre, post, x, out)
    &&& is_pow(c, x.val(), out.val())
    &&& pow_base_slope(c, x.val(), slope1(post))
}

/// Trait for calculating expressions and tracking gradients for float power
/// operations.
pub trait Powf<Rhs = Self> {
    type Output;

    /// The numbers on the tape that the power is recorded on.
    type Scalar: Real;

    /// What a caller owes before the power may be taken on the tape `pre`.
    spec fn powf_requires(self, pre: &Tape<Self::Scalar>, other: Rhs) -> bool;

    /// Whether taking the power turned the tape `pre` into `post` and
    /// returned `out`.
    spec fn powf_ensures(
        self,
        pre: &Tape<Self::Scalar>,
        other: Rhs,
        post: &Tape<Self::Scalar>,
        out: Self::Output,
    ) -> bool;

    /// Calculate `powf` for self, where `other` is the power to raise `self`
    /// to.
    fn powf(self, tape: &mut Tape<Self::Scalar>, other: Rhs) -> (out: Self::Output)
        requires
            self.powf_requires(old(tape), other),
        ensures
            self.powf_ensures(old(tape), other, final(tape), out),
            final(tape).continues(old(tape)),
    ;
}

/// A variable raised to a variable. Refused with `Error::TapeMismatch` when
/// either handle does not belong to the tape.
impl<S: Real> Powf<Var<S>> for Var<S> {
    type Output = Result<Var<S>, Error>;

    type Scalar = S;

    open spec fn powf_requires(self, pre: &Tape<S>, other: Var<S>) -> bool {
        true
    }

    open spec fn powf_ensures(
        self,
        pre: &Tape<S>,
        other: Var<S>,
        post: &Tape<S>,
        out: Result<Var<S>, Error>,
    ) -> bool {
        &&& out is Ok <==> pre.holds(&self) && pre.holds(&other)
        &&& out matches Ok(v) ==> powf_step(pre@, post@, self, other, v)
        &&& out matches Err(e) ==> e == Error::TapeMismatch && post@ == pre@
    }

    fn powf(self, tape: &mut Tape<S>, other: Var<S>) -> (out: Result<Var<S>, Error>) {
        if !tape.holds(&self) || !tape.holds(&other) {
            proof {
                use_type_invariant(&*tape);
            }
            return Err(Error::TapeMismatch);
        }
        let x = self.val();
        let y = other.val();
        let val = x.pow(y);
        let one = S::from_i32(1);
        let d = y.sub(one);
        let p = x.pow(d);
        let w0 = y.mul(p);
        let q = x.pow(y);
        let l = x.ln();
        let w1 = q.mul(l);
        assert(is_from(1, one) && is_sub(y, one, d) && is_pow(x, d, p) && is_mul(y, p, w0));
        assert(is_pow(x, y, q) && is_ln(x, l) && is_mul(q, l, w1));
        Ok(self.record_with(tape, &other, val, w0, w1))
    }
}

/// A variable raised to a fixed number.
impl<S: Real> Powf<S> for Var<S> {
    type Output = Var<S>;

    type Scalar = S;

    open spec fn powf_requires(self, pre: &Tape<S>, other: S) -> bool {
        pre.holds(&self)
    }

    open spec fn powf_ensures(
        self,
        pre: &Tape<S>,
        other: S,
        post: &Tape<S>,
        out: Var<S>,
    ) -> bool {
        powf_scalar_step(pre@, post@, self, other, out)
    }

    fn powf(self, tape: &mut Tape<S>, other: S) -> (out: Var<S>) {
        let x = self.val();
        let val = x.pow(other);
        let one = S::from_i32(1);
        let d = other.sub(one);
        let p = x.pow(d);
        let w = other.mul(p);
        assert(is_from(1, one) && is_sub(other, one, d) && is_pow(x, d, p) && is_mul(other, p, w));
        self.record(tape, val, w)
    }
}

/// A fixed number raised to a variable.
impl<S: Real> Powf<Var<S>> for S {
    type Output = Var<S>;

    type Scalar = S;

    open spec fn powf_requires(self, pre: &Tape<S>, other: Var<S>) -> bool {
        pre.holds(&other)
    }

    open spec fn powf_ensures(
        self,
        pre: &Tape<S>,
        other: Var<S>,
        post: &Tape<S>,
        out: Var<S>,
    ) -> bool {
        rpowf_step(pre@, post@, self, other, out)
    }

    fn powf(self, tape: &mut Tape<S>, other: Var<S>) -> (out: Var<S>) {
        let x = other.val();
        let val = self.pow(x);
        let one = S::from_i32(1);
        let d = x.sub(one);
        let p = self.pow(d);
        let w = x.mul(p);
        assert(is_from(1, one) && is_sub(x, one, d) && is_pow(self, d, p) && is_mul(x, p, w));
        other.record_right(tape, val, w)
    }
}

impl<S: Real> Var<S> {
    /// The cube root, taken as the power with exponent `1 / 3`.
    pub fn cbrt(&self, tape: &mut Tape<S>) -> (out: Var<S>)
        requires
            old(tape).holds(self),
        ensures
            exists|e: S| is_third(e) && powf_scalar_step(old(tape)@, final(tape)@, *self, e, out),
            final(tape).continues(old(tape)),
    {
        let one = S::from_i32(1);
        let three = S::from_i32(3);
        let e = one.div(three);
        let out = (*self).powf(tape, e);
        assert(is_third(e)) by {
            assert(is_from(1, one) && is_from(3, three) && is_div(one, three, e));
        }
        out
    }
}

} // verus!
