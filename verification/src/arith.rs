//! Arithmetic on variables: between two variables, and between a variable
//! and a fixed number on either side.
//!
//! An operation on two variables is refused with [`Error::TapeMismatch`]
//! unless both handles belong to the tape it is given: handles of two tapes
//! are never combined. An operation on one variable and a number asks of
//! its caller that the handle belongs to the tape.

use crate::elementary::recip_step;
use crate::error::Error;
use crate::rules::quotient_slope;
use crate::scalar::{is_add, is_div, is_from, is_mul, is_neg, is_powi, is_recip, is_sub, Real};
use crate::step::{binary_step, right_step, slope0, slope1, unary_step};
use crate::tape::{Node, Tape};
use crate::var::Var;
use vstd::prelude::*;

verus! {

/// The step from `pre` to `post` recorded `out` as `x + y`: both slopes are
/// one and the same one.
pub open spec fn add_step<S: Real>(
    pre: Seq<Node<S>>,
    post: Seq<Node<S>>,
    x: Var<S>,
    y: Var<S>,
    out: Var<S>,
) -> bool {
    &&& binary_step(pre, post, x, y, out)
    &&& is_add(x.val(), y.val(), out.val())
    &&& is_from(1, slope0(post))
    &&& slope1(post) == slope0(post)
}

/// The step from `pre` to `post` recorded `out` as `x + c` for a fixed `c`:
/// the slope is one.
pub open spec fn add_scalar_step<S: Real>(
    pre: Seq<Node<S>>,
    post: Seq<Node<S>>,
    x: Var<S>,
    c: S,
    out: Var<S>,
) -> bool {
    &&& unary_step(pre, post, x, out)
    &&& is_add(x.val(), c, out.val())
    &&& is_from(1, slope0(post))
}

/// The step from `pre` to `post` recorded `out` as `x * y`: the slope
/// towards `x` is the value of `y`, and the slope towards `y` that of `x`.
pub open spec fn mul_step<S: Real>(
    pre: Seq<Node<S>>,
    post: Seq<Node<S>>,
    x: Var<S>,
    y: Var<S>,
    out: Var<S>,
) -> bool {
    &&& binary_step(pre, post, x, y, out)
    &&& is_mul(x.val(), y.val(), out.val())
    &&& slope0(post) == y.val()
    &&& slope1(post) == x.val()
}

/// The step from `pre` to `post` recorded `out` as `x * c` for a fixed `c`:
/// the slope is `c`.
pub open spec fn mul_scalar_step<S: Real>(
    pre: Seq<Node<S>>,
    post: Seq<Node<S>>,
    x: Var<S>,
    c: S,
    out: Var<S>,
) -> bool {
    &&& unary_step(pre, post, x, out)
    &&& is_mul(x.val(), c, out.val())
    &&& slope0(post) == c
}

/// The step from `pre` to `post` recorded `out` as `-x`, taken as `x`
/// times minus one.
pub open spec fn neg_step<S: Real>(
    pre: Seq<Node<S>>,
    post: Seq<Node<S>>,
    x: Var<S>,
    out: Var<S>,
) -> bool {
    exists|m: S| is_from(-1, m) && mul_scalar_step(pre, post, x, m, out)
}

/// The steps from `pre` to `post` recorded `out` as `x - y`, taken as `x`
/// plus the negation of `y`: first the negation, then the sum.
pub open spec fn sub_step<S: Real>(
    pre: Seq<Node<S>>,
    post: Seq<Node<S>>,
    x: Var<S>,
    y: Var<S>,
    out: Var<S>,
) -> bool {
    exists|mid: Seq<Node<S>>, negated: Var<S>|
        neg_step(pre, mid, y, negated) && add_step(mid, post, x, negated, out)
}

/// The step from `pre` to `post` recorded `out` as `x - c` for a fixed `c`,
/// taken as `x` plus the negation of `c`.
pub open spec fn sub_scalar_step<S: Real>(
    pre: Seq<Node<S>>,
    post: Seq<Node<S>>,
    x: Var<S>,
    c: S,
    out: Var<S>,
) -> bool {
    exists|m: S| is_neg(c, m) && add_scalar_step(pre, post, x, m, out)
}

/// The step from `pre` to `post` recorded `out` as `c - x` for a fixed `c`:
/// the slope is minus one.
pub open spec fn rsub_step<S: Real>(
    pre: Seq<Node<S>>,
    post: Seq<Node<S>>,
    c: S,
    x: Var<S>,
    out: Var<S>,
) -> bool {
    &&& right_step(pre, post, x, out)
    &&& is_sub(c, x.val(), out.val())
    &&& is_from(-1, slope1(post))
}

/// The steps from `pre` to `post` recorded `out` as `x / y`, taken as `x`
/// times the reciprocal of `y`: first the reciprocal, then the product.
pub open spec fn div_step<S: Real>(
    pre: Seq<Node<S>>,
    post: Seq<Node<S>>,
    x: Var<S>,
    y: Var<S>,
    out: Var<S>,
) -> bool {
    exists|mid: Seq<Node<S>>, inverse: Var<S>|
        recip_step(pre, mid, y, inverse) && mul_step(mid, post, x, inverse, out)
}

/// The step from `pre` to `post` recorded `out` as `x / c` for a fixed `c`,
/// taken as `x` times the reciprocal of `c`.
pub open spec fn div_scalar_step<S: Real>(
    pre: Seq<Node<S>>,
    post: Seq<Node<S>>,
    x: Var<S>,
    c: S,
    out: Var<S>,
) -> bool {
    exists|r: S| is_recip(c, r) && mul_scalar_step(pre, post, x, r, out)
}

/// The step from `pre` to `post` recorded `out` as `c / x` for a fixed `c`:
/// the slope is `-c / x^2`.
pub open spec fn rdiv_step<S: Real>(
    pre: Seq<Node<S>>,
    post: Seq<Node<S>>,
    c: S,
    x: Var<S>,
    out: Var<S>,
) -> bool {
    &&& right_step(pre, post, x, out)
    &&& is_div(c, x.val(), out.val())
    &&& quotient_slope(c, x.val(), slope1(post))
}

/// The steps from `pre` to `post` folded `vars` into `out` from the left:
/// the first handle as it is, then one sum for each handle after it.
pub open spec fn sum_steps<S: Real>(
    pre: Seq<Node<S>>,
    post: Seq<Node<S>>,
    vars: Seq<Var<S>>,
    out: Var<S>,
) -> bool
    decreases vars.len(),
{
    if vars.len() == 0 {
        false
    } else if vars.len() == 1 {
        post == pre && out == vars[0]
    } else {
        exists|mid: Seq<Node<S>>, acc: Var<S>|
            sum_steps(pre, mid, vars.drop_last(), acc) && #[trigger] add_step(
                mid,
                post,
                acc,
                vars.last(),
                out,
            )
    }
}

/// Every handle of `vars` belongs to `tape`.
pub open spec fn all_held<S: Real>(tape: &Tape<S>, vars: Seq<Var<S>>) -> bool {
    forall|k: int| 0 <= k < vars.len() ==> tape.holds(&#[trigger] vars[k])
}

impl<S: Real> Var<S> {
    /// `self + rhs`.
    pub fn add(self, tape: &mut Tape<S>, rhs: Var<S>) -> (r: Result<Var<S>, Error>)
        ensures
            r is Ok <==> old(tape).holds(&self) && old(tape).holds(&rhs),
            r matches Ok(out) ==> add_step(old(tape)@, final(tape)@, self, rhs, out),
            r matches Err(e) ==> e == Error::TapeMismatch && final(tape)@ == old(tape)@,
            final(tape).continues(old(tape)),
    {
        if !tape.holds(&self) || !tape.holds(&rhs) {
            proof {
                use_type_invariant(&*tape);
            }
            return Err(Error::TapeMismatch);
        }
        let val = self.val().add(rhs.val());
        let one = S::from_i32(1);
        Ok(self.record_with(tape, &rhs, val, one, one))
    }

    /// `self + rhs` for a fixed number `rhs`.
    pub fn add_scalar(self, tape: &mut Tape<S>, rhs: S) -> (out: Var<S>)
        requires
            old(tape).holds(&self),
        ensures
            add_scalar_step(old(tape)@, final(tape)@, self, rhs, out),
            final(tape).continues(old(tape)),
    {
        let val = self.val().add(rhs);
        let one = S::from_i32(1);
        self.record(tape, val, one)
    }

    /// `self * rhs`.
    pub fn mul(self, tape: &mut Tape<S>, rhs: Var<S>) -> (r: Result<Var<S>, Error>)
        ensures
            r is Ok <==> old(tape).holds(&self) && old(tape).holds(&rhs),
            r matches Ok(out) ==> mul_step(old(tape)@, final(tape)@, self, rhs, out),
            r matches Err(e) ==> e == Error::TapeMismatch && final(tape)@ == old(tape)@,
            final(tape).continues(old(tape)),
    {
        if !tape.holds(&self) || !tape.holds(&rhs) {
            proof {
                use_type_invariant(&*tape);
            }
            return Err(Error::TapeMismatch);
        }
        let val = self.val().mul(rhs.val());
        Ok(self.record_with(tape, &rhs, val, rhs.val(), self.val()))
    }

    /// `self * rhs` for a fixed number `rhs`.
    pub fn mul_scalar(self, tape: &mut Tape<S>, rhs: S) -> (out: Var<S>)
        requires
            old(tape).holds(&self),
        ensures
            mul_scalar_step(old(tape)@, final(tape)@, self, rhs, out),
            final(tape).continues(old(tape)),
    {
        let val = self.val().mul(rhs);
        self.record(tape, val, rhs)
    }

    /// `-self`, taken as `self` times minus one.
    pub fn neg(self, tape: &mut Tape<S>) -> (out: Var<S>)
        requires
            old(tape).holds(&self),
        ensures
            neg_step(old(tape)@, final(tape)@, self, out),
            final(tape).continues(old(tape)),
    {
        let m = S::from_i32(-1);
        self.mul_scalar(tape, m)
    }

    /// `self - rhs`, taken as `self` plus the negation of `rhs`. Two nodes
    /// are recorded: the negation, then the sum.
    pub fn sub(self, tape: &mut Tape<S>, rhs: Var<S>) -> (r: Result<Var<S>, Error>)
        ensures
            r is Ok <==> old(tape).holds(&self) && old(tape).holds(&rhs),
            r matches Ok(out) ==> sub_step(old(tape)@, final(tape)@, self, rhs, out),
            r matches Err(e) ==> e == Error::TapeMismatch && final(tape)@ == old(tape)@,
            final(tape).continues(old(tape)),
    {
        if !tape.holds(&self) || !tape.holds(&rhs) {
            proof {
                use_type_invariant(&*tape);
            }
            return Err(Error::TapeMismatch);
        }
        let negated = rhs.neg(tape);
        self.add(tape, negated)
    }

    /// `self - rhs` for a fixed number `rhs`, taken as `self` plus the
    /// negation of `rhs`.
    pub fn sub_scalar(self, tape: &mut Tape<S>, rhs: S) -> (out: Var<S>)
        requires
            old(tape).holds(&self),
        ensures
            sub_scalar_step(old(tape)@, final(tape)@, self, rhs, out),
            final(tape).continues(old(tape)),
    {
        let m = rhs.neg();
        let out = self.add_scalar(tape, m);
        assert(is_neg(rhs, m) && add_scalar_step(old(tape)@, tape@, self, m, out));
        out
    }

    /// `lhs - self` for a fixed number `lhs`.
    pub fn rsub_scalar(self, tape: &mut Tape<S>, lhs: S) -> (out: Var<S>)
        requires
            old(tape).holds(&self),
        ensures
            rsub_step(old(tape)@, final(tape)@, lhs, self, out),
            final(tape).continues(old(tape)),
    {
        let val = lhs.sub(self.val());
        let m = S::from_i32(-1);
        self.record_right(tape, val, m)
    }

    /// `self / rhs`, taken as `self` times the reciprocal of `rhs`. Two
    /// nodes are recorded: the reciprocal, then the product.
    pub fn div(self, tape: &mut Tape<S>, rhs: Var<S>) -> (r: Result<Var<S>, Error>)
        ensures
            r is Ok <==> old(tape).holds(&self) && old(tape).holds(&rhs),
            r matches Ok(out) ==> div_step(old(tape)@, final(tape)@, self, rhs, out),
            r matches Err(e) ==> e == Error::TapeMismatch && final(tape)@ == old(tape)@,
            final(tape).continues(old(tape)),
    {
        if !tape.holds(&self) || !tape.holds(&rhs) {
            proof {
                use_type_invariant(&*tape);
            }
            return Err(Error::TapeMismatch);
        }
        let inverse = rhs.recip(tape);
        self.mul(tape, inverse)
    }

    /// `self / rhs` for a fixed number `rhs`, taken as `self` times the
    /// reciprocal of `rhs`.
    pub fn div_scalar(self, tape: &mut Tape<S>, rhs: S) -> (out: Var<S>)
        requires
            old(tape).holds(&self),
        ensures
            div_scalar_step(old(tape)@, final(tape)@, self, rhs, out),
            final(tape).continues(old(tape)),
    {
        let r = rhs.recip();
        let out = self.mul_scalar(tape, r);
        assert(is_recip(rhs, r) && mul_scalar_step(old(tape)@, tape@, self, r, out));
        out
    }

    /// `lhs / self` for a fixed number `lhs`.
    pub fn rdiv_scalar(self, tape: &mut Tape<S>, lhs: S) -> (out: Var<S>)
        requires
            old(tape).holds(&self),
        ensures
            rdiv_step(old(tape)@, final(tape)@, lhs, self, out),
            final(tape).continues(old(tape)),
    {
        let x = self.val();
        let val = lhs.div(x);
        let m = lhs.neg();
        let p = x.powi(2);
        let w = m.div(p);
        assert(is_neg(lhs, m) && is_powi(x, 2, p) && is_div(m, p, w));
        self.record_right(tape, val, w)
    }

    /// `*self = *self + rhs`. When the sum is refused, `self` stays as it was.
    pub fn add_assign(&mut self, tape: &mut Tape<S>, rhs: Var<S>) -> (r: Result<(), Error>)
        ensures
            r is Ok <==> old(tape).holds(old(self)) && old(tape).holds(&rhs),
            r is Ok ==> add_step(old(tape)@, final(tape)@, *old(self), rhs, *final(self)),
            r matches Err(e) ==> e == Error::TapeMismatch && final(tape)@ == old(tape)@,
            r is Err ==> *final(self) == *old(self),
            final(tape).continues(old(tape)),
    {
        match (*self).add(tape, rhs) {
            Ok(out) => {
                *self = out;
                Ok(())
            },
            Err(e) => Err(e),
        }
    }

    /// `*self = *self + rhs` for a fixed number `rhs`.
    pub fn add_assign_scalar(&mut self, tape: &mut Tape<S>, rhs: S)
        requires
            old(tape).holds(old(self)),
        ensures
            add_scalar_step(old(tape)@, final(tape)@, *old(self), rhs, *final(self)),
            final(tape).continues(old(tape)),
    {
        *self = (*self).add_scalar(tape, rhs);
    }

    /// `*self = *self - rhs`. When the difference is refused, `self` stays as
    /// it was.
    pub fn sub_assign(&mut self, tape: &mut Tape<S>, rhs: Var<S>) -> (r: Result<(), Error>)
        ensures
            r is Ok <==> old(tape).holds(old(self)) && old(tape).holds(&rhs),
            r is Ok ==> sub_step(old(tape)@, final(tape)@, *old(self), rhs, *final(self)),
            r matches Err(e) ==> e == Error::TapeMismatch && final(tape)@ == old(tape)@,
            r is Err ==> *final(self) == *old(self),
            final(tape).continues(old(tape)),
    {
        match (*self).sub(tape, rhs) {
            Ok(out) => {
                *self = out;
                Ok(())
            },
            Err(e) => Err(e),
        }
    }

    /// `*self = *self - rhs` for a fixed number `rhs`.
    pub fn sub_assign_scalar(&mut self, tape: &mut Tape<S>, rhs: S)
        requires
            old(tape).holds(old(self)),
        ensures
            sub_scalar_step(old(tape)@, final(tape)@, *old(self), rhs, *final(self)),
            final(tape).continues(old(tape)),
    {
        *self = (*self).sub_scalar(tape, rhs);
    }

    /// `*self = *self * rhs`. When the product is refused, `self` stays as it
    /// was.
    pub fn mul_assign(&mut self, tape: &mut Tape<S>, rhs: Var<S>) -> (r: Result<(), Error>)
        ensures
            r is Ok <==> old(tape).holds(old(self)) && old(tape).holds(&rhs),
            r is Ok ==> mul_step(old(tape)@, final(tape)@, *old(self), rhs, *final(self)),
            r matches Err(e) ==> e == Error::TapeMismatch && final(tape)@ == old(tape)@,
            r is Err ==> *final(self) == *old(self),
            final(tape).continues(old(tape)),
    {
        match (*self).mul(tape, rhs) {
            Ok(out) => {
                *self = out;
                Ok(())
            },
            Err(e) => Err(e),
        }
    }

    /// `*self = *self * rhs` for a fixed number `rhs`.
    pub fn mul_assign_scalar(&mut self, tape: &mut Tape<S>, rhs: S)
        requires
            old(tape).holds(old(self)),
        ensures
            mul_scalar_step(old(tape)@, final(tape)@, *old(self), rhs, *final(self)),
            final(tape).continues(old(tape)),
    {
        *self = (*self).mul_scalar(tape, rhs);
    }

    /// `*self = *self / rhs`. When the quotient is refused, `self` stays as
    /// it was.
    pub fn div_assign(&mut self, tape: &mut Tape<S>, rhs: Var<S>) -> (r: Result<(), Error>)
        ensures
            r is Ok <==> old(tape).holds(old(self)) && old(tape).holds(&rhs),
            r is Ok ==> div_step(old(tape)@, final(tape)@, *old(self), rhs, *final(self)),
            r matches Err(e) ==> e == Error::TapeMismatch && final(tape)@ == old(tape)@,
            r is Err ==> *final(self) == *old(self),
            final(tape).continues(old(tape)),
    {
        match (*self).div(tape, rhs) {
            Ok(out) => {
                *self = out;
                Ok(())
            },
            Err(e) => Err(e),
        }
    }

    /// `*self = *self / rhs` for a fixed number `rhs`.
    pub fn div_assign_scalar(&mut self, tape: &mut Tape<S>, rhs: S)
        requires
            old(tape).holds(old(self)),
        ensures
            div_scalar_step(old(tape)@, final(tape)@, *old(self), rhs, *final(self)),
            final(tape).continues(old(tape)),
    {
        *self = (*self).div_scalar(tape, rhs);
    }

    /// The sum of `vars`, folded from the left with `add`. One handle is
    /// returned as it is; `n` handles record `n - 1` sums. A sum over no
    /// handles is refused with `Error::EmptySum`, and a sum over two or more
    /// with `Error::TapeMismatch` when a handle does not belong to the tape.
    pub fn sum(tape: &mut Tape<S>, vars: &[Var<S>]) -> (r: Result<Var<S>, Error>)
        ensures
            r is Ok <==> vars@.len() == 1 || (vars@.len() > 1 && all_held(old(tape), vars@)),
            r matches Ok(out) ==> sum_steps(old(tape)@, final(tape)@, vars@, out),
            r is Ok ==> final(tape)@.len() == old(tape)@.len() + vars@.len() - 1,
            r is Err ==> final(tape)@ == old(tape)@,
            r matches Err(e) ==> (e == Error::EmptySum <==> vars@.len() == 0),
            r matches Err(e) ==> (e == Error::TapeMismatch <==> vars@.len() != 0),
            final(tape).continues(old(tape)),
    {
        proof {
            use_type_invariant(&*tape);
        }
        let n = vars.len();
        if n == 0 {
            return Err(Error::EmptySum);
        }
        if n == 1 {
            return Ok(vars[0]);
        }
        let mut k: usize = 0;
        while k < n
            invariant
                k <= n,
                1 < n == vars@.len(),
                tape@ == old(tape)@,
                tape.continues(old(tape)),
                forall|j: int| 0 <= j < k ==> old(tape).holds(&#[trigger] vars@[j]),
            decreases n - k,
        {
            if !tape.holds(&vars[k]) {
                assert(!old(tape).holds(&vars@[k as int]));
                return Err(Error::TapeMismatch);
            }
            k += 1;
        }
        let mut acc = vars[0];
        let mut k: usize = 1;
        while k < n
            invariant
                1 <= k <= n,
                n == vars@.len(),
                tape@.len() == old(tape)@.len() + k - 1,
                all_held(old(tape), vars@),
                tape.holds(&acc),
                sum_steps(old(tape)@, tape@, vars@.take(k as int), acc),
                tape.continues(old(tape)),
            decreases n - k,
        {
            let ghost mid = tape@;
            let ghost before = acc;
            assert(old(tape).holds(&vars@[k as int]));
            let r = acc.add(tape, vars[k]);
            let next = r.unwrap();
            proof {
                let taken = vars@.take(k + 1);
                assert(taken.drop_last() =~= vars@.take(k as int));
                assert(sum_steps(old(tape)@, mid, taken.drop_last(), before) && add_step(
                    mid,
                    tape@,
                    before,
                    taken.last(),
                    next,
                ));
            }
            acc = next;
            k += 1;
        }
        assert(vars@.take(n as int) =~= vars@);
        Ok(acc)
    }
}

} // verus!
