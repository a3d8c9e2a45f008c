//! The elementary functions of one variable.
//!
//! Each function computes its value from the operand's value and records one
//! node whose first weight is the function's derivative at that value.

use crate::rules::{
    abs_slope, acos_slope, acosh_slope, asin_slope, asinh_slope, atan_slope, atanh_slope,
    cos_slope, cosh_slope, exp2_slope, exp_slope, ln_1p_slope, ln_slope, log_slope, powi_slope,
    recip_slope, sin_slope, sinh_slope, sqrt_slope, tan_slope, tanh_slope,
};
use crate::scalar::{
    is_abs, is_acos, is_acosh, is_add, is_asin, is_asinh, is_atan, is_atanh, is_cos, is_cosh,
    is_div, is_equals, is_exp, is_exp2, is_from, is_ln, is_ln_1p, is_log, is_mul, is_nan, is_neg,
    is_powi, is_recip, is_sin, is_sinh, is_sqrt, is_sub, is_tan, is_tanh, Real,
};
use crate::step::{slope0, unary_step};
use crate::tape::{Node, Tape};
use crate::var::Var;
use vstd::prelude::*;

verus! {

/// The step from `pre` to `post` recorded `out` as the logarithm of `x` with
/// respect to `base`.
pub open spec fn log_step<S: Real>(
    pre: Seq<Node<S>>,
    post: Seq<Node<S>>,
    x: Var<S>,
    base: S,
    out: Var<S>,
) -> bool {
    &&& unary_step(pre, post, x, out)
    &&& is_log(x.val(), base, out.val())
    &&& log_slope(x.val(), base, slope0(post))
}

/// The step from `pre` to `post` recorded `out` as the reciprocal of `x`.
pub open spec fn recip_step<S: Real>(
    pre: Seq<Node<S>>,
    post: Seq<Node<S>>,
    x: Var<S>,
    out: Var<S>,
) -> bool {
    &&& unary_step(pre, post, x, out)
    &&& is_recip(x.val(), out.val())
    &&& recip_slope(x.val(), slope0(post))
}

impl<S: Real> Var<S> {
    /// The reciprocal `1 / x`, with slope `-1 / x^2`.
    pub fn recip(&self, tape: &mut Tape<S>) -> (out: Var<S>)
        requires
            old(tape).holds(self),
        ensures
            recip_step(old(tape)@, final(tape)@, *self, out),
            final(tape).continues(old(tape)),
    {
        let x = self.val();
        let val = x.recip();
        let m = S::from_i32(-1);
        let p = x.powi(2);
        let w = m.div(p);
        assert(is_from(-1, m) && is_powi(x, 2, p) && is_div(m, p, w));
        self.record(tape, val, w)
    }

    /// The sine, with slope `cos x`.
    pub fn sin(&self, tape: &mut Tape<S>) -> (out: Var<S>)
        requires
            old(tape).holds(self),
        ensures
            unary_step(old(tape)@, final(tape)@, *self, out),
            is_sin(self.val(), out.val()),
            sin_slope(self.val(), slope0(final(tape)@)),
            final(tape).continues(old(tape)),
    {
        let x = self.val();
        let val = x.sin();
        let w = x.cos();
        self.record(tape, val, w)
    }

    /// The cosine, with slope `-sin x`.
    pub fn cos(&self, tape: &mut Tape<S>) -> (out: Var<S>)
        requires
            old(tape).holds(self),
        ensures
            unary_step(old(tape)@, final(tape)@, *self, out),
            is_cos(self.val(), out.val()),
            cos_slope(self.val(), slope0(final(tape)@)),
            final(tape).continues(old(tape)),
    {
        let x = self.val();
        let val = x.cos();
        let s = x.sin();
        let w = s.neg();
        assert(is_sin(x, s) && is_neg(s, w));
        self.record(tape, val, w)
    }

    /// The tangent, with slope `1 / cos^2 x`.
    pub fn tan(&self, tape: &mut Tape<S>) -> (out: Var<S>)
        requires
            old(tape).holds(self),
        ensures
            unary_step(old(tape)@, final(tape)@, *self, out),
            is_tan(self.val(), out.val()),
            tan_slope(self.val(), slope0(final(tape)@)),
            final(tape).continues(old(tape)),
    {
        let x = self.val();
        let val = x.tan();
        let one = S::from_i32(1);
        let c = x.cos();
        let p = c.powi(2);
        let w = one.div(p);
        assert(is_from(1, one) && is_cos(x, c) && is_powi(c, 2, p) && is_div(one, p, w));
        self.record(tape, val, w)
    }

    /// The natural logarithm, with slope `1 / x`.
    pub fn ln(&self, tape: &mut Tape<S>) -> (out: Var<S>)
        requires
            old(tape).holds(self),
        ensures
            unary_step(old(tape)@, final(tape)@, *self, out),
            is_ln(self.val(), out.val()),
            ln_slope(self.val(), slope0(final(tape)@)),
            final(tape).continues(old(tape)),
    {
        let x = self.val();
        let val = x.ln();
        let one = S::from_i32(1);
        let w = one.div(x);
        assert(is_from(1, one) && is_div(one, x, w));
        self.record(tape, val, w)
    }

    /// The logarithm with respect to `base`, with slope `1 / (x * ln base)`.
    pub fn log(&self, tape: &mut Tape<S>, base: S) -> (out: Var<S>)
        requires
            old(tape).holds(self),
        ensures
            log_step(old(tape)@, final(tape)@, *self, base, out),
            final(tape).continues(old(tape)),
    {
        let x = self.val();
        let val = x.log(base);
        let one = S::from_i32(1);
        let l = base.ln();
        let m = x.mul(l);
        let w = one.div(m);
        assert(is_from(1, one) && is_ln(base, l) && is_mul(x, l, m) && is_div(one, m, w));
        self.record(tape, val, w)
    }

    /// The logarithm with respect to base 10.
    pub fn log10(&self, tape: &mut Tape<S>) -> (out: Var<S>)
        requires
            old(tape).holds(self),
        ensures
            exists|base: S|
                is_from(10, base) && log_step(old(tape)@, final(tape)@, *self, base, out),
            final(tape).continues(old(tape)),
    {
        let base = S::from_i32(10);
        let out = self.log(tape, base);
        assert(is_from(10, base) && log_step(old(tape)@, tape@, *self, base, out));
        out
    }

    /// The logarithm with respect to base 2.
    pub fn log2(&self, tape: &mut Tape<S>) -> (out: Var<S>)
        requires
            old(tape).holds(self),
        ensures
            exists|base: S|
                is_from(2, base) && log_step(old(tape)@, final(tape)@, *self, base, out),
            final(tape).continues(old(tape)),
    {
        let base = S::from_i32(2);
        let out = self.log(tape, base);
        assert(is_from(2, base) && log_step(old(tape)@, tape@, *self, base, out));
        out
    }

    /// `ln(1 + x)`, with slope `1 / (1 + x)`.
    pub fn ln_1p(&self, tape: &mut Tape<S>) -> (out: Var<S>)
        requires
            old(tape).holds(self),
        ensures
            unary_step(old(tape)@, final(tape)@, *self, out),
            is_ln_1p(self.val(), out.val()),
            ln_1p_slope(self.val(), slope0(final(tape)@)),
            final(tape).continues(old(tape)),
    {
        let x = self.val();
        let val = x.ln_1p();
        let one = S::from_i32(1);
        let s = one.add(x);
        let w = one.div(s);
        assert(is_from(1, one) && is_add(one, x, s) && is_div(one, s, w));
        self.record(tape, val, w)
    }

    /// The inverse sine, with slope `1 / sqrt(1 - x^2)`.
    pub fn asin(&self, tape: &mut Tape<S>) -> (out: Var<S>)
        requires
            old(tape).holds(self),
        ensures
            unary_step(old(tape)@, final(tape)@, *self, out),
            is_asin(self.val(), out.val()),
            asin_slope(self.val(), slope0(final(tape)@)),
            final(tape).continues(old(tape)),
    {
        let x = self.val();
        let val = x.asin();
        let one = S::from_i32(1);
        let p = x.powi(2);
        let d = one.sub(p);
        let r = d.sqrt();
        let w = one.div(r);
        assert(is_from(1, one) && is_powi(x, 2, p) && is_sub(one, p, d) && is_sqrt(d, r) && is_div(
            one,
            r,
            w,
        ));
        self.record(tape, val, w)
    }

    /// The inverse cosine, with slope `-1 / sqrt(1 - x^2)`.
    pub fn acos(&self, tape: &mut Tape<S>) -> (out: Var<S>)
        requires
            old(tape).holds(self),
        ensures
            unary_step(old(tape)@, final(tape)@, *self, out),
            is_acos(self.val(), out.val()),
            acos_slope(self.val(), slope0(final(tape)@)),
            final(tape).continues(old(tape)),
    {
        let x = self.val();
        let val = x.acos();
        let m = S::from_i32(-1);
        let one = S::from_i32(1);
        let p = x.powi(2);
        let d = one.sub(p);
        let r = d.sqrt();
        let w = m.div(r);
        assert(is_from(-1, m) && is_from(1, one) && is_powi(x, 2, p) && is_sub(one, p, d)
            && is_sqrt(d, r) && is_div(m, r, w));
        self.record(tape, val, w)
    }

    /// The inverse tangent, with slope `1 / (1 + x^2)`.
    pub fn atan(&self, tape: &mut Tape<S>) -> (out: Var<S>)
        requires
            old(tape).holds(self),
        ensures
            unary_step(old(tape)@, final(tape)@, *self, out),
            is_atan(self.val(), out.val()),
            atan_slope(self.val(), slope0(final(tape)@)),
            final(tape).continues(old(tape)),
    {
        let x = self.val();
        let val = x.atan();
        let one = S::from_i32(1);
        let p = x.powi(2);
        let s = one.add(p);
        let w = one.div(s);
        assert(is_from(1, one) && is_powi(x, 2, p) && is_add(one, p, s) && is_div(one, s, w));
        self.record(tape, val, w)
    }

    /// The hyperbolic sine, with slope `cosh x`.
    pub fn sinh(&self, tape: &mut Tape<S>) -> (out: Var<S>)
        requires
            old(tape).holds(self),
        ensures
            unary_step(old(tape)@, final(tape)@, *self, out),
            is_sinh(self.val(), out.val()),
            sinh_slope(self.val(), slope0(final(tape)@)),
            final(tape).continues(old(tape)),
    {
        let x = self.val();
        let val = x.sinh();
        let w = x.cosh();
        self.record(tape, val, w)
    }

    /// The hyperbolic cosine, with slope `sinh x`.
    pub fn cosh(&self, tape: &mut Tape<S>) -> (out: Var<S>)
        requires
            old(tape).holds(self),
        ensures
            unary_step(old(tape)@, final(tape)@, *self, out),
            is_cosh(self.val(), out.val()),
            cosh_slope(self.val(), slope0(final(tape)@)),
            final(tape).continues(old(tape)),
    {
        let x = self.val();
        let val = x.cosh();
        let w = x.sinh();
        self.record(tape, val, w)
    }

    /// The hyperbolic tangent, with slope `1 / cosh^2 x`.
    pub fn tanh(&self, tape: &mut Tape<S>) -> (out: Var<S>)
        requires
            old(tape).holds(self),
        ensures
            unary_step(old(tape)@, final(tape)@, *self, out),
            is_tanh(self.val(), out.val()),
            tanh_slope(self.val(), slope0(final(tape)@)),
            final(tape).continues(old(tape)),
    {
        let x = self.val();
        let val = x.tanh();
        let one = S::from_i32(1);
        let c = x.cosh();
        let p = c.powi(2);
        let w = one.div(p);
        assert(is_from(1, one) && is_cosh(x, c) && is_powi(c, 2, p) && is_div(one, p, w));
        self.record(tape, val, w)
    }

    /// The inverse hyperbolic sine, with slope `1 / sqrt(1 + x^2)`.
    pub fn asinh(&self, tape: &mut Tape<S>) -> (out: Var<S>)
        requires
            old(tape).holds(self),
        ensures
            unary_step(old(tape)@, final(tape)@, *self, out),
            is_asinh(self.val(), out.val()),
            asinh_slope(self.val(), slope0(final(tape)@)),
            final(tape).continues(old(tape)),
    {
        let x = self.val();
        let val = x.asinh();
        let one = S::from_i32(1);
        let p = x.powi(2);
        let s = one.add(p);
        let r = s.sqrt();
        let w = one.div(r);
        assert(is_from(1, one) && is_powi(x, 2, p) && is_add(one, p, s) && is_sqrt(s, r) && is_div(
            one,
            r,
            w,
        ));
        self.record(tape, val, w)
    }

    /// The inverse hyperbolic cosine, with slope `1 / sqrt(x^2 - 1)`.
    pub fn acosh(&self, tape: &mut Tape<S>) -> (out: Var<S>)
        requires
            old(tape).holds(self),
        ensures
            unary_step(old(tape)@, final(tape)@, *self, out),
            is_acosh(self.val(), out.val()),
            acosh_slope(self.val(), slope0(final(tape)@)),
            final(tape).continues(old(tape)),
    {
        let x = self.val();
        let val = x.acosh();
        let one = S::from_i32(1);
        let p = x.powi(2);
        let d = p.sub(one);
        let r = d.sqrt();
        let w = one.div(r);
        assert(is_from(1, one) && is_powi(x, 2, p) && is_sub(p, one, d) && is_sqrt(d, r) && is_div(
            one,
            r,
            w,
        ));
        self.record(tape, val, w)
    }

    /// The inverse hyperbolic tangent, with slope `1 / (1 - x^2)`.
    pub fn atanh(&self, tape: &mut Tape<S>) -> (out: Var<S>)
        requires
            old(tape).holds(self),
        ensures
            unary_step(old(tape)@, final(tape)@, *self, out),
            is_atanh(self.val(), out.val()),
            atanh_slope(self.val(), slope0(final(tape)@)),
            final(tape).continues(old(tape)),
    {
        let x = self.val();
        let val = x.atanh();
        let one = S::from_i32(1);
        let p = x.powi(2);
        let d = one.sub(p);
        let w = one.div(d);
        assert(is_from(1, one) && is_powi(x, 2, p) && is_sub(one, p, d) && is_div(one, d, w));
        self.record(tape, val, w)
    }

    /// The exponential `e^x`, with slope `e^x`.
    pub fn exp(&self, tape: &mut Tape<S>) -> (out: Var<S>)
        requires
            old(tape).holds(self),
        ensures
            unary_step(old(tape)@, final(tape)@, *self, out),
            is_exp(self.val(), out.val()),
            exp_slope(self.val(), slope0(final(tape)@)),
            final(tape).continues(old(tape)),
    {
        let x = self.val();
        let val = x.exp();
        let w = x.exp();
        self.record(tape, val, w)
    }

    /// The power `2^x`, with slope `2^x * ln 2`.
    pub fn exp2(self, tape: &mut Tape<S>) -> (out: Var<S>)
        requires
            old(tape).holds(&self),
        ensures
            unary_step(old(tape)@, final(tape)@, self, out),
            is_exp2(self.val(), out.val()),
            exp2_slope(self.val(), slope0(final(tape)@)),
            final(tape).continues(old(tape)),
    {
        let x = self.val();
        let val = x.exp2();
        let e = x.exp2();
        let two = S::from_i32(2);
        let l = two.ln();
        let w = e.mul(l);
        assert(is_exp2(x, e) && is_from(2, two) && is_ln(two, l) && is_mul(e, l, w));
        self.record(tape, val, w)
    }

    /// The square root, with slope `1 / (2 * sqrt x)`.
    pub fn sqrt(&self, tape: &mut Tape<S>) -> (out: Var<S>)
        requires
            old(tape).holds(self),
        ensures
            unary_step(old(tape)@, final(tape)@, *self, out),
            is_sqrt(self.val(), out.val()),
            sqrt_slope(self.val(), slope0(final(tape)@)),
            final(tape).continues(old(tape)),
    {
        let x = self.val();
        let val = x.sqrt();
        let one = S::from_i32(1);
        let two = S::from_i32(2);
        let r = x.sqrt();
        let m = two.mul(r);
        let w = one.div(m);
        assert(is_from(1, one) && is_from(2, two) && is_sqrt(x, r) && is_mul(two, r, m) && is_div(
            one,
            m,
            w,
        ));
        self.record(tape, val, w)
    }

    /// The absolute value, with slope `x / |x|`. At zero the slope is
    /// undefined and the undefined value is recorded.
    pub fn abs(&self, tape: &mut Tape<S>) -> (out: Var<S>)
        requires
            old(tape).holds(self),
        ensures
            unary_step(old(tape)@, final(tape)@, *self, out),
            is_abs(self.val(), out.val()),
            abs_slope(self.val(), out.val(), slope0(final(tape)@)),
            final(tape).continues(old(tape)),
    {
        let x = self.val();
        let val = x.abs();
        let zero = S::from_i32(0);
        let at_zero = x.equals(zero);
        let w = if at_zero {
            S::nan()
        } else {
            x.div(val)
        };
        assert(is_from(0, zero) && is_equals(x, zero, at_zero) && if at_zero {
            is_nan(w)
        } else {
            is_div(x, val, w)
        });
        self.record(tape, val, w)
    }

    /// The integer power `x^n`, with slope `n * x^(n - 1)`.
    pub fn powi(&self, tape: &mut Tape<S>, n: i32) -> (out: Var<S>)
        requires
            old(tape).holds(self),
            n > i32::MIN,
        ensures
            unary_step(old(tape)@, final(tape)@, *self, out),
            is_powi(self.val(), n, out.val()),
            powi_slope(self.val(), n, slope0(final(tape)@)),
            final(tape).continues(old(tape)),
    {
        let x = self.val();
        let val = x.powi(n);
        let c = S::from_i32(n);
        let p = x.powi(n - 1);
        let w = c.mul(p);
        assert(is_from(n as int, c) && is_powi(x, (n - 1) as i32, p) && is_mul(c, p, w));
        self.record(tape, val, w)
    }
}

} // verus!
