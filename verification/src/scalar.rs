//! The numbers a tape computes with.
//!
//! The engine never looks inside a number. It only hands numbers to the
//! operations of [`Real`] and stores what comes back, so every contract in
//! this crate speaks of a number as "an outcome of this operation on these
//! operands". Nothing is taken for granted of an implementation: an
//! operation need not even return the same outcome twice.

use vstd::prelude::*;

verus! {

/// A scalar type with the arithmetic and the elementary functions that the
/// differentiation rules are written in.
///
/// The methods carry no contract of their own. An implementation for IEEE
/// doubles hands each one on to the operation on doubles that it is named
/// after.
pub trait Real: Copy {
    /// The number that stands for the integer `n`.
    fn from_i32(n: i32) -> Self;

    /// The value that marks an undefined result.
    fn nan() -> Self;

    /// Whether two numbers compare equal.
    fn equals(self, rhs: Self) -> bool;

    fn neg(self) -> Self;

    fn add(self, rhs: Self) -> Self;

    fn sub(self, rhs: Self) -> Self;

    fn mul(self, rhs: Self) -> Self;

    fn div(self, rhs: Self) -> Self;

    fn recip(self) -> Self;

    /// `self` raised to the integer power `n`.
    fn powi(self, n: i32) -> Self;

    /// `self` raised to the power `exponent`.
    fn pow(self, exponent: Self) -> Self;

    fn sqrt(self) -> Self;

    fn abs(self) -> Self;

    fn exp(self) -> Self;

    fn exp2(self) -> Self;

    fn ln(self) -> Self;

    /// The logarithm of `self` with respect to `base`.
    fn log(self, base: Self) -> Self;

    /// `ln(1 + self)`.
    fn ln_1p(self) -> Self;

    fn sin(self) -> Self;

    fn cos(self) -> Self;

    fn tan(self) -> Self;

    fn asin(self) -> Self;

    fn acos(self) -> Self;

    fn atan(self) -> Self;

    fn sinh(self) -> Self;

    fn cosh(self) -> Self;

    fn tanh(self) -> Self;

    fn asinh(self) -> Self;

    fn acosh(self) -> Self;

    fn atanh(self) -> Self;
}

/// `y` is an outcome of `S::from_i32(n)`.
pub open spec fn is_from<S: Real>(n: int, y: S) -> bool {
    i32::MIN <= n <= i32::MAX && call_ensures(S::from_i32, (n as i32,), y)
}

/// `y` is an outcome of `S::nan()`.
pub open spec fn is_nan<S: Real>(y: S) -> bool {
    call_ensures(S::nan, (), y)
}

/// `b` is an outcome of `x.equals(y)`.
pub open spec fn is_equals<S: Real>(x: S, y: S, b: bool) -> bool {
    call_ensures(S::equals, (x, y), b)
}

/// `y` is an outcome of `x.neg()`.
pub open spec fn is_neg<S: Real>(x: S, y: S) -> bool {
    call_ensures(S::neg, (x,), y)
}

/// `z` is an outcome of `x.add(y)`.
pub open spec fn is_add<S: Real>(x: S, y: S, z: S) -> bool {
    call_ensures(S::add, (x, y), z)
}

/// `z` is an outcome of `x.sub(y)`.
pub open spec fn is_sub<S: Real>(x: S, y: S, z: S) -> bool {
    call_ensures(S::sub, (x, y), z)
}

/// `z` is an outcome of `x.mul(y)`.
pub open spec fn is_mul<S: Real>(x: S, y: S, z: S) -> bool {
    call_ensures(S::mul, (x, y), z)
}

/// `z` is an outcome of `x.div(y)`.
pub open spec fn is_div<S: Real>(x: S, y: S, z: S) -> bool {
    call_ensures(S::div, (x, y), z)
}

/// `y` is an outcome of `x.recip()`.
pub open spec fn is_recip<S: Real>(x: S, y: S) -> bool {
    call_ensures(S::recip, (x,), y)
}

/// `y` is an outcome of `x.powi(n)`.
pub open spec fn is_powi<S: Real>(x: S, n: i32, y: S) -> bool {
    call_ensures(S::powi, (x, n), y)
}

/// `y` is an outcome of `x.pow(e)`.
pub open spec fn is_pow<S: Real>(x: S, e: S, y: S) -> bool {
    call_ensures(S::pow, (x, e), y)
}

/// `y` is an outcome of `x.sqrt()`.
pub open spec fn is_sqrt<S: Real>(x: S, y: S) -> bool {
    call_ensures(S::sqrt, (x,), y)
}

/// `y` is an outcome of `x.abs()`.
pub open spec fn is_abs<S: Real>(x: S, y: S) -> bool {
    call_ensures(S::abs, (x,), y)
}

/// `y` is an outcome of `x.exp()`.
pub open spec fn is_exp<S: Real>(x: S, y: S) -> bool {
    call_ensures(S::exp, (x,), y)
}

/// `y` is an outcome of `x.exp2()`.
pub open spec fn is_exp2<S: Real>(x: S, y: S) -> bool {
    call_ensures(S::exp2, (x,), y)
}

/// `y` is an outcome of `x.ln()`.
pub open spec fn is_ln<S: Real>(x: S, y: S) -> bool {
    call_ensures(S::ln, (x,), y)
}

/// `y` is an outcome of `x.log(base)`.
pub open spec fn is_log<S: Real>(x: S, base: S, y: S) -> bool {
    call_ensures(S::log, (x, base), y)
}

/// `y` is an outcome of `x.ln_1p()`.
pub open spec fn is_ln_1p<S: Real>(x: S, y: S) -> bool {
    call_ensures(S::ln_1p, (x,), y)
}

/// `y` is an outcome of `x.sin()`.
pub open spec fn is_sin<S: Real>(x: S, y: S) -> bool {
    call_ensures(S::sin, (x,), y)
}

/// `y` is an outcome of `x.cos()`.
pub open spec fn is_cos<S: Real>(x: S, y: S) -> bool {
    call_ensures(S::cos, (x,), y)
}

/// `y` is an outcome of `x.tan()`.
pub open spec fn is_tan<S: Real>(x: S, y: S) -> bool {
    call_ensures(S::tan, (x,), y)
}

/// `y` is an outcome of `x.asin()`.
pub open spec fn is_asin<S: Real>(x: S, y: S) -> bool {
    call_ensures(S::asin, (x,), y)
}

/// `y` is an outcome of `x.acos()`.
pub open spec fn is_acos<S: Real>(x: S, y: S) -> bool {
    call_ensures(S::acos, (x,), y)
}

/// `y` is an outcome of `x.atan()`.
pub open spec fn is_atan<S: Real>(x: S, y: S) -> bool {
    call_ensures(S::atan, (x,), y)
}

/// `y` is an outcome of `x.sinh()`.
pub open spec fn is_sinh<S: Real>(x: S, y: S) -> bool {
    call_ensures(S::sinh, (x,), y)
}

/// `y` is an outcome of `x.cosh()`.
pub open spec fn is_cosh<S: Real>(x: S, y: S) -> bool {
    call_ensures(S::cosh, (x,), y)
}

/// `y` is an outcome of `x.tanh()`.
pub open spec fn is_tanh<S: Real>(x: S, y: S) -> bool {
    call_ensures(S::tanh, (x,), y)
}

/// `y` is an outcome of `x.asinh()`.
pub open spec fn is_asinh<S: Real>(x: S, y: S) -> bool {
    call_ensures(S::asinh, (x,), y)
}

/// `y` is an outcome of `x.acosh()`.
pub open spec fn is_acosh<S: Real>(x: S, y: S) -> bool {
    call_ensures(S::acosh, (x,), y)
}

/// `y` is an outcome of `x.atanh()`.
pub open spec fn is_atanh<S: Real>(x: S, y: S) -> bool {
    call_ensures(S::atanh, (x,), y)
}

} // verus!
