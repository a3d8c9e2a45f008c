//! The differentiation rules: for each elementary function, which numbers
//! may be recorded as its local derivative at an operand `x`.
//!
//! Each rule spells out its formula operation by operation, in the order in
//! which it is evaluated.

use crate::scalar::{
    is_add, is_cos, is_cosh, is_div, is_equals, is_exp, is_exp2, is_from, is_ln, is_mul, is_nan,
    is_neg, is_pow, is_powi, is_sin, is_sinh, is_sqrt, is_sub, Real,
};
use vstd::prelude::*;

verus! {

/// `w` is an outcome of `-1 / x^2`.
pub open spec fn recip_slope<S: Real>(x: S, w: S) -> bool {
    exists|m: S, p: S|
        {
            &&& is_from(-1, m)
            &&& is_powi(x, 2, p)
            &&& is_div(m, p, w)
        }
}

/// `w` is an outcome of `cos x`.
pub open spec fn sin_slope<S: Real>(x: S, w: S) -> bool {
    is_cos(x, w)
}

/// `w` is an outcome of `-sin x`.
pub open spec fn cos_slope<S: Real>(x: S, w: S) -> bool {
    exists|s: S|
        {
            &&& is_sin(x, s)
            &&& is_neg(s, w)
        }
}

/// `w` is an outcome of `1 / cos^2 x`.
pub open spec fn tan_slope<S: Real>(x: S, w: S) -> bool {
    exists|one: S, c: S, p: S|
        {
            &&& is_from(1, one)
            &&& is_cos(x, c)
            &&& is_powi(c, 2, p)
            &&& is_div(one, p, w)
        }
}

/// `w` is an outcome of `1 / x`.
pub open spec fn ln_slope<S: Real>(x: S, w: S) -> bool {
    exists|one: S|
        {
            &&& is_from(1, one)
            &&& is_div(one, x, w)
        }
}

/// `w` is an outcome of `1 / (x * ln base)`.
pub open spec fn log_slope<S: Real>(x: S, base: S, w: S) -> bool {
    exists|one: S, l: S, m: S|
        {
            &&& is_from(1, one)
            &&& is_ln(base, l)
            &&& is_mul(x, l, m)
            &&& is_div(one, m, w)
        }
}

/// `w` is an outcome of `1 / (1 + x)`.
pub open spec fn ln_1p_slope<S: Real>(x: S, w: S) -> bool {
    exists|one: S, s: S|
        {
            &&& is_from(1, one)
            &&& is_add(one, x, s)
            &&& is_div(one, s, w)
        }
}

/// `w` is an outcome of `1 / sqrt(1 - x^2)`.
pub open spec fn asin_slope<S: Real>(x: S, w: S) -> bool {
    exists|one: S, p: S, d: S, r: S|
        {
            &&& is_from(1, one)
            &&& is_powi(x, 2, p)
            &&& is_sub(one, p, d)
            &&& is_sqrt(d, r)
            &&& is_div(one, r, w)
        }
}

/// `w` is an outcome of `-1 / sqrt(1 - x^2)`.
pub open spec fn acos_slope<S: Real>(x: S, w: S) -> bool {
    exists|m: S, one: S, p: S, d: S, r: S|
        {
            &&& is_from(-1, m)
            &&& is_from(1, one)
            &&& is_powi(x, 2, p)
            &&& is_sub(one, p, d)
            &&& is_sqrt(d, r)
            &&& is_div(m, r, w)
        }
}

/// `w` is an outcome of `1 / (1 + x^2)`.
pub open spec fn atan_slope<S: Real>(x: S, w: S) -> bool {
    exists|one: S, p: S, s: S|
        {
            &&& is_from(1, one)
            &&& is_powi(x, 2, p)
            &&& is_add(one, p, s)
            &&& is_div(one, s, w)
        }
}

/// `w` is an outcome of `cosh x`.
pub open spec fn sinh_slope<S: Real>(x: S, w: S) -> bool {
    is_cosh(x, w)
}

/// `w` is an outcome of `sinh x`.
pub open spec fn cosh_slope<S: Real>(x: S, w: S) -> bool {
    is_sinh(x, w)
}

/// `w` is an outcome of `1 / cosh^2 x`.
pub open spec fn tanh_slope<S: Real>(x: S, w: S) -> bool {
    exists|one: S, c: S, p: S|
        {
            &&& is_from(1, one)
            &&& is_cosh(x, c)
            &&& is_powi(c, 2, p)
            &&& is_div(one, p, w)
        }
}

/// `w` is an outcome of `1 / sqrt(1 + x^2)`.
pub open spec fn asinh_slope<S: Real>(x: S, w: S) -> bool {
    exists|one: S, p: S, s: S, r: S|
        {
            &&& is_from(1, one)
            &&& is_powi(x, 2, p)
            &&& is_add(one, p, s)
            &&& is_sqrt(s, r)
            &&& is_div(one, r, w)
        }
}

/// `w` is an outcome of `1 / sqrt(x^2 - 1)`.
pub open spec fn acosh_slope<S: Real>(x: S, w: S) -> bool {
    exists|one: S, p: S, d: S, r: S|
        {
            &&& is_from(1, one)
            &&& is_powi(x, 2, p)
            &&& is_sub(p, one, d)
            &&& is_sqrt(d, r)
            &&& is_div(one, r, w)
        }
}

/// `w` is an outcome of `1 / (1 - x^2)`.
pub open spec fn atanh_slope<S: Real>(x: S, w: S) -> bool {
    exists|one: S, p: S, d: S|
        {
            &&& is_from(1, one)
            &&& is_powi(x, 2, p)
            &&& is_sub(one, p, d)
            &&& is_div(one, d, w)
        }
}

/// `w` is an outcome of `e^x`.
pub open spec fn exp_slope<S: Real>(x: S, w: S) -> bool {
    is_exp(x, w)
}

/// `w` is an outcome of `2^x * ln 2`.
pub open spec fn exp2_slope<S: Real>(x: S, w: S) -> bool {
    exists|e: S, two: S, l: S|
        {
            &&& is_exp2(x, e)
            &&& is_from(2, two)
            &&& is_ln(two, l)
            &&& is_mul(e, l, w)
        }
}

/// `w` is an outcome of `1 / (2 * sqrt x)`.
pub open spec fn sqrt_slope<S: Real>(x: S, w: S) -> bool {
    exists|one: S, two: S, r: S, m: S|
        {
            &&& is_from(1, one)
            &&& is_from(2, two)
            &&& is_sqrt(x, r)
            &&& is_mul(two, r, m)
            &&& is_div(one, m, w)
        }
}

/// `w` is an outcome of `x / a`, where `a` is the absolute value of `x`
/// that was already taken. At an `x` that compares equal to zero the slope
/// is undefined, and `w` is the value that marks an undefined result.
pub open spec fn abs_slope<S: Real>(x: S, a: S, w: S) -> bool {
    exists|zero: S, at_zero: bool|
        {
            &&& is_from(0, zero)
            &&& is_equals(x, zero, at_zero)
            &&& if at_zero {
                is_nan(w)
            } else {
                is_div(x, a, w)
            }
        }
}

/// `w` is an outcome of `n * x^(n - 1)`.
pub open spec fn powi_slope<S: Real>(x: S, n: i32, w: S) -> bool {
    exists|c: S, p: S|
        {
            &&& is_from(n as int, c)
            &&& is_powi(x, (n - 1) as i32, p)
            &&& is_mul(c, p, w)
        }
}

/// `w` is an outcome of `e * x^(e - 1)`, the slope of `x^e` towards `x`.
pub open spec fn pow_slope<S: Real>(x: S, e: S, w: S) -> bool {
    exists|one: S, d: S, p: S|
        {
            &&& is_from(1, one)
            &&& is_sub(e, one, d)
            &&& is_pow(x, d, p)
            &&& is_mul(e, p, w)
        }
}

/// `w` is an outcome of `x^y * ln x`, the slope of `x^y` towards `y`.
pub open spec fn pow_exponent_slope<S: Real>(x: S, y: S, w: S) -> bool {
    exists|p: S, l: S|
        {
            &&& is_pow(x, y, p)
            &&& is_ln(x, l)
            &&& is_mul(p, l, w)
        }
}

/// `w` is an outcome of `x * c^(x - 1)`, the slope that is recorded for a
/// fixed base `c` raised to `x`.
pub open spec fn pow_base_slope<S: Real>(c: S, x: S, w: S) -> bool {
    exists|one: S, d: S, p: S|
        {
            &&& is_from(1, one)
            &&& is_sub(x, one, d)
            &&& is_pow(c, d, p)
            &&& is_mul(x, p, w)
        }
}

/// `w` is an outcome of `-c / x^2`, the slope of `c / x` for a fixed `c`.
pub open spec fn quotient_slope<S: Real>(c: S, x: S, w: S) -> bool {
    exists|m: S, p: S|
        {
            &&& is_neg(c, m)
            &&& is_powi(x, 2, p)
            &&& is_div(m, p, w)
        }
}

/// `e` is an outcome of `1 / 3`.
pub open spec fn is_third<S: Real>(e: S) -> bool {
    exists|one: S, three: S|
        {
            &&& is_from(1, one)
            &&& is_from(3, three)
            &&& is_div(one, three, e)
        }
}

} // verus!
