//! The differentiation rules, one elementary operation at a time: the value,
//! the recorded weights, and a comparison of the gradient with a central
//! finite difference.

use reverse::{Gradient, Powf, Real, Tape, Var};

#[derive(Clone, Copy, Debug, PartialEq)]
struct F(f64);

impl Real for F {
    fn from_i32(n: i32) -> Self {
        F(n as f64)
    }
    fn nan() -> Self {
        F(f64::NAN)
    }
    fn equals(self, rhs: Self) -> bool {
        self.0 == rhs.0
    }
    fn neg(self) -> Self {
        F(-self.0)
    }
    fn add(self, rhs: Self) -> Self {
        F(self.0 + rhs.0)
    }
    fn sub(self, rhs: Self) -> Self {
        F(self.0 - rhs.0)
    }
    fn mul(self, rhs: Self) -> Self {
        F(self.0 * rhs.0)
    }
    fn div(self, rhs: Self) -> Self {
        F(self.0 / rhs.0)
    }
    fn recip(self) -> Self {
        F(self.0.recip())
    }
    fn powi(self, n: i32) -> Self {
        F(self.0.powi(n))
    }
    fn pow(self, exponent: Self) -> Self {
        F(self.0.powf(exponent.0))
    }
    fn sqrt(self) -> Self {
        F(self.0.sqrt())
    }
    fn abs(self) -> Self {
        F(self.0.abs())
    }
    fn exp(self) -> Self {
        F(self.0.exp())
    }
    fn exp2(self) -> Self {
        F(self.0.exp2())
    }
    fn ln(self) -> Self {
        F(self.0.ln())
    }
    fn log(self, base: Self) -> Self {
        F(self.0.log(base.0))
    }
    fn ln_1p(self) -> Self {
        F(self.0.ln_1p())
    }
    fn sin(self) -> Self {
        F(self.0.sin())
    }
    fn cos(self) -> Self {
        F(self.0.cos())
    }
    fn tan(self) -> Self {
        F(self.0.tan())
    }
    fn asin(self) -> Self {
        F(self.0.asin())
    }
    fn acos(self) -> Self {
        F(self.0.acos())
    }
    fn atan(self) -> Self {
        F(self.0.atan())
    }
    fn sinh(self) -> Self {
        F(self.0.sinh())
    }
    fn cosh(self) -> Self {
        F(self.0.cosh())
    }
    fn tanh(self) -> Self {
        F(self.0.tanh())
    }
    fn asinh(self) -> Self {
        F(self.0.asinh())
    }
    fn acosh(self) -> Self {
        F(self.0.acosh())
    }
    fn atanh(self) -> Self {
        F(self.0.atanh())
    }
}

/// Relative difference of two numbers; 0 when they are equal.
fn rel_diff(a: f64, b: f64) -> f64 {
    if a == b {
        return 0.0;
    }
    let scale = a.abs().max(b.abs());
    (a - b).abs() / scale
}

/// Applies `op` to a fresh leaf with value `x` and returns the value of the
/// result, the weights that were recorded for it, and its gradient with
/// respect to the leaf.
fn apply(op: fn(Var<F>, &mut Tape<F>) -> Var<F>, x: f64) -> (f64, [f64; 2], f64) {
    let mut tape: Tape<F> = Tape::new(1);
    let leaf = tape.add_var(F(x));
    let out = op(leaf, &mut tape);
    assert_eq!(tape.len(), 2);
    assert_eq!(out.location(), 1);
    let node = tape.node(1);
    assert_eq!(node.dependencies, [0, 0]);
    let gradient = out.grad(&tape).wrt(&leaf).0;
    (out.val().0, [node.weights[0].0, node.weights[1].0], gradient)
}

/// Checks a function of one variable whose slope stands in the first weight.
fn check_unary(op: fn(Var<F>, &mut Tape<F>) -> Var<F>, x: f64, value: f64, slope: f64) {
    let (val, weights, gradient) = apply(op, x);
    assert_eq!(val, value);
    assert_eq!(weights[0], slope);
    assert_eq!(weights[1], 0.);
    assert_eq!(gradient, slope);
    check_finite_difference(op, x);
}

/// Checks a function of one variable whose slope stands in the second
/// weight: the variable is the right operand of a fixed number.
fn check_right(op: fn(Var<F>, &mut Tape<F>) -> Var<F>, x: f64, value: f64, slope: f64) {
    let (val, weights, gradient) = apply(op, x);
    assert_eq!(val, value);
    assert_eq!(weights[0], 0.);
    assert_eq!(weights[1], slope);
    assert_eq!(gradient, slope);
}

/// The gradient of `op` at `x` agrees with the central finite difference of
/// its value.
fn check_finite_difference(op: fn(Var<F>, &mut Tape<F>) -> Var<F>, x: f64) {
    let h = 1.0e-6;
    let (_, _, gradient) = apply(op, x);
    let (above, _, _) = apply(op, x + h);
    let (below, _, _) = apply(op, x - h);
    let estimate = (above - below) / (2. * h);
    assert!(
        rel_diff(gradient, estimate) < 1.0e-6,
        "gradient {:?} and finite difference {:?} differ at {:?}",
        gradient,
        estimate,
        x
    );
}

/// The partial derivatives of `op` at `(x, y)` agree with central finite
/// differences.
fn check_finite_difference_2(op: fn(Var<F>, Var<F>, &mut Tape<F>) -> Var<F>, x: f64, y: f64) {
    let run = |x: f64, y: f64| {
        let mut tape: Tape<F> = Tape::new(1);
        let a = tape.add_var(F(x));
        let b = tape.add_var(F(y));
        let out = op(a, b, &mut tape);
        let adjoints = out.grad(&tape);
        (out.val().0, adjoints.wrt(&a).0, adjoints.wrt(&b).0)
    };
    let h = 1.0e-6;
    let (_, dx, dy) = run(x, y);
    let estimate_x = (run(x + h, y).0 - run(x - h, y).0) / (2. * h);
    let estimate_y = (run(x, y + h).0 - run(x, y - h).0) / (2. * h);
    assert!(rel_diff(dx, estimate_x) < 1.0e-6, "{:?} {:?}", dx, estimate_x);
    assert!(rel_diff(dy, estimate_y) < 1.0e-6, "{:?} {:?}", dy, estimate_y);
}

#[test]
fn recip_rule() {
    check_unary(|v, t| v.recip(t), 2., 0.5, -0.25);
    check_unary(|v, t| v.recip(t), -0.3, (-0.3f64).recip(), -1. / (-0.3f64).powi(2));
}

#[test]
fn sin_rule() {
    check_unary(|v, t| v.sin(t), 0.7, 0.7f64.sin(), 0.7f64.cos());
}

#[test]
fn cos_rule() {
    check_unary(|v, t| v.cos(t), 0.7, 0.7f64.cos(), -(0.7f64.sin()));
}

#[test]
fn tan_rule() {
    check_unary(|v, t| v.tan(t), 0.7, 0.7f64.tan(), 1. / 0.7f64.cos().powi(2));
}

#[test]
fn ln_rule() {
    check_unary(|v, t| v.ln(t), 4., 4f64.ln(), 0.25);
}

#[test]
fn log_rule() {
    check_unary(
        |v, t| v.log(t, F(3.)),
        5.,
        5f64.log(3.),
        1. / (5. * 3f64.ln()),
    );
}

#[test]
fn log10_rule() {
    check_unary(
        |v, t| v.log10(t),
        5.,
        5f64.log(10.),
        1. / (5. * 10f64.ln()),
    );
}

#[test]
fn log2_rule() {
    check_unary(|v, t| v.log2(t), 5., 5f64.log(2.), 1. / (5. * 2f64.ln()));
}

#[test]
fn ln_1p_rule() {
    check_unary(|v, t| v.ln_1p(t), 3., 3f64.ln_1p(), 0.25);
}

#[test]
fn asin_rule() {
    check_unary(
        |v, t| v.asin(t),
        0.6,
        0.6f64.asin(),
        1. / (1. - 0.6f64.powi(2)).sqrt(),
    );
}

#[test]
fn acos_rule() {
    check_unary(
        |v, t| v.acos(t),
        0.6,
        0.6f64.acos(),
        -1. / (1. - 0.6f64.powi(2)).sqrt(),
    );
}

#[test]
fn atan_rule() {
    check_unary(|v, t| v.atan(t), 2., 2f64.atan(), 0.2);
}

#[test]
fn sinh_rule() {
    check_unary(|v, t| v.sinh(t), 0.7, 0.7f64.sinh(), 0.7f64.cosh());
}

#[test]
fn cosh_rule() {
    check_unary(|v, t| v.cosh(t), 0.7, 0.7f64.cosh(), 0.7f64.sinh());
}

#[test]
fn tanh_rule() {
    check_unary(
        |v, t| v.tanh(t),
        0.7,
        0.7f64.tanh(),
        1. / 0.7f64.cosh().powi(2),
    );
}

#[test]
fn asinh_rule() {
    check_unary(
        |v, t| v.asinh(t),
        0.75,
        0.75f64.asinh(),
        1. / (1. + 0.75f64.powi(2)).sqrt(),
    );
    let (_, weights, _) = apply(|v, t| v.asinh(t), 0.75);
    assert_eq!(weights[0], 0.8);
}

#[test]
fn acosh_rule() {
    check_unary(
        |v, t| v.acosh(t),
        1.25,
        1.25f64.acosh(),
        1. / (1.25f64.powi(2) - 1.).sqrt(),
    );
}

#[test]
fn atanh_rule() {
    check_unary(
        |v, t| v.atanh(t),
        0.5,
        0.5f64.atanh(),
        1. / (1. - 0.5f64.powi(2)),
    );
}

#[test]
fn exp_rule() {
    check_unary(|v, t| v.exp(t), 2., 2f64.exp(), 2f64.exp());
}

#[test]
fn exp2_rule() {
    check_unary(|v, t| v.exp2(t), 3., 8., 8. * 2f64.ln());
}

#[test]
fn sqrt_rule() {
    check_unary(|v, t| v.sqrt(t), 4., 2., 0.25);
}

#[test]
fn cbrt_rule() {
    let third = 1. / 3.;
    check_unary(
        |v, t| v.cbrt(t),
        8.,
        8f64.powf(third),
        third * 8f64.powf(third - 1.),
    );
    let (value, _, gradient) = apply(|v, t| v.cbrt(t), 8.);
    assert!(rel_diff(value, 2.) < 1.0e-12);
    assert!(rel_diff(gradient, 1. / 12.) < 1.0e-12);
}

#[test]
fn abs_rule() {
    check_unary(|v, t| v.abs(t), 2.5, 2.5, 1.);
    check_unary(|v, t| v.abs(t), -2.5, 2.5, -1.);
}

#[test]
fn abs_rule_at_zero_is_undefined() {
    let (value, weights, gradient) = apply(|v, t| v.abs(t), 0.);
    assert_eq!(value, 0.);
    assert!(weights[0].is_nan());
    assert_eq!(weights[1], 0.);
    assert!(gradient.is_nan());
    let (_, weights, _) = apply(|v, t| v.abs(t), -0.);
    assert!(weights[0].is_nan());
}

#[test]
fn powi_rule() {
    check_unary(|v, t| v.powi(t, 3), 2., 8., 12.);
    check_unary(|v, t| v.powi(t, -2), 2., 0.25, -0.25);
    check_unary(|v, t| v.powi(t, 1), 7., 7., 1.);
    check_unary(|v, t| v.powi(t, 0), 7., 1., 0.);
}

#[test]
fn powi_rule_at_largest_exponent() {
    let (value, weights, _) = apply(|v, t| v.powi(t, i32::MAX), 1.);
    assert_eq!(value, 1.);
    assert_eq!(weights[0], i32::MAX as f64);
    let (value, weights, _) = apply(|v, t| v.powi(t, i32::MIN + 1), 1.);
    assert_eq!(value, 1.);
    assert_eq!(weights[0], (i32::MIN + 1) as f64);
}

#[test]
fn neg_rule() {
    check_unary(|v, t| v.neg(t), 1.5, -1.5, -1.);
}

#[test]
fn add_scalar_rule() {
    check_unary(|v, t| v.add_scalar(t, F(2.)), 1.5, 3.5, 1.);
}

#[test]
fn sub_scalar_rule() {
    check_unary(|v, t| v.sub_scalar(t, F(2.)), 1.5, -0.5, 1.);
}

#[test]
fn rsub_scalar_rule() {
    check_right(|v, t| v.rsub_scalar(t, F(2.)), 1.5, 0.5, -1.);
    check_finite_difference(|v, t| v.rsub_scalar(t, F(2.)), 1.5);
}

#[test]
fn mul_scalar_rule() {
    check_unary(|v, t| v.mul_scalar(t, F(4.)), 1.5, 6., 4.);
}

#[test]
fn div_scalar_rule() {
    check_unary(|v, t| v.div_scalar(t, F(4.)), 1.5, 0.375, 0.25);
}

#[test]
fn rdiv_scalar_rule() {
    // d(c / x)/dx = -c / x^2
    check_right(|v, t| v.rdiv_scalar(t, F(3.)), 2., 1.5, -0.75);
    check_finite_difference(|v, t| v.rdiv_scalar(t, F(3.)), 2.);
}

#[test]
fn powf_scalar_exponent_rule() {
    check_unary(|v, t| v.powf(t, F(3.)), 2., 8., 12.);
    check_unary(
        |v, t| v.powf(t, F(-1.5)),
        2.,
        2f64.powf(-1.5),
        -1.5 * 2f64.powf(-1.5 - 1.),
    );
}

#[test]
fn powf_scalar_base_rule() {
    // the recorded slope of c^x is x * c^(x - 1)
    check_right(|v, t| F(2.).powf(t, v), 3., 8., 12.);
    check_right(
        |v, t| F(1.5).powf(t, v),
        2.5,
        1.5f64.powf(2.5),
        2.5 * 1.5f64.powf(2.5 - 1.),
    );
}

#[test]
fn add_rule() {
    let mut tape: Tape<F> = Tape::new(1);
    let a = tape.add_var(F(1.5));
    let b = tape.add_var(F(-4.));
    let out = a.add(&mut tape, b).unwrap();
    assert_eq!(out.val(), F(-2.5));
    assert_eq!(out.location(), 2);
    assert_eq!(tape.node(2).dependencies, [0, 1]);
    assert_eq!(tape.node(2).weights, [F(1.), F(1.)]);
    check_finite_difference_2(|a, b, t| a.add(t, b).unwrap(), 1.5, -4.);
}

#[test]
fn sub_rule() {
    let mut tape: Tape<F> = Tape::new(1);
    let a = tape.add_var(F(1.5));
    let b = tape.add_var(F(-4.));
    let out = a.sub(&mut tape, b).unwrap();
    assert_eq!(out.val(), F(5.5));
    let adjoints = out.grad(&tape);
    assert_eq!(adjoints.wrt(&a), F(1.));
    assert_eq!(adjoints.wrt(&b), F(-1.));
    check_finite_difference_2(|a, b, t| a.sub(t, b).unwrap(), 1.5, -4.);
}

#[test]
fn mul_rule() {
    let mut tape: Tape<F> = Tape::new(1);
    let a = tape.add_var(F(1.5));
    let b = tape.add_var(F(-4.));
    let out = a.mul(&mut tape, b).unwrap();
    assert_eq!(out.val(), F(-6.));
    assert_eq!(out.location(), 2);
    assert_eq!(tape.node(2).dependencies, [0, 1]);
    assert_eq!(tape.node(2).weights, [F(-4.), F(1.5)]);
    check_finite_difference_2(|a, b, t| a.mul(t, b).unwrap(), 1.5, -4.);
}

#[test]
fn div_rule() {
    let mut tape: Tape<F> = Tape::new(1);
    let a = tape.add_var(F(3.));
    let b = tape.add_var(F(4.));
    let out = a.div(&mut tape, b).unwrap();
    assert_eq!(out.val(), F(0.75));
    let adjoints = out.grad(&tape);
    assert_eq!(adjoints.wrt(&a), F(0.25));
    assert_eq!(adjoints.wrt(&b), F(-0.1875));
    check_finite_difference_2(|a, b, t| a.div(t, b).unwrap(), 3., 4.);
}

#[test]
fn powf_rule() {
    let mut tape: Tape<F> = Tape::new(1);
    let a = tape.add_var(F(2.));
    let b = tape.add_var(F(3.));
    let out = a.powf(&mut tape, b).unwrap();
    assert_eq!(out.val(), F(8.));
    assert_eq!(out.location(), 2);
    assert_eq!(tape.node(2).dependencies, [0, 1]);
    assert_eq!(tape.node(2).weights, [F(12.), F(8. * 2f64.ln())]);
    check_finite_difference_2(|a, b, t| a.powf(t, b).unwrap(), 2., 3.);
}

#[test]
fn finite_differences_of_every_function_of_one_variable() {
    let cases: Vec<(fn(Var<F>, &mut Tape<F>) -> Var<F>, f64)> = vec![
        (|v, t| v.recip(t), 1.7),
        (|v, t| v.sin(t), 1.7),
        (|v, t| v.cos(t), 1.7),
        (|v, t| v.tan(t), 1.2),
        (|v, t| v.ln(t), 1.7),
        (|v, t| v.log(t, F(7.)), 1.7),
        (|v, t| v.log10(t), 1.7),
        (|v, t| v.log2(t), 1.7),
        (|v, t| v.ln_1p(t), 1.7),
        (|v, t| v.asin(t), 0.3),
        (|v, t| v.acos(t), 0.3),
        (|v, t| v.atan(t), 1.7),
        (|v, t| v.sinh(t), 1.7),
        (|v, t| v.cosh(t), 1.7),
        (|v, t| v.tanh(t), 0.4),
        (|v, t| v.asinh(t), 1.7),
        (|v, t| v.acosh(t), 1.7),
        (|v, t| v.atanh(t), 0.3),
        (|v, t| v.exp(t), 1.7),
        (|v, t| v.exp2(t), 1.7),
        (|v, t| v.sqrt(t), 1.7),
        (|v, t| v.cbrt(t), 1.7),
        (|v, t| v.abs(t), 1.7),
        (|v, t| v.abs(t), -1.7),
        (|v, t| v.powi(t, 5), 1.7),
        (|v, t| v.powi(t, -3), 1.7),
        (|v, t| v.neg(t), 1.7),
        (|v, t| v.add_scalar(t, F(0.9)), 1.7),
        (|v, t| v.sub_scalar(t, F(0.9)), 1.7),
        (|v, t| v.rsub_scalar(t, F(0.9)), 1.7),
        (|v, t| v.mul_scalar(t, F(0.9)), 1.7),
        (|v, t| v.div_scalar(t, F(0.9)), 1.7),
        (|v, t| v.rdiv_scalar(t, F(0.9)), 1.7),
        (|v, t| v.powf(t, F(0.9)), 1.7),
    ];
    for (op, x) in cases {
        check_finite_difference(op, x);
    }
}

#[test]
fn chain_of_rules_multiplies_slopes() {
    // y = exp(sin(x)^2), dy/dx = y * 2 sin x cos x
    let mut tape: Tape<F> = Tape::new(1);
    let x = tape.add_var(F(0.4));
    let y = x.sin(&mut tape).powi(&mut tape, 2).exp(&mut tape);
    let gradient = y.grad(&tape).wrt(&x).0;
    let expected = 0.4f64.sin().powi(2).exp() * 2. * 0.4f64.sin() * 0.4f64.cos();
    assert!(rel_diff(gradient, expected) < 1.0e-12);
}

#[test]
fn domain_irregularities_propagate_as_numbers() {
    // outside the domain of an elementary function nothing is refused: the
    // value and the slope are what the arithmetic makes of them
    let (value, weights, _) = apply(|v, t| v.ln(t), -1.);
    assert!(value.is_nan());
    assert_eq!(weights[0], -1.);
    let (value, weights, _) = apply(|v, t| v.ln(t), 0.);
    assert_eq!(value, f64::NEG_INFINITY);
    assert_eq!(weights[0], f64::INFINITY);
    let (value, weights, _) = apply(|v, t| v.recip(t), 0.);
    assert_eq!(value, f64::INFINITY);
    assert_eq!(weights[0], f64::NEG_INFINITY);
    let (value, weights, _) = apply(|v, t| v.asin(t), 2.);
    assert!(value.is_nan());
    assert!(weights[0].is_nan());
    let (value, weights, _) = apply(|v, t| v.sqrt(t), -4.);
    assert!(value.is_nan());
    assert!(weights[0].is_nan());
    let (value, weights, _) = apply(|v, t| v.div_scalar(t, F(0.)), 1.);
    assert_eq!(value, f64::INFINITY);
    assert_eq!(weights[0], f64::INFINITY);
    let (value, weights, gradient) = apply(|v, t| v.rdiv_scalar(t, F(1.)), 0.);
    assert_eq!(value, f64::INFINITY);
    assert_eq!(weights[1], f64::NEG_INFINITY);
    // the scan also visits the leaf, whose weights are zero, and zero times
    // an infinite adjoint is undefined
    assert!(gradient.is_nan());
}
