//! Gradients of whole expressions, checked against derivatives worked out by
//! hand.

use reverse::{Gradient, Powf, Real, Tape, Var};

#[derive(Clone, Copy, Debug, PartialEq)]
struct F(f64);

impl Real for F {
    fn from_i32(n: i32) -> Self {
        F(n as f64)
    }
    fn nan() -> Self {
        F(f64::NAN)
    }
    fn equals(self, rhs: Self) -> bool {
        self.0 == rhs.0
    }
    fn neg(self) -> Self {
        F(-self.0)
    }
    fn add(self, rhs: Self) -> Self {
        F(self.0 + rhs.0)
    }
    fn sub(self, rhs: Self) -> Self {
        F(self.0 - rhs.0)
    }
    fn mul(self, rhs: Self) -> Self {
        F(self.0 * rhs.0)
    }
    fn div(self, rhs: Self) -> Self {
        F(self.0 / rhs.0)
    }
    fn recip(self) -> Self {
        F(self.0.recip())
    }
    fn powi(self, n: i32) -> Self {
        F(self.0.powi(n))
    }
    fn pow(self, exponent: Self) -> Self {
        F(self.0.powf(exponent.0))
    }
    fn sqrt(self) -> Self {
        F(self.0.sqrt())
    }
    fn abs(self) -> Self {
        F(self.0.abs())
    }
    fn exp(self) -> Self {
        F(self.0.exp())
    }
    fn exp2(self) -> Self {
        F(self.0.exp2())
    }
    fn ln(self) -> Self {
        F(self.0.ln())
    }
    fn log(self, base: Self) -> Self {
        F(self.0.log(base.0))
    }
    fn ln_1p(self) -> Self {
        F(self.0.ln_1p())
    }
    fn sin(self) -> Self {
        F(self.0.sin())
    }
    fn cos(self) -> Self {
        F(self.0.cos())
    }
    fn tan(self) -> Self {
        F(self.0.tan())
    }
    fn asin(self) -> Self {
        F(self.0.asin())
    }
    fn acos(self) -> Self {
        F(self.0.acos())
    }
    fn atan(self) -> Self {
        F(self.0.atan())
    }
    fn sinh(self) -> Self {
        F(self.0.sinh())
    }
    fn cosh(self) -> Self {
        F(self.0.cosh())
    }
    fn tanh(self) -> Self {
        F(self.0.tanh())
    }
    fn asinh(self) -> Self {
        F(self.0.asinh())
    }
    fn acosh(self) -> Self {
        F(self.0.acosh())
    }
    fn atanh(self) -> Self {
        F(self.0.atanh())
    }
}

/// Relative difference of two numbers; 0 when they are equal.
fn rel_diff(a: f64, b: f64) -> f64 {
    if a == b {
        return 0.0;
    }
    let scale = a.abs().max(b.abs());
    (a - b).abs() / scale
}

fn assert_approx_eq(a: f64, b: f64) {
    assert!(
        rel_diff(a, b) < 1.0e-6,
        "assertion failed: `(left !== right)` (left: `{:?}`, right: `{:?}`)",
        a,
        b
    );
}

fn floats(values: Vec<F>) -> Vec<f64> {
    values.into_iter().map(|v| v.0).collect()
}

#[test]
fn test_ad0() {
    let mut g: Tape<F> = Tape::new(1);
    let a = g.add_var(F(2.));
    let b = a.exp(&mut g).div_scalar(&mut g, F(5.));
    let c = a.exp2(&mut g).div_scalar(&mut g, F(5.));
    let gradb = b.grad(&g).wrt(&a).0;
    let gradc = c.grad(&g).wrt(&a).0;
    assert_eq!(gradb, 2_f64.exp() / 5.);
    assert_eq!(gradc, 1. / 5. * 2_f64.exp2() * 2_f64.ln());
}

#[test]
fn test_ad1() {
    let mut tape: Tape<F> = Tape::new(1);
    let vars = (0..6)
        .map(|x| tape.add_var(F(x as f64)))
        .collect::<Vec<_>>();
    // -vars[0] + vars[1].sin() * vars[2].ln() - vars[3] / vars[4] + 1.5 * vars[5].sqrt()
    let t = &mut tape;
    let n0 = vars[0].neg(t);
    let s1 = vars[1].sin(t);
    let l2 = vars[2].ln(t);
    let prod = s1.mul(t, l2).unwrap();
    let left = n0.add(t, prod).unwrap();
    let quot = vars[3].div(t, vars[4]).unwrap();
    let diff = left.sub(t, quot).unwrap();
    let root = vars[5].sqrt(t).mul_scalar(t, F(1.5));
    let res = diff.add(t, root).unwrap();
    let grads = res.grad(&tape);
    let est_grads = vars.iter().map(|v| grads.wrt(v).0).collect::<Vec<_>>();
    let true_grads = vec![
        -1.,
        2_f64.ln() * 1_f64.cos(),
        1_f64.sin() / 2.,
        -1. / 4.,
        3. / 4_f64.powi(2),
        0.75 / 5_f64.sqrt(),
    ];
    for i in 0..6 {
        assert_approx_eq(est_grads[i], true_grads[i]);
    }
}

#[test]
fn test_ad2() {
    fn f(t: &mut Tape<F>, a: Var<F>, b: Var<F>) -> Var<F> {
        // (a / b - a) * (b / a + a + b) * (a - b)
        let first = a.div(t, b).unwrap().sub(t, a).unwrap();
        let second = b.div(t, a).unwrap().add(t, a).unwrap().add(t, b).unwrap();
        let third = a.sub(t, b).unwrap();
        first.mul(t, second).unwrap().mul(t, third).unwrap()
    }

    let mut g: Tape<F> = Tape::new(1);
    let a = g.add_var(F(230.3));
    let b = g.add_var(F(33.2));
    let y = f(&mut g, a, b);
    let grads = y.grad(&g);
    assert_approx_eq(grads.wrt(&a).0, -153284.83150602411);
    assert_approx_eq(grads.wrt(&b).0, 3815.0389441500993);
}

#[test]
fn test_ad3() {
    let mut g: Tape<F> = Tape::new(1);
    let a = g.add_var(F(10.1));
    let b = g.add_var(F(2.5));
    let c = g.add_var(F(4.0));
    let x = g.add_var(F(1.0));
    let y = g.add_var(F(2.0));
    // a.powf(b) - c * x / y
    let power = a.powf(&mut g, b).unwrap();
    let quot = c.mul(&mut g, x).unwrap().div(&mut g, y).unwrap();
    let res = power.sub(&mut g, quot).unwrap();
    let grads = res.grad(&g);
    assert_approx_eq(grads.wrt(&a).0, 2.5 * 10.1_f64.powf(2.5 - 1.));
    assert_approx_eq(grads.wrt(&b).0, 10.1_f64.powf(2.5) * 10.1_f64.ln());
    assert_approx_eq(grads.wrt(&c).0, -1. / 2.);
    assert_approx_eq(grads.wrt(&x).0, -4. / 2.);
    assert_approx_eq(grads.wrt(&y).0, 4. * 1. / (2_f64.powi(2)));
}

#[test]
fn test_ad4() {
    let mut g: Tape<F> = Tape::new(1);
    let params = (0..5).map(|x| g.add_var(F(x as f64))).collect::<Vec<_>>();
    let sum = Var::sum(&mut g, &params).unwrap();
    let derivs = sum.grad(&g);
    for i in derivs.wrt(&params) {
        assert_approx_eq(i.0, 1.);
    }
}

#[test]
fn test_ad5() {
    let mut g: Tape<F> = Tape::new(1);
    let a = g.add_var(F(2.));
    let b = g.add_var(F(3.2));
    let c = g.add_var(F(-4.5));
    // a.exp2() / (b.powf(c) + 5.).sqrt()
    let top = a.exp2(&mut g);
    let bottom = b
        .powf(&mut g, c)
        .unwrap()
        .add_scalar(&mut g, F(5.))
        .sqrt(&mut g);
    let res = top.div(&mut g, bottom).unwrap();
    let est_grads = floats(res.grad(&g).wrt(&[a, b, c]));
    let true_grads = vec![
        2_f64.exp2() * 2_f64.ln() / ((3.2_f64).powf(-4.5) + 5.).sqrt(),
        -((2. - 1_f64).exp2() * (-4.5) * (3.2_f64).powf(-4.5 - 1.))
            / ((3.2_f64.powf(-4.5) + 5.).powf(1.5)),
        -((2. - 1_f64).exp2() * (3.2_f64).powf(-4.5) * (3.2_f64).ln())
            / ((3.2_f64).powf(-4.5) + 5.).powf(1.5),
    ];
    for i in 0..3 {
        assert_approx_eq(est_grads[i], true_grads[i]);
    }
}

#[test]
fn test_ad6() {
    let mut g: Tape<F> = Tape::new(1);
    let a = g.add_var(F(10.1));
    let b = g.add_var(F(2.5));
    let c = g.add_var(F(4.0));
    let x = g.add_var(F(-1.0));
    let y = g.add_var(F(2.0));
    let z = g.add_var(F(-5.));
    let params = [a, b, c, x, y, z];
    // a.tan() * b.log2() + c.exp() / (x.powi(2) + 2.) - y.powf(z)
    let t = &mut g;
    let tangent = a.tan(t);
    let logarithm = b.log2(t);
    let first = tangent.mul(t, logarithm).unwrap();
    let top = c.exp(t);
    let bottom = x.powi(t, 2).add_scalar(t, F(2.));
    let second = top.div(t, bottom).unwrap();
    let third = y.powf(t, z).unwrap();
    let res = first.add(t, second).unwrap().sub(t, third).unwrap();
    let est_grads = floats(res.grad(&g).wrt(&params));
    let true_grads = vec![
        2.5_f64.ln() / (2_f64.ln() * 10.1_f64.cos().powi(2)),
        10.1_f64.tan() / (2.5 * 2_f64.ln()),
        4_f64.exp() / ((-1_f64).powi(2) + 2.),
        -2. * 4_f64.exp() * (-1_f64) / ((-1_f64).powi(2) + 2.).powi(2),
        -5_f64 * -2_f64.powf(-5. - 1.),
        -2_f64.powf(-5.) * 2_f64.ln(),
    ];
    for i in 0..6 {
        assert_approx_eq(est_grads[i], true_grads[i]);
    }
}

#[test]
fn test_ad7() {
    let mut g: Tape<F> = Tape::new(1);
    let v = g.add_var(F(0.5));
    let t = &mut g;

    let res = v.powi(t, 2).add_scalar(t, F(5.));
    let grad = res.grad(t).wrt(&v).0;
    assert_approx_eq(grad, 2. * 0.5);

    let res = v.powi(t, 2).add_scalar(t, F(5.)).powi(t, 2);
    let grad = res.grad(t).wrt(&v).0;
    assert_approx_eq(grad, 4. * 0.5 * (0.5_f64.powi(2) + 5.));

    let res = v
        .powi(t, 2)
        .add_scalar(t, F(5.))
        .powi(t, 2)
        .div_scalar(t, F(2.));
    let grad = res.grad(t).wrt(&v).0;
    assert_approx_eq(grad, 2. * 0.5 * (0.5_f64.powi(2) + 5.));

    let res = v
        .powi(t, 2)
        .add_scalar(t, F(5.))
        .powi(t, 2)
        .div_scalar(t, F(2.))
        .sub(t, v)
        .unwrap();
    let grad = res.grad(t).wrt(&v).0;
    assert_approx_eq(grad, 2. * 0.5 * (0.5_f64.powi(2) + 5.) - 1.);

    let half = v
        .powi(t, 2)
        .add_scalar(t, F(5.))
        .powi(t, 2)
        .div_scalar(t, F(2.));
    let cube = v.powi(t, 3);
    let res = half.sub(t, cube).unwrap();
    let grad = res.grad(t).wrt(&v).0;
    assert_approx_eq(grad, 0.5 * (2. * 0.5_f64.powi(2) - 3. * 0.5 + 10.));

    let half = v
        .powi(t, 2)
        .add_scalar(t, F(5.))
        .powi(t, 2)
        .div_scalar(t, F(2.));
    let cube = v.powi(t, 3);
    let res = half.sub(t, cube).unwrap().powi(t, 2);
    let grad = res.grad(t).wrt(&v).0;
    assert_approx_eq(
        grad,
        0.5 * (2. * 0.5_f64.powi(2) - 3. * 0.5 + 10.)
            * (0.5_f64.powi(4) - 2. * 0.5_f64.powi(3) + 10. * 0.5_f64.powi(2) + 25.),
    );
}

#[test]
fn test_rosenbrock() {
    let mut g: Tape<F> = Tape::new(1);
    let x = g.add_var(F(5.));
    let y = g.add_var(F(-2.));
    let t = &mut g;

    let res = x.rsub_scalar(t, F(1.)).powi(t, 2);
    let grad = floats(res.grad(t).wrt(&[x, y]));
    assert_approx_eq(grad[0], -2. * (1. - 5.));
    assert_approx_eq(grad[1], 0.);

    let square = x.powi(t, 2);
    let res = y.sub(t, square).unwrap().powi(t, 2).mul_scalar(t, F(100.));
    let grad = floats(res.grad(t).wrt(&[x, y]));
    assert_approx_eq(grad[0], -400. * 5. * (-2. - 5_f64.powi(2)));
    assert_approx_eq(grad[1], 200. * (-2. - 5_f64.powi(2)));

    let first = x.rsub_scalar(t, F(1.)).powi(t, 2);
    let square = x.powi(t, 2);
    let second = y.sub(t, square).unwrap().powi(t, 2).mul_scalar(t, F(100.));
    let res = first.add(t, second).unwrap();
    let grad = floats(res.grad(t).wrt(&[x, y]));
    assert_approx_eq(
        grad[0],
        2. * (200. * 5_f64.powi(3) - 200. * 5. * -2. + 5. - 1.),
    );
    assert_approx_eq(grad[1], 200. * (-2. - 5_f64.powi(2)));
}

#[test]
fn test_assign() {
    let mut g: Tape<F> = Tape::new(1);
    let a = g.add_var(F(1.));
    let mut b = a.mul_scalar(&mut g, F(1.0));
    b.mul_assign_scalar(&mut g, F(3.0));
    b.div_assign_scalar(&mut g, F(2.0));
    b.add_assign_scalar(&mut g, F(5.0));
    b.sub_assign_scalar(&mut g, F(4.0));
    let gradb = b.grad(&g).wrt(&a).0;
    assert_eq!(gradb, 1.5);
    assert_eq!(b.val().0, 2.5);
}

#[test]
fn sum_of_five_leaves_has_unit_gradients() {
    let mut g: Tape<F> = Tape::new(1);
    let leaves = g.add_vars(&[F(0.), F(1.), F(2.), F(3.), F(4.)]);
    let s = Var::sum(&mut g, &leaves).unwrap();
    assert_eq!(s.val().0, 10.);
    let adjoints = s.grad(&g);
    assert_eq!(floats(adjoints.wrt(&leaves)), vec![1., 1., 1., 1., 1.]);
}

#[test]
fn assign_between_variables() {
    let mut g: Tape<F> = Tape::new(1);
    let a = g.add_var(F(3.));
    let c = g.add_var(F(4.));
    let mut b = a;
    b.mul_assign(&mut g, c).unwrap();
    assert_eq!(b.val().0, 12.);
    b.add_assign(&mut g, a).unwrap();
    assert_eq!(b.val().0, 15.);
    b.sub_assign(&mut g, c).unwrap();
    assert_eq!(b.val().0, 11.);
    b.div_assign(&mut g, c).unwrap();
    assert_eq!(b.val().0, 2.75);
    // b = (a * c + a - c) / c
    let adjoints = b.grad(&g);
    assert_approx_eq(adjoints.wrt(&a).0, (4. + 1.) / 4.);
    assert_approx_eq(adjoints.wrt(&c).0, -3. / 16.);
}
