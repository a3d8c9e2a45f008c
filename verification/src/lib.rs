//! # reverse
//!
//! `reverse` performs **reverse**-mode automatic differentiation. This is
//! useful when a function has many inputs and a small number of outputs, as
//! the gradients for all inputs with respect to a particular output can be
//! computed in a single pass.
//!
//! # Usage
//!
//! A tape (also called a Wengert list) is created with `Tape::new(id)`,
//! where `id` is the identity by which the tape is told apart from others.
//! Variables are added to the tape, either individually (`add_var`) or as a
//! slice (`add_vars`). This yields differentiable variables of type `Var<S>`,
//! where `S` is the type of number that the tape computes with: any type
//! that implements [`Real`].
//!
//! A variable does not borrow its tape; it carries the tape's identity. Each
//! operation on variables takes the tape as an argument, records one node
//! on it (two for a difference or a quotient of two variables) and returns
//! the variable that stands for the result. An operation on two variables
//! is refused unless both belong to that tape. Operations between a
//! variable and a plain number treat the number as a constant with no
//! gradient.
//!
//! `Var::grad` runs the backward pass from a variable and returns one
//! adjoint per node; `Gradient::wrt` reads from it the gradient with respect
//! to a variable or to an ordered collection of variables.
//!
//! # What is proved
//!
//! Every function of this crate is verified against its contract. The
//! contracts speak of numbers only through the operations of [`Real`]: a
//! value is "an outcome of `sin` on this operand", a weight "an outcome of
//! this formula, evaluated in this order". Of the arithmetic itself nothing
//! is taken for granted, so what is proved holds of every implementation of
//! [`Real`].

pub mod arith;
pub mod backward;
pub mod elementary;
pub mod error;
pub mod gradient;
pub mod laws;
pub mod powf;
pub mod rules;
pub mod scalar;
pub mod step;
pub mod tape;
pub mod var;

pub use error::Error;
pub use gradient::Gradient;
pub use powf::Powf;
pub use scalar::Real;
pub use tape::{Node, Tape};
pub use var::Var;
