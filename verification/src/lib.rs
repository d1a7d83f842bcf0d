//! Verified core of a quadratic-equation solver.
//!
//! The crate holds the decision logic of a small program that solves
//! `a*x^2 + b*x + c = 0` for real roots: splitting a coefficient file into
//! tokens, validating what was read, classifying the discriminant's sign
//! into the number of real roots, driving the interactive retry loop, and
//! composing every line the program prints.  The floating-point arithmetic
//! itself (computing the discriminant and the roots) and all input/output
//! live outside the verified library.

pub mod dispatch;
pub mod file_source;
pub mod interactive;
pub mod numtext;
pub mod render;
pub mod solver;
pub mod text;
