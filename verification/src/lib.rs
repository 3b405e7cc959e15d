//! Linear algebra and rigid geometry in small dimensions, with exact
//! arithmetic.
//!
//! Vectors and square matrices of dimension one to six, rotations and
//! rigid transformations of dimension two to four, and vectors and
//! matrices of any dimension for the statistics of observations. The
//! scalars stand for integers: every operation computes its exact
//! mathematical result, and requires that the result and the steps to it
//! are representable. What an operation computes is stated on
//! mathematical models over the integers, on which the laws of the
//! operations are proved.
//!
//! A vector of norm one and the inverse of a matrix are seldom made of
//! integers. `fraction` holds vectors and matrices of fractions over a
//! common denominator, which can be normalized whatever their direction and
//! inverted unless they are singular.
//!
//! Each family of operations is a capability of its own, in `traits`;
//! `na` holds one free function for each operation.
pub mod access;
pub mod determinant;
pub mod dynamic;
pub mod fraction;
pub mod isometry;
pub mod matrix;
pub mod matrix_laws;
pub mod na;
pub mod ring;
pub mod rotation;
pub mod scalar;
pub mod traits;
pub mod vector;
