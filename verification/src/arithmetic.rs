//! Arithmetic on refinements whose predicates bound a magnitude.
//!
//! The bounds of a result follow from the bounds of the operands by interval
//! arithmetic, so the result is a refinement without being tested. The
//! predicate of the result is named where the operation is called, and must
//! be no narrower than the interval that the operands give.
pub mod signed;
pub mod unsigned;

pub use signed::{signed_add, signed_div, signed_mul, signed_sub, SignedNumber};
pub use unsigned::{unsigned_add, unsigned_div, unsigned_mul, unsigned_sub, UnsignedNumber};
