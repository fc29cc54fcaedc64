//! The types and traits that every use of a refinement needs. No predicate
//! is among them.
pub use crate::refinement::{Named, Refinement};
pub use crate::{
    ErrorMessage, Predicate, RefinementError, RefinementOps, StatefulPredicate, StatefulRefinementOps,
    TypeString,
};
