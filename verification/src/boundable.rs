//! Predicates that bound the magnitude of a value: the number itself for a
//! numeric type, the count of its elements for a container.
use vstd::prelude::*;

pub mod signed;
pub mod unsigned;

verus! {

/// A value that reduces to an integer magnitude by which it can be bounded.
pub trait Boundable {
    /// The magnitude of the value.
    spec fn magnitude(&self) -> int;
}

} // verus!
