//! Predicates that combine two other predicates.
use vstd::prelude::*;
use crate::{Predicate, StatefulPredicate};

verus! {

/// Accepts what both `A` and `B` accept.
#[derive(Clone, Copy, Debug, PartialEq, Eq, PartialOrd, Ord, Hash, Default)]
pub struct And<A, B> {
    /// The part that is consulted first.
    pub first: A,
    /// The part that is consulted where the first accepts.
    pub second: B,
}

/// Accepts what `A` or `B` accepts.
#[derive(Clone, Copy, Debug, PartialEq, Eq, PartialOrd, Ord, Hash, Default)]
pub struct Or<A, B> {
    /// The part that is consulted first.
    pub first: A,
    /// The part that is consulted where the first refuses.
    pub second: B,
}

/// The message of a conjunction: both messages, joined by `and`.
pub open spec fn and_message(first: Seq<char>, second: Seq<char>) -> Seq<char> {
    first + " and "@ + second
}

/// The message of a disjunction: both messages, joined by `or`.
pub open spec fn or_message(first: Seq<char>, second: Seq<char>) -> Seq<char> {
    first + " or "@ + second
}

impl<T, A: Predicate<T>, B: Predicate<T>> Predicate<T> for And<A, B> {
    open spec fn holds(value: T) -> bool {
        A::holds(value) && B::holds(value)
    }

    open spec fn message() -> Seq<char> {
        and_message(A::message(), B::message())
    }

    /// `B` is consulted only where `A` accepts.
    fn test(value: &T) -> (ok: bool) {
        A::test(value) && B::test(value)
    }

    fn error() -> (msg: String) {
        A::error().concat(" and ").concat(B::error().as_str())
    }
}

impl<T, A: Predicate<T>, B: Predicate<T>> Predicate<T> for Or<A, B> {
    open spec fn holds(value: T) -> bool {
        A::holds(value) || B::holds(value)
    }

    open spec fn message() -> Seq<char> {
        or_message(A::message(), B::message())
    }

    /// `B` is consulted only where `A` refuses.
    fn test(value: &T) -> (ok: bool) {
        A::test(value) || B::test(value)
    }

    fn error() -> (msg: String) {
        A::error().concat(" or ").concat(B::error().as_str())
    }
}

impl<T, A: StatefulPredicate<T>, B: StatefulPredicate<T>> StatefulPredicate<T> for And<A, B> {
    /// The second instance is consulted only where the first accepts.
    fn test(&self, value: &T) -> (ok: bool) {
        self.first.test(value) && self.second.test(value)
    }
}

impl<T, A: StatefulPredicate<T>, B: StatefulPredicate<T>> StatefulPredicate<T> for Or<A, B> {
    /// The second instance is consulted only where the first refuses.
    fn test(&self, value: &T) -> (ok: bool) {
        self.first.test(value) || self.second.test(value)
    }
}

/// A conjunction accepts a value exactly when both of its parts accept it.
pub proof fn conjunction_accepts_both<T, A: Predicate<T>, B: Predicate<T>>(value: T)
    ensures
        <And<A, B> as Predicate<T>>::holds(value) == (A::holds(value) && B::holds(value)),
{
}

/// A disjunction accepts a value exactly when one of its parts accepts it.
pub proof fn disjunction_accepts_either<T, A: Predicate<T>, B: Predicate<T>>(value: T)
    ensures
        <Or<A, B> as Predicate<T>>::holds(value) == (A::holds(value) || B::holds(value)),
{
}

impl<A, B> And<A, B> {
    /// A conjunction of two materialised predicates.
    pub fn new(first: A, second: B) -> (both: Self)
        ensures
            both.first == first,
            both.second == second,
    {
        And { first, second }
    }
}

impl<A, B> Or<A, B> {
    /// A disjunction of two materialised predicates.
    pub fn new(first: A, second: B) -> (either: Self)
        ensures
            either.first == first,
            either.second == second,
    {
        Or { first, second }
    }
}

} // verus!
