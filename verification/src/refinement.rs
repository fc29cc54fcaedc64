//! The container that holds a value together with the proof that its predicate holds.
use vstd::prelude::*;
use core::marker::PhantomData;
use crate::{
    Predicate, Refined, RefinementError, RefinementOps, StatefulPredicate, StatefulRefinementOps,
    TypeString,
};

verus! {

/// A value of `T` of which the predicate `P` holds.
#[derive(Debug, PartialEq, Eq, PartialOrd, Ord, Hash)]
pub struct Refinement<T, P: Predicate<T>> {
    value: T,
    predicate: PhantomData<P>,
}

impl<T, P: Predicate<T>> View for Refinement<T, P> {
    type V = T;

    /// The value held.
    closed spec fn view(&self) -> T {
        self.value
    }
}

impl<T, P: Predicate<T>> Refinement<T, P> {
    #[verifier::type_invariant]
    spec fn valid(self) -> bool {
        P::holds(self.value)
    }

    /// Wraps a value that is already known to satisfy the predicate.
    pub(crate) fn certified(value: T) -> (r: Self)
        requires
            P::holds(value),
        ensures
            r@ == value,
    {
        Refinement { value, predicate: PhantomData }
    }

    /// Refines a raw value: succeeds exactly when the predicate accepts it.
    pub fn certify(raw: Refined<T>) -> (r: Result<Self, RefinementError>)
        ensures
            P::holds(raw.0) ==> r is Ok && r->Ok_0@ == raw.0,
            !P::holds(raw.0) ==> r is Err && r->Err_0@ == P::message(),
    {
        if P::test(&raw.0) {
            Ok(Refinement { value: raw.0, predicate: PhantomData })
        } else {
            Err(RefinementError::new(P::error()))
        }
    }
}

impl<T, P: Predicate<T>> core::ops::Deref for Refinement<T, P> {
    type Target = T;

    /// The held value, of which the predicate is known to hold.
    fn deref(&self) -> (value: &T)
        ensures
            *value == self@,
            P::holds(*value),
    {
        self.get()
    }
}

impl<T, P: Predicate<T>> RefinementOps for Refinement<T, P> {
    type T = T;

    open spec fn inner(&self) -> T {
        self@
    }

    open spec fn admits(value: T) -> bool {
        P::holds(value)
    }

    open spec fn violation() -> Seq<char> {
        P::message()
    }

    fn get(&self) -> (value: &T) {
        proof {
            use_type_invariant(self);
        }
        &self.value
    }

    fn refine(value: T) -> (r: Result<Self, RefinementError>) {
        Self::certify(Refined(value))
    }

    fn take(self) -> (value: T) {
        proof {
            use_type_invariant(&self);
        }
        self.value
    }

    fn extract(self) -> (value: T) {
        self.take()
    }
}

impl<T, P: StatefulPredicate<T>> StatefulRefinementOps<T, P> for Refinement<T, P> {
    fn refine_with_state(predicate: &P, value: T) -> (r: Result<Self, RefinementError>) {
        if predicate.test(&value) {
            Ok(Refinement { value, predicate: PhantomData })
        } else {
            Err(RefinementError::new(predicate.error()))
        }
    }
}

/// The message of a named refinement: the name, a space, then the message of
/// the refinement itself.
pub open spec fn named_message(name: Seq<char>, message: Seq<char>) -> Seq<char> {
    name + " "@ + message
}

/// A refinement that reports violations under the name `N`.
#[derive(Debug, PartialEq, Eq, PartialOrd, Ord, Hash)]
pub struct Named<N: TypeString, R: RefinementOps> {
    refinement: R,
    name: PhantomData<N>,
}

impl<N: TypeString, R: RefinementOps> View for Named<N, R> {
    type V = R::T;

    /// The value held.
    closed spec fn view(&self) -> R::T {
        self.refinement.inner()
    }
}

impl<N: TypeString, R: RefinementOps> Named<N, R> {
    /// Puts the name in front of the message of an error.
    fn name_error(e: RefinementError) -> (named: RefinementError)
        ensures
            named@ == named_message(N::text(), e@),
    {
        RefinementError::new(String::from_str(N::value()).concat(" ").concat(e.message()))
    }
}

impl<N: TypeString, R: RefinementOps> core::ops::Deref for Named<N, R> {
    type Target = R::T;

    /// The held value, which the refinement is known to admit.
    fn deref(&self) -> (value: &R::T)
        ensures
            *value == self@,
            R::admits(*value),
    {
        self.refinement.get()
    }
}

impl<N: TypeString, R: RefinementOps> RefinementOps for Named<N, R> {
    type T = R::T;

    open spec fn inner(&self) -> R::T {
        self@
    }

    open spec fn admits(value: R::T) -> bool {
        R::admits(value)
    }

    open spec fn violation() -> Seq<char> {
        named_message(N::text(), R::violation())
    }

    fn get(&self) -> (value: &R::T) {
        self.refinement.get()
    }

    fn refine(value: R::T) -> (r: Result<Self, RefinementError>) {
        match R::refine(value) {
            Ok(refinement) => Ok(Named { refinement, name: PhantomData }),
            Err(e) => Err(Self::name_error(e)),
        }
    }

    fn take(self) -> (value: R::T) {
        self.refinement.take()
    }

    fn extract(self) -> (value: R::T) {
        self.refinement.take()
    }
}

} // verus!
