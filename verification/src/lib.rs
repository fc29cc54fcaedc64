//! Refinement types: values that carry a predicate which always holds of them.
//!
//! A [`Refinement<T, P>`] owns one value of `T` and guarantees that the
//! predicate `P` accepts it. The only way in is the validating constructor, so
//! code that receives a refinement never has to test the value again.
use vstd::prelude::*;

pub mod arithmetic;
pub mod boolean;
pub mod boundable;
pub mod character;
pub mod decimal;
pub mod implication;
pub mod prelude;
pub mod refinement;

pub use boundable::signed::SignedBoundable;
pub use boundable::unsigned::UnsignedBoundable;
pub use refinement::{Named, Refinement};

verus! {

/// A string lifted into a type, so that it can parameterise other types.
pub trait TypeString: Default {
    /// The characters of the lifted string.
    spec fn text() -> Seq<char>;

    /// The lifted string.
    fn value() -> (s: &'static str)
        ensures
            s@ == Self::text(),
    ;
}

/// The text that describes a violated predicate.
pub type ErrorMessage = String;

/// An assertion that must hold for a value to be considered refined.
///
/// The accepted set is the spec function [`Predicate::holds`]; `test` decides
/// it and `error` reports [`Predicate::message`]. Purity of `test` is part of
/// the contract: its result is a function of the value alone.
pub trait Predicate<T> {
    /// Whether `value` belongs to the accepted set.
    spec fn holds(value: T) -> bool;

    /// The text that describes a violation.
    spec fn message() -> Seq<char>;

    /// Decides whether `value` satisfies the predicate.
    fn test(value: &T) -> (ok: bool)
        ensures
            ok == Self::holds(*value),
    ;

    /// The message to report when the predicate does not hold.
    fn error() -> (msg: ErrorMessage)
        ensures
            msg@ == Self::message(),
    ;
}

/// A predicate that is materialised once as a value and then reused.
///
/// The state may only make testing cheaper: an instance accepts exactly the
/// values that the stateless [`Predicate`] of the same type accepts, and
/// reports the same message.
pub trait StatefulPredicate<T>: Default + Predicate<T> {
    /// Decides whether `value` satisfies the predicate, using the state.
    fn test(&self, value: &T) -> (ok: bool)
        ensures
            ok == <Self as Predicate<T>>::holds(*value),
    ;

    /// The message to report when the predicate does not hold.
    fn error(&self) -> (msg: ErrorMessage)
        ensures
            msg@ == <Self as Predicate<T>>::message(),
    {
        <Self as Predicate<T>>::error()
    }
}

/// A raw value on its way into a refinement: nothing is known of it yet.
#[derive(Debug, Clone, PartialEq, Eq)]
pub struct Refined<T>(pub T);

/// The failure of a refinement: the predicate did not hold.
#[derive(Debug, Clone, PartialEq, Eq, PartialOrd, Ord, Hash)]
pub struct RefinementError(ErrorMessage);

impl View for RefinementError {
    type V = Seq<char>;

    /// The message of the predicate that was violated.
    closed spec fn view(&self) -> Seq<char> {
        self.0@
    }
}

impl RefinementError {
    /// Records that a predicate with the given message was violated.
    pub(crate) fn new(message: ErrorMessage) -> (e: Self)
        ensures
            e@ == message@,
    {
        RefinementError(message)
    }

    /// The message of the violated predicate.
    pub fn message(&self) -> (m: &str)
        ensures
            m@ == self@,
    {
        self.0.as_str()
    }

    /// The error as shown to a user: a fixed prefix, then the message.
    pub fn to_string(&self) -> (s: String)
        ensures
            s@ == "refinement violated: "@ + self@,
    {
        String::from_str("refinement violated: ").concat(self.0.as_str())
    }
}

/// Operations available on every refinement.
pub trait RefinementOps: Sized {
    /// The type of the refined value.
    type T;

    /// The value held.
    spec fn inner(&self) -> Self::T;

    /// Whether the imbued predicate accepts `value`.
    spec fn admits(value: Self::T) -> bool;

    /// The message of the imbued predicate.
    spec fn violation() -> Seq<char>;

    /// The held value, of which the predicate is known to hold.
    fn get(&self) -> (value: &Self::T)
        ensures
            *value == self.inner(),
            Self::admits(*value),
    ;

    /// Refines a value: succeeds exactly when the predicate accepts it.
    fn refine(value: Self::T) -> (r: Result<Self, RefinementError>)
        ensures
            Self::admits(value) ==> r is Ok && r->Ok_0.inner() == value,
            !Self::admits(value) ==> r is Err && r->Err_0@ == Self::violation(),
    ;

    /// Applies `fun` to the held value and refines what it returns. The
    /// refinement is consumed whatever the outcome.
    fn modify<F>(self, fun: F) -> (r: Result<Self, RefinementError>) where
        F: FnOnce(Self::T) -> Self::T,

        requires
            call_requires(fun, (self.inner(),)),
        ensures
            match r {
                Ok(next) => call_ensures(fun, (self.inner(),), next.inner()) && Self::admits(
                    next.inner(),
                ),
                Err(e) => e@ == Self::violation() && exists|out: Self::T|
                    call_ensures(fun, (self.inner(),), out) && !Self::admits(out),
            },
    {
        let out = fun(self.take());
        Self::refine(out)
    }

    /// Replaces the held value by `value`, which is refined anew. Putting back
    /// the value that was held always succeeds.
    fn replace(self, value: Self::T) -> (r: Result<Self, RefinementError>)
        ensures
            Self::admits(value) ==> r is Ok && r->Ok_0.inner() == value,
            !Self::admits(value) ==> r is Err && r->Err_0@ == Self::violation(),
            value == self.inner() ==> r is Ok && r->Ok_0.inner() == self.inner(),
    {
        let _previous = self.take();
        Self::refine(value)
    }

    /// Gives up the refinement and returns the value it held.
    fn take(self) -> (value: Self::T)
        ensures
            value == self.inner(),
            Self::admits(value),
    ;

    /// Gives up the refinement and returns the value it held.
    fn extract(self) -> (value: Self::T)
        ensures
            value == self.inner(),
            Self::admits(value),
    ;
}

/// Operations available on every refinement whose predicate can be materialised.
pub trait StatefulRefinementOps<T, P: StatefulPredicate<T>>: RefinementOps<T = T> {
    /// Refines a value with a materialised predicate: succeeds exactly when
    /// the predicate accepts it, as the stateless path does.
    fn refine_with_state(predicate: &P, value: T) -> (r: Result<Self, RefinementError>)
        ensures
            Self::admits(value) ==> r is Ok && r->Ok_0.inner() == value,
            !Self::admits(value) ==> r is Err && r->Err_0@ == Self::violation(),
    ;

    /// Applies `fun` to the held value and refines what it returns with a
    /// materialised predicate. The refinement is consumed whatever the outcome.
    fn modify_with_state<F>(self, predicate: &P, fun: F) -> (r: Result<Self, RefinementError>) where
        F: FnOnce(T) -> T,

        requires
            call_requires(fun, (self.inner(),)),
        ensures
            match r {
                Ok(next) => call_ensures(fun, (self.inner(),), next.inner()) && Self::admits(
                    next.inner(),
                ),
                Err(e) => e@ == Self::violation() && exists|out: T|
                    call_ensures(fun, (self.inner(),), out) && !Self::admits(out),
            },
    {
        let out = fun(self.take());
        Self::refine_with_state(predicate, out)
    }

    /// Replaces the held value by `value`, which is refined anew with a
    /// materialised predicate.
    fn replace_with_state(self, predicate: &P, value: T) -> (r: Result<Self, RefinementError>)
        ensures
            Self::admits(value) ==> r is Ok && r->Ok_0.inner() == value,
            !Self::admits(value) ==> r is Err && r->Err_0@ == Self::violation(),
            value == self.inner() ==> r is Ok && r->Ok_0.inner() == self.inner(),
    {
        let _previous = self.take();
        Self::refine_with_state(predicate, value)
    }
}

} // verus!
