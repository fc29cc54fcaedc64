//! The accepted set of a bounding predicate as an interval, and the relation
//! "accepts no more than" between two such predicates, decided from their
//! literal bounds alone.
use vstd::prelude::*;
use crate::boolean::And;
use crate::boundable::Boundable;
use crate::{Predicate, Refinement, RefinementOps};

verus! {

/// A set of integers between two inclusive ends, each of which may be absent.
pub struct Span {
    /// The least member, where the set is bounded below.
    pub low: Option<int>,
    /// The greatest member, where the set is bounded above.
    pub high: Option<int>,
}

impl Span {
    /// Whether `v` lies between the two ends.
    pub open spec fn contains(self, v: int) -> bool {
        &&& self.low matches Some(l) ==> l <= v
        &&& self.high matches Some(h) ==> v <= h
    }

    /// Whether both ends are present.
    pub open spec fn bounded(self) -> bool {
        self.low is Some && self.high is Some
    }

    /// Whether each end of `self` lies literally inside `other`: where `other`
    /// has an end, `self` has one too and it is no further out.
    pub open spec fn within(self, other: Span) -> bool {
        &&& other.low matches Some(b) ==> (self.low matches Some(a) && b <= a)
        &&& other.high matches Some(b) ==> (self.high matches Some(a) && a <= b)
    }

    /// The interval of what both `self` and `other` contain.
    pub open spec fn meet(self, other: Span) -> Span {
        Span {
            low: match (self.low, other.low) {
                (Some(a), Some(b)) => Some(
                    if a >= b {
                        a
                    } else {
                        b
                    },
                ),
                (Some(a), None) => Some(a),
                (None, b) => b,
            },
            high: match (self.high, other.high) {
                (Some(a), Some(b)) => Some(
                    if a <= b {
                        a
                    } else {
                        b
                    },
                ),
                (Some(a), None) => Some(a),
                (None, b) => b,
            },
        }
    }
}

/// The literal bounds of a predicate, as values.
#[derive(Clone, Copy, Debug, PartialEq, Eq)]
pub struct Bounds {
    /// The least accepted magnitude, where there is one.
    pub low: Option<i128>,
    /// The greatest accepted magnitude, where there is one.
    pub high: Option<i128>,
}

impl View for Bounds {
    type V = Span;

    open spec fn view(&self) -> Span {
        Span {
            low: match self.low {
                Some(l) => Some(l as int),
                None => None,
            },
            high: match self.high {
                Some(h) => Some(h as int),
                None => None,
            },
        }
    }
}

impl Bounds {
    /// Decides whether `v` lies between the two ends.
    pub fn contains(&self, v: i128) -> (b: bool)
        ensures
            b == self@.contains(v as int),
    {
        let above = match self.low {
            Some(l) => l <= v,
            None => true,
        };
        let below = match self.high {
            Some(h) => v <= h,
            None => true,
        };
        above && below
    }

    /// Decides whether these bounds lie literally inside `other`.
    pub fn within(&self, other: &Bounds) -> (b: bool)
        ensures
            b == self@.within(other@),
    {
        let low = match other.low {
            Some(b) => match self.low {
                Some(a) => b <= a,
                None => false,
            },
            None => true,
        };
        let high = match other.high {
            Some(b) => match self.high {
                Some(a) => a <= b,
                None => false,
            },
            None => true,
        };
        low && high
    }

    /// The bounds of what both `self` and `other` contain.
    pub fn meet(&self, other: &Bounds) -> (b: Bounds)
        ensures
            b@ == self@.meet(other@),
    {
        let low = match (self.low, other.low) {
            (Some(a), Some(b)) => Some(
                if a >= b {
                    a
                } else {
                    b
                },
            ),
            (Some(a), None) => Some(a),
            (None, b) => b,
        };
        let high = match (self.high, other.high) {
            (Some(a), Some(b)) => Some(
                if a <= b {
                    a
                } else {
                    b
                },
            ),
            (Some(a), None) => Some(a),
            (None, b) => b,
        };
        Bounds { low, high }
    }
}

/// A predicate that accepts exactly the values whose magnitude lies in an
/// interval with literal ends.
pub trait Ranged<T: Boundable>: Predicate<T> {
    /// The interval of accepted magnitudes.
    spec fn span() -> Span;

    /// The literal ends of the interval.
    fn bounds() -> (b: Bounds)
        ensures
            b@ == Self::span(),
    ;

    /// The predicate holds of a value exactly when its magnitude lies in the
    /// interval.
    proof fn span_is_exact(value: T)
        ensures
            Self::holds(value) <==> Self::span().contains(value.magnitude()),
    ;
}

impl<T: Boundable, A: Ranged<T>, B: Ranged<T>> Ranged<T> for And<A, B> {
    open spec fn span() -> Span {
        A::span().meet(B::span())
    }

    fn bounds() -> (b: Bounds) {
        A::bounds().meet(&B::bounds())
    }

    proof fn span_is_exact(value: T) {
        A::span_is_exact(value);
        B::span_is_exact(value);
    }
}

/// Whether `P` implies `Q`: the interval of `P` lies literally inside that of `Q`.
pub open spec fn implies<T: Boundable, P: Ranged<T>, Q: Ranged<T>>() -> bool {
    P::span().within(Q::span())
}

/// An interval that lies inside another contains nothing that the other
/// does not.
pub proof fn within_is_sound(a: Span, b: Span, v: int)
    requires
        a.within(b),
        a.contains(v),
    ensures
        b.contains(v),
{
}

/// Lying inside is reflexive and transitive.
pub proof fn within_is_preorder(a: Span, b: Span, c: Span)
    ensures
        a.within(a),
        a.within(b) && b.within(c) ==> a.within(c),
{
}

/// Implication is sound: where the interval of `P` lies literally inside that
/// of `Q`, every value that `P` accepts is accepted by `Q`.
pub proof fn implication_is_sound<T: Boundable, P: Ranged<T>, Q: Ranged<T>>(value: T)
    requires
        implies::<T, P, Q>(),
        P::holds(value),
    ensures
        Q::holds(value),
{
    P::span_is_exact(value);
    Q::span_is_exact(value);
}

/// Decides from the literal bounds whether `P` implies `Q`.
pub fn decide_implies<T: Boundable, P: Ranged<T>, Q: Ranged<T>>() -> (b: bool)
    ensures
        b == implies::<T, P, Q>(),
{
    P::bounds().within(&Q::bounds())
}

impl<T: Boundable, P: Ranged<T>> Refinement<T, P> {
    /// Reinterprets the refinement under a wider predicate. Nothing is tested:
    /// that `P` implies `Q` is settled where the call is written.
    pub fn imply<Q: Ranged<T>>(self) -> (wide: Refinement<T, Q>)
        requires
            implies::<T, P, Q>(),
        ensures
            wide@ == self@,
            Q::holds(wide@),
    {
        let value = self.take();
        proof {
            implication_is_sound::<T, P, Q>(value);
        }
        Refinement::certified(value)
    }

    /// Reinterprets the refinement under another predicate where the literal
    /// bounds show that it is wider, and hands the refinement back unchanged
    /// where they do not.
    pub fn widen<Q: Ranged<T>>(self) -> (r: Result<Refinement<T, Q>, Refinement<T, P>>)
        ensures
            implies::<T, P, Q>() ==> r is Ok && r->Ok_0@ == self@ && Q::holds(self@),
            !implies::<T, P, Q>() ==> r is Err && r->Err_0@ == self@,
    {
        if decide_implies::<T, P, Q>() {
            Ok(self.imply())
        } else {
            Err(self)
        }
    }
}

} // verus!
