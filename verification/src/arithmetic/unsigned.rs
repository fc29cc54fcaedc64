//! Arithmetic on refinements of unsigned numbers.
//!
//! Addition, multiplication and division are available for bounds of any
//! shape; an absent lower bound counts as zero. Subtraction asks for both
//! bounds on both operands.
use vstd::prelude::*;
use vstd::arithmetic::div_mod::{lemma_div_is_ordered, lemma_div_is_ordered_by_denominator};
use crate::boundable::unsigned::UnsignedBoundable;
use crate::implication::{within_is_sound, Ranged, Span};
use crate::{Refinement, RefinementOps};

verus! {

/// The least magnitude that an interval of unsigned magnitudes contains at
/// best: its lower end, or zero where that end is absent or negative.
pub open spec fn unsigned_floor(a: Span) -> int {
    match a.low {
        Some(l) => if l > 0 {
            l
        } else {
            0
        },
        None => 0,
    }
}

/// The interval of the sums of two unsigned magnitudes.
pub open spec fn unsigned_sum(a: Span, b: Span) -> Span {
    Span {
        low: Some(unsigned_floor(a) + unsigned_floor(b)),
        high: match (a.high, b.high) {
            (Some(x), Some(y)) => Some(x + y),
            _ => None,
        },
    }
}

/// The interval of the differences of two unsigned magnitudes.
pub open spec fn unsigned_difference(a: Span, b: Span) -> Span {
    Span {
        low: match b.high {
            Some(y) => Some(unsigned_floor(a) - y),
            None => None,
        },
        high: match a.high {
            Some(x) => Some(x - unsigned_floor(b)),
            None => None,
        },
    }
}

/// The interval of the products of two unsigned magnitudes.
pub open spec fn unsigned_product(a: Span, b: Span) -> Span {
    Span {
        low: Some(unsigned_floor(a) * unsigned_floor(b)),
        high: match (a.high, b.high) {
            (Some(x), Some(y)) => Some(x * y),
            _ => None,
        },
    }
}

/// The least divisor that can occur: the floor of the interval, but not zero.
pub open spec fn least_divisor(b: Span) -> int {
    if unsigned_floor(b) > 0 {
        unsigned_floor(b)
    } else {
        1
    }
}

/// The interval of the quotients of two unsigned magnitudes, the divisor not
/// zero.
pub open spec fn unsigned_quotient(a: Span, b: Span) -> Span {
    Span {
        low: match b.high {
            Some(y) => if y > 0 {
                Some(unsigned_floor(a) / y)
            } else {
                Some(0)
            },
            None => Some(0),
        },
        high: match a.high {
            Some(x) => Some(x / least_divisor(b)),
            None => None,
        },
    }
}

/// The sum of two magnitudes lies in the sum of their intervals.
pub proof fn unsigned_sum_is_sound(a: Span, b: Span, x: int, y: int)
    requires
        a.contains(x),
        b.contains(y),
        0 <= x,
        0 <= y,
    ensures
        unsigned_sum(a, b).contains(x + y),
{
}

/// The difference of two magnitudes lies in the difference of their intervals.
pub proof fn unsigned_difference_is_sound(a: Span, b: Span, x: int, y: int)
    requires
        a.contains(x),
        b.contains(y),
        0 <= x,
        0 <= y,
    ensures
        unsigned_difference(a, b).contains(x - y),
{
}

/// The product of two magnitudes lies in the product of their intervals.
pub proof fn unsigned_product_is_sound(a: Span, b: Span, x: int, y: int)
    requires
        a.contains(x),
        b.contains(y),
        0 <= x,
        0 <= y,
    ensures
        unsigned_product(a, b).contains(x * y),
{
    let fa = unsigned_floor(a);
    let fb = unsigned_floor(b);
    assert(fa * fb <= x * y) by (nonlinear_arith)
        requires
            0 <= fa <= x,
            0 <= fb <= y,
    ;
    if a.high is Some && b.high is Some {
        let ha = a.high->Some_0;
        let hb = b.high->Some_0;
        assert(x * y <= ha * hb) by (nonlinear_arith)
            requires
                0 <= x <= ha,
                0 <= y <= hb,
        ;
    }
}

/// The quotient of two magnitudes lies in the quotient of their intervals.
pub proof fn unsigned_quotient_is_sound(a: Span, b: Span, x: int, y: int)
    requires
        a.contains(x),
        b.contains(y),
        0 <= x,
        0 < y,
    ensures
        unsigned_quotient(a, b).contains(x / y),
{
    let fa = unsigned_floor(a);
    let d = least_divisor(b);
    assert(0 <= x / y) by (nonlinear_arith)
        requires
            0 <= x,
            0 < y,
    ;
    if b.high is Some {
        let hb = b.high->Some_0;
        lemma_div_is_ordered_by_denominator(fa, y, hb);
        lemma_div_is_ordered(fa, x, y);
    }
    if a.high is Some {
        let ha = a.high->Some_0;
        lemma_div_is_ordered_by_denominator(x, d, y);
        lemma_div_is_ordered(x, ha, d);
    }
}

/// The sum of a value that `P` accepts and a value that `Q` accepts is
/// accepted by every predicate whose interval holds the sum of their intervals.
pub proof fn unsigned_sum_is_accepted<
    T: UnsignedNumber,
    P: Ranged<T>,
    Q: Ranged<T>,
    R: Ranged<T>,
>(x: T, y: T, z: T)
    requires
        P::holds(x),
        Q::holds(y),
        z.magnitude() == x.magnitude() + y.magnitude(),
        unsigned_sum(P::span(), Q::span()).within(R::span()),
    ensures
        R::holds(z),
{
    P::span_is_exact(x);
    Q::span_is_exact(y);
    R::span_is_exact(z);
    x.magnitude_in_range();
    y.magnitude_in_range();
    unsigned_sum_is_sound(P::span(), Q::span(), x.magnitude(), y.magnitude());
}

/// An unsigned number on which the four operations are available.
pub trait UnsignedNumber: UnsignedBoundable + Sized {
    /// The largest magnitude that the type can hold.
    spec fn ceiling() -> int;

    /// A magnitude is not negative and not above the ceiling.
    proof fn magnitude_in_range(&self)
        ensures
            0 <= self.magnitude() <= Self::ceiling(),
    ;

    /// The sum of two numbers.
    fn sum(self, other: Self) -> (r: Self)
        requires
            self.magnitude() + other.magnitude() <= Self::ceiling(),
        ensures
            r.magnitude() == self.magnitude() + other.magnitude(),
    ;

    /// The difference of two numbers.
    fn difference(self, other: Self) -> (r: Self)
        requires
            other.magnitude() <= self.magnitude(),
        ensures
            r.magnitude() == self.magnitude() - other.magnitude(),
    ;

    /// The product of two numbers.
    fn product(self, other: Self) -> (r: Self)
        requires
            self.magnitude() * other.magnitude() <= Self::ceiling(),
        ensures
            r.magnitude() == self.magnitude() * other.magnitude(),
    ;

    /// The quotient of two numbers, rounded down.
    fn quotient(self, other: Self) -> (r: Self)
        requires
            other.magnitude() != 0,
        ensures
            r.magnitude() == self.magnitude() / other.magnitude(),
    ;
}

impl UnsignedNumber for u8 {
    open spec fn ceiling() -> int {
        u8::MAX as int
    }

    proof fn magnitude_in_range(&self) {
    }

    fn sum(self, other: Self) -> (r: Self) {
        self + other
    }

    fn difference(self, other: Self) -> (r: Self) {
        self - other
    }

    fn product(self, other: Self) -> (r: Self) {
        self * other
    }

    fn quotient(self, other: Self) -> (r: Self) {
        self / other
    }
}

impl UnsignedNumber for u16 {
    open spec fn ceiling() -> int {
        u16::MAX as int
    }

    proof fn magnitude_in_range(&self) {
    }

    fn sum(self, other: Self) -> (r: Self) {
        self + other
    }

    fn difference(self, other: Self) -> (r: Self) {
        self - other
    }

    fn product(self, other: Self) -> (r: Self) {
        self * other
    }

    fn quotient(self, other: Self) -> (r: Self) {
        self / other
    }
}

impl UnsignedNumber for u32 {
    open spec fn ceiling() -> int {
        u32::MAX as int
    }

    proof fn magnitude_in_range(&self) {
    }

    fn sum(self, other: Self) -> (r: Self) {
        self + other
    }

    fn difference(self, other: Self) -> (r: Self) {
        self - other
    }

    fn product(self, other: Self) -> (r: Self) {
        self * other
    }

    fn quotient(self, other: Self) -> (r: Self) {
        self / other
    }
}

impl UnsignedNumber for u64 {
    open spec fn ceiling() -> int {
        u64::MAX as int
    }

    proof fn magnitude_in_range(&self) {
    }

    fn sum(self, other: Self) -> (r: Self) {
        self + other
    }

    fn difference(self, other: Self) -> (r: Self) {
        self - other
    }

    fn product(self, other: Self) -> (r: Self) {
        self * other
    }

    fn quotient(self, other: Self) -> (r: Self) {
        self / other
    }
}

impl UnsignedNumber for usize {
    open spec fn ceiling() -> int {
        usize::MAX as int
    }

    proof fn magnitude_in_range(&self) {
    }

    fn sum(self, other: Self) -> (r: Self) {
        self + other
    }

    fn difference(self, other: Self) -> (r: Self) {
        self - other
    }

    fn product(self, other: Self) -> (r: Self) {
        self * other
    }

    fn quotient(self, other: Self) -> (r: Self) {
        self / other
    }
}

/// Adds two refinements of an unsigned number. The result is a refinement by the
/// bounds of the operands alone; nothing is tested.
///
/// The sum may not exceed what `T` can hold.
pub fn unsigned_add<T: UnsignedNumber, P: Ranged<T>, Q: Ranged<T>, R: Ranged<T>>(
    x: Refinement<T, P>,
    y: Refinement<T, Q>,
) -> (r: Refinement<T, R>)
    requires
        unsigned_sum(P::span(), Q::span()).within(R::span()),
        x@.magnitude() + y@.magnitude() <= T::ceiling(),
    ensures
        r@.magnitude() == x@.magnitude() + y@.magnitude(),
        R::holds(r@),
{
    let a = x.take();
    let b = y.take();
    proof {
        P::span_is_exact(a);
        Q::span_is_exact(b);
        a.magnitude_in_range();
        b.magnitude_in_range();
        unsigned_sum_is_sound(P::span(), Q::span(), a.magnitude(), b.magnitude());
    }
    let c = a.sum(b);
    proof {
        within_is_sound(
            unsigned_sum(P::span(), Q::span()),
            R::span(),
            c.magnitude(),
        );
        R::span_is_exact(c);
    }
    Refinement::certified(c)
}

/// Subtracts two refinements of an unsigned number. The result is a refinement by the
/// bounds of the operands alone; nothing is tested.
///
/// Both operands carry both bounds, and `y` may not exceed `x`.
pub fn unsigned_sub<T: UnsignedNumber, P: Ranged<T>, Q: Ranged<T>, R: Ranged<T>>(
    x: Refinement<T, P>,
    y: Refinement<T, Q>,
) -> (r: Refinement<T, R>)
    requires
        P::span().bounded(),
        Q::span().bounded(),
        unsigned_difference(P::span(), Q::span()).within(R::span()),
        y@.magnitude() <= x@.magnitude(),
    ensures
        r@.magnitude() == x@.magnitude() - y@.magnitude(),
        R::holds(r@),
{
    let a = x.take();
    let b = y.take();
    proof {
        P::span_is_exact(a);
        Q::span_is_exact(b);
        a.magnitude_in_range();
        b.magnitude_in_range();
        unsigned_difference_is_sound(P::span(), Q::span(), a.magnitude(), b.magnitude());
    }
    let c = a.difference(b);
    proof {
        within_is_sound(
            unsigned_difference(P::span(), Q::span()),
            R::span(),
            c.magnitude(),
        );
        R::span_is_exact(c);
    }
    Refinement::certified(c)
}

/// Multiplies two refinements of an unsigned number. The result is a refinement by the
/// bounds of the operands alone; nothing is tested.
///
/// The product may not exceed what `T` can hold.
pub fn unsigned_mul<T: UnsignedNumber, P: Ranged<T>, Q: Ranged<T>, R: Ranged<T>>(
    x: Refinement<T, P>,
    y: Refinement<T, Q>,
) -> (r: Refinement<T, R>)
    requires
        unsigned_product(P::span(), Q::span()).within(R::span()),
        x@.magnitude() * y@.magnitude() <= T::ceiling(),
    ensures
        r@.magnitude() == x@.magnitude() * y@.magnitude(),
        R::holds(r@),
{
    let a = x.take();
    let b = y.take();
    proof {
        P::span_is_exact(a);
        Q::span_is_exact(b);
        a.magnitude_in_range();
        b.magnitude_in_range();
        unsigned_product_is_sound(P::span(), Q::span(), a.magnitude(), b.magnitude());
    }
    let c = a.product(b);
    proof {
        within_is_sound(
            unsigned_product(P::span(), Q::span()),
            R::span(),
            c.magnitude(),
        );
        R::span_is_exact(c);
    }
    Refinement::certified(c)
}

/// Divides two refinements of an unsigned number. The result is a refinement by the
/// bounds of the operands alone; nothing is tested.
///
/// The divisor may not be zero.
pub fn unsigned_div<T: UnsignedNumber, P: Ranged<T>, Q: Ranged<T>, R: Ranged<T>>(
    x: Refinement<T, P>,
    y: Refinement<T, Q>,
) -> (r: Refinement<T, R>)
    requires
        unsigned_quotient(P::span(), Q::span()).within(R::span()),
        y@.magnitude() != 0,
    ensures
        r@.magnitude() == x@.magnitude() / y@.magnitude(),
        R::holds(r@),
{
    let a = x.take();
    let b = y.take();
    proof {
        P::span_is_exact(a);
        Q::span_is_exact(b);
        a.magnitude_in_range();
        b.magnitude_in_range();
        unsigned_quotient_is_sound(P::span(), Q::span(), a.magnitude(), b.magnitude());
    }
    let c = a.quotient(b);
    proof {
        within_is_sound(
            unsigned_quotient(P::span(), Q::span()),
            R::span(),
            c.magnitude(),
        );
        R::span_is_exact(c);
    }
    Refinement::certified(c)
}

} // verus!
