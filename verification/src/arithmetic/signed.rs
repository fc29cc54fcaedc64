//! Arithmetic on refinements of signed numbers.
//!
//! Addition is available for bounds of any shape. Subtraction, multiplication
//! and division ask for both bounds on both operands.
use vstd::prelude::*;
use vstd::arithmetic::div_mod::{
    lemma_div_decreases, lemma_div_is_ordered, lemma_div_is_ordered_by_denominator,
    lemma_div_nonincreasing, lemma_div_pos_is_pos, lemma_fundamental_div_mod,
    lemma_mod_pos_bound,
};
use crate::boundable::signed::SignedBoundable;
use crate::implication::{within_is_sound, Ranged, Span};
use crate::{Refinement, RefinementOps};

verus! {

/// The smaller of two integers.
pub open spec fn least(a: int, b: int) -> int {
    if a <= b {
        a
    } else {
        b
    }
}

/// The greater of two integers.
pub open spec fn greatest(a: int, b: int) -> int {
    if a >= b {
        a
    } else {
        b
    }
}

/// The quotient of two integers rounded towards zero, as the machine divides
/// signed numbers. The divisor is not zero.
pub open spec fn truncated_quotient(x: int, y: int) -> int
    recommends
        y != 0,
{
    if x >= 0 {
        if y > 0 {
            x / y
        } else {
            -(x / (-y))
        }
    } else {
        if y > 0 {
            -((-x) / y)
        } else {
            (-x) / (-y)
        }
    }
}

/// The interval of the sums of two signed magnitudes.
pub open spec fn signed_sum(a: Span, b: Span) -> Span {
    Span {
        low: match (a.low, b.low) {
            (Some(x), Some(y)) => Some(x + y),
            _ => None,
        },
        high: match (a.high, b.high) {
            (Some(x), Some(y)) => Some(x + y),
            _ => None,
        },
    }
}

/// The interval of the differences of two signed magnitudes.
pub open spec fn signed_difference(a: Span, b: Span) -> Span {
    Span {
        low: match (a.low, b.high) {
            (Some(x), Some(y)) => Some(x - y),
            _ => None,
        },
        high: match (a.high, b.low) {
            (Some(x), Some(y)) => Some(x - y),
            _ => None,
        },
    }
}

/// The least of the products of the ends of two intervals.
pub open spec fn least_product(al: int, ah: int, bl: int, bh: int) -> int {
    least(least(al * bl, al * bh), least(ah * bl, ah * bh))
}

/// The greatest of the products of the ends of two intervals.
pub open spec fn greatest_product(al: int, ah: int, bl: int, bh: int) -> int {
    greatest(greatest(al * bl, al * bh), greatest(ah * bl, ah * bh))
}

/// The interval of the products of two signed magnitudes: it reaches from
/// the least to the greatest product of two ends. Without all four ends
/// nothing is known.
pub open spec fn signed_product(a: Span, b: Span) -> Span {
    match (a.low, a.high, b.low, b.high) {
        (Some(al), Some(ah), Some(bl), Some(bh)) => Span {
            low: Some(least_product(al, ah, bl, bh)),
            high: Some(greatest_product(al, ah, bl, bh)),
        },
        _ => Span { low: None, high: None },
    }
}

/// The least of the quotients of the ends of two intervals.
pub open spec fn least_quotient(al: int, ah: int, bl: int, bh: int) -> int {
    least(
        least(truncated_quotient(al, bl), truncated_quotient(al, bh)),
        least(truncated_quotient(ah, bl), truncated_quotient(ah, bh)),
    )
}

/// The greatest of the quotients of the ends of two intervals.
pub open spec fn greatest_quotient(al: int, ah: int, bl: int, bh: int) -> int {
    greatest(
        greatest(truncated_quotient(al, bl), truncated_quotient(al, bh)),
        greatest(truncated_quotient(ah, bl), truncated_quotient(ah, bh)),
    )
}

/// The interval of the quotients of two signed magnitudes, the divisor not
/// zero. The divisors below zero and those above zero are taken apart; for
/// each part the quotients reach from the least to the greatest quotient of
/// two ends. Without all four ends nothing is known.
pub open spec fn signed_quotient(a: Span, b: Span) -> Span {
    match (a.low, a.high, b.low, b.high) {
        (Some(al), Some(ah), Some(bl), Some(bh)) => {
            let above = greatest(bl, 1);
            let below = least(bh, -1);
            if bl <= -1 && 1 <= bh {
                Span {
                    low: Some(
                        least(
                            least_quotient(al, ah, bl, below),
                            least_quotient(al, ah, above, bh),
                        ),
                    ),
                    high: Some(
                        greatest(
                            greatest_quotient(al, ah, bl, below),
                            greatest_quotient(al, ah, above, bh),
                        ),
                    ),
                }
            } else if 1 <= bh {
                Span {
                    low: Some(least_quotient(al, ah, above, bh)),
                    high: Some(greatest_quotient(al, ah, above, bh)),
                }
            } else {
                Span {
                    low: Some(least_quotient(al, ah, bl, below)),
                    high: Some(greatest_quotient(al, ah, bl, below)),
                }
            }
        },
        _ => Span { low: None, high: None },
    }
}

/// The sum of two magnitudes lies in the sum of their intervals.
pub proof fn signed_sum_is_sound(a: Span, b: Span, x: int, y: int)
    requires
        a.contains(x),
        b.contains(y),
    ensures
        signed_sum(a, b).contains(x + y),
{
}

/// The difference of two magnitudes lies in the difference of their intervals.
pub proof fn signed_difference_is_sound(a: Span, b: Span, x: int, y: int)
    requires
        a.contains(x),
        b.contains(y),
    ensures
        signed_difference(a, b).contains(x - y),
{
}

/// A product lies between the products of the ends of one factor.
proof fn product_between(x: int, lo: int, hi: int, k: int)
    requires
        lo <= x <= hi,
    ensures
        least(lo * k, hi * k) <= x * k <= greatest(lo * k, hi * k),
{
    if k >= 0 {
        assert(lo * k <= x * k && x * k <= hi * k) by (nonlinear_arith)
            requires
                lo <= x <= hi,
                k >= 0,
        ;
    } else {
        assert(hi * k <= x * k && x * k <= lo * k) by (nonlinear_arith)
            requires
                lo <= x <= hi,
                k < 0,
        ;
    }
}

/// The product of two magnitudes lies in the product of their intervals.
pub proof fn signed_product_is_sound(a: Span, b: Span, x: int, y: int)
    requires
        a.contains(x),
        b.contains(y),
    ensures
        signed_product(a, b).contains(x * y),
{
    if a.bounded() && b.bounded() {
        let al = a.low->Some_0;
        let ah = a.high->Some_0;
        let bl = b.low->Some_0;
        let bh = b.high->Some_0;
        product_between(x, al, ah, y);
        product_between(y, bl, bh, al);
        product_between(y, bl, bh, ah);
        assert(al * y == y * al && ah * y == y * ah) by (nonlinear_arith);
        assert(bl * al == al * bl && bh * al == al * bh) by (nonlinear_arith);
        assert(bl * ah == ah * bl && bh * ah == ah * bh) by (nonlinear_arith);
    }
}

/// Dividing by the opposite divisor gives the opposite quotient.
pub proof fn truncated_quotient_of_opposite(x: int, y: int)
    requires
        y != 0,
    ensures
        truncated_quotient(x, -y) == -truncated_quotient(x, y),
{
}

/// For a divisor above zero the quotient grows with the dividend.
proof fn quotient_grows_with_dividend(x1: int, x2: int, y: int)
    requires
        x1 <= x2,
        y > 0,
    ensures
        truncated_quotient(x1, y) <= truncated_quotient(x2, y),
{
    if x1 >= 0 {
        lemma_div_is_ordered(x1, x2, y);
    } else if x2 < 0 {
        lemma_div_is_ordered(-x2, -x1, y);
    } else {
        lemma_div_is_ordered(0, -x1, y);
        lemma_div_is_ordered(0, x2, y);
    }
}

/// For divisors above zero the quotient lies between the quotients by the
/// least and by the greatest divisor.
proof fn quotient_between_divisors(x: int, c: int, d: int, y: int)
    requires
        1 <= c <= y <= d,
    ensures
        least(truncated_quotient(x, c), truncated_quotient(x, d)) <= truncated_quotient(x, y),
        truncated_quotient(x, y) <= greatest(truncated_quotient(x, c), truncated_quotient(x, d)),
{
    if x >= 0 {
        lemma_div_is_ordered_by_denominator(x, c, y);
        lemma_div_is_ordered_by_denominator(x, y, d);
    } else {
        lemma_div_is_ordered_by_denominator(-x, c, y);
        lemma_div_is_ordered_by_denominator(-x, y, d);
    }
}

/// For divisors of one sign the quotient lies between the least and the
/// greatest quotient of two ends.
proof fn quotient_between_ends(al: int, ah: int, c: int, d: int, x: int, y: int)
    requires
        al <= x <= ah,
        c <= y <= d,
        1 <= c || d <= -1,
    ensures
        least_quotient(al, ah, c, d) <= truncated_quotient(x, y) <= greatest_quotient(al, ah, c, d),
{
    if 1 <= c {
        quotient_between_divisors(x, c, d, y);
        quotient_grows_with_dividend(al, x, c);
        quotient_grows_with_dividend(x, ah, c);
        quotient_grows_with_dividend(al, x, d);
        quotient_grows_with_dividend(x, ah, d);
    } else {
        quotient_between_divisors(x, -d, -c, -y);
        quotient_grows_with_dividend(al, x, -c);
        quotient_grows_with_dividend(x, ah, -c);
        quotient_grows_with_dividend(al, x, -d);
        quotient_grows_with_dividend(x, ah, -d);
        truncated_quotient_of_opposite(x, -y);
        truncated_quotient_of_opposite(x, -c);
        truncated_quotient_of_opposite(x, -d);
        truncated_quotient_of_opposite(al, -c);
        truncated_quotient_of_opposite(al, -d);
        truncated_quotient_of_opposite(ah, -c);
        truncated_quotient_of_opposite(ah, -d);
    }
}

/// The quotient of two magnitudes lies in the quotient of their intervals.
pub proof fn signed_quotient_is_sound(a: Span, b: Span, x: int, y: int)
    requires
        a.contains(x),
        b.contains(y),
        y != 0,
    ensures
        signed_quotient(a, b).contains(truncated_quotient(x, y)),
{
    if a.bounded() && b.bounded() {
        let al = a.low->Some_0;
        let ah = a.high->Some_0;
        let bl = b.low->Some_0;
        let bh = b.high->Some_0;
        if y > 0 {
            quotient_between_ends(al, ah, greatest(bl, 1), bh, x, y);
        } else {
            quotient_between_ends(al, ah, bl, least(bh, -1), x, y);
        }
    }
}

/// A signed number on which the four operations are available.
pub trait SignedNumber: SignedBoundable + Sized {
    /// The least magnitude that the type can hold.
    spec fn floor() -> int;

    /// The largest magnitude that the type can hold.
    spec fn ceiling() -> int;

    /// A magnitude lies between the floor and the ceiling.
    proof fn magnitude_in_range(&self)
        ensures
            Self::floor() <= self.magnitude() <= Self::ceiling(),
    ;

    /// The sum of two numbers.
    fn sum(self, other: Self) -> (r: Self)
        requires
            Self::floor() <= self.magnitude() + other.magnitude() <= Self::ceiling(),
        ensures
            r.magnitude() == self.magnitude() + other.magnitude(),
    ;

    /// The difference of two numbers.
    fn difference(self, other: Self) -> (r: Self)
        requires
            Self::floor() <= self.magnitude() - other.magnitude() <= Self::ceiling(),
        ensures
            r.magnitude() == self.magnitude() - other.magnitude(),
    ;

    /// The product of two numbers.
    fn product(self, other: Self) -> (r: Self)
        requires
            Self::floor() <= self.magnitude() * other.magnitude() <= Self::ceiling(),
        ensures
            r.magnitude() == self.magnitude() * other.magnitude(),
    ;

    /// The quotient of two numbers, rounded towards zero.
    fn quotient(self, other: Self) -> (r: Self)
        requires
            other.magnitude() != 0,
            !(self.magnitude() == Self::floor() && other.magnitude() == -1),
        ensures
            r.magnitude() == truncated_quotient(self.magnitude(), other.magnitude()),
    ;
}

/// A quotient is no further from zero than its dividend, so it fits wherever
/// the dividend fits, unless the least number is divided by minus one.
proof fn quotient_fits(x: int, y: int, floor: int, ceiling: int)
    requires
        y != 0,
        floor <= x <= ceiling,
        floor == -ceiling - 1,
        !(x == floor && y == -1),
    ensures
        floor <= truncated_quotient(x, y) <= ceiling,
{
    let n = if x >= 0 {
        x
    } else {
        -x
    };
    let d = if y > 0 {
        y
    } else {
        -y
    };
    lemma_div_pos_is_pos(n, d);
    lemma_div_nonincreasing(n, d);
    if n > 0 && d > 1 {
        lemma_div_decreases(n, d);
    }
}

/// Against a divisor below zero, the quotient that rounds down and the
/// quotient by the opposite divisor are opposite.
proof fn quotient_by_negative(n: int, y: int)
    requires
        0 <= n,
        y < 0,
    ensures
        n / y == -(n / (-y)),
{
    let q = n / (-y);
    let r = n % (-y);
    assert(n == (-y) * q + r && 0 <= r < -y) by {
        lemma_fundamental_div_mod(n, -y);
        lemma_mod_pos_bound(n, -y);
    }
    assert(n == y * (-q) + r) by (nonlinear_arith)
        requires
            n == (-y) * q + r,
    ;
    assert(n / y == -q) by (nonlinear_arith)
        requires
            n == y * (-q) + r,
            0 <= r < -y,
            y < 0,
    ;
}

impl SignedNumber for i8 {
    open spec fn floor() -> int {
        i8::MIN as int
    }

    open spec fn ceiling() -> int {
        i8::MAX as int
    }

    proof fn magnitude_in_range(&self) {
    }

    fn sum(self, other: Self) -> (r: Self) {
        self + other
    }

    fn difference(self, other: Self) -> (r: Self) {
        self - other
    }

    fn product(self, other: Self) -> (r: Self) {
        self * other
    }

    fn quotient(self, other: Self) -> (r: Self) {
        proof {
            quotient_fits(self as int, other as int, Self::MIN as int, Self::MAX as int);
            if other < 0 {
                if self >= 0 {
                    quotient_by_negative(self as int, other as int);
                } else {
                    quotient_by_negative(-(self as int), other as int);
                }
            }
        }
        self / other
    }
}

impl SignedNumber for i16 {
    open spec fn floor() -> int {
        i16::MIN as int
    }

    open spec fn ceiling() -> int {
        i16::MAX as int
    }

    proof fn magnitude_in_range(&self) {
    }

    fn sum(self, other: Self) -> (r: Self) {
        self + other
    }

    fn difference(self, other: Self) -> (r: Self) {
        self - other
    }

    fn product(self, other: Self) -> (r: Self) {
        self * other
    }

    fn quotient(self, other: Self) -> (r: Self) {
        proof {
            quotient_fits(self as int, other as int, Self::MIN as int, Self::MAX as int);
            if other < 0 {
                if self >= 0 {
                    quotient_by_negative(self as int, other as int);
                } else {
                    quotient_by_negative(-(self as int), other as int);
                }
            }
        }
        self / other
    }
}

impl SignedNumber for i32 {
    open spec fn floor() -> int {
        i32::MIN as int
    }

    open spec fn ceiling() -> int {
        i32::MAX as int
    }

    proof fn magnitude_in_range(&self) {
    }

    fn sum(self, other: Self) -> (r: Self) {
        self + other
    }

    fn difference(self, other: Self) -> (r: Self) {
        self - other
    }

    fn product(self, other: Self) -> (r: Self) {
        self * other
    }

    fn quotient(self, other: Self) -> (r: Self) {
        proof {
            quotient_fits(self as int, other as int, Self::MIN as int, Self::MAX as int);
            if other < 0 {
                if self >= 0 {
                    quotient_by_negative(self as int, other as int);
                } else {
                    quotient_by_negative(-(self as int), other as int);
                }
            }
        }
        self / other
    }
}

impl SignedNumber for i64 {
    open spec fn floor() -> int {
        i64::MIN as int
    }

    open spec fn ceiling() -> int {
        i64::MAX as int
    }

    proof fn magnitude_in_range(&self) {
    }

    fn sum(self, other: Self) -> (r: Self) {
        self + other
    }

    fn difference(self, other: Self) -> (r: Self) {
        self - other
    }

    fn product(self, other: Self) -> (r: Self) {
        self * other
    }

    fn quotient(self, other: Self) -> (r: Self) {
        proof {
            quotient_fits(self as int, other as int, Self::MIN as int, Self::MAX as int);
            if other < 0 {
                if self >= 0 {
                    quotient_by_negative(self as int, other as int);
                } else {
                    quotient_by_negative(-(self as int), other as int);
                }
            }
        }
        self / other
    }
}

impl SignedNumber for isize {
    open spec fn floor() -> int {
        isize::MIN as int
    }

    open spec fn ceiling() -> int {
        isize::MAX as int
    }

    proof fn magnitude_in_range(&self) {
    }

    fn sum(self, other: Self) -> (r: Self) {
        self + other
    }

    fn difference(self, other: Self) -> (r: Self) {
        self - other
    }

    fn product(self, other: Self) -> (r: Self) {
        self * other
    }

    fn quotient(self, other: Self) -> (r: Self) {
        proof {
            quotient_fits(self as int, other as int, Self::MIN as int, Self::MAX as int);
            if other < 0 {
                if self >= 0 {
                    quotient_by_negative(self as int, other as int);
                } else {
                    quotient_by_negative(-(self as int), other as int);
                }
            }
        }
        self / other
    }
}

/// The sum of a value that `P` accepts and a value that `Q` accepts is
/// accepted by every predicate whose interval holds the sum of their intervals.
pub proof fn signed_sum_is_accepted<T: SignedNumber, P: Ranged<T>, Q: Ranged<T>, R: Ranged<T>>(
    x: T,
    y: T,
    z: T,
)
    requires
        P::holds(x),
        Q::holds(y),
        z.magnitude() == x.magnitude() + y.magnitude(),
        signed_sum(P::span(), Q::span()).within(R::span()),
    ensures
        R::holds(z),
{
    P::span_is_exact(x);
    Q::span_is_exact(y);
    R::span_is_exact(z);
    signed_sum_is_sound(P::span(), Q::span(), x.magnitude(), y.magnitude());
}

/// Adds two refinements of a signed number. The result is a refinement by the
/// bounds of the operands alone; nothing is tested.
///
/// The sum may not leave what `T` can hold.
pub fn signed_add<T: SignedNumber, P: Ranged<T>, Q: Ranged<T>, R: Ranged<T>>(
    x: Refinement<T, P>,
    y: Refinement<T, Q>,
) -> (r: Refinement<T, R>)
    requires
        signed_sum(P::span(), Q::span()).within(R::span()),
        T::floor() <= x@.magnitude() + y@.magnitude() <= T::ceiling(),
    ensures
        r@.magnitude() == x@.magnitude() + y@.magnitude(),
        R::holds(r@),
{
    let a = x.take();
    let b = y.take();
    proof {
        P::span_is_exact(a);
        Q::span_is_exact(b);
        signed_sum_is_sound(P::span(), Q::span(), a.magnitude(), b.magnitude());
    }
    let c = a.sum(b);
    proof {
        within_is_sound(signed_sum(P::span(), Q::span()), R::span(), c.magnitude());
        R::span_is_exact(c);
    }
    Refinement::certified(c)
}

/// Subtracts two refinements of a signed number. The result is a refinement by the
/// bounds of the operands alone; nothing is tested.
///
/// Both operands carry both bounds, and the difference may not leave what `T`
/// can hold.
pub fn signed_sub<T: SignedNumber, P: Ranged<T>, Q: Ranged<T>, R: Ranged<T>>(
    x: Refinement<T, P>,
    y: Refinement<T, Q>,
) -> (r: Refinement<T, R>)
    requires
        P::span().bounded(),
        Q::span().bounded(),
        signed_difference(P::span(), Q::span()).within(R::span()),
        T::floor() <= x@.magnitude() - y@.magnitude() <= T::ceiling(),
    ensures
        r@.magnitude() == x@.magnitude() - y@.magnitude(),
        R::holds(r@),
{
    let a = x.take();
    let b = y.take();
    proof {
        P::span_is_exact(a);
        Q::span_is_exact(b);
        signed_difference_is_sound(P::span(), Q::span(), a.magnitude(), b.magnitude());
    }
    let c = a.difference(b);
    proof {
        within_is_sound(signed_difference(P::span(), Q::span()), R::span(), c.magnitude());
        R::span_is_exact(c);
    }
    Refinement::certified(c)
}

/// Multiplies two refinements of a signed number. The result is a refinement by the
/// bounds of the operands alone; nothing is tested.
///
/// Both operands carry both bounds, and the product may not leave what `T` can
/// hold.
pub fn signed_mul<T: SignedNumber, P: Ranged<T>, Q: Ranged<T>, R: Ranged<T>>(
    x: Refinement<T, P>,
    y: Refinement<T, Q>,
) -> (r: Refinement<T, R>)
    requires
        P::span().bounded(),
        Q::span().bounded(),
        signed_product(P::span(), Q::span()).within(R::span()),
        T::floor() <= x@.magnitude() * y@.magnitude() <= T::ceiling(),
    ensures
        r@.magnitude() == x@.magnitude() * y@.magnitude(),
        R::holds(r@),
{
    let a = x.take();
    let b = y.take();
    proof {
        P::span_is_exact(a);
        Q::span_is_exact(b);
        signed_product_is_sound(P::span(), Q::span(), a.magnitude(), b.magnitude());
    }
    let c = a.product(b);
    proof {
        within_is_sound(signed_product(P::span(), Q::span()), R::span(), c.magnitude());
        R::span_is_exact(c);
    }
    Refinement::certified(c)
}

/// Divides two refinements of a signed number. The result is a refinement by the
/// bounds of the operands alone; nothing is tested.
///
/// Both operands carry both bounds, the divisor may not be zero, and the least
/// number that `T` can hold may not be divided by minus one.
pub fn signed_div<T: SignedNumber, P: Ranged<T>, Q: Ranged<T>, R: Ranged<T>>(
    x: Refinement<T, P>,
    y: Refinement<T, Q>,
) -> (r: Refinement<T, R>)
    requires
        P::span().bounded(),
        Q::span().bounded(),
        y@.magnitude() != 0,
        signed_quotient(P::span(), Q::span()).within(R::span()),
        !(x@.magnitude() == T::floor() && y@.magnitude() == -1),
    ensures
        r@.magnitude() == truncated_quotient(x@.magnitude(), y@.magnitude()),
        R::holds(r@),
{
    let a = x.take();
    let b = y.take();
    proof {
        P::span_is_exact(a);
        Q::span_is_exact(b);
        signed_quotient_is_sound(P::span(), Q::span(), a.magnitude(), b.magnitude());
    }
    let c = a.quotient(b);
    proof {
        within_is_sound(signed_quotient(P::span(), Q::span()), R::span(), c.magnitude());
        R::span_is_exact(c);
    }
    Refinement::certified(c)
}

} // verus!
