//! Bounds on values that reduce to a signed magnitude.
//!
//! A bound is a literal lifted into a type: [`Pos<N>`] stands for `N`,
//! [`Neg<N>`] for `-N`.
use vstd::prelude::*;
use core::marker::PhantomData;
use crate::boolean::And;
use crate::boundable::Boundable;
use crate::decimal::{render_signed, signed_decimal};
use crate::implication::{Bounds, Ranged, Span};
use crate::Predicate;

verus! {

/// A value that reduces to a signed magnitude: a signed number.
pub trait SignedBoundable: Boundable {
    /// The magnitude of the value.
    fn bounding_value(&self) -> (m: i64)
        ensures
            m == self.magnitude(),
    ;
}

impl Boundable for i8 {
    open spec fn magnitude(&self) -> int {
        *self as int
    }
}

impl SignedBoundable for i8 {
    fn bounding_value(&self) -> (m: i64) {
        *self as i64
    }
}

impl Boundable for i16 {
    open spec fn magnitude(&self) -> int {
        *self as int
    }
}

impl SignedBoundable for i16 {
    fn bounding_value(&self) -> (m: i64) {
        *self as i64
    }
}

impl Boundable for i32 {
    open spec fn magnitude(&self) -> int {
        *self as int
    }
}

impl SignedBoundable for i32 {
    fn bounding_value(&self) -> (m: i64) {
        *self as i64
    }
}

impl Boundable for i64 {
    open spec fn magnitude(&self) -> int {
        *self as int
    }
}

impl SignedBoundable for i64 {
    fn bounding_value(&self) -> (m: i64) {
        *self as i64
    }
}

impl Boundable for isize {
    open spec fn magnitude(&self) -> int {
        *self as int
    }
}

impl SignedBoundable for isize {
    fn bounding_value(&self) -> (m: i64) {
        *self as i64
    }
}

/// The largest absolute value of a literal bound.
pub const LITERAL_LIMIT: i128 = 0xffff_ffff_ffff_ffff;

/// A signed literal lifted into a type.
pub trait SignedLiteral {
    /// The integer that the type stands for.
    spec fn value() -> int;

    /// The integer that the type stands for.
    fn get() -> (v: i128)
        ensures
            v == Self::value(),
            -LITERAL_LIMIT <= v <= LITERAL_LIMIT,
    ;
}

/// The literal `N`.
#[derive(Clone, Copy, Debug, PartialEq, Eq, PartialOrd, Ord, Hash, Default)]
pub struct Pos<const N: u64>;

/// The literal `-N`.
#[derive(Clone, Copy, Debug, PartialEq, Eq, PartialOrd, Ord, Hash, Default)]
pub struct Neg<const N: u64>;

impl<const N: u64> SignedLiteral for Pos<N> {
    open spec fn value() -> int {
        N as int
    }

    fn get() -> (v: i128) {
        N as i128
    }
}

impl<const N: u64> SignedLiteral for Neg<N> {
    open spec fn value() -> int {
        -(N as int)
    }

    fn get() -> (v: i128) {
        -(N as i128)
    }
}

/// Writes a literal bound in decimal notation.
fn render_literal(v: i128) -> (s: String)
    requires
        -LITERAL_LIMIT <= v <= LITERAL_LIMIT,
    ensures
        s@ == signed_decimal(v as int),
{
    if v < 0 {
        render_signed(true, (-v) as u64)
    } else {
        render_signed(false, v as u64)
    }
}

/// Accepts magnitudes strictly below `MAX`.
#[derive(Debug, PartialEq, Eq, PartialOrd, Ord, Hash, Default)]
pub struct LessThan<MAX: SignedLiteral> {
    bound: PhantomData<MAX>,
}

impl<T: SignedBoundable, MAX: SignedLiteral> Predicate<T> for LessThan<MAX> {
    open spec fn holds(value: T) -> bool {
        value.magnitude() < MAX::value()
    }

    open spec fn message() -> Seq<char> {
        "must be less than "@ + signed_decimal(MAX::value())
    }

    fn test(value: &T) -> (ok: bool) {
        let v = value.bounding_value() as i128;
        v < MAX::get()
    }

    fn error() -> (msg: String) {
        String::from_str("must be less than ").concat(render_literal(MAX::get()).as_str())
    }
}

impl<T: SignedBoundable, MAX: SignedLiteral> Ranged<T> for LessThan<MAX> {
    open spec fn span() -> Span {
        Span { low: None, high: Some(MAX::value() - 1) }
    }

    fn bounds() -> (b: Bounds) {
        Bounds { low: None, high: Some(MAX::get() - 1) }
    }

    proof fn span_is_exact(value: T) {
    }
}

/// Accepts magnitudes up to and including `MAX`.
#[derive(Debug, PartialEq, Eq, PartialOrd, Ord, Hash, Default)]
pub struct LessThanEqual<MAX: SignedLiteral> {
    bound: PhantomData<MAX>,
}

impl<T: SignedBoundable, MAX: SignedLiteral> Predicate<T> for LessThanEqual<MAX> {
    open spec fn holds(value: T) -> bool {
        value.magnitude() <= MAX::value()
    }

    open spec fn message() -> Seq<char> {
        "must be less than or equal to "@ + signed_decimal(MAX::value())
    }

    fn test(value: &T) -> (ok: bool) {
        let v = value.bounding_value() as i128;
        v <= MAX::get()
    }

    fn error() -> (msg: String) {
        String::from_str("must be less than or equal to ").concat(render_literal(MAX::get()).as_str())
    }
}

impl<T: SignedBoundable, MAX: SignedLiteral> Ranged<T> for LessThanEqual<MAX> {
    open spec fn span() -> Span {
        Span { low: None, high: Some(MAX::value()) }
    }

    fn bounds() -> (b: Bounds) {
        Bounds { low: None, high: Some(MAX::get()) }
    }

    proof fn span_is_exact(value: T) {
    }
}

/// Accepts magnitudes strictly above `MIN`.
#[derive(Debug, PartialEq, Eq, PartialOrd, Ord, Hash, Default)]
pub struct GreaterThan<MIN: SignedLiteral> {
    bound: PhantomData<MIN>,
}

impl<T: SignedBoundable, MIN: SignedLiteral> Predicate<T> for GreaterThan<MIN> {
    open spec fn holds(value: T) -> bool {
        value.magnitude() > MIN::value()
    }

    open spec fn message() -> Seq<char> {
        "must be greater than "@ + signed_decimal(MIN::value())
    }

    fn test(value: &T) -> (ok: bool) {
        let v = value.bounding_value() as i128;
        v > MIN::get()
    }

    fn error() -> (msg: String) {
        String::from_str("must be greater than ").concat(render_literal(MIN::get()).as_str())
    }
}

impl<T: SignedBoundable, MIN: SignedLiteral> Ranged<T> for GreaterThan<MIN> {
    open spec fn span() -> Span {
        Span { low: Some(MIN::value() + 1), high: None }
    }

    fn bounds() -> (b: Bounds) {
        Bounds { low: Some(MIN::get() + 1), high: None }
    }

    proof fn span_is_exact(value: T) {
    }
}

/// Accepts magnitudes from `MIN` upwards, `MIN` included.
#[derive(Debug, PartialEq, Eq, PartialOrd, Ord, Hash, Default)]
pub struct GreaterThanEqual<MIN: SignedLiteral> {
    bound: PhantomData<MIN>,
}

impl<T: SignedBoundable, MIN: SignedLiteral> Predicate<T> for GreaterThanEqual<MIN> {
    open spec fn holds(value: T) -> bool {
        value.magnitude() >= MIN::value()
    }

    open spec fn message() -> Seq<char> {
        "must be greater than or equal to "@ + signed_decimal(MIN::value())
    }

    fn test(value: &T) -> (ok: bool) {
        let v = value.bounding_value() as i128;
        v >= MIN::get()
    }

    fn error() -> (msg: String) {
        String::from_str("must be greater than or equal to ").concat(render_literal(MIN::get()).as_str())
    }
}

impl<T: SignedBoundable, MIN: SignedLiteral> Ranged<T> for GreaterThanEqual<MIN> {
    open spec fn span() -> Span {
        Span { low: Some(MIN::value()), high: None }
    }

    fn bounds() -> (b: Bounds) {
        Bounds { low: Some(MIN::get()), high: None }
    }

    proof fn span_is_exact(value: T) {
    }
}

/// Accepts magnitudes strictly between `MIN` and `MAX`.
pub type OpenInterval<MIN, MAX> = And<GreaterThan<MIN>, LessThan<MAX>>;

/// Accepts magnitudes from `MIN` to `MAX`, both included.
pub type ClosedInterval<MIN, MAX> = And<GreaterThanEqual<MIN>, LessThanEqual<MAX>>;

/// Accepts magnitudes above `MIN` and up to `MAX`: `MIN` excluded, `MAX` included.
pub type OpenClosedInterval<MIN, MAX> = And<GreaterThan<MIN>, LessThanEqual<MAX>>;

/// Accepts magnitudes from `MIN` and below `MAX`: `MIN` included, `MAX` excluded.
pub type ClosedOpenInterval<MIN, MAX> = And<GreaterThanEqual<MIN>, LessThan<MAX>>;

} // verus!
