//! Bounds on values that reduce to an unsigned magnitude.
use vstd::prelude::*;
use vstd::utf8::encode_utf8;
use crate::boolean::And;
use crate::boundable::Boundable;
use crate::decimal::{decimal, render};
use crate::implication::{Bounds, Ranged, Span};
use crate::Predicate;

verus! {

/// A value that reduces to an unsigned magnitude: an unsigned number, or the
/// length of a container.
pub trait UnsignedBoundable: Boundable {
    /// The magnitude of the value.
    fn bounding_value(&self) -> (m: u64)
        ensures
            m == self.magnitude(),
    ;
}

impl Boundable for u8 {
    open spec fn magnitude(&self) -> int {
        *self as int
    }
}

impl UnsignedBoundable for u8 {
    fn bounding_value(&self) -> (m: u64) {
        *self as u64
    }
}

impl Boundable for u16 {
    open spec fn magnitude(&self) -> int {
        *self as int
    }
}

impl UnsignedBoundable for u16 {
    fn bounding_value(&self) -> (m: u64) {
        *self as u64
    }
}

impl Boundable for u32 {
    open spec fn magnitude(&self) -> int {
        *self as int
    }
}

impl UnsignedBoundable for u32 {
    fn bounding_value(&self) -> (m: u64) {
        *self as u64
    }
}

impl Boundable for u64 {
    open spec fn magnitude(&self) -> int {
        *self as int
    }
}

impl UnsignedBoundable for u64 {
    fn bounding_value(&self) -> (m: u64) {
        *self as u64
    }
}

impl Boundable for usize {
    open spec fn magnitude(&self) -> int {
        *self as int
    }
}

impl UnsignedBoundable for usize {
    fn bounding_value(&self) -> (m: u64) {
        *self as u64
    }
}

impl Boundable for String {
    /// The length of the string in bytes, as `usize` holds it.
    open spec fn magnitude(&self) -> int {
        (encode_utf8(self@).len() as usize) as int
    }
}

impl UnsignedBoundable for String {
    fn bounding_value(&self) -> (m: u64) {
        self.as_str().len() as u64
    }
}

impl<T> Boundable for Vec<T> {
    /// The number of elements.
    open spec fn magnitude(&self) -> int {
        self@.len() as int
    }
}

impl<T> UnsignedBoundable for Vec<T> {
    fn bounding_value(&self) -> (m: u64) {
        self.len() as u64
    }
}

/// Accepts magnitudes strictly below `MAX`.
#[derive(Clone, Copy, Debug, PartialEq, Eq, PartialOrd, Ord, Hash, Default)]
pub struct LessThan<const MAX: u64>;

impl<T: UnsignedBoundable, const MAX: u64> Predicate<T> for LessThan<MAX> {
    open spec fn holds(value: T) -> bool {
        value.magnitude() < MAX
    }

    open spec fn message() -> Seq<char> {
        "must be less than "@ + decimal(MAX as nat)
    }

    fn test(value: &T) -> (ok: bool) {
        let v = value.bounding_value();
        v < MAX
    }

    fn error() -> (msg: String) {
        String::from_str("must be less than ").concat(render(MAX).as_str())
    }
}

impl<T: UnsignedBoundable, const MAX: u64> Ranged<T> for LessThan<MAX> {
    open spec fn span() -> Span {
        Span { low: None, high: Some(MAX as int - 1) }
    }

    fn bounds() -> (b: Bounds) {
        Bounds { low: None, high: Some(MAX as i128 - 1) }
    }

    proof fn span_is_exact(value: T) {
    }
}

/// Accepts magnitudes up to and including `MAX`.
#[derive(Clone, Copy, Debug, PartialEq, Eq, PartialOrd, Ord, Hash, Default)]
pub struct LessThanEqual<const MAX: u64>;

impl<T: UnsignedBoundable, const MAX: u64> Predicate<T> for LessThanEqual<MAX> {
    open spec fn holds(value: T) -> bool {
        value.magnitude() <= MAX
    }

    open spec fn message() -> Seq<char> {
        "must be less than or equal to "@ + decimal(MAX as nat)
    }

    fn test(value: &T) -> (ok: bool) {
        let v = value.bounding_value();
        v <= MAX
    }

    fn error() -> (msg: String) {
        String::from_str("must be less than or equal to ").concat(render(MAX).as_str())
    }
}

impl<T: UnsignedBoundable, const MAX: u64> Ranged<T> for LessThanEqual<MAX> {
    open spec fn span() -> Span {
        Span { low: None, high: Some(MAX as int) }
    }

    fn bounds() -> (b: Bounds) {
        Bounds { low: None, high: Some(MAX as i128) }
    }

    proof fn span_is_exact(value: T) {
    }
}

/// Accepts magnitudes strictly above `MIN`.
#[derive(Clone, Copy, Debug, PartialEq, Eq, PartialOrd, Ord, Hash, Default)]
pub struct GreaterThan<const MIN: u64>;

impl<T: UnsignedBoundable, const MIN: u64> Predicate<T> for GreaterThan<MIN> {
    open spec fn holds(value: T) -> bool {
        value.magnitude() > MIN
    }

    open spec fn message() -> Seq<char> {
        "must be greater than "@ + decimal(MIN as nat)
    }

    fn test(value: &T) -> (ok: bool) {
        let v = value.bounding_value();
        v > MIN
    }

    fn error() -> (msg: String) {
        String::from_str("must be greater than ").concat(render(MIN).as_str())
    }
}

impl<T: UnsignedBoundable, const MIN: u64> Ranged<T> for GreaterThan<MIN> {
    open spec fn span() -> Span {
        Span { low: Some(MIN as int + 1), high: None }
    }

    fn bounds() -> (b: Bounds) {
        Bounds { low: Some(MIN as i128 + 1), high: None }
    }

    proof fn span_is_exact(value: T) {
    }
}

/// Accepts magnitudes from `MIN` upwards, `MIN` included.
#[derive(Clone, Copy, Debug, PartialEq, Eq, PartialOrd, Ord, Hash, Default)]
pub struct GreaterThanEqual<const MIN: u64>;

impl<T: UnsignedBoundable, const MIN: u64> Predicate<T> for GreaterThanEqual<MIN> {
    open spec fn holds(value: T) -> bool {
        value.magnitude() >= MIN
    }

    open spec fn message() -> Seq<char> {
        "must be greater than or equal to "@ + decimal(MIN as nat)
    }

    fn test(value: &T) -> (ok: bool) {
        let v = value.bounding_value();
        v >= MIN
    }

    fn error() -> (msg: String) {
        String::from_str("must be greater than or equal to ").concat(render(MIN).as_str())
    }
}

impl<T: UnsignedBoundable, const MIN: u64> Ranged<T> for GreaterThanEqual<MIN> {
    open spec fn span() -> Span {
        Span { low: Some(MIN as int), high: None }
    }

    fn bounds() -> (b: Bounds) {
        Bounds { low: Some(MIN as i128), high: None }
    }

    proof fn span_is_exact(value: T) {
    }
}

/// Accepts magnitudes strictly between `MIN` and `MAX`.
pub type OpenInterval<const MIN: u64, const MAX: u64> = And<GreaterThan<MIN>, LessThan<MAX>>;

/// Accepts magnitudes from `MIN` to `MAX`, both included.
pub type ClosedInterval<const MIN: u64, const MAX: u64> = And<
    GreaterThanEqual<MIN>,
    LessThanEqual<MAX>,
>;

/// Accepts magnitudes above `MIN` and up to `MAX`: `MIN` excluded, `MAX` included.
pub type OpenClosedInterval<const MIN: u64, const MAX: u64> = And<
    GreaterThan<MIN>,
    LessThanEqual<MAX>,
>;

/// Accepts magnitudes from `MIN` and below `MAX`: `MIN` included, `MAX` excluded.
pub type ClosedOpenInterval<const MIN: u64, const MAX: u64> = And<
    GreaterThanEqual<MIN>,
    LessThan<MAX>,
>;

} // verus!
