//! Refinements of `char`.
//!
//! The two ASCII classes are stated in full. The Unicode classes are tables of
//! the standard library: each is known here by name only, as a function of the
//! character.
use vstd::prelude::*;
use crate::Predicate;

verus! {

/// Whether `c` is one of the ASCII decimal digits, `0` to `9`.
pub open spec fn is_ascii_digit(c: char) -> bool {
    '0' <= c && c <= '9'
}

/// Whether `c` is an ASCII hexadecimal digit: `0` to `9`, `A` to `F` or `a` to `f`.
pub open spec fn is_ascii_hexdigit(c: char) -> bool {
    ('0' <= c && c <= '9') || ('A' <= c && c <= 'F') || ('a' <= c && c <= 'f')
}

/// What `char::is_control` answers for `c`: whether it has the Unicode general category of control codes.
pub uninterp spec fn is_control(c: char) -> bool;

/// What `char::is_lowercase` answers for `c`: whether it has the Unicode property `Lowercase`.
pub uninterp spec fn is_lowercase(c: char) -> bool;

/// What `char::is_uppercase` answers for `c`: whether it has the Unicode property `Uppercase`.
pub uninterp spec fn is_uppercase(c: char) -> bool;

/// What `char::is_numeric` answers for `c`: whether it has one of the Unicode general categories for numbers.
pub uninterp spec fn is_numeric(c: char) -> bool;

/// What `char::is_whitespace` answers for `c`: whether it has the Unicode property `White_Space`.
pub uninterp spec fn is_whitespace(c: char) -> bool;

/// `char::is_ascii_digit` is true exactly of U+0030 `0` to U+0039 `9`.
pub assume_specification[ char::is_ascii_digit ](c: &char) -> (b: bool)
    ensures
        b == is_ascii_digit(*c),
;

/// `char::is_ascii_hexdigit` is true exactly of the digits `0` to `9` and the
/// letters `A` to `F` and `a` to `f`.
pub assume_specification[ char::is_ascii_hexdigit ](c: &char) -> (b: bool)
    ensures
        b == is_ascii_hexdigit(*c),
;

/// `char::is_control` looks the character up in the Unicode tables of the standard
/// library; its answer depends on the character alone and is called
/// [`is_control`] here.
pub assume_specification[ char::is_control ](c: char) -> (b: bool)
    ensures
        b == is_control(c),
;

/// `char::is_lowercase` looks the character up in the Unicode tables of the standard
/// library; its answer depends on the character alone and is called
/// [`is_lowercase`] here.
pub assume_specification[ char::is_lowercase ](c: char) -> (b: bool)
    ensures
        b == is_lowercase(c),
;

/// `char::is_uppercase` looks the character up in the Unicode tables of the standard
/// library; its answer depends on the character alone and is called
/// [`is_uppercase`] here.
pub assume_specification[ char::is_uppercase ](c: char) -> (b: bool)
    ensures
        b == is_uppercase(c),
;

/// `char::is_numeric` looks the character up in the Unicode tables of the standard
/// library; its answer depends on the character alone and is called
/// [`is_numeric`] here.
pub assume_specification[ char::is_numeric ](c: char) -> (b: bool)
    ensures
        b == is_numeric(c),
;

/// `char::is_whitespace` looks the character up in the Unicode tables of the standard
/// library; its answer depends on the character alone and is called
/// [`is_whitespace`] here.
pub assume_specification[ char::is_whitespace ](c: char) -> (b: bool)
    ensures
        b == is_whitespace(c),
;

/// Accepts the control characters.
#[derive(Clone, Copy, Debug, PartialEq, Eq, PartialOrd, Ord, Hash, Default)]
pub struct IsControl;

impl Predicate<char> for IsControl {
    open spec fn holds(value: char) -> bool {
        is_control(value)
    }

    open spec fn message() -> Seq<char> {
        "must be a control character"@
    }

    fn test(value: &char) -> (ok: bool) {
        value.is_control()
    }

    fn error() -> (msg: String) {
        String::from_str("must be a control character")
    }
}

/// Accepts the ASCII decimal digits.
#[derive(Clone, Copy, Debug, PartialEq, Eq, PartialOrd, Ord, Hash, Default)]
pub struct IsDigit;

impl Predicate<char> for IsDigit {
    open spec fn holds(value: char) -> bool {
        is_ascii_digit(value)
    }

    open spec fn message() -> Seq<char> {
        "must be a digit"@
    }

    fn test(value: &char) -> (ok: bool) {
        value.is_ascii_digit()
    }

    fn error() -> (msg: String) {
        String::from_str("must be a digit")
    }
}

/// Accepts the lowercase characters.
#[derive(Clone, Copy, Debug, PartialEq, Eq, PartialOrd, Ord, Hash, Default)]
pub struct IsLowercase;

impl Predicate<char> for IsLowercase {
    open spec fn holds(value: char) -> bool {
        is_lowercase(value)
    }

    open spec fn message() -> Seq<char> {
        "must be a lowercase character"@
    }

    fn test(value: &char) -> (ok: bool) {
        value.is_lowercase()
    }

    fn error() -> (msg: String) {
        String::from_str("must be a lowercase character")
    }
}

/// Accepts the uppercase characters.
#[derive(Clone, Copy, Debug, PartialEq, Eq, PartialOrd, Ord, Hash, Default)]
pub struct IsUppercase;

impl Predicate<char> for IsUppercase {
    open spec fn holds(value: char) -> bool {
        is_uppercase(value)
    }

    open spec fn message() -> Seq<char> {
        "must be an uppercase character"@
    }

    fn test(value: &char) -> (ok: bool) {
        value.is_uppercase()
    }

    fn error() -> (msg: String) {
        String::from_str("must be an uppercase character")
    }
}

/// Accepts the numeric characters.
#[derive(Clone, Copy, Debug, PartialEq, Eq, PartialOrd, Ord, Hash, Default)]
pub struct IsNumeric;

impl Predicate<char> for IsNumeric {
    open spec fn holds(value: char) -> bool {
        is_numeric(value)
    }

    open spec fn message() -> Seq<char> {
        "must be a numeric character"@
    }

    fn test(value: &char) -> (ok: bool) {
        value.is_numeric()
    }

    fn error() -> (msg: String) {
        String::from_str("must be a numeric character")
    }
}

/// Accepts the whitespace characters.
#[derive(Clone, Copy, Debug, PartialEq, Eq, PartialOrd, Ord, Hash, Default)]
pub struct IsWhitespace;

impl Predicate<char> for IsWhitespace {
    open spec fn holds(value: char) -> bool {
        is_whitespace(value)
    }

    open spec fn message() -> Seq<char> {
        "must be a whitespace character"@
    }

    fn test(value: &char) -> (ok: bool) {
        value.is_whitespace()
    }

    fn error() -> (msg: String) {
        String::from_str("must be a whitespace character")
    }
}

/// Accepts the ASCII hexadecimal digits.
#[derive(Clone, Copy, Debug, PartialEq, Eq, PartialOrd, Ord, Hash, Default)]
pub struct IsHexDigit;

impl Predicate<char> for IsHexDigit {
    open spec fn holds(value: char) -> bool {
        is_ascii_hexdigit(value)
    }

    open spec fn message() -> Seq<char> {
        "must be a valid hex character"@
    }

    fn test(value: &char) -> (ok: bool) {
        value.is_ascii_hexdigit()
    }

    fn error() -> (msg: String) {
        String::from_str("must be a valid hex character")
    }
}

} // verus!
