//! Double-precision numbers as plain values.
//!
//! A double is held as its IEEE-754 binary64 bit pattern: one sign bit, eleven
//! exponent bits, fifty-two fraction bits.  The comparisons with zero and one
//! below read the pattern alone.  The decimal text of a number is not derived
//! here: whoever makes a [`Number`] supplies it.

use vstd::prelude::*;

verus! {

/// The pattern whose only set bit is the sign bit: negative zero.
pub const SIGN_BIT: u64 = 0x8000_0000_0000_0000;

/// The pattern of positive infinity: every exponent bit set, no fraction bit.
pub const INFINITY: u64 = 0x7FF0_0000_0000_0000;

/// The pattern of `1.0`.
pub const ONE: u64 = 0x3FF0_0000_0000_0000;

/// The pattern without its sign bit.
pub open spec fn magnitude(bits: u64) -> int {
    bits as int % 0x8000_0000_0000_0000
}

/// The pattern is not a number: its exponent bits are all set and some
/// fraction bit is set.
pub open spec fn is_nan(bits: u64) -> bool {
    magnitude(bits) > 0x7FF0_0000_0000_0000
}

/// The pattern's sign bit is set.
pub open spec fn sign_set(bits: u64) -> bool {
    bits >= 0x8000_0000_0000_0000
}

/// The double is greater than zero: a number with the sign bit clear that is
/// not zero.
pub open spec fn positive(bits: u64) -> bool {
    !is_nan(bits) && !sign_set(bits) && magnitude(bits) != 0
}

/// The double is greater than or equal to zero: a number that is zero (of
/// either sign) or has the sign bit clear.
pub open spec fn non_negative(bits: u64) -> bool {
    !is_nan(bits) && (magnitude(bits) == 0 || !sign_set(bits))
}

/// The double lies between zero and one, both included.  Among numbers with
/// the sign bit clear the order of the doubles is the order of their patterns.
pub open spec fn unit_fraction(bits: u64) -> bool {
    non_negative(bits) && magnitude(bits) <= 0x3FF0_0000_0000_0000
}

/// Whether the double with this pattern is greater than zero.
pub fn is_positive(bits: u64) -> (r: bool)
    ensures
        r == positive(bits),
{
    0 < bits && bits <= INFINITY
}

/// Whether the double with this pattern is greater than or equal to zero.
pub fn is_non_negative(bits: u64) -> (r: bool)
    ensures
        r == non_negative(bits),
{
    bits <= INFINITY || bits == SIGN_BIT
}

/// Whether the double with this pattern lies between zero and one.
pub fn is_unit_fraction(bits: u64) -> (r: bool)
    ensures
        r == unit_fraction(bits),
{
    bits <= ONE || bits == SIGN_BIT
}

/// A double together with the decimal text that directives print for it.
#[derive(Debug)]
pub struct Number {
    bits: u64,
    text: String,
}

/// What a [`Number`] holds.
pub struct NumberView {
    /// The IEEE-754 bit pattern.
    pub bits: u64,
    /// The decimal text.
    pub text: Seq<char>,
}

impl View for Number {
    type V = NumberView;

    closed spec fn view(&self) -> NumberView {
        NumberView { bits: self.bits, text: self.text@ }
    }
}

/// The view of an optional number.
pub open spec fn number_view(number: Option<Number>) -> Option<NumberView> {
    match number {
        None => None,
        Some(n) => Some(n@),
    }
}

impl Number {
    /// A number from its bit pattern and its decimal text.
    pub fn new(bits: u64, text: &str) -> (n: Number)
        ensures
            n@ == (NumberView { bits, text: text@ }),
    {
        Number { bits, text: text.to_owned() }
    }

    /// The bit pattern.
    pub fn bits(&self) -> (b: u64)
        ensures
            b == self@.bits,
    {
        self.bits
    }

    /// The decimal text.
    pub fn text(&self) -> (t: &str)
        ensures
            t@ == self@.text,
    {
        self.text.as_str()
    }
}

impl Clone for Number {
    fn clone(&self) -> (n: Number)
        ensures
            n@ == self@,
    {
        Number { bits: self.bits, text: self.text.clone() }
    }
}

} // verus!
