//! The arithmetic unit: the seven operations on binary32 encodings that the
//! filters are built from, and the encodings of the constants they use.

use vstd::prelude::*;

verus! {

/// An operation of the arithmetic unit. `Sin` and `Cos` take one operand and
/// ignore the second; `Pow` raises its first operand to the second.
#[derive(Clone, Copy, Debug, PartialEq, Eq, Structural)]
pub enum Operation {
    Add,
    Sub,
    Mul,
    Div,
    Sin,
    Cos,
    Pow,
}

/// Encoding of 0.0.
pub const ZERO: u32 = 0x0000_0000;

/// Encoding of -0.0.
pub const NEG_ZERO: u32 = 0x8000_0000;

/// Encoding of 1.0.
pub const ONE: u32 = 0x3F80_0000;

/// Encoding of 2.0.
pub const TWO: u32 = 0x4000_0000;

/// Encoding of -2.0.
pub const NEG_TWO: u32 = 0xC000_0000;

/// Encoding of the binary32 number nearest to pi.
pub const PI: u32 = 0x4049_0FDB;

/// Encoding of 10.0.
pub const TEN: u32 = 0x4120_0000;

/// Encoding of 40.0.
pub const FORTY: u32 = 0x4220_0000;

/// Encoding of positive infinity, the largest encoding of a positive number.
pub const INFINITY: u32 = 0x7F80_0000;

/// An arithmetic unit accepts every operation on every pair of operands and
/// is a function: equal operands give equal results.
pub open spec fn is_arithmetic<U: Fn(Operation, u32, u32) -> u32>(unit: &U) -> bool {
    &&& forall|op: Operation, a: u32, b: u32| unit.requires((op, a, b))
    &&& forall|op: Operation, a: u32, b: u32, r: u32, s: u32|
        unit.ensures((op, a, b), r) && unit.ensures((op, a, b), s) ==> r == s
}

/// The result of `op` on `a` and `b` in `unit`.
pub open spec fn value<U: Fn(Operation, u32, u32) -> u32>(
    unit: &U,
    op: Operation,
    a: u32,
    b: u32,
) -> u32 {
    choose|r: u32| unit.ensures((op, a, b), r)
}

/// `a + b` in `unit`.
pub open spec fn sum<U: Fn(Operation, u32, u32) -> u32>(unit: &U, a: u32, b: u32) -> u32 {
    value(unit, Operation::Add, a, b)
}

/// `a - b` in `unit`.
pub open spec fn difference<U: Fn(Operation, u32, u32) -> u32>(unit: &U, a: u32, b: u32) -> u32 {
    value(unit, Operation::Sub, a, b)
}

/// `a * b` in `unit`.
pub open spec fn product<U: Fn(Operation, u32, u32) -> u32>(unit: &U, a: u32, b: u32) -> u32 {
    value(unit, Operation::Mul, a, b)
}

/// `a / b` in `unit`.
pub open spec fn quotient<U: Fn(Operation, u32, u32) -> u32>(unit: &U, a: u32, b: u32) -> u32 {
    value(unit, Operation::Div, a, b)
}

/// The sine of `a` in `unit`.
pub open spec fn sine<U: Fn(Operation, u32, u32) -> u32>(unit: &U, a: u32) -> u32 {
    value(unit, Operation::Sin, a, ZERO)
}

/// The cosine of `a` in `unit`.
pub open spec fn cosine<U: Fn(Operation, u32, u32) -> u32>(unit: &U, a: u32) -> u32 {
    value(unit, Operation::Cos, a, ZERO)
}

/// `base` raised to `exponent` in `unit`.
pub open spec fn power<U: Fn(Operation, u32, u32) -> u32>(unit: &U, base: u32, exponent: u32) -> u32 {
    value(unit, Operation::Pow, base, exponent)
}

/// Whether `x` encodes a number greater than zero (infinity included; no NaN
/// and neither zero does).
pub open spec fn is_positive(x: u32) -> bool {
    ZERO < x <= INFINITY
}

/// Whether `x` encodes a zero, of either sign.
pub open spec fn is_zero(x: u32) -> bool {
    x == ZERO || x == NEG_ZERO
}

/// Whether `x` encodes a finite number: neither an infinity nor a NaN.
pub open spec fn is_finite(x: u32) -> bool {
    x % NEG_ZERO < INFINITY
}

/// Whether `a` and `b` encode the same number: they are the same encoding,
/// or each is a zero.
pub open spec fn same_number(a: u32, b: u32) -> bool {
    a == b || (is_zero(a) && is_zero(b))
}

/// Whether `unit` has the neutral elements of binary32 arithmetic on finite
/// numbers: one times a number is that number, zero times a number is a
/// zero, and a number plus or minus a zero is that number.
pub open spec fn has_neutral_elements<U: Fn(Operation, u32, u32) -> u32>(unit: &U) -> bool {
    &&& forall|x: u32| is_finite(x) ==> #[trigger] product(unit, ONE, x) == x
    &&& forall|x: u32| is_finite(x) ==> is_zero(#[trigger] product(unit, ZERO, x))
    &&& forall|x: u32, z: u32|
        is_finite(x) && is_zero(z) ==> same_number(#[trigger] sum(unit, x, z), x)
    &&& forall|x: u32, z: u32|
        is_finite(x) && is_zero(z) ==> same_number(#[trigger] difference(unit, x, z), x)
}

/// Carries out `op` on `a` and `b`.
pub fn apply<U: Fn(Operation, u32, u32) -> u32>(unit: &U, op: Operation, a: u32, b: u32) -> (r: u32)
    requires
        is_arithmetic(unit),
    ensures
        r == value(unit, op, a, b),
{
    unit(op, a, b)
}

} // verus!
