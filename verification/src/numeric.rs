//! Arithmetic on IEEE 754 single-precision values, held as their raw 32-bit
//! patterns.
//!
//! The verifier does not reason about floating point, so every operation is
//! given a name (an uninterpreted function of the operand bit patterns) and
//! carried out by a trusted call into an outside soft-float routine:
//! `rustc_apfloat` for the basic operations, comparisons and decimal parsing,
//! and `libm` for the power function. All of these are pure functions of
//! their operands' bits, identical on every machine.

use vstd::prelude::*;
use rustc_apfloat::Float;
use rustc_apfloat::ieee::Single;

verus! {

/// The bit pattern of the IEEE 754 sum of the two values with bit patterns
/// `a` and `b`, rounding to nearest, ties to even.
pub uninterp spec fn add_bits(a: u32, b: u32) -> u32;

/// The bit pattern of the IEEE 754 difference of the two values.
pub uninterp spec fn sub_bits(a: u32, b: u32) -> u32;

/// The bit pattern of the IEEE 754 product of the two values.
pub uninterp spec fn mul_bits(a: u32, b: u32) -> u32;

/// The bit pattern of the IEEE 754 quotient of the two values.
pub uninterp spec fn div_bits(a: u32, b: u32) -> u32;

/// The bit pattern of the value with bit pattern `a` raised to the value
/// with bit pattern `b`.
pub uninterp spec fn pow_bits(a: u32, b: u32) -> u32;

/// The bit pattern of the IEEE 754 negation of the value with bit pattern
/// `a` (its sign bit flipped).
pub uninterp spec fn neg_bits(a: u32) -> u32;

/// Whether the two values compare equal under IEEE 754 (`NaN` equal to
/// nothing, `-0` equal to `0`).
pub uninterp spec fn eq_bits(a: u32, b: u32) -> bool;

/// Whether the two values compare unequal under IEEE 754.
pub uninterp spec fn ne_bits(a: u32, b: u32) -> bool;

/// Whether the first value is less than the second under IEEE 754.
pub uninterp spec fn lt_bits(a: u32, b: u32) -> bool;

/// Whether the first value is less than or equal to the second under
/// IEEE 754.
pub uninterp spec fn le_bits(a: u32, b: u32) -> bool;

/// Whether the first value is greater than the second under IEEE 754.
pub uninterp spec fn gt_bits(a: u32, b: u32) -> bool;

/// Whether the first value is greater than or equal to the second under
/// IEEE 754.
pub uninterp spec fn ge_bits(a: u32, b: u32) -> bool;

/// The bit pattern of the IEEE 754 single-precision value nearest to the
/// decimal numeral written in `s` (digits with at most one dot), rounding
/// ties to even.
pub uninterp spec fn bits_of_decimal(s: Seq<char>) -> u32;

/// Relies on `rustc_apfloat`'s `Add` for `ieee::Single`: the IEEE 754
/// single-precision sum, rounding to nearest, ties to even.
#[verifier::external_body]
pub(crate) fn float_add(a: u32, b: u32) -> (r: u32)
    ensures
        r == add_bits(a, b),
{
    (Single::from_bits(a as u128) + Single::from_bits(b as u128)).value.to_bits() as u32
}

/// Relies on `rustc_apfloat`'s `Sub` for `ieee::Single`: the IEEE 754
/// single-precision difference, rounding to nearest, ties to even.
#[verifier::external_body]
pub(crate) fn float_sub(a: u32, b: u32) -> (r: u32)
    ensures
        r == sub_bits(a, b),
{
    (Single::from_bits(a as u128) - Single::from_bits(b as u128)).value.to_bits() as u32
}

/// Relies on `rustc_apfloat`'s `Mul` for `ieee::Single`: the IEEE 754
/// single-precision product, rounding to nearest, ties to even.
#[verifier::external_body]
pub(crate) fn float_mul(a: u32, b: u32) -> (r: u32)
    ensures
        r == mul_bits(a, b),
{
    (Single::from_bits(a as u128) * Single::from_bits(b as u128)).value.to_bits() as u32
}

/// Relies on `rustc_apfloat`'s `Div` for `ieee::Single`: the IEEE 754
/// single-precision quotient, rounding to nearest, ties to even.
#[verifier::external_body]
pub(crate) fn float_div(a: u32, b: u32) -> (r: u32)
    ensures
        r == div_bits(a, b),
{
    (Single::from_bits(a as u128) / Single::from_bits(b as u128)).value.to_bits() as u32
}

/// Relies on `libm::powf`, a pure-Rust rendering of the musl power function: a
/// function of the two operand bit patterns alone. `bytemuck::cast` moves
/// between the bit pattern and the value it encodes.
#[verifier::external_body]
pub(crate) fn float_pow(a: u32, b: u32) -> (r: u32)
    ensures
        r == pow_bits(a, b),
{
    let powed = libm::powf(bytemuck::cast(a), bytemuck::cast(b));
    let r: u32 = bytemuck::cast(powed);
    r
}

/// Relies on `rustc_apfloat`'s `Neg` for `ieee::Single`: flips the sign bit.
#[verifier::external_body]
pub(crate) fn float_neg(a: u32) -> (r: u32)
    ensures
        r == neg_bits(a),
{
    (-Single::from_bits(a as u128)).to_bits() as u32
}

/// Relies on `rustc_apfloat`'s `PartialEq` for `ieee::Single`: IEEE 754
/// equality (`NaN` equal to nothing, `-0` equal to `0`).
#[verifier::external_body]
pub(crate) fn float_eq(a: u32, b: u32) -> (r: bool)
    ensures
        r == eq_bits(a, b),
{
    Single::from_bits(a as u128) == Single::from_bits(b as u128)
}

/// Relies on `rustc_apfloat`'s `PartialEq` for `ieee::Single`: the negation
/// of IEEE 754 equality.
#[verifier::external_body]
pub(crate) fn float_ne(a: u32, b: u32) -> (r: bool)
    ensures
        r == ne_bits(a, b),
{
    Single::from_bits(a as u128) != Single::from_bits(b as u128)
}

/// Relies on `rustc_apfloat`'s `PartialOrd` for `ieee::Single`: IEEE 754
/// less-than (false whenever either operand is `NaN`).
#[verifier::external_body]
pub(crate) fn float_lt(a: u32, b: u32) -> (r: bool)
    ensures
        r == lt_bits(a, b),
{
    Single::from_bits(a as u128) < Single::from_bits(b as u128)
}

/// Relies on `rustc_apfloat`'s `PartialOrd` for `ieee::Single`: IEEE 754
/// less-than-or-equal (false whenever either operand is `NaN`).
#[verifier::external_body]
pub(crate) fn float_le(a: u32, b: u32) -> (r: bool)
    ensures
        r == le_bits(a, b),
{
    Single::from_bits(a as u128) <= Single::from_bits(b as u128)
}

/// Relies on `rustc_apfloat`'s `PartialOrd` for `ieee::Single`: IEEE 754
/// greater-than (false whenever either operand is `NaN`).
#[verifier::external_body]
pub(crate) fn float_gt(a: u32, b: u32) -> (r: bool)
    ensures
        r == gt_bits(a, b),
{
    Single::from_bits(a as u128) > Single::from_bits(b as u128)
}

/// Relies on `rustc_apfloat`'s `PartialOrd` for `ieee::Single`: IEEE 754
/// greater-than-or-equal (false whenever either operand is `NaN`).
#[verifier::external_body]
pub(crate) fn float_ge(a: u32, b: u32) -> (r: bool)
    ensures
        r == ge_bits(a, b),
{
    Single::from_bits(a as u128) >= Single::from_bits(b as u128)
}

/// Whether every character of `s` is an ASCII digit or a dot, with at most
/// one dot, at least one digit, and a digit first: the numerals the lexer
/// produces.
pub open spec fn is_decimal_numeral(s: Seq<char>) -> bool {
    &&& s.len() > 0
    &&& '0' <= s[0] <= '9'
    &&& forall|i: int| 0 <= i < s.len() ==> ('0' <= #[trigger] s[i] <= '9' || s[i] == '.')
    &&& forall|i: int, j: int| 0 <= i < j < s.len() && #[trigger] s[i] == '.' && #[trigger] s[j] == '.' ==> false
}

/// The decimal text of the single-precision value with bit pattern `b`,
/// as the standard library's `Display` writes it: the shortest decimal
/// form that reads back as the same value, a function of the bit pattern
/// alone.
pub uninterp spec fn decimal_of_bits(b: u32) -> Seq<char>;

/// Relies on the standard library's `Display` for the single-precision
/// type, reached through `format!`. `bytemuck::cast` moves from the bit
/// pattern to the value it encodes, and `libm::copysignf` of a value with
/// itself is that value (it recombines the value's own magnitude and
/// sign), so `value` is exactly the encoded value.
#[verifier::external_body]
pub(crate) fn format_number(b: u32) -> (r: String)
    ensures
        r@ == decimal_of_bits(b),
{
    let value = libm::copysignf(bytemuck::cast(b), bytemuck::cast(b));
    format!("{}", value)
}

/// Relies on `rustc_apfloat`'s `FromStr` for `ieee::Single` (`from_str_r`
/// with rounding to nearest, ties to even): its decimal grammar accepts
/// every numeral of digits with at most one dot, so on the inputs admitted
/// here it never returns its error.
#[verifier::external_body]
pub(crate) fn float_from_decimal(s: &str) -> (r: u32)
    requires
        is_decimal_numeral(s@),
    ensures
        r == bits_of_decimal(s@),
{
    match s.parse::<Single>() {
        Ok(v) => v.to_bits() as u32,
        // not reached: a decimal numeral always parses
        Err(_) => 0,
    }
}

} // verus!
