//! IEEE binary32 arithmetic on bit patterns.
//!
//! The flow computation is specified over the bit patterns of IEEE binary32
//! (single precision) values, so that its result is pinned down exactly.
//! The operations themselves are carried out by `rustc_apfloat`, a software
//! implementation of IEEE 754 arithmetic; each operation rounds to nearest,
//! ties to even, and is a pure function of the operand bits, the same on
//! every machine.  The names below stand for those functions; nothing else
//! is assumed of them.

use vstd::prelude::*;

use rustc_apfloat::Float;
use rustc_apfloat::ieee::Single;

use crate::decimal::is_decimal_literal;

verus! {

/// The binary32 value nearest to the unsigned integer `n`.
pub uninterp spec fn b32_of_uint(n: u32) -> u32;

/// The binary32 product of the values with bit patterns `a` and `b`.
pub uninterp spec fn b32_mul(a: u32, b: u32) -> u32;

/// The binary32 difference of the values with bit patterns `a` and `b`.
pub uninterp spec fn b32_sub(a: u32, b: u32) -> u32;

/// The binary32 quotient of the values with bit patterns `a` and `b`.
pub uninterp spec fn b32_div(a: u32, b: u32) -> u32;

/// The binary32 value nearest to the number a decimal literal denotes.
pub uninterp spec fn b32_of_decimal(s: Seq<char>) -> u32;

/// The bit pattern of the binary32 value nearest to the mathematical
/// constant pi.
pub const PI_BITS: u32 = 0x40490FDB;

/// The bit pattern of the binary32 value 2.0.
pub const TWO_BITS: u32 = 0x40000000;

/// The bit pattern of the binary32 value 4.0.
pub const FOUR_BITS: u32 = 0x40800000;

/// The bit pattern of the binary32 value 1000.0, the number of millimetres
/// in a metre.
pub const THOUSAND_BITS: u32 = 0x447A0000;

/// The bit pattern of the binary32 value 60000.0, the number of litres per
/// minute in one cubic metre per second.
pub const SIXTY_THOUSAND_BITS: u32 = 0x476A6000;

/// Relies on `rustc_apfloat::ieee::Single::from_u128`: the conversion of an
/// unsigned integer to the nearest binary32 value.
#[verifier::external_body]
pub(crate) fn uint_to_bits(n: u32) -> (r: u32)
    ensures
        r == b32_of_uint(n),
{
    Single::from_u128(n as u128).value.to_bits() as u32
}

/// Relies on `Mul for rustc_apfloat::ieee::Single`: binary32
/// multiplication, rounding to nearest, ties to even.
#[verifier::external_body]
pub(crate) fn mul_bits(a: u32, b: u32) -> (r: u32)
    ensures
        r == b32_mul(a, b),
{
    let x = Single::from_bits(a as u128);
    let y = Single::from_bits(b as u128);
    (x * y).value.to_bits() as u32
}

/// Relies on `Sub for rustc_apfloat::ieee::Single`: binary32 subtraction,
/// rounding to nearest, ties to even.
#[verifier::external_body]
pub(crate) fn sub_bits(a: u32, b: u32) -> (r: u32)
    ensures
        r == b32_sub(a, b),
{
    let x = Single::from_bits(a as u128);
    let y = Single::from_bits(b as u128);
    (x - y).value.to_bits() as u32
}

/// Relies on `Div for rustc_apfloat::ieee::Single`: binary32 division,
/// rounding to nearest, ties to even.
#[verifier::external_body]
pub(crate) fn div_bits(a: u32, b: u32) -> (r: u32)
    ensures
        r == b32_div(a, b),
{
    let x = Single::from_bits(a as u128);
    let y = Single::from_bits(b as u128);
    (x / y).value.to_bits() as u32
}

/// Relies on `FromStr for rustc_apfloat::ieee::Single`: the correctly
/// rounded conversion of a decimal string to binary32.  Its grammar admits
/// every finite decimal literal, so the error arm is never taken for the
/// inputs the precondition allows.
#[verifier::external_body]
pub(crate) fn decimal_to_bits(s: &str) -> (r: u32)
    requires
        is_decimal_literal(s@),
    ensures
        r == b32_of_decimal(s@),
{
    match s.parse::<Single>() {
        Ok(v) => v.to_bits() as u32,
        Err(_) => 0,
    }
}

} // verus!
