//! Order keys of 64-bit IEEE 754 numbers, read from their bit patterns.
//!
//! A pattern is a sign bit above 63 magnitude bits. For two numbers that are
//! not NaN, the standard orders positive numbers as their magnitude bits do,
//! negative numbers the other way round, and puts every negative number below
//! every positive one, with `-0` equal to `+0`. A key is an integer that orders
//! as the number does, so that the layout can compare and sort whole numbers.
use vstd::prelude::*;

verus! {

/// The sign bit: `1 << 63`.
pub const SIGN_BIT: u64 = 0x8000_0000_0000_0000;

/// Magnitude bits of an infinity: exponent all ones, fraction zero.
pub const INFINITY_BITS: u64 = 0x7ff0_0000_0000_0000;

pub open spec fn is_negative(b: u64) -> bool {
    b >= SIGN_BIT
}

pub open spec fn magnitude(b: u64) -> int {
    (b % SIGN_BIT) as int
}

/// Exponent all ones and a fraction that is not zero.
pub open spec fn is_nan(b: u64) -> bool {
    magnitude(b) > INFINITY_BITS
}

/// `a <= b` for two numbers that are not NaN.
pub open spec fn number_le(a: u64, b: u64) -> bool {
    if magnitude(a) == 0 && magnitude(b) == 0 {
        true
    } else if !is_negative(a) && !is_negative(b) {
        magnitude(a) <= magnitude(b)
    } else if is_negative(a) && is_negative(b) {
        magnitude(a) >= magnitude(b)
    } else {
        is_negative(a)
    }
}

/// The key of a number that is not NaN.
pub open spec fn key_of(b: u64) -> int {
    if is_negative(b) && magnitude(b) != 0 {
        SIGN_BIT - 1 - magnitude(b)
    } else {
        SIGN_BIT + magnitude(b)
    }
}

/// The order key of the number with bit pattern `b`, or `None` for NaN.
pub fn order_key(b: u64) -> (r: Option<u64>)
    ensures
        r is None <==> is_nan(b),
        r is Some ==> r->0 == key_of(b),
{
    let mag = b % SIGN_BIT;
    if mag > INFINITY_BITS {
        None
    } else if b >= SIGN_BIT && mag != 0 {
        Some(SIGN_BIT - 1 - mag)
    } else {
        Some(SIGN_BIT + mag)
    }
}

/// For two numbers that are not NaN, their keys compare as the numbers do:
/// one key is at most the other exactly when the one number is at most the
/// other, and two keys are equal exactly when the numbers are.
pub proof fn lemma_keys_order_as_numbers(a: u64, b: u64)
    requires
        !is_nan(a),
        !is_nan(b),
    ensures
        key_of(a) <= key_of(b) <==> number_le(a, b),
        key_of(a) == key_of(b) <==> (number_le(a, b) && number_le(b, a)),
{
}

} // verus!
