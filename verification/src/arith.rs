//! Shared arithmetic: the fixed-point scale, the wide multiply-then-divide
//! primitive, and the floor-at-zero subtraction used by the settlement code.

use vstd::prelude::*;

verus! {

/// One unit in fixed-point representation: raw value of the decimal `1.0`.
pub const DEC_ONE: u128 = 1_000_000_000_000_000_000;

/// `floor(a * b / c)` as mathematical integers.
pub open spec fn mul_div_spec(a: int, b: int, c: int) -> int {
    (a * b) / c
}

/// `floor(a * b / c)`, with the product taken at full width so that it cannot
/// overflow before the division.
///
/// Relies on `cosmwasm_std::Uint128::multiply_ratio`: it multiplies into a
/// 256-bit integer, divides (flooring), and converts back, panicking exactly
/// when the denominator is zero or the quotient exceeds `u128::MAX`; the
/// preconditions exclude both.
#[verifier::external_body]
pub(crate) fn mul_div(a: u128, b: u128, c: u128) -> (r: u128)
    requires
        c != 0,
        mul_div_spec(a as int, b as int, c as int) <= u128::MAX,
    ensures
        r == mul_div_spec(a as int, b as int, c as int),
{
    cosmwasm_std::Uint128::new(a).multiply_ratio(b, c).u128()
}

/// `left - right`, floored at zero: losses can at most consume what is there.
pub fn safe_subtract_min_zero(left: u128, right: u128) -> (r: u128)
    ensures
        r == safe_sub_spec(left as int, right as int),
{
    if left > right {
        left - right
    } else {
        0
    }
}

/// The value computed by [`safe_subtract_min_zero`].
pub open spec fn safe_sub_spec(left: int, right: int) -> int {
    if left > right {
        left - right
    } else {
        0
    }
}

/// Two to the sixty-fourth power.
pub const TWO_POW_64: u128 = 0x1_0000_0000_0000_0000;

/// The lower 64 bits of a non-negative integer.
pub open spec fn emod_64(x: int) -> int {
    x % 0x1_0000_0000_0000_0000
}

/// A value in `[0, 2^64)` read as a two's-complement signed 64-bit integer.
pub open spec fn u64_as_i64(x: int) -> int {
    if x < 0x8000_0000_0000_0000 {
        x
    } else {
        x - 0x1_0000_0000_0000_0000
    }
}

/// An unsigned value truncated to its lower 64 bits and read as signed:
/// the meaning of the narrowing casts the swap log and profit figures use.
pub open spec fn trunc_i64_spec(x: int) -> int {
    u64_as_i64(emod_64(x))
}

/// Two's-complement negation of a signed 64-bit value.
pub open spec fn wrap_neg_i64_spec(x: int) -> int {
    if x == -0x8000_0000_0000_0000 {
        x
    } else {
        -x
    }
}

/// The difference of two unsigned values, each truncated to 64 bits, taken
/// modulo `2^64` and read as signed: `a as u64 as i64` minus `b as u64 as
/// i64` with wrap-around, as the profit computation performs it.
pub open spec fn wrap_sub_i64_spec(a: int, b: int) -> int {
    u64_as_i64(emod_64(emod_64(a) - emod_64(b)))
}

/// Reads a value in `[0, 2^64)` as a two's-complement signed 64-bit integer.
fn u64_to_i64(x: u64) -> (r: i64)
    ensures
        r == u64_as_i64(x as int),
{
    if x <= 0x7fff_ffff_ffff_ffff {
        x as i64
    } else {
        let unsigned_magnitude: u64 = (u64::MAX - x) + 1;
        if unsigned_magnitude == 0x8000_0000_0000_0000 {
            i64::MIN
        } else {
            -(unsigned_magnitude as i64)
        }
    }
}

/// The lower 64 bits of `a`, read as a signed 64-bit integer: the narrowing
/// cast `a as i64` of the swap log.
pub(crate) fn trunc_to_i64(a: u128) -> (r: i64)
    ensures
        r == trunc_i64_spec(a as int),
{
    let low: u128 = a % TWO_POW_64;
    u64_to_i64(low as u64)
}

/// Two's-complement negation, as release-mode `-x` behaves.
pub(crate) fn wrap_neg_i64(x: i64) -> (r: i64)
    ensures
        r == wrap_neg_i64_spec(x as int),
{
    if x == i64::MIN {
        x
    } else {
        -x
    }
}

/// `a as u64 as i64` minus `b as u64 as i64`, wrapping on overflow: the
/// signed 64-bit profit figure of the settlement computation.
pub(crate) fn wrap_sub_to_i64(a: u128, b: u128) -> (r: i64)
    ensures
        r == wrap_sub_i64_spec(a as int, b as int),
{
    let a_low: u64 = (a % TWO_POW_64) as u64;
    let b_low: u64 = (b % TWO_POW_64) as u64;
    let diff: u64 = if a_low >= b_low {
        a_low - b_low
    } else {
        proof {
            lemma_wrap_diff(a_low as int, b_low as int);
        }
        ((u64::MAX - b_low) + a_low) + 1
    };
    proof {
        if a_low >= b_low {
            vstd::arithmetic::div_mod::lemma_small_mod(
                (a_low - b_low) as nat,
                0x1_0000_0000_0000_0000nat,
            );
        }
    }
    u64_to_i64(diff)
}

/// For `0 <= a < b < 2^64`, the wrapped difference `a - b + 2^64` is what
/// `(a - b) % 2^64` denotes.
proof fn lemma_wrap_diff(a: int, b: int)
    requires
        0 <= a < b < 0x1_0000_0000_0000_0000,
    ensures
        emod_64(a - b) == a - b + 0x1_0000_0000_0000_0000,
{
    vstd::arithmetic::div_mod::lemma_mod_add_multiples_vanish(
        a - b,
        0x1_0000_0000_0000_0000,
    );
    vstd::arithmetic::div_mod::lemma_small_mod(
        (a - b + 0x1_0000_0000_0000_0000) as nat,
        0x1_0000_0000_0000_0000nat,
    );
}

} // verus!
