//! The 64-bit binary floating-point encoding, read as integers.
//!
//! A pattern is what `f64::to_bits` returns and `f64::from_bits` accepts: one
//! sign bit, eleven exponent bits and fifty-two fraction bits. The functions
//! below say which number a pattern stands for without ever forming that
//! number as a floating-point value.

use vstd::prelude::*;

verus! {

/// The pattern of `-0.0`: only the sign bit is set.
pub const SIGN_BIT: u64 = 0x8000_0000_0000_0000;

/// The pattern of positive infinity; every finite magnitude lies below it.
pub const INFINITY: u64 = 0x7ff0_0000_0000_0000;

/// The pattern of `1.0`.
pub const ONE: u64 = 0x3ff0_0000_0000_0000;

/// Two to the power 52: the weight of the lowest exponent bit, and the implicit
/// leading bit of a normal number's significand.
pub const HIDDEN_BIT: u64 = 0x0010_0000_0000_0000;

/// The exponent field's bias plus the width of the fraction field.
pub const EXPONENT_OFFSET: u64 = 1075;

/// Whether the sign bit is set.
pub open spec fn is_negative(bits: u64) -> bool {
    bits >= SIGN_BIT
}

/// The pattern with its sign bit cleared.
pub open spec fn magnitude(bits: u64) -> int {
    if bits >= SIGN_BIT {
        bits - SIGN_BIT
    } else {
        bits as int
    }
}

/// Neither an infinity nor a NaN.
pub open spec fn is_finite(bits: u64) -> bool {
    magnitude(bits) < INFINITY
}

/// Finite and greater than zero.
pub open spec fn is_positive(bits: u64) -> bool {
    0 < bits < INFINITY
}

/// The pattern as a sign-and-magnitude integer. Among finite patterns a larger
/// rank means a larger number, and the two zeros share rank zero.
pub open spec fn rank(bits: u64) -> int {
    if is_negative(bits) {
        -magnitude(bits)
    } else {
        magnitude(bits)
    }
}

/// The eleven exponent bits.
pub open spec fn exponent_field(bits: u64) -> int {
    magnitude(bits) / (HIDDEN_BIT as int)
}

/// The fifty-two fraction bits.
pub open spec fn fraction_field(bits: u64) -> int {
    magnitude(bits) % (HIDDEN_BIT as int)
}

/// The integer significand: the fraction, with the implicit leading bit of a
/// normal number put in front.
pub open spec fn significand(bits: u64) -> int {
    if exponent_field(bits) == 0 {
        fraction_field(bits)
    } else {
        HIDDEN_BIT + fraction_field(bits)
    }
}

/// The power of two that the lowest bit of the significand stands for.
pub open spec fn lsb_exponent(bits: u64) -> int {
    if exponent_field(bits) == 0 {
        1 - EXPONENT_OFFSET
    } else {
        exponent_field(bits) - EXPONENT_OFFSET
    }
}

/// `x` doubled `k` times: `x` times two to the power `k`.
pub open spec fn shifted(x: int, k: nat) -> int
    decreases k,
{
    if k == 0 {
        x
    } else {
        2 * shifted(x, (k - 1) as nat)
    }
}

/// The size of the number that a finite pattern stands for, counted in units
/// of two to the power `unit`.
pub open spec fn scaled_magnitude(bits: u64, unit: int) -> int
    recommends
        is_finite(bits),
        unit <= lsb_exponent(bits),
{
    shifted(significand(bits), (lsb_exponent(bits) - unit) as nat)
}

/// The number that a finite pattern stands for, counted in units of two to the
/// power `unit`. The count is exact when `unit <= lsb_exponent(bits)`.
pub open spec fn scaled(bits: u64, unit: int) -> int
    recommends
        is_finite(bits),
        unit <= lsb_exponent(bits),
{
    if is_negative(bits) {
        -scaled_magnitude(bits, unit)
    } else {
        scaled_magnitude(bits, unit)
    }
}

/// Doubling keeps the order of two numbers.
proof fn lemma_shifted_keeps_order(x: int, y: int, k: nat)
    ensures
        x <= y ==> shifted(x, k) <= shifted(y, k),
        x < y ==> shifted(x, k) < shifted(y, k),
        shifted(0, k) == 0,
    decreases k,
{
    if k > 0 {
        lemma_shifted_keeps_order(x, y, (k - 1) as nat);
    }
}

/// A number that is not negative does not shrink when it is doubled more often.
proof fn lemma_shifted_grows(x: int, j: nat, k: nat)
    requires
        0 <= x,
        j <= k,
    ensures
        0 <= shifted(x, j) <= shifted(x, k),
    decreases k,
{
    lemma_shifted_keeps_order(0, x, j);
    if j < k {
        lemma_shifted_grows(x, j, (k - 1) as nat);
    }
}

/// Doubling first and then `k` times is doubling `k + 1` times.
proof fn lemma_shifted_once_more(x: int, k: nat)
    ensures
        shifted(2 * x, k) == shifted(x, k + 1),
    decreases k,
{
    reveal_with_fuel(shifted, 2);
    if k > 0 {
        lemma_shifted_once_more(x, (k - 1) as nat);
    }
}

/// Of two finite patterns, the one with the smaller magnitude stands for the
/// number of smaller size.
proof fn lemma_magnitude_orders_sizes(a: u64, b: u64, unit: int)
    requires
        is_finite(a),
        is_finite(b),
        unit <= lsb_exponent(a),
        unit <= lsb_exponent(b),
        magnitude(a) < magnitude(b),
    ensures
        0 <= scaled_magnitude(a, unit) < scaled_magnitude(b, unit),
{
    let ka = (lsb_exponent(a) - unit) as nat;
    let kb = (lsb_exponent(b) - unit) as nat;
    let hidden = HIDDEN_BIT as int;
    lemma_shifted_keeps_order(0, significand(a), ka);
    if exponent_field(a) == exponent_field(b) {
        lemma_shifted_keeps_order(significand(a), significand(b), ka);
    } else if exponent_field(a) == 0 {
        lemma_shifted_keeps_order(significand(a), hidden, ka);
        lemma_shifted_grows(hidden, ka, kb);
        lemma_shifted_keeps_order(hidden, significand(b), kb);
    } else {
        lemma_shifted_keeps_order(significand(a), 2 * hidden, ka);
        lemma_shifted_once_more(hidden, ka);
        lemma_shifted_grows(hidden, ka + 1, kb);
        lemma_shifted_keeps_order(hidden, significand(b), kb);
    }
}

/// Rank orders finite patterns as the numbers that they stand for: the rank
/// of one is at most the rank of another exactly when its number is at most
/// the other's. Both zeros stand for the same number and have the same rank.
pub proof fn lemma_rank_orders_numbers(a: u64, b: u64, unit: int)
    requires
        is_finite(a),
        is_finite(b),
        unit <= lsb_exponent(a),
        unit <= lsb_exponent(b),
    ensures
        rank(a) <= rank(b) <==> scaled(a, unit) <= scaled(b, unit),
        rank(a) == rank(b) <==> scaled(a, unit) == scaled(b, unit),
{
    let ka = (lsb_exponent(a) - unit) as nat;
    let kb = (lsb_exponent(b) - unit) as nat;
    lemma_shifted_keeps_order(0, significand(a), ka);
    lemma_shifted_keeps_order(0, significand(b), kb);
    if magnitude(a) < magnitude(b) {
        lemma_magnitude_orders_sizes(a, b, unit);
    } else if magnitude(b) < magnitude(a) {
        lemma_magnitude_orders_sizes(b, a, unit);
    }
}

} // verus!
