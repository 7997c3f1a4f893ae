//! The knob driver: quantization of one raw analog sample into a discrete
//! brightness level.
//!
//! A raw sample is clamped to a fixed positive range, rescaled to a fraction
//! of full scale, and quantized as
//! `level = floor(clamp((LEVELS + 2) * fraction - 2, 0, LEVELS - 1))`.
//! The `+2`/`-2` margin folds the extreme ends of the knob's travel into the
//! first and last level, so the physical stops reliably reach the minimum and
//! maximum despite sensor noise. Sampling the analog peripheral itself is the
//! caller's concern; quantization is a pure function of the raw sample.

use vstd::arithmetic::div_mod::{lemma_div_is_ordered, lemma_div_pos_is_pos};
use vstd::arithmetic::mul::{lemma_mul_inequality, lemma_mul_is_commutative};
use vstd::prelude::*;

use crate::LEVELS;

verus! {

/// Raw samples above this value (and negative ones) are invalid and are
/// clamped away before scaling.
pub const RAW_CLAMP_MAX: u16 = 0x7fff;

/// A clamped raw sample is normalized by this denominator into the fraction
/// of full scale that the quantization formula works on.
pub const FULL_SCALE: u32 = 10_000;

/// An out-of-range raw sample, clamped to `[0, RAW_CLAMP_MAX]`.
pub open spec fn clamped_raw(raw: int) -> int {
    if raw < 0 {
        0
    } else if raw > RAW_CLAMP_MAX as int {
        RAW_CLAMP_MAX as int
    } else {
        raw
    }
}

/// The quantized level of a clamped sample `c`:
/// `floor(clamp((LEVELS + 2) * (c / FULL_SCALE) - 2, 0, LEVELS - 1))`,
/// where `c / FULL_SCALE` is exact (rational) division. Multiplying through
/// by `FULL_SCALE`, the value inside the clamp is nonnegative iff
/// `(LEVELS + 2) * c - 2 * FULL_SCALE` is, and its floor is that numerator
/// divided by `FULL_SCALE`; clamping against the integer bound `LEVELS - 1`
/// commutes with the floor.
pub open spec fn level_of_clamped(c: int) -> int {
    let num = (LEVELS + 2) as int * c - 2 * (FULL_SCALE as int);
    if num <= 0 {
        0
    } else if num / (FULL_SCALE as int) >= (LEVELS - 1) as int {
        (LEVELS - 1) as int
    } else {
        num / (FULL_SCALE as int)
    }
}

/// The quantized level of a raw sample: clamp first, then scale and quantize.
pub open spec fn level_of_raw(raw: int) -> int {
    level_of_clamped(clamped_raw(raw))
}

/// Every raw sample, valid or not, quantizes to a level in
/// `[0, LEVELS - 1]`: the quantization boundary is the only place where the
/// brightness-range invariant is established.
pub proof fn lemma_level_in_range(raw: int)
    ensures
        0 <= level_of_raw(raw) < LEVELS as int,
{
    let c = clamped_raw(raw);
    let num = (LEVELS + 2) as int * c - 2 * (FULL_SCALE as int);
    if num > 0 {
        lemma_div_pos_is_pos(num, FULL_SCALE as int);
    }
}

/// Quantization is monotone: a sample that is no larger never quantizes to a
/// larger level.
pub proof fn lemma_level_monotonic(a: int, b: int)
    requires
        a <= b,
    ensures
        level_of_raw(a) <= level_of_raw(b),
{
    let ca = clamped_raw(a);
    let cb = clamped_raw(b);
    let num_a = (LEVELS + 2) as int * ca - 2 * (FULL_SCALE as int);
    let num_b = (LEVELS + 2) as int * cb - 2 * (FULL_SCALE as int);
    lemma_mul_inequality(ca, cb, (LEVELS + 2) as int);
    lemma_mul_is_commutative(ca, (LEVELS + 2) as int);
    lemma_mul_is_commutative(cb, (LEVELS + 2) as int);
    assert(num_a <= num_b);
    if num_a > 0 {
        lemma_div_is_ordered(num_a, num_b, FULL_SCALE as int);
    } else if num_b > 0 {
        lemma_div_pos_is_pos(num_b, FULL_SCALE as int);
    }
}

/// Quantizes one raw analog sample into a brightness level in
/// `[0, LEVELS - 1]`. Invalid samples (negative, or past the clamp maximum)
/// are silently clamped rather than reported, so the control loop never
/// stalls on a transient glitch.
pub fn measure_level(raw: i16) -> (level: u32)
    ensures
        level == level_of_raw(raw as int),
        level < LEVELS,
{
    let c: u32 = if raw < 0 {
        0
    } else {
        raw as u32
    };
    assert(c == clamped_raw(raw as int));
    let num: u32 = (LEVELS + 2) * c;
    if num <= 2 * FULL_SCALE {
        0
    } else {
        let q: u32 = (num - 2 * FULL_SCALE) / FULL_SCALE;
        proof {
            lemma_div_pos_is_pos(num - 2 * (FULL_SCALE as int), FULL_SCALE as int);
        }
        if q >= LEVELS - 1 {
            LEVELS - 1
        } else {
            q
        }
    }
}

} // verus!
