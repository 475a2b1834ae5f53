//! The idle bob: a sine wave in integers.
//!
//! The phase of the wave is counted in units of which [`PERIOD`] make a full
//! turn.  With 355/113 for pi, a turn is 710/113 radians, so that one
//! phase unit is 1/27120 of a radian and the angular speed of 3.5 radians per
//! second is [`PHASE_PER_STEP`] units per step.  The sine itself is Bhaskara's
//! rational approximation, `16 x (h - x) / (5 h^2 - 4 x (h - x))` on a half
//! turn `h`, which stays within 0.2 % of the amplitude of the true sine.
use vstd::prelude::*;

verus! {

/// Phase units in a full turn.
pub const PERIOD: i64 = 170_400;

/// Phase units in a half turn.
pub const HALF_PERIOD: i64 = 85_200;

/// Phase units the wave advances in one step.
pub const PHASE_PER_STEP: i64 = 791;

/// The height of the wave's crest: 12 pixels, in position units.
pub const AMPLITUDE: i64 = 43_200;

/// The wave on its first half turn, `0 <= x <= HALF_PERIOD`, rounded down.
pub open spec fn arch(x: int) -> int {
    (16 * AMPLITUDE * (x * (HALF_PERIOD - x))) / (5 * HALF_PERIOD * HALF_PERIOD - 4 * (x * (
    HALF_PERIOD - x)))
}

/// The displacement of the wave at `phase`, `0 <= phase < PERIOD`: an arch up
/// on the first half turn, the same arch down on the second.
pub open spec fn offset(phase: int) -> int {
    if phase < HALF_PERIOD {
        arch(phase)
    } else {
        -arch(phase - HALF_PERIOD)
    }
}

/// The phase one step after `phase`.
pub open spec fn next_phase(phase: int) -> int {
    (phase + PHASE_PER_STEP) % (PERIOD as int)
}

/// The product `x (h - x)` is largest in the middle of the half turn.
proof fn lemma_hump(x: int)
    by (nonlinear_arith)
    requires
        0 <= x <= HALF_PERIOD,
    ensures
        0 <= x * (HALF_PERIOD - x),
        4 * (x * (HALF_PERIOD - x)) <= HALF_PERIOD * HALF_PERIOD,
{
    assert((HALF_PERIOD - 2 * x) * (HALF_PERIOD - 2 * x) >= 0);
}

/// A quotient is at most `bound` when the dividend is at most `bound` times
/// the divisor.
proof fn lemma_quotient_bound(n: int, d: int, bound: int)
    by (nonlinear_arith)
    requires
        0 <= n <= bound * d,
        0 < d,
    ensures
        0 <= n / d <= bound,
{
}

/// The arch lies between zero and the amplitude.
pub proof fn lemma_arch_bounds(x: int)
    requires
        0 <= x <= HALF_PERIOD,
    ensures
        0 <= arch(x) <= AMPLITUDE,
{
    lemma_hump(x);
    let q = x * (HALF_PERIOD - x);
    let d = 5 * HALF_PERIOD * HALF_PERIOD - 4 * q;
    assert(HALF_PERIOD * HALF_PERIOD == 7_259_040_000int);
    assert(16 * AMPLITUDE * q <= AMPLITUDE * d);
    lemma_quotient_bound(16 * AMPLITUDE * q, d, AMPLITUDE as int);
}

/// The wave never leaves the band of its amplitude.
pub proof fn lemma_offset_bounds(phase: int)
    requires
        0 <= phase < PERIOD,
    ensures
        -AMPLITUDE <= offset(phase) <= AMPLITUDE,
{
    if phase < HALF_PERIOD {
        lemma_arch_bounds(phase);
    } else {
        lemma_arch_bounds(phase - HALF_PERIOD);
    }
}

/// The displacement of the wave at `phase`.
pub fn offset_at(phase: i64) -> (y: i64)
    requires
        0 <= phase < PERIOD,
    ensures
        y == offset(phase as int),
        -AMPLITUDE <= y <= AMPLITUDE,
{
    proof {
        lemma_offset_bounds(phase as int);
    }
    let x: i64 = if phase < HALF_PERIOD {
        phase
    } else {
        phase - HALF_PERIOD
    };
    proof {
        lemma_hump(x as int);
        lemma_arch_bounds(x as int);
        assert(HALF_PERIOD * HALF_PERIOD == 7_259_040_000int);
    }
    let hump: i64 = x * (HALF_PERIOD - x);
    let up: i64 = (16 * AMPLITUDE * hump) / (5 * HALF_PERIOD * HALF_PERIOD - 4 * hump);
    if phase < HALF_PERIOD {
        up
    } else {
        -up
    }
}

/// The phase one step after `phase`.
pub fn advance(phase: i64) -> (next: i64)
    requires
        0 <= phase < PERIOD,
    ensures
        next == next_phase(phase as int),
        0 <= next < PERIOD,
{
    (phase + PHASE_PER_STEP) % PERIOD
}

} // verus!
