//! The output task's cycle state: the software-PWM driver's per-cycle
//! snapshot of the shared brightness vector and the tick duration derived
//! from the shared frame rate.
//!
//! The task itself is an endless loop around hardware waits and pin writes;
//! what is modeled here is everything it decides: which snapshot a cycle
//! runs on, how long one quantization tick lasts at a given frame rate, and
//! for how long each channel is driven high and left low within a cycle.
//! The snapshot is refreshed once per full red-green-blue cycle and never
//! mutated mid-cycle, which keeps in-flight timing stable while shared state
//! changes concurrently.

use vstd::arithmetic::div_mod::lemma_div_is_ordered_by_denominator;
use vstd::arithmetic::mul::{lemma_mul_is_distributive_add_other_way, lemma_mul_upper_bound};
use vstd::prelude::*;

use crate::shared::{frame_rate_ok, levels_ok, SharedFrameRate, SharedLevels};
use crate::{FRAME_RATE_MIN, LEVELS};

verus! {

/// Microseconds per second: the numerator of the tick-time derivation.
pub const MICROS_PER_SEC: u64 = 1_000_000;

/// The longest tick any in-band frame rate can produce: the tick of
/// `FRAME_RATE_MIN`, `1_000_000 / (3 * 10 * 16)`.
pub const TICK_TIME_MAX: u64 = 2083;

/// Duration in microseconds of one brightness quantization unit at frame
/// rate `fr`: `1_000_000 / (3 * fr * LEVELS)`. The factor of 3 accounts for
/// the three channels sharing one nominal frame, so the user-visible flicker
/// rate matches the requested frame rate even though the channels are
/// time-multiplexed sequentially.
pub open spec fn tick_time_of(fr: int) -> int {
    MICROS_PER_SEC as int / (3 * fr * (LEVELS as int))
}

/// The output task's private cycle state: a shadow of the brightness vector
/// and the tick duration, both fixed for the length of one cycle.
pub struct Rgb {
    levels: [u32; 3],
    tick_time: u64,
}

impl Rgb {
    /// The brightness snapshot this cycle runs on.
    pub closed spec fn shadow(&self) -> Seq<u32> {
        self.levels@
    }

    /// The tick duration this cycle runs on, in microseconds.
    pub closed spec fn tick(&self) -> u64 {
        self.tick_time
    }

    /// Well-formedness: the snapshot is a valid brightness vector and the
    /// tick is one an in-band frame rate can produce, so per-channel
    /// durations never overflow.
    pub open spec fn wf(&self) -> bool {
        &&& self.shadow().len() == 3
        &&& forall|i: int| 0 <= i < 3 ==> self.shadow()[i] < LEVELS
        &&& self.tick() <= TICK_TIME_MAX
    }

    /// Tick duration for `frame_rate`, exactly
    /// `1_000_000 / (3 * frame_rate * LEVELS)` microseconds. The bound on
    /// `frame_rate` only keeps the denominator within machine range; any
    /// in-band rate yields a tick of at most `TICK_TIME_MAX`.
    pub fn frame_tick_time(frame_rate: u64) -> (t: u64)
        requires
            1 <= frame_rate,
            frame_rate <= u64::MAX / 48,
        ensures
            t == tick_time_of(frame_rate as int),
            FRAME_RATE_MIN <= frame_rate ==> t <= TICK_TIME_MAX,
    {
        proof {
            assert(3 * (frame_rate as int) * (LEVELS as int) <= u64::MAX as int) by (nonlinear_arith)
                requires
                    frame_rate <= u64::MAX / 48,
            ;
            if FRAME_RATE_MIN <= frame_rate {
                assert(3 * (FRAME_RATE_MIN as int) * (LEVELS as int)
                    <= 3 * (frame_rate as int) * (LEVELS as int)) by (nonlinear_arith)
                    requires
                        FRAME_RATE_MIN <= frame_rate,
                ;
                lemma_div_is_ordered_by_denominator(
                    MICROS_PER_SEC as int,
                    3 * (FRAME_RATE_MIN as int) * (LEVELS as int),
                    3 * (frame_rate as int) * (LEVELS as int),
                );
                assert(3 * (FRAME_RATE_MIN as int) * (LEVELS as int) == 480);
                assert(MICROS_PER_SEC as int / 480 == TICK_TIME_MAX as int);
            }
        }
        let denom: u64 = 3 * frame_rate * (LEVELS as u64);
        MICROS_PER_SEC / denom
    }

    /// Creates the cycle state as the output task starts: all channels dark,
    /// tick derived from the frame rate currently shared.
    pub fn new(rate: &SharedFrameRate) -> (r: Rgb)
        ensures
            r.wf(),
            forall|i: int| 0 <= i < 3 ==> r.shadow()[i] == 0,
    {
        let frame_rate = rate.get();
        let tick_time = Rgb::frame_tick_time(frame_rate);
        Rgb { levels: [0, 0, 0], tick_time }
    }

    /// One top-of-cycle refresh, as the output task performs it before
    /// driving the three channels: read the shared brightness vector, then
    /// the shared frame rate — two independent critical sections — and
    /// derive this cycle's tick. Returns the observed pair, pinning exactly
    /// which snapshot the cycle will reproduce; the snapshot then stays
    /// fixed even if shared state changes concurrently.
    pub fn begin_frame(&mut self, levels: &SharedLevels, rate: &SharedFrameRate) -> (obs: (
        [u32; 3],
        u64,
    ))
        ensures
            final(self).wf(),
            final(self).shadow() == obs.0@,
            levels_ok(obs.0),
            frame_rate_ok(obs.1),
            final(self).tick() == tick_time_of(obs.1 as int),
    {
        let lv = levels.get();
        let fr = rate.get();
        self.levels = lv;
        self.tick_time = Rgb::frame_tick_time(fr);
        (lv, fr)
    }

    /// The on/off plan for one channel in the current cycle: the channel is
    /// driven high for `plan.0` microseconds (skipped entirely at level 0),
    /// then left low for `plan.1` microseconds. On-time plus off-time is
    /// always exactly `LEVELS` ticks, so every channel occupies the same
    /// share of the cycle whatever its brightness.
    pub fn step_plan(&self, led: usize) -> (plan: (u64, u64))
        requires
            self.wf(),
            led < 3,
        ensures
            plan.0 == self.shadow()[led as int] * self.tick(),
            plan.1 == (LEVELS - self.shadow()[led as int]) * self.tick(),
            plan.0 + plan.1 == LEVELS * self.tick(),
    {
        let level = self.levels[led];
        proof {
            lemma_mul_upper_bound(
                level as int,
                (LEVELS - 1) as int,
                self.tick_time as int,
                TICK_TIME_MAX as int,
            );
            lemma_mul_upper_bound(
                (LEVELS - level) as int,
                LEVELS as int,
                self.tick_time as int,
                TICK_TIME_MAX as int,
            );
            lemma_cycle_length(level as int, self.tick_time as int);
        }
        let on_time = (level as u64) * self.tick_time;
        let off_time = ((LEVELS - level) as u64) * self.tick_time;
        (on_time, off_time)
    }
}

/// Cycle-length invariance: for any level and any tick duration, on-time
/// `level * tick` plus off-time `(LEVELS - level) * tick` is exactly
/// `LEVELS * tick`, so total cycle length is preserved regardless of
/// brightness.
pub proof fn lemma_cycle_length(level: int, tick: int)
    ensures
        level * tick + (LEVELS as int - level) * tick == LEVELS as int * tick,
{
    lemma_mul_is_distributive_add_other_way(tick, level, LEVELS as int - level);
}

} // verus!
