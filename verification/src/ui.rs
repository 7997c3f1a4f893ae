//! The input task's decision logic: what the knob is controlling this
//! iteration, how a measured level becomes a published value, and the
//! task-local shadow state that suppresses redundant publishes.
//!
//! The task itself is an endless loop around hardware reads and a debounce
//! wait; what is modeled here is everything it decides. Each iteration the
//! two buttons pick a target by priority — both held: channel 0 (red); A
//! alone: channel 2 (blue); B alone: channel 1 (green); neither: the global
//! frame rate — then the measured knob level is applied to that target, and
//! the result is committed to shared state only when it differs from what
//! the shadow already holds.

use vstd::prelude::*;

use crate::shared::{frame_rate_ok, levels_ok, SharedFrameRate, SharedLevels};
use crate::text::{append_decimal, decimal};
use crate::{DEFAULT_FRAME_RATE, LEVELS};
use vstd::string::StringExecFns;

verus! {

/// Milliseconds the input task pauses after each iteration, limiting how
/// fast repeated publishes can occur.
pub const DEBOUNCE_MS: u64 = 50;

/// The input task's local shadow of the last-published brightness vector
/// and frame rate, used to detect changes and so avoid redundant
/// shared-state writes and redundant diagnostics.
pub struct UiState {
    pub levels: [u32; 3],
    pub frame_rate: u64,
}

/// The diagnostic snapshot of a shadow state as text: a blank line, one
/// line per channel, and the frame rate, each on its own line.
pub open spec fn show_text(s: UiState) -> Seq<char> {
    "\nred: "@ + decimal(s.levels[0] as int) + "\ngreen: "@ + decimal(s.levels[1] as int)
        + "\nblue: "@ + decimal(s.levels[2] as int) + "\nframe rate: "@ + decimal(
        s.frame_rate as int,
    ) + "\n"@
}

impl UiState {
    /// Well-formedness: the shadow only ever holds publishable values.
    pub open spec fn wf(&self) -> bool {
        levels_ok(self.levels) && frame_rate_ok(self.frame_rate)
    }

    /// Renders the current channel levels and frame rate as the diagnostic
    /// snapshot text. Emitting it is the caller's concern: the sink is
    /// best-effort and must never block the control loop.
    pub fn show(&self) -> (out: String)
        ensures
            out@ == show_text(*self),
    {
        let mut out = String::new();
        out.append("\nred: ");
        append_decimal(&mut out, self.levels[0] as u64);
        out.append("\ngreen: ");
        append_decimal(&mut out, self.levels[1] as u64);
        out.append("\nblue: ");
        append_decimal(&mut out, self.levels[2] as u64);
        out.append("\nframe rate: ");
        append_decimal(&mut out, self.frame_rate);
        out.append("\n");
        proof {
            assert(out@ =~= show_text(*self));
        }
        out
    }
}

impl Default for UiState {
    /// The startup shadow: every channel at the top level, frame rate at
    /// the shared default.
    fn default() -> (s: UiState)
        ensures
            forall|i: int| 0 <= i < 3 ==> s.levels[i] == LEVELS - 1,
            s.frame_rate == DEFAULT_FRAME_RATE,
            s.wf(),
    {
        UiState { levels: [LEVELS - 1, LEVELS - 1, LEVELS - 1], frame_rate: DEFAULT_FRAME_RATE }
    }
}

/// Maps a knob level onto the frame-rate band: `level * 10 + 10`. The
/// nonzero floor guarantees the output task's tick-time denominator can
/// never be zero, while the top knob level still spans a usable range of
/// refresh rates.
pub fn knob_to_frame_rate(level: u32) -> (fr: u64)
    requires
        level < LEVELS,
    ensures
        fr == level * 10 + 10,
        frame_rate_ok(fr),
{
    (level as u64) * 10 + 10
}

/// The input task: the knob, the two buttons and the shadow state. The
/// hardware handles live with the caller, which polls the buttons, samples
/// the knob, and hands each iteration's plain readings to [`Ui::step`].
pub struct Ui {
    pub state: UiState,
}

impl Ui {
    /// A fresh input task with the startup shadow.
    pub fn new() -> (u: Ui)
        ensures
            forall|i: int| 0 <= i < 3 ==> u.state.levels[i] == LEVELS - 1,
            u.state.frame_rate == DEFAULT_FRAME_RATE,
            u.state.wf(),
    {
        Ui { state: UiState::default() }
    }

    /// Applies a measured knob level to one channel of the shadow vector
    /// and, when that channel actually changed, commits the full new vector
    /// to shared state in one replace-under-lock. Returns whether a publish
    /// happened: an unchanged level within the debounce window publishes
    /// nothing.
    pub fn change_color_measurement(
        &mut self,
        levels_cell: &SharedLevels,
        position: usize,
        level: u32,
    ) -> (published: bool)
        requires
            position < 3,
            level < LEVELS,
            old(self).state.wf(),
        ensures
            final(self).state.wf(),
            final(self).state.levels@ == old(self).state.levels@.update(position as int, level),
            final(self).state.frame_rate == old(self).state.frame_rate,
            published == (old(self).state.levels[position as int] != level),
    {
        let lv = self.state.levels;
        let changed = lv[position] != level;
        let new_lv: [u32; 3] = if position == 0 {
            [level, lv[1], lv[2]]
        } else if position == 1 {
            [lv[0], level, lv[2]]
        } else {
            [lv[0], lv[1], level]
        };
        proof {
            assert(new_lv@ =~= lv@.update(position as int, level));
        }
        self.state.levels = new_lv;
        if changed {
            levels_cell.replace(new_lv);
        }
        changed
    }

    /// One iteration's effect when the buttons chose channel `i`: the shadow
    /// vector gains the measured level at `i`, the frame rate is untouched,
    /// and a publish happened exactly when that channel changed.
    pub open spec fn channel_step(pre: UiState, post: UiState, i: int, level: u32, published: bool) -> bool {
        &&& post.levels@ == pre.levels@.update(i, level)
        &&& post.frame_rate == pre.frame_rate
        &&& published == (pre.levels[i] != level)
    }

    /// One iteration's effect when no button was held: the shadow frame rate
    /// becomes `level * 10 + 10`, the vector is untouched, and a publish
    /// happened exactly when the rate changed.
    pub open spec fn rate_step(pre: UiState, post: UiState, level: u32, published: bool) -> bool {
        &&& post.levels == pre.levels
        &&& post.frame_rate == level * 10 + 10
        &&& published == (pre.frame_rate != level * 10 + 10)
    }

    /// One iteration of the input task, on this iteration's button readings
    /// (`a_low`/`b_low`: button held) and measured knob level. By priority:
    /// both buttons set channel 0 (red), A alone channel 2 (blue), B alone
    /// channel 1 (green), neither the global frame rate via
    /// [`knob_to_frame_rate`]. The chosen target is updated in the shadow
    /// and committed to shared state only when its value actually changed;
    /// the returned flag says whether a publish happened, and the caller
    /// emits its diagnostic snapshot exactly then, before the debounce
    /// wait.
    pub fn step(
        &mut self,
        levels_cell: &SharedLevels,
        rate_cell: &SharedFrameRate,
        a_low: bool,
        b_low: bool,
        knob_level: u32,
    ) -> (published: bool)
        requires
            old(self).state.wf(),
            knob_level < LEVELS,
        ensures
            final(self).state.wf(),
            a_low && b_low ==> Ui::channel_step(old(self).state, final(self).state, 0, knob_level, published),
            a_low && !b_low ==> Ui::channel_step(old(self).state, final(self).state, 2, knob_level, published),
            !a_low && b_low ==> Ui::channel_step(old(self).state, final(self).state, 1, knob_level, published),
            !a_low && !b_low ==> Ui::rate_step(old(self).state, final(self).state, knob_level, published),
    {
        if a_low && b_low {
            self.change_color_measurement(levels_cell, 0, knob_level)
        } else if a_low {
            self.change_color_measurement(levels_cell, 2, knob_level)
        } else if b_low {
            self.change_color_measurement(levels_cell, 1, knob_level)
        } else {
            let new_rate = knob_to_frame_rate(knob_level);
            let changed = new_rate != self.state.frame_rate;
            if changed {
                self.state.frame_rate = new_rate;
                rate_cell.replace(new_rate);
            }
            changed
        }
    }
}

} // verus!
