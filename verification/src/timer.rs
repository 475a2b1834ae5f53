//! The frame clock: real time in, fixed steps and a frame rate out.
//!
//! Real time is counted in ticks, [`TICKS_PER_SECOND`] to the second and
//! [`TICKS_PER_STEP`] to the fixed step of the simulation.  The frame rate is
//! counted in thousandths of a frame per second.
use crate::text::{decimal, digit, push_decimal, push_spaces, right_aligned, spaces};
use crate::units::min;
use vstd::prelude::*;
use vstd::string::StringExecFns;

verus! {

/// Ticks in one second.
pub const TICKS_PER_SECOND: u64 = 120_000;

/// Ticks in one fixed step of the simulation.
pub const TICKS_PER_STEP: u64 = 1_000;

/// Most time that may wait to be simulated: five steps.
pub const MAX_CATCH_UP: u64 = 5_000;

/// The time over which frames are counted for the frame rate: half a second.
pub const FPS_WINDOW: u64 = 60_000;

/// Longest time a single frame counts for where frames are clamped: a
/// quarter of a second.
pub const MAX_DELTA: u32 = 30_000;

/// The frame rate, in thousandths of a frame per second, of `frames` frames
/// in `ticks` ticks, rounded down.
pub open spec fn frame_rate(frames: int, ticks: int) -> int {
    (frames * 120_000_000) / ticks
}

/// The clock of the frame loop.
#[derive(Clone, Copy, Debug, Default, PartialEq, Eq, Structural)]
pub struct FrameTimer {
    /// Time that waits to be simulated, in ticks.
    pub accumulator: u64,
    /// Time since the frame rate was last taken, in ticks.
    pub fps_accum: u64,
    /// Frames since the frame rate was last taken.
    pub fps_frames: u32,
    /// The frame rate last taken, in thousandths of a frame per second.
    pub fps: u64,
}

impl FrameTimer {
    /// The clock is in a state that its methods can leave it in.
    pub open spec fn wf(self) -> bool {
        &&& self.accumulator <= MAX_CATCH_UP + MAX_DELTA
        &&& self.fps_accum < FPS_WINDOW
    }

    /// A clock on which no time has passed.
    pub open spec fn fresh() -> FrameTimer {
        FrameTimer { accumulator: 0, fps_accum: 0, fps_frames: 0, fps: 0 }
    }

    /// The frames counted once one more has come; the count stops at the
    /// largest number it can hold.
    pub open spec fn frames_counted(self) -> int {
        min(self.fps_frames + 1, u32::MAX as int)
    }

    /// The count of the frame rate after a frame of `dt` ticks: the frame is
    /// counted and its time added; once half a second has been counted, the rate is
    /// taken and the count starts over.
    pub open spec fn counted(self, dt: int) -> FrameTimer {
        if self.fps_accum + dt >= FPS_WINDOW {
            FrameTimer {
                fps: frame_rate(self.frames_counted(), self.fps_accum + dt) as u64,
                fps_accum: 0,
                fps_frames: 0,
                ..self
            }
        } else {
            FrameTimer {
                fps_accum: (self.fps_accum + dt) as u64,
                fps_frames: self.frames_counted() as u32,
                ..self
            }
        }
    }

    /// The clock after a frame of `dt` ticks where the time that waits is
    /// capped: the time is added to what waits to be simulated, which is held to
    /// [`MAX_CATCH_UP`], and the frame is counted.
    pub open spec fn accumulated(self, dt: int) -> FrameTimer {
        FrameTimer {
            accumulator: min(self.accumulator + dt, MAX_CATCH_UP as int) as u64,
            ..self.counted(dt)
        }
    }

    /// The clock after a frame of `dt` ticks where the frame is clamped: no
    /// more than [`MAX_DELTA`] of the frame's time is added to what waits to be
    /// simulated and counted for the frame rate.
    pub open spec fn accumulated_clamped(self, dt: int) -> FrameTimer {
        let dt = min(dt, MAX_DELTA as int);
        FrameTimer { accumulator: (self.accumulator + dt) as u64, ..self.counted(dt) }
    }

    /// A clock on which no time has passed.
    pub fn new() -> (timer: FrameTimer)
        ensures
            timer == Self::fresh(),
            timer.wf(),
    {
        FrameTimer { accumulator: 0, fps_accum: 0, fps_frames: 0, fps: 0 }
    }

    fn count(&mut self, dt: u32)
        requires
            old(self).fps_accum < FPS_WINDOW,
        ensures
            *final(self) == old(self).counted(dt as int),
            final(self).fps_accum < FPS_WINDOW,
    {
        self.fps_accum = self.fps_accum + dt as u64;
        self.fps_frames = self.fps_frames.saturating_add(1);
        if self.fps_accum >= FPS_WINDOW {
            self.fps = (self.fps_frames as u64 * 120_000_000) / self.fps_accum;
            self.fps_accum = 0;
            self.fps_frames = 0;
        }
    }

    /// Takes the time of one frame, `dt` ticks, capping the time that waits
    /// to be simulated.
    pub fn accumulate(&mut self, dt: u32)
        requires
            old(self).wf(),
        ensures
            *final(self) == old(self).accumulated(dt as int),
            final(self).wf(),
            final(self).accumulator <= MAX_CATCH_UP,
    {
        self.accumulator = self.accumulator + dt as u64;
        if self.accumulator > MAX_CATCH_UP {
            self.accumulator = MAX_CATCH_UP;
        }
        self.count(dt);
    }

    /// Takes the time of one frame, `dt` ticks, clamping the frame.
    pub fn accumulate_clamped(&mut self, dt: u32)
        requires
            old(self).wf(),
            old(self).accumulator < TICKS_PER_STEP,
        ensures
            *final(self) == old(self).accumulated_clamped(dt as int),
            final(self).wf(),
    {
        let dt: u32 = if dt > MAX_DELTA {
            MAX_DELTA
        } else {
            dt
        };
        self.accumulator = self.accumulator + dt as u64;
        self.count(dt);
    }

    /// Whether a fixed step is due.  If so, its time is taken from the time
    /// that waits to be simulated.
    pub fn take_step(&mut self) -> (due: bool)
        ensures
            due == (old(self).accumulator >= TICKS_PER_STEP),
            due ==> *final(self) == (FrameTimer {
                accumulator: (old(self).accumulator - TICKS_PER_STEP) as u64,
                ..*old(self)
            }),
            !due ==> *final(self) == *old(self),
    {
        if self.accumulator >= TICKS_PER_STEP {
            self.accumulator = self.accumulator - TICKS_PER_STEP;
            true
        } else {
            false
        }
    }

    /// The two lines of the overlay: the frame rate to one decimal place,
    /// and the score, marked when the bird is dead.
    pub fn hud_text(&self, score: u32, dead: bool) -> (text: String)
        ensures
            text@ == hud_text(self.fps as int, score as int, dead),
    {
        let tenths: u64 = if self.fps > u64::MAX - 50 {
            u64::MAX / 100
        } else {
            (self.fps + 50) / 100
        };
        let mut rate = String::from_str("");
        push_decimal(&mut rate, tenths / 10);
        rate.append(".");
        push_decimal(&mut rate, tenths % 10);
        proof {
            reveal_strlit("");
            reveal_strlit(".");
            assert(decimal((tenths % 10) as nat) =~= seq![digit((tenths % 10) as int)]);
            assert(rate@ =~= rate_text(self.fps as int));
        }
        let mut text = String::from_str("FPS: ");
        let width: usize = 5;
        let len = rate.as_str().unicode_len();
        if len < width {
            push_spaces(&mut text, width - len);
        } else {
            assert(spaces(width - len) =~= Seq::<char>::empty());
        }
        text.append(rate.as_str());
        text.append("\nScore: ");
        push_decimal(&mut text, score as u64);
        if dead {
            text.append(" (DEAD)");
        } else {
            proof {
                reveal_strlit("");
            }
        }
        assert(text@ =~= hud_text(self.fps as int, score as int, dead));
        text
    }
}

/// A frame rate of `fps` thousandths in tenths, rounded half up.
pub open spec fn rate_tenths(fps: int) -> int {
    if fps > u64::MAX - 50 {
        (u64::MAX / 100) as int
    } else {
        (fps + 50) / 100
    }
}

/// A frame rate of `fps` thousandths as text with one decimal place.
pub open spec fn rate_text(fps: int) -> Seq<char> {
    decimal((rate_tenths(fps) / 10) as nat) + "."@ + seq![digit(rate_tenths(fps) % 10)]
}

/// The two lines of the overlay for a frame rate of `fps` thousandths.
pub open spec fn hud_text(fps: int, score: int, dead: bool) -> Seq<char> {
    "FPS: "@ + right_aligned(rate_text(fps), 5) + "\nScore: "@ + decimal(score as nat) + if dead {
        " (DEAD)"@
    } else {
        ""@
    }
}

/// The clock after frames of the times `deltas`, one after another.
pub open spec fn after_frames(timer: FrameTimer, deltas: Seq<u32>) -> FrameTimer
    decreases deltas.len(),
{
    if deltas.len() == 0 {
        timer
    } else {
        after_frames(timer, deltas.drop_last()).accumulated(deltas.last() as int)
    }
}

/// The sum of the times `deltas`.
pub open spec fn total(deltas: Seq<u32>) -> int
    decreases deltas.len(),
{
    if deltas.len() == 0 {
        0
    } else {
        total(deltas.drop_last()) + deltas.last()
    }
}

/// While the frames on a fresh clock add up to less than the window, the
/// clock has counted them all.
proof fn lemma_counting(deltas: Seq<u32>)
    requires
        total(deltas) < FPS_WINDOW,
        deltas.len() < u32::MAX,
    ensures
        total(deltas) >= 0,
        after_frames(FrameTimer::fresh(), deltas).fps_accum == total(deltas),
        after_frames(FrameTimer::fresh(), deltas).fps_frames == deltas.len(),
        after_frames(FrameTimer::fresh(), deltas).fps == 0,
    decreases deltas.len(),
{
    if deltas.len() > 0 {
        lemma_total_nonnegative(deltas.drop_last());
        lemma_counting(deltas.drop_last());
    }
}

/// A sum of times is not negative.
proof fn lemma_total_nonnegative(deltas: Seq<u32>)
    ensures
        total(deltas) >= 0,
    decreases deltas.len(),
{
    if deltas.len() > 0 {
        lemma_total_nonnegative(deltas.drop_last());
    }
}

/// Frames on a fresh clock that add up to exactly half a second, the last
/// of them taking some time, give a frame rate of twice their number, and leave
/// the count of the frame rate at zero frames and no time.
pub proof fn lemma_sampling_window(deltas: Seq<u32>)
    requires
        1 <= deltas.len() < u32::MAX,
        total(deltas) == FPS_WINDOW,
        deltas.last() > 0,
    ensures
        after_frames(FrameTimer::fresh(), deltas).fps == 2000 * deltas.len(),
        after_frames(FrameTimer::fresh(), deltas).fps_accum == 0,
        after_frames(FrameTimer::fresh(), deltas).fps_frames == 0,
{
    lemma_counting(deltas.drop_last());
    let n = deltas.len() as int;
    assert((n * 120_000_000) / 60_000 == 2000 * n) by (nonlinear_arith)
        requires
            n >= 0,
    ;
}

} // verus!
