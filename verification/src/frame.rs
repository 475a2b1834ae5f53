//! What one frame does to the games and to the clock: the steps that are due
//! are made, the first of them with the flap that waits, and what came of the
//! drawing decides how the loop goes on.
use crate::game;
use crate::game::laws::is_run as is_game_run;
use crate::game::rules::GameView;
use crate::timer::{FrameTimer, TICKS_PER_STEP};
use crate::world;
use crate::world::laws::is_run as is_world_run;
use crate::world::rules::WorldView;
use vstd::prelude::*;

verus! {

/// What came of drawing a frame.
#[derive(Clone, Copy, Debug, PartialEq, Eq, Structural)]
pub enum SurfaceOutcome {
    /// The frame is on the screen.
    Presented,
    /// The surface is lost.
    Lost,
    /// The surface no longer fits the window.
    Outdated,
    /// The surface did not hand out a frame in time.
    Timeout,
    /// There is no memory left for a frame.
    OutOfMemory,
}

/// What the loop does after a frame.
#[derive(Clone, Copy, Debug, PartialEq, Eq, Structural)]
pub enum FrameAction {
    /// Ask for the next frame.
    Continue,
    /// Configure the surface anew, then ask for the next frame.
    Reconfigure,
    /// Ask for the next frame; this one was not drawn.
    Skip,
    /// Report the error and ask for no more frames.
    Halt,
}

/// What the loop does after a frame of which `outcome` came: a surface that
/// is lost or outdated is configured anew, a frame that was not handed out in
/// time is skipped, and a lack of memory ends the loop.
pub fn after_render(outcome: SurfaceOutcome) -> (action: FrameAction)
    ensures
        action == match outcome {
            SurfaceOutcome::Presented => FrameAction::Continue,
            SurfaceOutcome::Lost => FrameAction::Reconfigure,
            SurfaceOutcome::Outdated => FrameAction::Reconfigure,
            SurfaceOutcome::Timeout => FrameAction::Skip,
            SurfaceOutcome::OutOfMemory => FrameAction::Halt,
        },
{
    match outcome {
        SurfaceOutcome::Presented => FrameAction::Continue,
        SurfaceOutcome::Lost => FrameAction::Reconfigure,
        SurfaceOutcome::Outdated => FrameAction::Reconfigure,
        SurfaceOutcome::Timeout => FrameAction::Skip,
        SurfaceOutcome::OutOfMemory => FrameAction::Halt,
    }
}

/// The size of the drawing surface for a canvas that the page lays out at
/// `client_width` by `client_height`: that size, but at least one by one.
pub fn canvas_size(client_width: i32, client_height: i32) -> (size: (u32, u32))
    ensures
        size.0 == if client_width < 1 {
            1
        } else {
            client_width as int
        },
        size.1 == if client_height < 1 {
            1
        } else {
            client_height as int
        },
{
    let width: u32 = if client_width < 1 {
        1
    } else {
        client_width as u32
    };
    let height: u32 = if client_height < 1 {
        1
    } else {
        client_height as u32
    };
    (width, height)
}

/// Whether the surface, configured for `configured`, has to be configured
/// anew for a canvas of the size `canvas`: whether the canvas has a size and it
/// is another one.
pub fn needs_resize(canvas: (u32, u32), configured: (u32, u32)) -> (resize: bool)
    ensures
        resize == (canvas.0 > 0 && canvas.1 > 0 && canvas != configured),
{
    canvas.0 > 0 && canvas.1 > 0 && (canvas.0 != configured.0 || canvas.1 != configured.1)
}

/// The flaps of `steps` steps of which the first has the flap `flap` and the
/// others none.
pub open spec fn first_only(steps: int, flap: bool) -> Seq<bool> {
    Seq::new(steps as nat, |i: int| i == 0 && flap)
}

/// The clock `timer` with all the whole steps taken from the time that
/// waits.
pub open spec fn drained(timer: FrameTimer) -> FrameTimer {
    FrameTimer { accumulator: (timer.accumulator % TICKS_PER_STEP) as u64, ..timer }
}

/// The letterboxed game `from` becomes `to` in `steps` steps, of which the
/// first has the jump `jump` and the others none.
pub open spec fn world_reaches(from: WorldView, to: WorldView, steps: int, jump: bool) -> bool {
    exists|trace: Seq<WorldView>|
        {
            &&& #[trigger] is_world_run(trace, first_only(steps, jump))
            &&& trace[0] == from
            &&& trace.last() == to
        }
}

/// The screen-relative game `from` becomes `to` in `steps` steps, of which
/// the first has the flap `flap` and the others none.
pub open spec fn game_reaches(from: GameView, to: GameView, steps: int, flap: bool) -> bool {
    exists|trace: Seq<GameView>|
        {
            &&& #[trigger] is_game_run(trace, first_only(steps, flap))
            &&& trace[0] == from
            &&& trace.last() == to
        }
}

/// The clock `timer` once it has taken the time of a frame, capped: `dt`
/// ticks, or nothing where the time of the frame is not known.
pub open spec fn taken(timer: FrameTimer, dt: Option<u32>) -> FrameTimer {
    match dt {
        Some(ticks) => timer.accumulated(ticks as int),
        None => timer,
    }
}

/// The clock `timer` once it has taken the time of a frame, clamped: `dt`
/// ticks, or nothing where the time of the frame is not known.
pub open spec fn taken_clamped(timer: FrameTimer, dt: Option<u32>) -> FrameTimer {
    match dt {
        Some(ticks) => timer.accumulated_clamped(ticks as int),
        None => timer,
    }
}

/// One frame of the letterboxed game.  The frame took `dt` ticks, or a time
/// that is not known, and `want_jump` says whether a jump was asked for since
/// the frame before; `pending_jump` holds a jump that no step has taken yet.  The
/// clock takes the time, capped, and is left as it is where the time is not
/// known; the game makes the steps that are due, the first with the jump that
/// waits; a jump for which no step was due waits on.  The result is the number
/// of steps made.
pub fn run_world_frame(
    game: &mut world::Game,
    timer: &mut FrameTimer,
    pending_jump: &mut bool,
    want_jump: bool,
    dt: Option<u32>,
) -> (steps: u64)
    requires
        old(game).wf(),
        old(timer).wf(),
    ensures
        final(game).wf(),
        final(timer).wf(),
        steps == taken(*old(timer), dt).accumulator / TICKS_PER_STEP,
        *final(timer) == drained(taken(*old(timer), dt)),
        *final(pending_jump) == ((*old(pending_jump) || want_jump) && steps == 0),
        world_reaches(
            old(game)@,
            final(game)@,
            steps as int,
            *old(pending_jump) || want_jump,
        ),
{
    if want_jump {
        *pending_jump = true;
    }
    let ghost jump = *pending_jump;
    match dt {
        Some(ticks) => {
            timer.accumulate(ticks);
        },
        None => {},
    }
    let ghost loaded = *timer;
    let ghost mut trace: Seq<WorldView> = seq![game@];
    let mut steps: u64 = 0;
    while timer.take_step()
        invariant
            game.wf(),
            loaded.wf(),
            *timer == (FrameTimer {
                accumulator: (loaded.accumulator - steps * TICKS_PER_STEP) as u64,
                ..loaded
            }),
            steps * TICKS_PER_STEP <= loaded.accumulator,
            *pending_jump == (jump && steps == 0),
            is_world_run(trace, first_only(steps as int, jump)),
            trace[0] == old(game)@,
            trace.last() == game@,
        decreases loaded.accumulator - steps * TICKS_PER_STEP,
    {
        let ghost before = trace;
        let ghost flaps = first_only(steps as int, jump);
        let jump_now = *pending_jump;
        game.step(jump_now);
        *pending_jump = false;
        steps += 1;
        proof {
            trace = before.push(game@);
            let longer = first_only(steps as int, jump);
            assert forall|i: int| 0 <= i < longer.len() implies trace[i].steps_to(
                trace[i + 1],
                #[trigger] longer[i],
            ) by {
                if i < flaps.len() {
                    assert(before[i].steps_to(before[i + 1], flaps[i]));
                }
            }
        }
    }
    steps
}

/// One frame of the screen-relative game.  The frame took `dt` ticks, or a
/// time that is not known, and `want_flap` says whether a flap was asked for
/// since the frame before; `pending_flap` holds a flap that no step has taken
/// yet.  The clock takes the time of the frame, clamped, and is left as it is
/// where the time is not known; the game makes the steps that are due, the first
/// with the flap that waits; a flap for which no step was due waits on.  The
/// result is the number of steps made.
pub fn run_game_frame(
    game: &mut game::Game,
    timer: &mut FrameTimer,
    pending_flap: &mut bool,
    want_flap: bool,
    dt: Option<u32>,
) -> (steps: u64)
    requires
        old(game).wf(),
        old(timer).wf(),
        old(timer).accumulator < TICKS_PER_STEP,
    ensures
        final(game).wf(),
        final(timer).wf(),
        final(timer).accumulator < TICKS_PER_STEP,
        steps == taken_clamped(*old(timer), dt).accumulator / TICKS_PER_STEP,
        *final(timer) == drained(taken_clamped(*old(timer), dt)),
        *final(pending_flap) == ((*old(pending_flap) || want_flap) && steps == 0),
        game_reaches(old(game)@, final(game)@, steps as int, *old(pending_flap) || want_flap),
{
    if want_flap {
        *pending_flap = true;
    }
    let ghost flap = *pending_flap;
    match dt {
        Some(ticks) => {
            timer.accumulate_clamped(ticks);
        },
        None => {},
    }
    let ghost loaded = *timer;
    let ghost mut trace: Seq<GameView> = seq![game@];
    let mut steps: u64 = 0;
    while timer.take_step()
        invariant
            game.wf(),
            loaded.wf(),
            *timer == (FrameTimer {
                accumulator: (loaded.accumulator - steps * TICKS_PER_STEP) as u64,
                ..loaded
            }),
            steps * TICKS_PER_STEP <= loaded.accumulator,
            *pending_flap == (flap && steps == 0),
            is_game_run(trace, first_only(steps as int, flap)),
            trace[0] == old(game)@,
            trace.last() == game@,
        decreases loaded.accumulator - steps * TICKS_PER_STEP,
    {
        let ghost before = trace;
        let ghost flaps = first_only(steps as int, flap);
        let flap_now = *pending_flap;
        game.step(flap_now);
        *pending_flap = false;
        steps += 1;
        proof {
            trace = before.push(game@);
            let longer = first_only(steps as int, flap);
            assert forall|i: int| 0 <= i < longer.len() implies trace[i].steps_to(
                trace[i + 1],
                #[trigger] longer[i],
            ) by {
                if i < flaps.len() {
                    assert(before[i].steps_to(before[i + 1], flaps[i]));
                }
            }
        }
    }
    steps
}

} // verus!
