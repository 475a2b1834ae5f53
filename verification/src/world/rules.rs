//! The rule of the letterboxed game, written down on its mathematical
//! model: what a game is, what holds of every game, and what one step makes of
//! it.
use crate::units::{clamp, min};
use vstd::prelude::*;

verus! {

/// Width of the world: 288 pixels.
pub const WORLD_WIDTH: i64 = 1_036_800;

/// Height of the world: 512 pixels.
pub const WORLD_HEIGHT: i64 = 1_843_200;

/// Half the height of a gap: the gap is 120 pixels high.
pub const HALF_GAP: i64 = 216_000;

/// Distance between two pipes of the first queue: 220 pixels.
pub const PIPE_SPACING: i64 = 792_000;

/// Distance the pipes move left in one step: 120 pixels per second.
pub const PIPE_STEP: i64 = 3_600;

/// Width of a pipe: 52 pixels.
pub const PIPE_WIDTH: i64 = 187_200;

/// Horizontal position of the bird's centre: 72 pixels.
pub const BIRD_X: i64 = 259_200;

/// Half the width of the bird: 17 pixels.
pub const BIRD_HALF_WIDTH: i64 = 61_200;

/// Half the height of the bird: 12 pixels.
pub const BIRD_HALF_HEIGHT: i64 = 43_200;

/// Left edge of the bird.
pub const BIRD_LEFT: i64 = 198_000;

/// Width of the bird as it is drawn: 34 pixels.
pub const BIRD_WIDTH: i64 = 122_400;

/// Height of the bird as it is drawn: 24 pixels.
pub const BIRD_HEIGHT: i64 = 86_400;

/// Velocity the bird gains in one step: 900 pixels per second squared.
pub const GRAVITY: i64 = 225;

/// Velocity a flap sets: 320 pixels per second, upward.
pub const FLAP_VELOCITY: i64 = -9_600;

/// Greatest velocity downward: 500 pixels per second.
pub const MAX_FALL_SPEED: i64 = 15_000;

/// Greatest velocity upward: 480 pixels per second.
pub const MAX_RISE_SPEED: i64 = -14_400;

/// Least height of a gap's centre: 160 pixels.
pub const PIPE_MIN_Y: i64 = 576_000;

/// Greatest height of a gap's centre: 360 pixels.
pub const PIPE_MAX_Y: i64 = 1_296_000;

/// Height of the ground band: 100 pixels.
pub const GROUND_HEIGHT: i64 = 360_000;

/// Height of the top of the ground band.
pub const GROUND_TOP: i64 = 1_483_200;

/// Steps from one new pipe to the next: the time a pipe takes to move by one
/// spacing.
pub const SPAWN_INTERVAL: u32 = 220;

/// Left edge of the first pipe after a reset: 40 pixels right of the world.
pub const FIRST_PIPE_X: i64 = 1_180_800;

/// Pipes in the queue after a reset.
pub const INITIAL_PIPES: usize = 4;

/// Left edge of a new pipe: one pipe's width right of the world.
pub const SPAWN_X: i64 = 1_224_000;

/// A pipe has left the game when its right edge is at this line or left of
/// it: 80 pixels left of the world.
pub const EXIT_X: i64 = -288_000;

/// Height at which the bird starts: the middle of the world.
pub const START_Y: i64 = 921_600;

/// Depth below the top of the world at which a dead bird stops falling:
/// sixteen heights of the world, out of sight on every screen.
pub const DEPTH_LIMIT: i64 = 29_491_200;

/// A pair of pipes with a gap of fixed height between them.
#[derive(Clone, Copy, Debug, PartialEq, Eq, Structural)]
pub struct PipePair {
    /// Left edge.
    pub x: i64,
    /// Height of the middle of the gap, measured down from the top.
    pub gap_center: i64,
    /// Whether the bird has been credited with passing this pipe.
    pub passed: bool,
}

impl PipePair {
    /// Height of the upper edge of the gap.
    pub open spec fn gap_top(self) -> int {
        self.gap_center - HALF_GAP
    }

    /// Height of the lower edge of the gap.
    pub open spec fn gap_bottom(self) -> int {
        self.gap_center + HALF_GAP
    }

    /// The centre of the gap is where pipe generation puts it.
    pub open spec fn gap_ok(self) -> bool {
        PIPE_MIN_Y <= self.gap_center <= PIPE_MAX_Y
    }

    /// The step about to be made takes the pipe's right edge past the bird,
    /// which has not been credited with it.
    pub open spec fn passes(self) -> bool {
        !self.passed && self.x - PIPE_STEP + PIPE_WIDTH < BIRD_X
    }

    /// The pipe one step later: moved left, and passed once its right edge is
    /// left of the bird.
    pub open spec fn advanced(self) -> PipePair {
        PipePair {
            x: (self.x - PIPE_STEP) as i64,
            passed: self.passed || self.x - PIPE_STEP + PIPE_WIDTH < BIRD_X,
            ..self
        }
    }

    /// The pipe's right edge is right of the exit line.
    pub open spec fn in_view(self) -> bool {
        self.x + PIPE_WIDTH > EXIT_X
    }

    /// The pipe stands where a bird at height `bird_y` is, horizontally, and
    /// the bird is not wholly inside the gap.
    pub open spec fn blocks(self, bird_y: int) -> bool {
        &&& BIRD_X + BIRD_HALF_WIDTH > self.x
        &&& BIRD_X - BIRD_HALF_WIDTH < self.x + PIPE_WIDTH
        &&& (bird_y - BIRD_HALF_HEIGHT < self.gap_top() || bird_y + BIRD_HALF_HEIGHT
            > self.gap_bottom())
    }

    /// Whether the pipe stands where a bird at height `bird_y` is,
    /// horizontally, and the bird is not wholly inside the gap.
    pub fn hits(&self, bird_y: i64) -> (hit: bool)
        ensures
            hit == self.blocks(bird_y as int),
    {
        let left: i128 = self.x as i128;
        let right: i128 = self.x as i128 + PIPE_WIDTH as i128;
        let center: i128 = self.gap_center as i128;
        let y: i128 = bird_y as i128;
        if (BIRD_X + BIRD_HALF_WIDTH) as i128 > left && ((BIRD_X - BIRD_HALF_WIDTH) as i128)
            < right {
            y - (BIRD_HALF_HEIGHT as i128) < center - (HALF_GAP as i128) || y + (
            BIRD_HALF_HEIGHT as i128) > center + (HALF_GAP as i128)
        } else {
            false
        }
    }
}

/// Every pipe of `pipes` one step later.
pub open spec fn advanced_all(pipes: Seq<PipePair>) -> Seq<PipePair> {
    Seq::new(pipes.len(), |i: int| pipes[i].advanced())
}

/// The number of pipes of `pipes` that the step about to be made takes past
/// the bird.
pub open spec fn passing(pipes: Seq<PipePair>) -> nat
    decreases pipes.len(),
{
    if pipes.len() == 0 {
        0
    } else {
        passing(pipes.drop_last()) + if pipes.last().passes() {
            1nat
        } else {
            0nat
        }
    }
}

/// The pipes of `pipes` that are in view, in their order.
pub open spec fn still_in_view(pipes: Seq<PipePair>) -> Seq<PipePair>
    decreases pipes.len(),
{
    if pipes.len() == 0 {
        pipes
    } else if pipes.last().in_view() {
        still_in_view(pipes.drop_last()).push(pipes.last())
    } else {
        still_in_view(pipes.drop_last())
    }
}

/// Some pipe of `pipes` blocks a bird at height `bird_y`.
pub open spec fn any_blocks(pipes: Seq<PipePair>, bird_y: int) -> bool {
    exists|i: int| 0 <= i < pipes.len() && (#[trigger] pipes[i]).blocks(bird_y)
}

/// The centre of the gap of the last pipe of `pipes`; zero if there is none.
pub open spec fn last_gap(pipes: Seq<PipePair>) -> int {
    if pipes.len() > 0 {
        pipes.last().gap_center as int
    } else {
        0
    }
}

/// The queue after a reset, with the gaps of `gaps`: four pipes a spacing
/// apart, the first at [`FIRST_PIPE_X`], none of them passed.
pub open spec fn first_pipes(gaps: Seq<PipePair>) -> Seq<PipePair> {
    Seq::new(
        INITIAL_PIPES as nat,
        |i: int|
            PipePair {
                x: (FIRST_PIPE_X + i * PIPE_SPACING) as i64,
                gap_center: gaps[i].gap_center,
                passed: false,
            },
    )
}

/// The mathematical model of a [`Game`]: everything but its random source.
pub ghost struct WorldView {
    /// Height of the bird's centre, measured down from the top.
    pub bird_y: int,
    /// Velocity of the bird, positive downward.
    pub bird_v: int,
    pub is_dead: bool,
    pub pipes: Seq<PipePair>,
    /// Steps since the last pipe was added, or since the reset.
    pub spawn_timer: int,
    pub score: int,
}

impl WorldView {
    /// What holds of a game at all times.
    pub open spec fn valid(self) -> bool {
        &&& 0 <= self.bird_y <= DEPTH_LIMIT
        &&& MAX_RISE_SPEED <= self.bird_v <= MAX_FALL_SPEED
        &&& !self.is_dead ==> self.bird_y + BIRD_HALF_HEIGHT < GROUND_TOP
        &&& 0 <= self.spawn_timer < SPAWN_INTERVAL
        &&& 0 <= self.score <= u32::MAX
        &&& forall|i: int|
            0 <= i < self.pipes.len() ==> EXIT_X - PIPE_WIDTH < (#[trigger] self.pipes[i]).x
                <= FIRST_PIPE_X + 3 * PIPE_SPACING
        &&& forall|i: int| 0 <= i < self.pipes.len() ==> (#[trigger] self.pipes[i]).gap_ok()
    }

    /// The game after a reset in which the pipes get the gaps of `gaps`.
    pub open spec fn fresh(gaps: Seq<PipePair>) -> WorldView {
        WorldView {
            bird_y: START_Y as int,
            bird_v: 0,
            is_dead: false,
            pipes: first_pipes(gaps),
            spawn_timer: 0,
            score: 0,
        }
    }

    /// The velocity of the bird after the step about to be made.
    pub open spec fn next_velocity(self) -> int {
        clamp(self.bird_v + GRAVITY, MAX_RISE_SPEED as int, MAX_FALL_SPEED as int)
    }

    /// The height of the bird after the step about to be made: it moves by
    /// its new velocity, but not above the top of the world, nor below
    /// [`DEPTH_LIMIT`].
    pub open spec fn next_height(self) -> int {
        clamp(self.bird_y + self.next_velocity(), 0, DEPTH_LIMIT as int)
    }

    /// The bird is dead after it has moved: it was dead before, it has
    /// reached the top of the world, or it touches the ground.
    pub open spec fn dies_moving(self) -> bool {
        ||| self.is_dead
        ||| self.bird_y + self.next_velocity() < 0
        ||| self.next_height() + BIRD_HALF_HEIGHT >= GROUND_TOP
    }

    /// Whether the step about to be made adds a pipe, if the bird lives.
    pub open spec fn spawns(self) -> bool {
        self.spawn_timer + 1 >= SPAWN_INTERVAL
    }

    /// The queue as the step about to be made finds it once it has added its
    /// pipe, with a gap centred at `gap`.
    pub open spec fn queue(self, gap: int) -> Seq<PipePair> {
        if self.spawns() {
            self.pipes.push(PipePair { x: SPAWN_X, gap_center: gap as i64, passed: false })
        } else {
            self.pipes
        }
    }

    /// The game one step later, where a pipe that the step adds gets a gap
    /// centred at `gap`.  The bird moves.  If that kills it, nothing else happens.
    /// Otherwise the pipe that is due is added, every pipe moves left and scores a
    /// point as its right edge passes the bird, the pipes that have left are
    /// dropped, and a pipe in the bird's way kills it.
    pub open spec fn advance(self, gap: int) -> WorldView {
        if self.dies_moving() {
            WorldView {
                bird_y: self.next_height(),
                bird_v: self.next_velocity(),
                is_dead: true,
                ..self
            }
        } else {
            let pipes = still_in_view(advanced_all(self.queue(gap)));
            WorldView {
                bird_y: self.next_height(),
                bird_v: self.next_velocity(),
                is_dead: any_blocks(pipes, self.next_height()),
                pipes,
                spawn_timer: if self.spawns() {
                    self.spawn_timer + 1 - SPAWN_INTERVAL
                } else {
                    self.spawn_timer + 1
                },
                score: min(self.score + passing(self.queue(gap)), u32::MAX as int),
            }
        }
    }

    /// The game as the step about to be made finds it once the jump, if there
    /// is one, has been dealt with: a jump sets the velocity of a flap, and for a
    /// dead bird starts the game over first, with pipes that get the gaps of
    /// `gaps`.
    pub open spec fn jumped(self, want_jump: bool, gaps: Seq<PipePair>) -> WorldView {
        if want_jump {
            WorldView {
                bird_v: FLAP_VELOCITY as int,
                ..if self.is_dead {
                    Self::fresh(gaps)
                } else {
                    self
                }
            }
        } else {
            self
        }
    }

    /// `next` is this game one step later: the jump is dealt with and the
    /// game advances, and the pipes that the step made have their gaps where pipe
    /// generation puts them.  The gaps themselves are those found in `next`: the
    /// step is a function of them.
    pub open spec fn steps_to(self, next: WorldView, want_jump: bool) -> bool {
        let start = self.jumped(want_jump, next.pipes);
        &&& next == start.advance(last_gap(next.pipes))
        &&& want_jump && self.is_dead ==> {
            &&& next.pipes.len() == INITIAL_PIPES
            &&& forall|i: int| 0 <= i < next.pipes.len() ==> (#[trigger] next.pipes[i]).gap_ok()
        }
        &&& !start.dies_moving() && start.spawns() ==> {
            &&& next.pipes.len() >= 1
            &&& next.pipes.last().gap_ok()
        }
    }
}

} // verus!
