//! The rules of the screen-relative game, written down on its mathematical
//! model: what a game is, what holds of every game, and what one step makes of
//! it.
use crate::bob;
use crate::color::{Color, Palette};
use crate::units::{clamp, max, Vec2, UNITS_PER_PIXEL};
use vstd::prelude::*;

verus! {

/// Velocity the bird gains in one step: 2200 pixels per second squared.
pub const GRAVITY: i64 = 550;

/// Velocity a flap sets: 750 pixels per second, upward.
pub const FLAP_VELOCITY: i64 = -22_500;

/// Width of a pipe: 140 pixels.
pub const PIPE_WIDTH: i64 = 504_000;

/// Smallest gap height: 220 pixels.
pub const PIPE_MIN_GAP: i64 = 792_000;

/// Largest gap height: 320 pixels.
pub const PIPE_MAX_GAP: i64 = 1_152_000;

/// Distance the pipes move left in one step: 300 pixels per second.
pub const SCROLL_PER_STEP: i64 = 9_000;

/// Width of the bird: 64 pixels.
pub const BIRD_WIDTH: i64 = 230_400;

/// Height of the bird: 48 pixels.
pub const BIRD_HEIGHT: i64 = 172_800;

/// Half the height of the bird.
pub const BIRD_HALF_HEIGHT: i64 = 86_400;

/// Pipe material kept above and below a gap: 40 pixels.
pub const GAP_MARGIN: i64 = 144_000;

/// Least room for the gap's centre to vary in: 10 pixels.
pub const GAP_SLACK: i64 = 36_000;

/// Least height of the ground band: 80 pixels.
pub const MIN_GROUND_HEIGHT: i64 = 288_000;

/// Greatest height of the ground band: 200 pixels.
pub const MAX_GROUND_HEIGHT: i64 = 720_000;

/// Least distance between two pipes: 260 pixels.
pub const MIN_PIPE_SPACING: i64 = 936_000;

/// Greatest distance between two pipes: 420 pixels.
pub const MAX_PIPE_SPACING: i64 = 1_512_000;

/// Distance of the first pipe from the right edge after a reset: 120 pixels.
pub const FIRST_PIPE_LEAD: i64 = 432_000;

/// Pipes in the queue after a reset.
pub const INITIAL_PIPES: usize = 4;

/// Height of the highlight on top of the ground: 6 pixels.
pub const GROUND_EDGE_HEIGHT: i64 = 21_600;

/// Bound on `v * v - 2 * GRAVITY * y` for the bird's velocity `v` and height
/// `y`: the value right after a flap at the crest of the idle bob's wave, on a
/// screen of no height.
pub const ENERGY_LIMIT: i64 = 553_770_000;

/// Bound on the bird's speed in either direction, for every screen.
pub const SPEED_LIMIT: i64 = 150_000_000;

/// The phase of a game's life.
#[derive(Clone, Copy, Debug, PartialEq, Eq, Structural)]
pub enum GameState {
    /// Waiting for the first flap; the bird bobs.
    Ready,
    /// Pipes scroll, the bird falls and flaps.
    Running,
    /// The bird has hit something; a flap starts over.
    Dead,
}

/// A pair of pipes with a gap between them.
#[derive(Clone, Copy, Debug, PartialEq, Eq, Structural)]
pub struct Pipe {
    /// Left edge.
    pub x: i64,
    /// Height of the middle of the gap, measured down from the top.
    pub gap_center: i64,
    /// Height of the gap.
    pub gap_height: i64,
    /// Whether the bird has been credited with passing this pipe.
    pub scored: bool,
}

/// An axis-aligned box.
#[derive(Clone, Copy, Debug, PartialEq, Eq, Structural)]
pub struct Rect {
    pub min: Vec2,
    pub size: Vec2,
}

/// One coloured rectangle to draw.
#[derive(Clone, Copy, Debug, PartialEq, Eq, Structural)]
pub struct InstanceData {
    pub pos: Vec2,
    pub size: Vec2,
    pub color: Color,
}

/// Horizontal position of the bird's centre: 28 % of the screen's width.
pub open spec fn bird_x(width: int) -> int {
    1008 * width
}

/// Height at which the bird starts: 45 % of the screen's height.
pub open spec fn start_y(height: int) -> int {
    1620 * height
}

/// Height of the ground band: 18 % of the screen's height, but at least
/// [`MIN_GROUND_HEIGHT`] and at most [`MAX_GROUND_HEIGHT`].
pub open spec fn ground_height(height: int) -> int {
    clamp(648 * height, MIN_GROUND_HEIGHT as int, MAX_GROUND_HEIGHT as int)
}

/// Height of the top of the ground band.
pub open spec fn ground_top(height: int) -> int {
    UNITS_PER_PIXEL * height - ground_height(height)
}

/// Distance from one pipe to the next: 45 % of the screen's width, but at
/// least [`MIN_PIPE_SPACING`] and at most [`MAX_PIPE_SPACING`].
pub open spec fn pipe_spacing(width: int) -> int {
    clamp(1620 * width, MIN_PIPE_SPACING as int, MAX_PIPE_SPACING as int)
}

/// A pipe whose right edge is left of this line has left the game: a fifth of
/// the screen's width to the left of the screen.
pub open spec fn exit_line(width: int) -> int {
    -720 * width
}

/// The last pipe of the queue is never left of this line: one spacing to the
/// right of the screen.
pub open spec fn spawn_line(width: int) -> int {
    UNITS_PER_PIXEL * width + pipe_spacing(width)
}

/// Left edge of the first pipe after a reset.
pub open spec fn first_pipe_x(width: int) -> int {
    UNITS_PER_PIXEL * width + FIRST_PIPE_LEAD
}

/// Least height allowed for the centre of a gap of the given height.
pub open spec fn min_center(gap_height: int) -> int {
    max(gap_height / 2 + GAP_MARGIN, BIRD_HEIGHT as int)
}

/// Greatest height allowed for the centre of a gap of the given height over
/// ground that starts at `ground_top`.
pub open spec fn max_center(gap_height: int, ground_top: int) -> int {
    max(ground_top - gap_height / 2 - GAP_MARGIN, min_center(gap_height) + GAP_SLACK)
}

impl Pipe {
    /// Height of the upper edge of the gap.
    pub open spec fn gap_top(self) -> int {
        self.gap_center - self.gap_height / 2
    }

    /// Height of the lower edge of the gap.
    pub open spec fn gap_bottom(self) -> int {
        self.gap_center + self.gap_height / 2
    }

    /// The gap is one that pipe generation can produce over ground that starts
    /// at `ground_top`: an even height between the two limits, and a centre between
    /// [`min_center`] and [`max_center`].
    pub open spec fn gap_ok(self, ground_top: int) -> bool {
        &&& PIPE_MIN_GAP <= self.gap_height <= PIPE_MAX_GAP
        &&& self.gap_height % 2 == 0
        &&& min_center(self.gap_height as int) <= self.gap_center <= max_center(
            self.gap_height as int,
            ground_top,
        )
    }

    /// The pipe stands where the box is, horizontally, and the box is not
    /// wholly inside the gap.
    pub open spec fn blocks(self, bird: Rect) -> bool {
        &&& !(bird.max_x() < self.x || bird.min_x() > self.x + PIPE_WIDTH)
        &&& (bird.min_y() < self.gap_top() || bird.max_y() > self.gap_bottom())
    }

    /// The pipe moved left by one step's scroll.
    pub open spec fn shifted(self) -> Pipe {
        Pipe { x: (self.x - SCROLL_PER_STEP) as i64, ..self }
    }

    /// The pipe, scored if its right edge is left of `bird_x`.
    pub open spec fn marked(self, bird_x: int) -> Pipe {
        Pipe { scored: self.scored || self.x + PIPE_WIDTH < bird_x, ..self }
    }

    /// The pipe one step later, as seen from a bird at `bird_x`: moved left,
    /// and scored once its right edge is left of the bird.
    pub open spec fn advanced(self, bird_x: int) -> Pipe {
        self.shifted().marked(bird_x)
    }

    /// The step that is about to be made takes the pipe's right edge past a
    /// bird at `bird_x` that it has not been scored for.
    pub open spec fn crosses(self, bird_x: int) -> bool {
        !self.scored && self.x - SCROLL_PER_STEP + PIPE_WIDTH < bird_x
    }
}

impl Rect {
    /// Left edge.
    pub open spec fn min_x(self) -> int {
        self.min.x as int
    }

    /// Right edge.
    pub open spec fn max_x(self) -> int {
        self.min.x + self.size.x
    }

    /// Upper edge.
    pub open spec fn min_y(self) -> int {
        self.min.y as int
    }

    /// Lower edge.
    pub open spec fn max_y(self) -> int {
        self.min.y + self.size.y
    }
}

/// The box of a bird whose centre is at height `y` on a screen `width` wide.
pub open spec fn bird_rect(width: int, y: int) -> Rect {
    Rect {
        min: Vec2 { x: (bird_x(width) - BIRD_WIDTH / 2) as i64, y: (y - BIRD_HALF_HEIGHT) as i64 },
        size: Vec2 { x: BIRD_WIDTH, y: BIRD_HEIGHT },
    }
}

/// On a screen of `width` by `height` pixels, a bird whose centre is at
/// height `bird_y` touches the ground, one of the pipes `pipes`, or the top of
/// the screen: its lower edge is below the top of the ground, a pipe blocks its
/// box, or its centre is less than half its height below the top.
pub open spec fn collides(width: int, height: int, bird_y: int, pipes: Seq<Pipe>) -> bool {
    ||| bird_y + BIRD_HALF_HEIGHT > ground_top(height)
    ||| exists|i: int| 0 <= i < pipes.len() && (#[trigger] pipes[i]).blocks(bird_rect(width, bird_y))
    ||| bird_y < BIRD_HALF_HEIGHT
}

/// The mathematical model of a [`Game`]: everything but its random source.
pub ghost struct GameView {
    pub palette: Palette,
    pub state: GameState,
    /// Width of the screen in pixels.
    pub width: int,
    /// Height of the screen in pixels.
    pub height: int,
    /// Height of the bird's centre, measured down from the top.
    pub bird_y: int,
    /// Velocity of the bird, positive downward.
    pub bird_vel: int,
    /// Phase of the idle bob.
    pub bob_phase: int,
    pub pipes: Seq<Pipe>,
    pub score: int,
    pub best_score: int,
}

impl GameView {
    /// Horizontal position of the bird's centre.
    pub open spec fn bird_x(self) -> int {
        bird_x(self.width)
    }

    /// Height of the top of the ground band.
    pub open spec fn ground_top(self) -> int {
        ground_top(self.height)
    }

    /// Distance from one pipe to the next.
    pub open spec fn pipe_spacing(self) -> int {
        pipe_spacing(self.width)
    }

    /// The box of the bird.
    pub open spec fn bird_rect(self) -> Rect {
        bird_rect(self.width, self.bird_y)
    }

    /// What holds of the pipe queue at all times: there is a pipe; every gap
    /// is one that pipe generation can produce; no pipe is left of where a pipe
    /// leaves the game or right of where the last pipe stands after a reset; each
    /// pipe is one spacing right of the one before it, so that the queue is in
    /// order from left to right; a pipe is scored just when its right edge is left
    /// of the bird; and the last pipe is at the spawn line or right of it.
    pub open spec fn pipes_valid(self) -> bool {
        &&& self.pipes.len() >= 1
        &&& forall|i: int|
            0 <= i < self.pipes.len() ==> (#[trigger] self.pipes[i]).gap_ok(self.ground_top())
        &&& forall|i: int|
            0 <= i < self.pipes.len() ==> exit_line(self.width) - PIPE_WIDTH <= (
            #[trigger] self.pipes[i]).x <= first_pipe_x(self.width) + 3 * self.pipe_spacing()
        &&& forall|i: int, j: int|
            0 <= i && j == i + 1 && j < self.pipes.len() ==> (#[trigger] self.pipes[j]).x == (
            #[trigger] self.pipes[i]).x + self.pipe_spacing()
        &&& forall|i: int, j: int|
            0 <= i < j < self.pipes.len() ==> (#[trigger] self.pipes[i]).x + self.pipe_spacing()
                <= (#[trigger] self.pipes[j]).x
        &&& forall|i: int|
            0 <= i < self.pipes.len() ==> ((#[trigger] self.pipes[i]).scored <==> self.pipes[i].x
                + PIPE_WIDTH < self.bird_x())
        &&& self.pipes.last().x >= spawn_line(self.width)
    }

    /// What holds of the bird at all times: its velocity `v` and height `y`
    /// keep `v * v - 2 * GRAVITY * y` within [`ENERGY_LIMIT`], which free fall only
    /// lowers; it is not below the screen by more than the bob's amplitude until it
    /// is dead, nor by more than one more step's fall when it is; in a run it is
    /// not above the screen by more than the bob's amplitude; and while the game
    /// waits it is at rest on the wave of the bob.
    pub open spec fn bird_valid(self) -> bool {
        &&& self.bird_vel * self.bird_vel - 2 * GRAVITY * self.bird_y <= ENERGY_LIMIT
        &&& self.state != GameState::Dead ==> self.bird_y <= UNITS_PER_PIXEL * self.height
            + bob::AMPLITUDE
        &&& self.bird_y <= UNITS_PER_PIXEL * self.height + bob::AMPLITUDE + SPEED_LIMIT + GRAVITY
        &&& self.state == GameState::Running ==> self.bird_y >= -bob::AMPLITUDE
        &&& self.state == GameState::Ready ==> {
            &&& self.bird_vel == 0
            &&& self.bird_y == start_y(self.height) + bob::offset(self.bob_phase)
        }
    }

    /// What holds of a game at all times.
    pub open spec fn valid(self) -> bool {
        &&& 1 <= self.width <= u32::MAX
        &&& 1 <= self.height <= u32::MAX
        &&& 0 <= self.bob_phase < bob::PERIOD
        &&& 0 <= self.score <= u32::MAX
        &&& 0 <= self.best_score <= u32::MAX
        &&& self.bird_valid()
        &&& self.pipes_valid()
    }

    /// The bird touches the ground, a pipe, or the top of the screen.
    pub open spec fn collides(self) -> bool {
        collides(self.width, self.height, self.bird_y, self.pipes)
    }

    /// Whether the step about to be made removes the first pipe: after it has
    /// moved, its right edge is left of the exit line.
    pub open spec fn drops_first(self) -> bool {
        self.pipes[0].x - SCROLL_PER_STEP + PIPE_WIDTH < exit_line(self.width)
    }

    /// The place in the queue of the first pipe that survives the step about
    /// to be made.
    pub open spec fn first_kept(self) -> int {
        if self.drops_first() {
            1
        } else {
            0
        }
    }

    /// The pipes that survive the step about to be made, each moved left and
    /// scored where it is due.
    pub open spec fn carried_pipes(self) -> Seq<Pipe> {
        Seq::new(
            (self.pipes.len() - self.first_kept()) as nat,
            |i: int| self.pipes[i + self.first_kept()].advanced(self.bird_x()),
        )
    }

    /// Whether the step about to be made appends a pipe: after the last one
    /// has moved, it is left of the spawn line.
    pub open spec fn spawns(self) -> bool {
        self.pipes.last().x - SCROLL_PER_STEP < spawn_line(self.width)
    }

    /// Whether the step about to be made takes a surviving pipe past the
    /// bird.
    pub open spec fn passes_pipe(self) -> bool {
        exists|i: int|
            self.first_kept() <= i < self.pipes.len() && (#[trigger] self.pipes[i]).crosses(
                self.bird_x(),
            )
    }

    /// The pipe queue `next` is what one running step makes of this one's:
    /// the carried pipes, followed by one new unscored pipe with a valid gap,
    /// one spacing right of the last, where the queue would otherwise end left of
    /// the spawn line.
    pub open spec fn pipes_step_to(self, next: Seq<Pipe>) -> bool {
        let carried = self.carried_pipes();
        &&& next.len() == carried.len() + if self.spawns() {
            1int
        } else {
            0int
        }
        &&& forall|i: int| 0 <= i < carried.len() ==> #[trigger] next[i] == carried[i]
        &&& self.spawns() ==> {
            &&& next.last().x == self.pipes.last().x - SCROLL_PER_STEP + self.pipe_spacing()
            &&& !next.last().scored
            &&& next.last().gap_ok(self.ground_top())
        }
    }

    /// `next` is this game started over: the bird at its start, four new
    /// unscored pipes with valid gaps, the first at [`first_pipe_x`] and each
    /// further one a spacing right of the one before, and no score.  Nothing is
    /// said of the best score.
    pub open spec fn restarts_to(self, next: GameView) -> bool {
        &&& next.palette == self.palette
        &&& next.width == self.width
        &&& next.height == self.height
        &&& next.state == GameState::Ready
        &&& next.bird_y == start_y(self.height)
        &&& next.bird_vel == 0
        &&& next.bob_phase == 0
        &&& next.score == 0
        &&& next.pipes.len() == INITIAL_PIPES
        &&& forall|i: int|
            0 <= i < next.pipes.len() ==> {
                &&& (#[trigger] next.pipes[i]).x == first_pipe_x(self.width) + i
                    * self.pipe_spacing()
                &&& !next.pipes[i].scored
                &&& next.pipes[i].gap_ok(self.ground_top())
            }
    }

    /// The game is as it is when it has just been started over.
    pub open spec fn fresh(self) -> bool {
        self.restarts_to(self)
    }

    /// `next` is this game after a reset: started over, with the best score
    /// raised to the score just lost where that was higher.
    pub open spec fn resets_to(self, next: GameView) -> bool {
        &&& self.restarts_to(next)
        &&& next.best_score == max(self.best_score, self.score)
    }

    /// `next` is this game one step later, in the state [`GameState::Ready`]:
    /// the wave of the bob moves on and the bird with it; a flap starts the run.
    pub open spec fn ready_steps_to(self, next: GameView, flap: bool) -> bool {
        next == GameView {
            state: if flap {
                GameState::Running
            } else {
                GameState::Ready
            },
            bird_vel: if flap {
                FLAP_VELOCITY as int
            } else {
                self.bird_vel
            },
            bob_phase: bob::next_phase(self.bob_phase),
            bird_y: start_y(self.height) + bob::offset(bob::next_phase(self.bob_phase)),
            ..self
        }
    }

    /// `next` is this game one step later, in the state
    /// [`GameState::Running`]: a flap sets the velocity, gravity adds to it, the bird
    /// moves by the new velocity, the pipes move on, a pipe passed scores one point,
    /// and a collision ends the run.
    pub open spec fn running_steps_to(self, next: GameView, flap: bool) -> bool {
        &&& next.palette == self.palette
        &&& next.width == self.width
        &&& next.height == self.height
        &&& next.bob_phase == self.bob_phase
        &&& next.bird_vel == (if flap {
            FLAP_VELOCITY as int
        } else {
            self.bird_vel
        }) + GRAVITY
        &&& next.bird_y == self.bird_y + next.bird_vel
        &&& self.pipes_step_to(next.pipes)
        &&& next.score == if self.passes_pipe() && self.score < u32::MAX {
            self.score + 1
        } else {
            self.score
        }
        &&& next.best_score == self.best_score
        &&& next.state == if next.collides() {
            GameState::Dead
        } else {
            GameState::Running
        }
    }

    /// `next` is this game one step later, in the state [`GameState::Dead`]
    /// and without a flap: the bird falls on, and comes to rest on the ground.
    pub open spec fn dead_steps_to(self, next: GameView) -> bool {
        let vel = self.bird_vel + GRAVITY;
        let y = self.bird_y + vel;
        let lands = y + BIRD_HALF_HEIGHT > self.ground_top();
        next == GameView {
            bird_vel: if lands {
                0
            } else {
                vel
            },
            bird_y: if lands {
                self.ground_top() - BIRD_HALF_HEIGHT
            } else {
                y
            },
            ..self
        }
    }

    /// `next` is this game one step later.
    pub open spec fn steps_to(self, next: GameView, flap: bool) -> bool {
        match self.state {
            GameState::Ready => self.ready_steps_to(next, flap),
            GameState::Running => self.running_steps_to(next, flap),
            GameState::Dead => if flap {
                self.resets_to(next)
            } else {
                self.dead_steps_to(next)
            },
        }
    }
}

/// The line of text that goes with a phase of the game's life.
pub open spec fn status_text(state: GameState) -> Seq<char> {
    match state {
        GameState::Ready => "Tap or press Space to start"@,
        GameState::Running => ""@,
        GameState::Dead => "Game over \u{2013} tap to retry"@,
    }
}


/// Distance of the beak from the left edge of the bird: three quarters of
/// its width.
pub const BEAK_OFFSET_X: i64 = 172_800;

/// Distance of the beak from the top edge of the bird: 35 % of its height.
pub const BEAK_OFFSET_Y: i64 = 60_480;

/// Width of the beak: a quarter of the bird's.
pub const BEAK_WIDTH: i64 = 57_600;

/// Height of the beak: a quarter of the bird's.
pub const BEAK_HEIGHT: i64 = 43_200;

impl GameView {
    /// The rectangle that covers the screen.
    pub open spec fn background_instance(self) -> InstanceData {
        InstanceData {
            pos: Vec2 { x: 0, y: 0 },
            size: Vec2 {
                x: (UNITS_PER_PIXEL * self.width) as i64,
                y: (UNITS_PER_PIXEL * self.height) as i64,
            },
            color: self.palette.background,
        }
    }

    /// The part of a pipe above its gap; of no height where the gap starts
    /// at or above the top of the screen.
    pub open spec fn upper_pipe_instance(self, pipe: Pipe) -> InstanceData {
        InstanceData {
            pos: Vec2 { x: pipe.x, y: 0 },
            size: Vec2 { x: PIPE_WIDTH, y: max(pipe.gap_top(), 0) as i64 },
            color: self.palette.pipe,
        }
    }

    /// The part of a pipe between its gap and the ground; of no height where
    /// the gap ends at or below the ground.
    pub open spec fn lower_pipe_instance(self, pipe: Pipe) -> InstanceData {
        InstanceData {
            pos: Vec2 { x: pipe.x, y: pipe.gap_bottom() as i64 },
            size: Vec2 { x: PIPE_WIDTH, y: max(self.ground_top() - pipe.gap_bottom(), 0) as i64 },
            color: self.palette.pipe_dark,
        }
    }

    /// The ground band.
    pub open spec fn ground_instance(self) -> InstanceData {
        InstanceData {
            pos: Vec2 { x: 0, y: self.ground_top() as i64 },
            size: Vec2 {
                x: (UNITS_PER_PIXEL * self.width) as i64,
                y: ground_height(self.height) as i64,
            },
            color: self.palette.ground,
        }
    }

    /// The highlight that lies on the ground band.
    pub open spec fn ground_edge_instance(self) -> InstanceData {
        InstanceData {
            pos: Vec2 { x: 0, y: (self.ground_top() - GROUND_EDGE_HEIGHT) as i64 },
            size: Vec2 { x: (UNITS_PER_PIXEL * self.width) as i64, y: GROUND_EDGE_HEIGHT },
            color: self.palette.ground_edge,
        }
    }

    /// The body of the bird.
    pub open spec fn bird_instance(self) -> InstanceData {
        InstanceData {
            pos: self.bird_rect().min,
            size: self.bird_rect().size,
            color: self.palette.bird_body,
        }
    }

    /// The beak of the bird.
    pub open spec fn beak_instance(self) -> InstanceData {
        InstanceData {
            pos: Vec2 {
                x: (self.bird_rect().min.x + BEAK_OFFSET_X) as i64,
                y: (self.bird_rect().min.y + BEAK_OFFSET_Y) as i64,
            },
            size: Vec2 { x: BEAK_WIDTH, y: BEAK_HEIGHT },
            color: self.palette.bird_beak,
        }
    }

    /// The rectangles of the pipes: for each pipe of the queue, in order, its
    /// upper part and then its lower part.
    pub open spec fn pipe_instances(self) -> Seq<InstanceData> {
        Seq::new(
            2 * self.pipes.len(),
            |i: int|
                if i % 2 == 0 {
                    self.upper_pipe_instance(self.pipes[i / 2])
                } else {
                    self.lower_pipe_instance(self.pipes[i / 2])
                },
        )
    }

    /// Everything to draw, back to front: the background, the pipes, the
    /// ground and its highlight, the bird and its beak.
    pub open spec fn instances(self) -> Seq<InstanceData> {
        seq![self.background_instance()] + self.pipe_instances() + seq![
            self.ground_instance(),
            self.ground_edge_instance(),
            self.bird_instance(),
            self.beak_instance(),
        ]
    }
}

} // verus!
