//! The screen-relative game: a bird, a queue of pipes, a score.
//!
//! The world is as wide and as high as the screen.  A [`Game`] is advanced one
//! fixed step at a time by [`Game::step`].  What a step does is written down in
//! [`rules`], on the mathematical model [`GameView`], as the relation
//! [`GameView::steps_to`]; what follows from the rules is proved in [`laws`].
use crate::bob;
use crate::color::Color;
use crate::random;
use crate::random::SeedError;
use crate::units::{max, Vec2, UNITS_PER_PIXEL};
use rand::rngs::SmallRng;
use vstd::prelude::*;

pub mod laws;
pub mod rules;

pub use crate::color::Palette;
pub use rules::{
    GameState, GameView, InstanceData, Pipe, Rect, BEAK_HEIGHT, BEAK_OFFSET_X, BEAK_OFFSET_Y,
    BEAK_WIDTH, BIRD_HALF_HEIGHT, BIRD_HEIGHT, BIRD_WIDTH, ENERGY_LIMIT, FIRST_PIPE_LEAD,
    FLAP_VELOCITY, GAP_MARGIN, GAP_SLACK, GRAVITY, GROUND_EDGE_HEIGHT, INITIAL_PIPES,
    MAX_GROUND_HEIGHT, MAX_PIPE_SPACING, MIN_GROUND_HEIGHT, MIN_PIPE_SPACING, PIPE_MAX_GAP,
    PIPE_MIN_GAP, PIPE_WIDTH, SCROLL_PER_STEP, SPEED_LIMIT,
};
use rules::{
    bird_x, exit_line, first_pipe_x, ground_height, ground_top, pipe_spacing, spawn_line, start_y,
    status_text,
};

verus! {

/// The game: a bird, a queue of pipes, the score, and a random source for the
/// gaps of new pipes.
#[derive(Debug)]
pub struct Game {
    palette: Palette,
    state: GameState,
    rng: SmallRng,
    width: u32,
    height: u32,
    bird_y: i64,
    bird_vel: i64,
    bob_phase: i64,
    pipes: Vec<Pipe>,
    score: u32,
    best_score: u32,
}

impl View for Game {
    type V = GameView;

    closed spec fn view(&self) -> GameView {
        GameView {
            palette: self.palette,
            state: self.state,
            width: self.width as int,
            height: self.height as int,
            bird_y: self.bird_y as int,
            bird_vel: self.bird_vel as int,
            bob_phase: self.bob_phase as int,
            pipes: self.pipes@,
            score: self.score as int,
            best_score: self.best_score as int,
        }
    }
}

impl Pipe {
    /// Whether the pipe stands where the box is, horizontally, and the box is
    /// not wholly inside the gap.
    pub fn hits(&self, bird: &Rect) -> (hit: bool)
        ensures
            hit == self.blocks(*bird),
    {
        let left: i128 = self.x as i128;
        let right: i128 = self.x as i128 + PIPE_WIDTH as i128;
        let bird_left: i128 = bird.min.x as i128;
        let bird_right: i128 = bird.min.x as i128 + bird.size.x as i128;
        if bird_right < left || bird_left > right {
            return false;
        }
        let height: i128 = self.gap_height as i128;
        let gap_half: i128 = if height >= 0 {
            height / 2
        } else {
            (height - 1) / 2
        };
        let gap_top: i128 = self.gap_center as i128 - gap_half;
        let gap_bottom: i128 = self.gap_center as i128 + gap_half;
        let bird_top: i128 = bird.min.y as i128;
        let bird_bottom: i128 = bird.min.y as i128 + bird.size.y as i128;
        bird_top < gap_top || bird_bottom > gap_bottom
    }
}

/// Height of the top of the ground band on a screen `height` pixels high.
fn ground_top_at(height: u32) -> (y: i64)
    ensures
        y == ground_top(height as int),
{
    let raw: i64 = 648 * (height as i64);
    let ground: i64 = if raw < MIN_GROUND_HEIGHT {
        MIN_GROUND_HEIGHT
    } else if raw > MAX_GROUND_HEIGHT {
        MAX_GROUND_HEIGHT
    } else {
        raw
    };
    UNITS_PER_PIXEL * (height as i64) - ground
}

/// Whether, on a screen of `width` by `height` pixels, a bird whose centre
/// is at height `bird_y` touches the ground, one of the pipes `pipes`, or the
/// top of the screen.
pub fn bird_collides(width: u32, height: u32, bird_y: i64, pipes: &Vec<Pipe>) -> (hit: bool)
    requires
        i64::MIN + BIRD_HALF_HEIGHT <= bird_y <= i64::MAX - BIRD_HALF_HEIGHT,
    ensures
        hit == rules::collides(width as int, height as int, bird_y as int, pipes@),
{
    if bird_y + BIRD_HALF_HEIGHT > ground_top_at(height) {
        return true;
    }
    let bird_rect = Rect {
        min: Vec2 { x: 1008 * (width as i64) - BIRD_WIDTH / 2, y: bird_y - BIRD_HALF_HEIGHT },
        size: Vec2 { x: BIRD_WIDTH, y: BIRD_HEIGHT },
    };
    assert(bird_rect == rules::bird_rect(width as int, bird_y as int));
    let n = pipes.len();
    let mut i: usize = 0;
    while i < n
        invariant
            i <= n,
            n == pipes@.len(),
            bird_rect == rules::bird_rect(width as int, bird_y as int),
            forall|k: int| 0 <= k < i ==> !(#[trigger] pipes@[k]).blocks(bird_rect),
        decreases n - i,
    {
        if pipes[i].hits(&bird_rect) {
            return true;
        }
        i += 1;
    }
    bird_y < BIRD_HALF_HEIGHT
}

/// Moves every pipe left by one step's scroll.
fn shift_pipes(pipes: &mut Vec<Pipe>)
    requires
        forall|k: int|
            0 <= k < old(pipes)@.len() ==> (#[trigger] old(pipes)@[k]).x - SCROLL_PER_STEP
                >= i64::MIN,
    ensures
        final(pipes)@.len() == old(pipes)@.len(),
        forall|k: int|
            0 <= k < old(pipes)@.len() ==> #[trigger] final(pipes)@[k] == old(pipes)@[k].shifted(),
{
    let n = pipes.len();
    let mut i: usize = 0;
    while i < n
        invariant
            i <= n,
            n == pipes@.len(),
            n == old(pipes)@.len(),
            forall|k: int|
                0 <= k < n ==> (#[trigger] old(pipes)@[k]).x - SCROLL_PER_STEP >= i64::MIN,
            forall|k: int|
                0 <= k < i ==> #[trigger] pipes@[k] == old(pipes)@[k].shifted(),
            forall|k: int| i <= k < n ==> #[trigger] pipes@[k] == old(pipes)@[k],
        decreases n - i,
    {
        let mut pipe = pipes[i];
        assert(pipe == old(pipes)@[i as int]);
        pipe.x = pipe.x - SCROLL_PER_STEP;
        pipes.set(i, pipe);
        i += 1;
    }
}

impl GameView {
    /// The queue after the pipes have moved and the first has left where it
    /// was due, before any pipe is added or scored.
    spec fn moved_pipes(self) -> Seq<Pipe> {
        let from = self.first_kept();
        Seq::new((self.pipes.len() - from) as nat, |k: int| self.pipes[k + from].shifted())
    }

    /// What holds of the queue `row` between the moving of the pipes and
    /// their scoring.
    spec fn row_valid(self, row: Seq<Pipe>) -> bool {
        &&& row.len() >= 1
        &&& forall|i: int| 0 <= i < row.len() ==> (#[trigger] row[i]).gap_ok(self.ground_top())
        &&& forall|i: int|
            0 <= i < row.len() ==> exit_line(self.width) - PIPE_WIDTH <= (#[trigger] row[i]).x
                <= first_pipe_x(self.width) + 3 * self.pipe_spacing()
        &&& forall|i: int, j: int|
            0 <= i && j == i + 1 && j < row.len() ==> (#[trigger] row[j]).x == (
            #[trigger] row[i]).x + self.pipe_spacing()
        &&& forall|i: int, j: int|
            0 <= i < j < row.len() ==> (#[trigger] row[i]).x + self.pipe_spacing() <= (
            #[trigger] row[j]).x
        &&& forall|i: int|
            0 <= i < row.len() ==> ((#[trigger] row[i]).scored ==> row[i].x + PIPE_WIDTH
                < self.bird_x())
        &&& forall|i: int|
            0 <= i < row.len() ==> (!(#[trigger] row[i]).scored ==> row[i].x + SCROLL_PER_STEP
                + PIPE_WIDTH >= self.bird_x())
        &&& row.last().x >= spawn_line(self.width) - SCROLL_PER_STEP
    }

    /// The moved pipes of a valid queue are a queue as it is between moving
    /// and scoring, and their last pipe is the last pipe, moved.
    proof fn lemma_moved_pipes_valid(self)
        requires
            1 <= self.width <= u32::MAX,
            self.pipes_valid(),
        ensures
            self.row_valid(self.moved_pipes()),
            self.moved_pipes().last() == self.pipes.last().shifted(),
    {
        let row = self.moved_pipes();
        let from = self.first_kept();
        let sp = self.pipe_spacing();
        assert(self.pipes.last().x >= spawn_line(self.width));
        assert(self.pipes.len() - from >= 1);
        assert forall|i: int| 0 <= i < row.len() implies exit_line(self.width) - PIPE_WIDTH <= (
        #[trigger] row[i]).x <= first_pipe_x(self.width) + 3 * sp by {
            if i + from > 0 {
                assert(self.pipes[0].x + sp <= self.pipes[i + from].x);
            }
        }
        assert forall|i: int, j: int| 0 <= i && j == i + 1 && j < row.len() implies (
        #[trigger] row[j]).x == (#[trigger] row[i]).x + sp by {
            assert(self.pipes[j + from].x == self.pipes[i + from].x + sp);
        }
        assert forall|i: int, j: int| 0 <= i < j < row.len() implies (#[trigger] row[i]).x + sp
            <= (#[trigger] row[j]).x by {
            assert(self.pipes[i + from].x + sp <= self.pipes[j + from].x);
        }
        assert forall|i: int| 0 <= i < row.len() implies (#[trigger] row[i]).gap_ok(
            self.ground_top(),
        ) by {
            assert(self.pipes[i + from].gap_ok(self.ground_top()));
        }
        assert forall|i: int| 0 <= i < row.len() && (#[trigger] row[i]).scored implies row[i].x
            + PIPE_WIDTH < self.bird_x() by {
            assert(self.pipes[i + from].scored <==> self.pipes[i + from].x + PIPE_WIDTH
                < self.bird_x());
        }
        assert forall|i: int| 0 <= i < row.len() && !(#[trigger] row[i]).scored implies row[i].x
            + SCROLL_PER_STEP + PIPE_WIDTH >= self.bird_x() by {
            assert(self.pipes[i + from].scored <==> self.pipes[i + from].x + PIPE_WIDTH
                < self.bird_x());
        }
    }

    /// The queue `row`, made of the moved pipes by adding a pipe where one
    /// is due, and then scored pipe by pipe into `next`, is a queue that this
    /// one steps to; and a pipe of `row` is newly scored just when a surviving
    /// pipe passes the bird.
    proof fn lemma_running_pipes(self, row: Seq<Pipe>, next: Seq<Pipe>)
        requires
            1 <= self.width,
            self.pipes.len() >= 1,
            self.drops_first() ==> self.pipes.len() >= 2,
            forall|k: int|
                0 <= k < self.pipes.len() ==> (#[trigger] self.pipes[k]).x - SCROLL_PER_STEP
                    >= i64::MIN,
            !self.spawns() ==> row == self.moved_pipes(),
            self.spawns() ==> {
                &&& row.len() == self.moved_pipes().len() + 1
                &&& row.drop_last() == self.moved_pipes()
                &&& row.last().x == self.pipes.last().x - SCROLL_PER_STEP + self.pipe_spacing()
                &&& !row.last().scored
                &&& row.last().gap_ok(self.ground_top())
                &&& row.last().x >= spawn_line(self.width)
            },
            next.len() == row.len(),
            forall|k: int| 0 <= k < row.len() ==> #[trigger] next[k] == row[k].marked(self.bird_x()),
        ensures
            self.pipes_step_to(next),
            self.passes_pipe() <==> exists|k: int|
                0 <= k < row.len() && !(#[trigger] row[k]).scored && row[k].x + PIPE_WIDTH
                    < self.bird_x(),
    {
        let moved = self.moved_pipes();
        let carried = self.carried_pipes();
        let from = self.first_kept();
        assert(carried.len() == moved.len());
        assert forall|k: int| 0 <= k < moved.len() implies row[k] == moved[k] by {
            if self.spawns() {
                assert(row.drop_last()[k] == row[k]);
            }
        }
        assert forall|k: int| 0 <= k < carried.len() implies #[trigger] next[k] == carried[k] by {
            assert(row[k] == moved[k]);
            assert(next[k] == row[k].marked(self.bird_x()));
        }
        if self.spawns() {
            assert(next.last() == row.last().marked(self.bird_x()));
        }
        let crossed = exists|k: int|
            0 <= k < row.len() && !(#[trigger] row[k]).scored && row[k].x + PIPE_WIDTH
                < self.bird_x();
        if crossed {
            let k = choose|k: int|
                0 <= k < row.len() && !(#[trigger] row[k]).scored && row[k].x + PIPE_WIDTH
                    < self.bird_x();
            assert(k < moved.len());
            assert(row[k] == moved[k]);
            assert(self.pipes[k + from].crosses(self.bird_x()));
        }
        if self.passes_pipe() {
            let w = choose|w: int|
                self.first_kept() <= w < self.pipes.len() && (#[trigger] self.pipes[w]).crosses(
                    self.bird_x(),
                );
            assert(row[w - from] == moved[w - from]);
            assert(!row[w - from].scored && row[w - from].x + PIPE_WIDTH < self.bird_x());
        }
    }
}

impl Game {
    /// The game is in a state that the constructors and methods of this type
    /// can leave it in.
    pub open spec fn wf(&self) -> bool {
        self@.valid()
    }

    /// A game on a screen of 1280 by 720 pixels, waiting for the first flap,
    /// with a random source seeded by the operating system; or the reason why
    /// there is none, where the operating system gives no seed.
    pub fn new(palette: Palette) -> (made: Result<Game, SeedError>)
        ensures
            match made {
                Ok(game) => {
                    &&& game.wf()
                    &&& game@.palette == palette
                    &&& game@.width == 1280
                    &&& game@.height == 720
                    &&& game@.best_score == 0
                    &&& game@.fresh()
                },
                Err(error) => error == SeedError::NoEntropy,
            },
    {
        Self::from_seeding(palette, random::from_os_rng())
    }

    /// A game on a screen of 1280 by 720 pixels, waiting for the first flap,
    /// with the random source that `seeding` holds; or the reason why there is
    /// none, where `seeding` holds an error.
    pub fn from_seeding(palette: Palette, seeding: Result<SmallRng, rand::Error>) -> (made: Result<
        Game,
        SeedError,
    >)
        ensures
            made is Ok <==> seeding is Ok,
            match made {
                Ok(game) => {
                    &&& game.wf()
                    &&& game@.palette == palette
                    &&& game@.width == 1280
                    &&& game@.height == 720
                    &&& game@.best_score == 0
                    &&& game@.fresh()
                },
                Err(error) => error == SeedError::NoEntropy,
            },
    {
        match seeding {
            Ok(rng) => Ok(Self::with_rng(palette, rng)),
            Err(_) => Err(SeedError::NoEntropy),
        }
    }

    /// A game on a screen of 1280 by 720 pixels, waiting for the first flap,
    /// with a random source seeded from `seed`.
    pub fn with_seed(palette: Palette, seed: u64) -> (game: Game)
        ensures
            game.wf(),
            game@.palette == palette,
            game@.width == 1280,
            game@.height == 720,
            game@.best_score == 0,
            game@.fresh(),
    {
        Self::with_rng(palette, random::seed_from_u64(seed))
    }

    /// A game on a screen of 1280 by 720 pixels with the given random source.
    fn with_rng(palette: Palette, rng: SmallRng) -> (game: Game)
        ensures
            game.wf(),
            game@.palette == palette,
            game@.width == 1280,
            game@.height == 720,
            game@.best_score == 0,
            game@.fresh(),
    {
        let mut game = Game {
            palette,
            state: GameState::Ready,
            rng,
            width: 1280,
            height: 720,
            bird_y: 0,
            bird_vel: 0,
            bob_phase: 0,
            pipes: Vec::new(),
            score: 0,
            best_score: 0,
        };
        game.resize(1280, 720);
        game
    }

    /// Takes a new screen size, in pixels; a size of zero counts as one.  The
    /// game in progress is lost: its score goes into the best score and the game
    /// starts over for the new size.
    pub fn resize(&mut self, width: u32, height: u32)
        ensures
            final(self).wf(),
            final(self)@.width == max(width as int, 1),
            final(self)@.height == max(height as int, 1),
            (GameView { width: max(width as int, 1), height: max(height as int, 1), ..old(self)@ })
                .resets_to(final(self)@),
    {
        self.width = if width < 1 {
            1
        } else {
            width
        };
        self.height = if height < 1 {
            1
        } else {
            height
        };
        if self.score > self.best_score {
            self.best_score = self.score;
        }
        self.reset_internal();
    }

    /// Replaces the colour of the background.
    pub fn set_background(&mut self, color: Color)
        ensures
            final(self)@ == (GameView {
                palette: Palette { background: color, ..old(self)@.palette },
                ..old(self)@
            }),
    {
        self.palette.background = color;
    }

    /// Starts the game over and leaves the best score as it is.
    fn reset_internal(&mut self)
        requires
            1 <= old(self).width,
            1 <= old(self).height,
        ensures
            old(self)@.restarts_to(final(self)@),
            final(self)@.best_score == old(self)@.best_score,
            final(self).wf(),
    {
        self.state = GameState::Ready;
        self.bird_y = self.start_y();
        self.bird_vel = 0;
        self.bob_phase = 0;
        self.pipes.clear();
        self.score = 0;
        let start_x: i64 = UNITS_PER_PIXEL * (self.width as i64) + FIRST_PIPE_LEAD;
        let spacing: i64 = self.pipe_spacing();
        let mut i: usize = 0;
        while i < INITIAL_PIPES
            invariant
                i <= INITIAL_PIPES,
                self.pipes@.len() == i,
                spacing == pipe_spacing(self.width as int),
                start_x == first_pipe_x(self.width as int),
                self@ == (GameView { pipes: self.pipes@, ..self@ }),
                self.width == old(self).width,
                self.height == old(self).height,
                self.palette == old(self).palette,
                self.best_score == old(self).best_score,
                self.state == GameState::Ready,
                self.bird_y == start_y(self.height as int),
                self.bird_vel == 0,
                self.bob_phase == 0,
                self.score == 0,
                forall|k: int|
                    0 <= k < i ==> {
                        &&& (#[trigger] self.pipes@[k]).x == start_x + k * spacing
                        &&& !self.pipes@[k].scored
                        &&& self.pipes@[k].gap_ok(ground_top(self.height as int))
                    },
            decreases INITIAL_PIPES - i,
        {
            proof {
                laws::lemma_small_multiple(i as int, spacing as int);
            }
            let x: i64 = start_x + (i as i64) * spacing;
            let pipe = self.spawn_pipe_at(x);
            self.pipes.push(pipe);
            i += 1;
        }
        proof {
            old(self)@.lemma_restart_valid(self@);
        }
    }

    /// Starts the game over.  The score just lost goes into the best score
    /// where it is higher.
    pub fn reset(&mut self)
        requires
            old(self).wf(),
        ensures
            final(self).wf(),
            old(self)@.resets_to(final(self)@),
    {
        if self.score > self.best_score {
            self.best_score = self.score;
        }
        self.reset_internal();
    }

    /// A new pipe at `x` with a gap drawn from the random source: first half
    /// the gap's height, then the gap's centre from the range that the height and
    /// the ground leave.
    fn spawn_pipe_at(&mut self, x: i64) -> (pipe: Pipe)
        ensures
            final(self)@ == old(self)@,
            pipe.x == x,
            !pipe.scored,
            pipe.gap_ok(ground_top(old(self).height as int)),
    {
        let half: i64 = random::gen_range(&mut self.rng, PIPE_MIN_GAP / 2, PIPE_MAX_GAP / 2);
        let gap_height: i64 = 2 * half;
        let min_center: i64 = if half + GAP_MARGIN > BIRD_HEIGHT {
            half + GAP_MARGIN
        } else {
            BIRD_HEIGHT
        };
        let floor: i64 = self.ground_top() - half - GAP_MARGIN;
        let max_center: i64 = if floor > min_center + GAP_SLACK {
            floor
        } else {
            min_center + GAP_SLACK
        };
        let gap_center: i64 = random::gen_range(&mut self.rng, min_center, max_center);
        Pipe { x, gap_center, gap_height, scored: false }
    }

    /// Distance from one pipe to the next.
    fn pipe_spacing(&self) -> (spacing: i64)
        ensures
            spacing == pipe_spacing(self.width as int),
    {
        let raw: i64 = 1620 * (self.width as i64);
        if raw < MIN_PIPE_SPACING {
            MIN_PIPE_SPACING
        } else if raw > MAX_PIPE_SPACING {
            MAX_PIPE_SPACING
        } else {
            raw
        }
    }

    /// Height of the ground band.
    fn ground_height(&self) -> (h: i64)
        ensures
            h == ground_height(self.height as int),
    {
        let raw: i64 = 648 * (self.height as i64);
        if raw < MIN_GROUND_HEIGHT {
            MIN_GROUND_HEIGHT
        } else if raw > MAX_GROUND_HEIGHT {
            MAX_GROUND_HEIGHT
        } else {
            raw
        }
    }

    /// Height of the top of the ground band.
    fn ground_top(&self) -> (y: i64)
        ensures
            y == ground_top(self.height as int),
    {
        ground_top_at(self.height)
    }

    /// Horizontal position of the bird's centre.
    fn bird_x(&self) -> (x: i64)
        ensures
            x == bird_x(self.width as int),
    {
        1008 * (self.width as i64)
    }

    /// Height at which the bird starts.
    fn start_y(&self) -> (y: i64)
        ensures
            y == start_y(self.height as int),
    {
        1620 * (self.height as i64)
    }

    /// The score of the game in progress.
    pub fn score(&self) -> (score: u32)
        ensures
            score == self@.score,
    {
        self.score
    }

    /// The highest score of a game that has ended, since this one was made.
    pub fn best_score(&self) -> (best: u32)
        ensures
            best == self@.best_score,
    {
        self.best_score
    }
}

impl Game {
    /// Adds gravity to the velocity and the new velocity to the height.
    fn integrate(&mut self)
        requires
            -SPEED_LIMIT + GRAVITY <= old(self).bird_vel <= SPEED_LIMIT - GRAVITY,
            -SPEED_LIMIT <= old(self).bird_y <= i64::MAX - SPEED_LIMIT,
        ensures
            final(self)@ == (GameView {
                bird_vel: old(self)@.bird_vel + GRAVITY,
                bird_y: old(self)@.bird_y + old(self)@.bird_vel + GRAVITY,
                ..old(self)@
            }),
    {
        self.bird_vel = self.bird_vel + GRAVITY;
        self.bird_y = self.bird_y + self.bird_vel;
    }

    /// Puts the bird on the wave of the idle bob.
    fn apply_ready_bob(&mut self)
        requires
            0 <= old(self).bob_phase < bob::PERIOD,
        ensures
            final(self)@ == (GameView {
                bird_y: start_y(old(self)@.height) + bob::offset(old(self)@.bob_phase),
                ..old(self)@
            }),
    {
        let base_y: i64 = self.start_y();
        self.bird_y = base_y + bob::offset_at(self.bob_phase);
    }
}

impl Game {
    /// Moves the pipes left and drops the first where it has left the game.
    fn scroll_and_retire(&mut self)
        requires
            1 <= old(self)@.width,
            old(self)@.pipes_valid(),
        ensures
            final(self)@ == (GameView { pipes: old(self)@.moved_pipes(), ..old(self)@ }),
    {
        let ghost pre = self@;
        let exit: i64 = -720 * (self.width as i64);
        assert forall|k: int| 0 <= k < pre.pipes.len() implies (#[trigger] pre.pipes[k]).x
            - SCROLL_PER_STEP >= i64::MIN by {}
        shift_pipes(&mut self.pipes);
        if self.pipes[0].x + PIPE_WIDTH < exit {
            assert(pre.pipes.last().x >= spawn_line(pre.width));
            assert(pre.pipes.len() >= 2);
            self.pipes.remove(0);
        }
        assert(self.pipes@ =~= pre.moved_pipes());
    }

    /// Adds pipes to the queue until its last pipe is at the spawn line or
    /// right of it.
    fn refill(&mut self)
        requires
            1 <= old(self)@.width,
            old(self)@.row_valid(old(self)@.pipes),
        ensures
            final(self)@ == (GameView { pipes: final(self)@.pipes, ..old(self)@ }),
            final(self)@.row_valid(final(self)@.pipes),
            final(self)@.pipes.last().x >= spawn_line(old(self)@.width),
            old(self)@.pipes.last().x >= spawn_line(old(self)@.width) ==> final(self)@.pipes == old(
                self,
            )@.pipes,
            old(self)@.pipes.last().x < spawn_line(old(self)@.width) ==> {
                &&& final(self)@.pipes.drop_last() == old(self)@.pipes
                &&& final(self)@.pipes.last().x == old(self)@.pipes.last().x + old(
                    self,
                )@.pipe_spacing()
                &&& !final(self)@.pipes.last().scored
                &&& final(self)@.pipes.last().gap_ok(old(self)@.ground_top())
            },
    {
        let ghost pre = self@;
        let spacing: i64 = self.pipe_spacing();
        let limit: i64 = UNITS_PER_PIXEL * (self.width as i64) + spacing;
        let mut spawned: usize = 0;
        while self.pipes[self.pipes.len() - 1].x < limit
            invariant
                spawned <= 1,
                self@ == (GameView { pipes: self.pipes@, ..pre }),
                spacing == pre.pipe_spacing(),
                limit == spawn_line(pre.width),
                1 <= pre.width <= u32::MAX,
                pre.row_valid(pre.pipes),
                pre.row_valid(self.pipes@),
                spawned == 0 ==> self.pipes@ == pre.pipes,
                spawned == 1 ==> {
                    &&& pre.pipes.last().x < limit
                    &&& self.pipes@.drop_last() == pre.pipes
                    &&& self.pipes@.last().x == pre.pipes.last().x + spacing
                    &&& !self.pipes@.last().scored
                    &&& self.pipes@.last().gap_ok(pre.ground_top())
                },
            decreases 1 - spawned,
        {
            let ghost row = self.pipes@;
            let x: i64 = self.pipes[self.pipes.len() - 1].x + spacing;
            let pipe = self.spawn_pipe_at(x);
            self.pipes.push(pipe);
            spawned += 1;
            proof {
                let next = self.pipes@;
                assert(next.drop_last() =~= row);
                assert forall|i: int, j: int| 0 <= i < j < next.len() implies (
                #[trigger] next[i]).x + spacing <= (#[trigger] next[j]).x by {
                    if j == next.len() - 1 {
                        if i < row.len() - 1 {
                            assert(row[i].x + spacing <= row[row.len() - 1].x);
                        }
                    } else {
                        assert(row[i].x + spacing <= row[j].x);
                    }
                }
                assert forall|i: int, j: int| 0 <= i && j == i + 1 && j < next.len() implies (
                #[trigger] next[j]).x == (#[trigger] next[i]).x + spacing by {
                    if j < row.len() {
                        assert(row[j].x == row[i].x + spacing);
                    }
                }
            }
        }
    }

    /// Scores every pipe whose right edge is left of the bird and that is not
    /// scored yet, one point each.
    fn mark_passed(&mut self)
        requires
            1 <= old(self)@.width,
            old(self)@.row_valid(old(self)@.pipes),
            old(self)@.pipes.last().x >= spawn_line(old(self)@.width),
        ensures
            final(self)@ == (GameView {
                pipes: final(self)@.pipes,
                score: final(self)@.score,
                ..old(self)@
            }),
            final(self)@.pipes.len() == old(self)@.pipes.len(),
            forall|k: int|
                0 <= k < old(self)@.pipes.len() ==> #[trigger] final(self)@.pipes[k] == old(
                    self,
                )@.pipes[k].marked(old(self)@.bird_x()),
            final(self)@.score == if (exists|k: int|
                0 <= k < old(self)@.pipes.len() && !(#[trigger] old(self)@.pipes[k]).scored && old(
                    self,
                )@.pipes[k].x + PIPE_WIDTH < old(self)@.bird_x()) && old(self)@.score < u32::MAX {
                old(self)@.score + 1
            } else {
                old(self)@.score
            },
            final(self)@.pipes_valid(),
    {
        let ghost pre = self@;
        let ghost queue = self.pipes@;
        let bird_x: i64 = self.bird_x();
        let ghost spacing = pre.pipe_spacing();
        let n = self.pipes.len();
        let mut i: usize = 0;
        let ghost mut crossed: bool = false;
        let ghost mut who: int = 0;
        while i < n
            invariant
                i <= n,
                n == queue.len(),
                self.pipes@.len() == n,
                self@ == (GameView { pipes: self.pipes@, score: self.score as int, ..pre }),
                bird_x == pre.bird_x(),
                spacing == pre.pipe_spacing(),
                1 <= pre.width <= u32::MAX,
                0 <= pre.score <= u32::MAX,
                pre.row_valid(queue),
                forall|k: int| 0 <= k < i ==> #[trigger] self.pipes@[k] == queue[k].marked(bird_x as int),
                forall|k: int| i <= k < n ==> #[trigger] self.pipes@[k] == queue[k],
                crossed ==> 0 <= who < i && !queue[who].scored && queue[who].x + PIPE_WIDTH
                    < bird_x,
                !crossed ==> forall|k: int|
                    0 <= k < i ==> !(!(#[trigger] queue[k]).scored && queue[k].x + PIPE_WIDTH
                        < bird_x),
                self.score == if crossed && pre.score < u32::MAX {
                    pre.score + 1
                } else {
                    pre.score
                },
            decreases n - i,
        {
            let mut pipe = self.pipes[i];
            assert(pipe == queue[i as int]);
            if !pipe.scored && pipe.x + PIPE_WIDTH < bird_x {
                proof {
                    if crossed {
                        assert(queue[who].x + spacing <= queue[i as int].x);
                        assert(false);
                    }
                    crossed = true;
                    who = i as int;
                }
                pipe.scored = true;
                self.pipes.set(i, pipe);
                self.score = self.score.saturating_add(1);
            }
            i += 1;
        }
        proof {
            let next = self@.pipes;
            assert forall|k: int| 0 <= k < next.len() implies ((#[trigger] next[k]).scored
                <==> next[k].x + PIPE_WIDTH < pre.bird_x()) by {
                assert(next[k] == queue[k].marked(bird_x as int));
            }
            assert forall|k: int| 0 <= k < next.len() implies (#[trigger] next[k]).gap_ok(
                pre.ground_top(),
            ) by {
                assert(next[k] == queue[k].marked(bird_x as int));
            }
            assert forall|k: int| 0 <= k < next.len() implies exit_line(pre.width) - PIPE_WIDTH
                <= (#[trigger] next[k]).x <= first_pipe_x(pre.width) + 3 * spacing by {
                assert(next[k] == queue[k].marked(bird_x as int));
            }
            assert forall|a: int, b: int| 0 <= a && b == a + 1 && b < next.len() implies (
            #[trigger] next[b]).x == (#[trigger] next[a]).x + spacing by {
                assert(next[a] == queue[a].marked(bird_x as int));
                assert(next[b] == queue[b].marked(bird_x as int));
                assert(queue[b].x == queue[a].x + spacing);
            }
            assert forall|a: int, b: int| 0 <= a < b < next.len() implies (#[trigger] next[a]).x
                + spacing <= (#[trigger] next[b]).x by {
                assert(next[a] == queue[a].marked(bird_x as int));
                assert(next[b] == queue[b].marked(bird_x as int));
                assert(queue[a].x + spacing <= queue[b].x);
            }
            assert(next.last() == queue.last().marked(bird_x as int));
        }
    }
}

impl Game {
    /// Moves the pipes on by one step: scrolls them, drops the first where
    /// it has left, refills the queue, and scores what has passed the bird.
    fn scroll_world(&mut self)
        requires
            1 <= old(self)@.width,
            old(self)@.pipes_valid(),
        ensures
            final(self)@ == (GameView {
                pipes: final(self)@.pipes,
                score: final(self)@.score,
                ..old(self)@
            }),
            old(self)@.pipes_step_to(final(self)@.pipes),
            final(self)@.score == if old(self)@.passes_pipe() && old(self)@.score < u32::MAX {
                old(self)@.score + 1
            } else {
                old(self)@.score
            },
            final(self)@.pipes_valid(),
    {
        let ghost pre = self@;
        proof {
            pre.lemma_moved_pipes_valid();
        }
        self.scroll_and_retire();
        self.refill();
        let ghost row = self@.pipes;
        self.mark_passed();
        proof {
            pre.lemma_running_pipes(row, self@.pipes);
        }
    }

    /// Ends the run if the bird touches the ground, a pipe or the top of the
    /// screen.
    fn check_collisions(&mut self)
        requires
            old(self)@.state == GameState::Running,
            i64::MIN + BIRD_HALF_HEIGHT <= old(self)@.bird_y <= i64::MAX - BIRD_HALF_HEIGHT,
        ensures
            final(self)@ == (GameView {
                state: if old(self)@.collides() {
                    GameState::Dead
                } else {
                    GameState::Running
                },
                ..old(self)@
            }),
    {
        if bird_collides(self.width, self.height, self.bird_y, &self.pipes) {
            self.state = GameState::Dead;
        }
    }

    /// Advances the game by one fixed step.  `flap` says whether a flap was
    /// asked for since the step before.
    pub fn step(&mut self, flap: bool)
        requires
            old(self).wf(),
        ensures
            final(self).wf(),
            old(self)@.steps_to(final(self)@, flap),
    {
        proof {
            laws::lemma_speed_bound(self@.bird_vel, self@.bird_y);
            laws::lemma_fall_energy(self@.bird_vel, self@.bird_y);
            laws::lemma_fall_energy(FLAP_VELOCITY as int, self@.bird_y);
            laws::lemma_flap_energy(FLAP_VELOCITY as int);
            laws::lemma_rest_energy(0);
        }
        match self.state {
            GameState::Ready => {
                self.bob_phase = bob::advance(self.bob_phase);
                if flap {
                    self.state = GameState::Running;
                    self.bird_vel = FLAP_VELOCITY;
                }
                self.apply_ready_bob();
                proof {
                    bob::lemma_offset_bounds(self@.bob_phase);
                }
            },
            GameState::Running => {
                if flap {
                    self.bird_vel = FLAP_VELOCITY;
                }
                self.integrate();
                self.scroll_world();
                self.check_collisions();
            },
            GameState::Dead => {
                if flap {
                    self.reset();
                    return ;
                }
                self.bird_vel = self.bird_vel + GRAVITY;
                self.bird_y = self.bird_y + self.bird_vel;
                let ground_y: i64 = self.ground_top();
                if self.bird_y + BIRD_HALF_HEIGHT > ground_y {
                    self.bird_y = ground_y - BIRD_HALF_HEIGHT;
                    self.bird_vel = 0;
                }
            },
        }
    }

    /// The line of text that tells the player what to do.
    pub fn status_text(&self) -> (text: &'static str)
        ensures
            text@ == status_text(self@.state),
    {
        match self.state {
            GameState::Ready => "Tap or press Space to start",
            GameState::Running => "",
            GameState::Dead => "Game over \u{2013} tap to retry",
        }
    }

    /// The phase of the game's life.
    pub fn state(&self) -> (state: GameState)
        ensures
            state == self@.state,
    {
        self.state
    }
}

impl Game {
    /// The game as a list of coloured rectangles, back to front.
    pub fn instances(&self) -> (instances: Vec<InstanceData>)
        requires
            self.wf(),
        ensures
            instances@ == self@.instances(),
            instances@.len() == 2 * self@.pipes.len() + 5,
    {
        proof {
            laws::lemma_speed_bound(self@.bird_vel, self@.bird_y);
        }
        let ghost view = self@;
        let screen = Vec2 {
            x: UNITS_PER_PIXEL * (self.width as i64),
            y: UNITS_PER_PIXEL * (self.height as i64),
        };
        let ground_top: i64 = self.ground_top();
        let mut instances: Vec<InstanceData> = Vec::new();
        instances.push(
            InstanceData { pos: Vec2 { x: 0, y: 0 }, size: screen, color: self.palette.background },
        );
        let n = self.pipes.len();
        let mut i: usize = 0;
        while i < n
            invariant
                i <= n,
                n == self.pipes@.len(),
                view == self@,
                self.wf(),
                ground_top == view.ground_top(),
                instances@.len() == 1 + 2 * i,
                instances@[0] == view.background_instance(),
                forall|k: int|
                    0 <= k < 2 * i ==> #[trigger] instances@[1 + k] == view.pipe_instances()[k],
            decreases n - i,
        {
            let pipe = self.pipes[i];
            assert(pipe == view.pipes[i as int]);
            assert(pipe.gap_ok(view.ground_top()));
            let gap_half: i64 = pipe.gap_height / 2;
            let gap_top: i64 = pipe.gap_center - gap_half;
            let gap_bottom: i64 = pipe.gap_center + gap_half;
            let upper = InstanceData {
                pos: Vec2 { x: pipe.x, y: 0 },
                size: Vec2 {
                    x: PIPE_WIDTH,
                    y: if gap_top > 0 {
                        gap_top
                    } else {
                        0
                    },
                },
                color: self.palette.pipe,
            };
            let room: i64 = ground_top - gap_bottom;
            let lower = InstanceData {
                pos: Vec2 { x: pipe.x, y: gap_bottom },
                size: Vec2 {
                    x: PIPE_WIDTH,
                    y: if room > 0 {
                        room
                    } else {
                        0
                    },
                },
                color: self.palette.pipe_dark,
            };
            instances.push(upper);
            instances.push(lower);
            proof {
                let j = 2 * (i as int);
                assert(j % 2 == 0 && j / 2 == i);
                assert((j + 1) % 2 == 1 && (j + 1) / 2 == i);
                assert(view.pipe_instances()[j] == upper);
                assert(view.pipe_instances()[j + 1] == lower);
                assert(instances@[1 + j] == upper);
                assert(instances@[1 + (j + 1)] == lower);
            }
            i += 1;
        }
        instances.push(
            InstanceData {
                pos: Vec2 { x: 0, y: ground_top },
                size: Vec2 { x: screen.x, y: self.ground_height() },
                color: self.palette.ground,
            },
        );
        instances.push(
            InstanceData {
                pos: Vec2 { x: 0, y: ground_top - GROUND_EDGE_HEIGHT },
                size: Vec2 { x: screen.x, y: GROUND_EDGE_HEIGHT },
                color: self.palette.ground_edge,
            },
        );
        let bird_rect = self.bird_rect();
        instances.push(
            InstanceData { pos: bird_rect.min, size: bird_rect.size, color: self.palette.bird_body },
        );
        instances.push(
            InstanceData {
                pos: Vec2 { x: bird_rect.min.x + BEAK_OFFSET_X, y: bird_rect.min.y + BEAK_OFFSET_Y },
                size: Vec2 { x: BEAK_WIDTH, y: BEAK_HEIGHT },
                color: self.palette.bird_beak,
            },
        );
        proof {
            let want = view.instances();
            assert(want.len() == instances@.len());
            assert forall|k: int| 0 <= k < want.len() implies instances@[k] == want[k] by {
                if 1 <= k < 1 + 2 * n {
                    assert(instances@[1 + (k - 1)] == view.pipe_instances()[k - 1]);
                }
            }
            assert(instances@ =~= want);
        }
        instances
    }

    /// The box of the bird.
    pub fn bird_rect(&self) -> (rect: Rect)
        requires
            self.wf(),
        ensures
            rect == self@.bird_rect(),
    {
        proof {
            laws::lemma_speed_bound(self@.bird_vel, self@.bird_y);
        }
        Rect {
            min: Vec2 { x: self.bird_x() - BIRD_WIDTH / 2, y: self.bird_y - BIRD_HALF_HEIGHT },
            size: Vec2 { x: BIRD_WIDTH, y: BIRD_HEIGHT },
        }
    }
}

impl Game {
    /// Width of the screen in pixels.
    pub fn width(&self) -> (width: u32)
        ensures
            width == self@.width,
    {
        self.width
    }

    /// Height of the screen in pixels.
    pub fn height(&self) -> (height: u32)
        ensures
            height == self@.height,
    {
        self.height
    }

    /// Height of the bird's centre, measured down from the top.
    pub fn bird_y(&self) -> (y: i64)
        ensures
            y == self@.bird_y,
    {
        self.bird_y
    }

    /// Velocity of the bird, positive downward.
    pub fn bird_vel(&self) -> (vel: i64)
        ensures
            vel == self@.bird_vel,
    {
        self.bird_vel
    }

    /// Phase of the idle bob.
    pub fn bob_phase(&self) -> (phase: i64)
        ensures
            phase == self@.bob_phase,
    {
        self.bob_phase
    }

    /// The pipes of the queue, from left to right.
    pub fn pipes(&self) -> (pipes: &Vec<Pipe>)
        ensures
            pipes@ == self@.pipes,
    {
        &self.pipes
    }

    /// The colours the game draws with.
    pub fn palette(&self) -> (palette: Palette)
        ensures
            palette == self@.palette,
    {
        self.palette
    }
}

} // verus!
