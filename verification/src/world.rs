//! The letterboxed game: the same bird and pipes in a fixed virtual world of
//! 288 by 512 pixels, which is scaled and centred into whatever screen there is.
//!
//! One step of the game is a function of the game and of the gap of the pipe
//! that the step may add: [`WorldView::advance`], in [`rules`].  A [`Game`] draws
//! that gap from its random source.  [`letterbox`] fits the world into a
//! screen; what follows from the rule is proved in [`laws`].
use crate::color::Color;
use crate::random;
use crate::random::SeedError;
use crate::units::{min, Vec2};
use rand::rngs::SmallRng;
use vstd::prelude::*;

pub mod laws;
pub mod letterbox;
pub mod rules;

pub use letterbox::{
    compute_scale_and_offset, rect, InstanceData, REACH, SCALE_DENOMINATOR,
    SCREEN_UNITS_PER_PIXEL,
};
pub use rules::{
    PipePair, WorldView, BIRD_HALF_HEIGHT, BIRD_HALF_WIDTH, BIRD_HEIGHT, BIRD_LEFT, BIRD_WIDTH,
    BIRD_X, DEPTH_LIMIT, EXIT_X, FIRST_PIPE_X, FLAP_VELOCITY, GRAVITY, GROUND_HEIGHT, GROUND_TOP,
    HALF_GAP, INITIAL_PIPES, MAX_FALL_SPEED, MAX_RISE_SPEED, PIPE_MAX_Y, PIPE_MIN_Y,
    PIPE_SPACING, PIPE_STEP, PIPE_WIDTH, SPAWN_INTERVAL, SPAWN_X, START_Y, WORLD_HEIGHT,
    WORLD_WIDTH,
};
use laws::{lemma_first_pipe_places, lemma_take_next};
use letterbox::pipe_instances;
use rules::{advanced_all, any_blocks, first_pipes, last_gap, passing, still_in_view};

verus! {

/// The letterboxed game: a bird, a queue of pipes, the score, and a random
/// source for the gaps of new pipes.
#[derive(Debug)]
pub struct Game {
    rng: SmallRng,
    bird_y: i64,
    bird_v: i64,
    is_dead: bool,
    pipes: Vec<PipePair>,
    spawn_timer: u32,
    score: u32,
}

impl View for Game {
    type V = WorldView;

    closed spec fn view(&self) -> WorldView {
        WorldView {
            bird_y: self.bird_y as int,
            bird_v: self.bird_v as int,
            is_dead: self.is_dead,
            pipes: self.pipes@,
            spawn_timer: self.spawn_timer as int,
            score: self.score as int,
        }
    }
}

/// A height for the centre of a new gap.
fn random_gap(rng: &mut SmallRng) -> (gap: i64)
    ensures
        PIPE_MIN_Y <= gap <= PIPE_MAX_Y,
{
    random::gen_range(rng, PIPE_MIN_Y, PIPE_MAX_Y)
}

impl Game {
    /// The game is in a state that the constructors and methods of this type
    /// can leave it in.
    pub open spec fn wf(&self) -> bool {
        self@.valid()
    }

    /// A new game, with a random source seeded by the operating system; or
    /// the reason why there is none, where the operating system gives no seed.
    pub fn new() -> (made: Result<Game, SeedError>)
        ensures
            match made {
                Ok(game) => {
                    &&& game.wf()
                    &&& game@ == WorldView::fresh(game@.pipes)
                    &&& forall|i: int|
                        0 <= i < game@.pipes.len() ==> (#[trigger] game@.pipes[i]).gap_ok()
                },
                Err(error) => error == SeedError::NoEntropy,
            },
    {
        Self::from_seeding(random::from_os_rng())
    }

    /// A new game with the random source that `seeding` holds; or the reason
    /// why there is none, where `seeding` holds an error.
    pub fn from_seeding(seeding: Result<SmallRng, rand::Error>) -> (made: Result<Game, SeedError>)
        ensures
            made is Ok <==> seeding is Ok,
            match made {
                Ok(game) => {
                    &&& game.wf()
                    &&& game@ == WorldView::fresh(game@.pipes)
                    &&& forall|i: int|
                        0 <= i < game@.pipes.len() ==> (#[trigger] game@.pipes[i]).gap_ok()
                },
                Err(error) => error == SeedError::NoEntropy,
            },
    {
        match seeding {
            Ok(rng) => Ok(Self::with_rng(rng)),
            Err(_) => Err(SeedError::NoEntropy),
        }
    }

    /// A new game, with a random source seeded from `seed`.
    pub fn with_seed(seed: u64) -> (game: Game)
        ensures
            game.wf(),
            game@ == WorldView::fresh(game@.pipes),
            forall|i: int| 0 <= i < game@.pipes.len() ==> (#[trigger] game@.pipes[i]).gap_ok(),
    {
        Self::with_rng(random::seed_from_u64(seed))
    }

    /// A new game with the given random source.
    fn with_rng(rng: SmallRng) -> (game: Game)
        ensures
            game.wf(),
            game@ == WorldView::fresh(game@.pipes),
            forall|i: int| 0 <= i < game@.pipes.len() ==> (#[trigger] game@.pipes[i]).gap_ok(),
    {
        let mut game = Game {
            rng,
            bird_y: START_Y,
            bird_v: 0,
            is_dead: false,
            pipes: Vec::new(),
            spawn_timer: 0,
            score: 0,
        };
        game.populate_initial_pipes();
        game
    }

    /// Starts the game over: the bird in the middle of the world and at
    /// rest, four new pipes, no score.
    pub fn reset(&mut self)
        ensures
            final(self).wf(),
            final(self)@ == WorldView::fresh(final(self)@.pipes),
            forall|i: int|
                0 <= i < final(self)@.pipes.len() ==> (#[trigger] final(self)@.pipes[i]).gap_ok(),
    {
        self.bird_y = START_Y;
        self.bird_v = 0;
        self.is_dead = false;
        self.pipes.clear();
        self.spawn_timer = 0;
        self.score = 0;
        self.populate_initial_pipes();
    }

    /// Fills the empty queue with the four pipes of a new game.
    fn populate_initial_pipes(&mut self)
        requires
            old(self).pipes@.len() == 0,
        ensures
            final(self)@ == (WorldView { pipes: first_pipes(final(self)@.pipes), ..old(self)@ }),
            forall|i: int|
                0 <= i < final(self)@.pipes.len() ==> (#[trigger] final(self)@.pipes[i]).gap_ok(),
            old(self)@ == WorldView::fresh(old(self)@.pipes) ==> final(self).wf(),
    {
        let mut x: i64 = FIRST_PIPE_X;
        let mut i: usize = 0;
        while i < INITIAL_PIPES
            invariant
                i <= INITIAL_PIPES,
                self.pipes@.len() == i,
                x == FIRST_PIPE_X + i * PIPE_SPACING,
                self@ == (WorldView { pipes: self.pipes@, ..old(self)@ }),
                forall|k: int|
                    0 <= k < i ==> {
                        &&& (#[trigger] self.pipes@[k]).x == FIRST_PIPE_X + k * PIPE_SPACING
                        &&& !self.pipes@[k].passed
                        &&& self.pipes@[k].gap_ok()
                    },
            decreases INITIAL_PIPES - i,
        {
            proof {
                lemma_first_pipe_places(i as int);
            }
            let gap_center = random_gap(&mut self.rng);
            self.pipes.push(PipePair { x, gap_center, passed: false });
            x = x + PIPE_SPACING;
            i += 1;
        }
        proof {
            assert forall|k: int| 0 <= k < 4 implies 0 <= #[trigger] (k * PIPE_SPACING)
                <= 2_376_000 by {
                lemma_first_pipe_places(k);
            }
            assert(self.pipes@ =~= first_pipes(self.pipes@));
        }
    }

    /// Adds one to the step count since the last pipe, and adds the pipe
    /// that is due.
    fn spawn_due(&mut self)
        requires
            old(self)@.spawn_timer < SPAWN_INTERVAL,
        ensures
            final(self)@ == (WorldView {
                pipes: old(self)@.queue(last_gap(final(self)@.pipes)),
                spawn_timer: if old(self)@.spawns() {
                    old(self)@.spawn_timer + 1 - SPAWN_INTERVAL
                } else {
                    old(self)@.spawn_timer + 1
                },
                ..old(self)@
            }),
            old(self)@.spawns() ==> final(self)@.pipes.len() >= 1 && final(self)@.pipes.last().gap_ok(),
    {
        self.spawn_timer = self.spawn_timer + 1;
        if self.spawn_timer >= SPAWN_INTERVAL {
            self.spawn_timer = self.spawn_timer - SPAWN_INTERVAL;
            let gap_center = random_gap(&mut self.rng);
            self.pipes.push(PipePair { x: SPAWN_X, gap_center, passed: false });
            assert(self.pipes@ =~= old(self)@.queue(gap_center as int));
        }
    }

    /// Moves every pipe left and scores the pipes that pass the bird.
    fn scroll(&mut self)
        requires
            forall|i: int|
                0 <= i < old(self)@.pipes.len() ==> (#[trigger] old(self)@.pipes[i]).x - PIPE_STEP
                    >= i64::MIN,
        ensures
            final(self)@ == (WorldView {
                pipes: advanced_all(old(self)@.pipes),
                score: min(old(self)@.score + passing(old(self)@.pipes), u32::MAX as int),
                ..old(self)@
            }),
    {
        let ghost before = self@;
        let n = self.pipes.len();
        let mut i: usize = 0;
        while i < n
            invariant
                i <= n,
                n == before.pipes.len(),
                self.pipes@.len() == n,
                self@ == (WorldView { pipes: self.pipes@, score: self.score as int, ..before }),
                forall|k: int|
                    0 <= k < n ==> (#[trigger] before.pipes[k]).x - PIPE_STEP >= i64::MIN,
                forall|k: int| 0 <= k < i ==> #[trigger] self.pipes@[k] == before.pipes[k].advanced(),
                forall|k: int| i <= k < n ==> #[trigger] self.pipes@[k] == before.pipes[k],
                self.score == min(
                    before.score + passing(before.pipes.take(i as int)),
                    u32::MAX as int,
                ),
            decreases n - i,
        {
            proof {
                lemma_take_next(before.pipes, i as int);
            }
            let mut pipe = self.pipes[i];
            assert(pipe == before.pipes[i as int]);
            pipe.x = pipe.x - PIPE_STEP;
            if !pipe.passed && (pipe.x as i128) + (PIPE_WIDTH as i128) < BIRD_X as i128 {
                pipe.passed = true;
                self.score = self.score.saturating_add(1);
            }
            self.pipes.set(i, pipe);
            i += 1;
        }
        proof {
            assert(before.pipes.take(n as int) =~= before.pipes);
            assert(self.pipes@ =~= advanced_all(before.pipes));
        }
    }

    /// Drops the pipes that have left the game.
    fn retire(&mut self)
        ensures
            final(self)@ == (WorldView { pipes: still_in_view(old(self)@.pipes), ..old(self)@ }),
    {
        let ghost before = self@;
        let mut kept: Vec<PipePair> = Vec::new();
        let n = self.pipes.len();
        let mut i: usize = 0;
        while i < n
            invariant
                i <= n,
                n == self.pipes@.len(),
                self@ == before,
                kept@ == still_in_view(before.pipes.take(i as int)),
            decreases n - i,
        {
            proof {
                lemma_take_next(before.pipes, i as int);
            }
            let pipe = self.pipes[i];
            if pipe.x as i128 + PIPE_WIDTH as i128 > EXIT_X as i128 {
                kept.push(pipe);
            }
            i += 1;
        }
        proof {
            assert(before.pipes.take(n as int) =~= before.pipes);
        }
        self.pipes = kept;
    }

    /// Kills the bird if a pipe is in its way.
    fn check_pipes(&mut self)
        requires
            !old(self)@.is_dead,
        ensures
            final(self)@ == (WorldView {
                is_dead: any_blocks(old(self)@.pipes, old(self)@.bird_y),
                ..old(self)@
            }),
    {
        let n = self.pipes.len();
        let mut i: usize = 0;
        while i < n
            invariant
                i <= n,
                n == self.pipes@.len(),
                self@ == old(self)@,
                forall|k: int| 0 <= k < i ==> !(#[trigger] self.pipes@[k]).blocks(self.bird_y as int),
            decreases n - i,
        {
            if self.pipes[i].hits(self.bird_y) {
                self.is_dead = true;
                return ;
            }
            i += 1;
        }
    }

    /// Moves the bird by one step of gravity.
    fn fall(&mut self)
        requires
            old(self)@.bird_y >= 0,
            old(self)@.bird_y <= DEPTH_LIMIT,
            MAX_RISE_SPEED <= old(self)@.bird_v <= MAX_FALL_SPEED,
        ensures
            final(self)@ == (WorldView {
                bird_y: old(self)@.next_height(),
                bird_v: old(self)@.next_velocity(),
                is_dead: old(self)@.dies_moving(),
                ..old(self)@
            }),
    {
        let pulled: i64 = self.bird_v + GRAVITY;
        self.bird_v = if pulled < MAX_RISE_SPEED {
            MAX_RISE_SPEED
        } else if pulled > MAX_FALL_SPEED {
            MAX_FALL_SPEED
        } else {
            pulled
        };
        self.bird_y = self.bird_y + self.bird_v;
        if self.bird_y > DEPTH_LIMIT {
            self.bird_y = DEPTH_LIMIT;
        }
        if self.bird_y < 0 {
            self.bird_y = 0;
            self.is_dead = true;
        }
        if self.bird_y + BIRD_HALF_HEIGHT >= GROUND_TOP {
            self.is_dead = true;
        }
    }

    /// Advances the game by one fixed step.  `want_jump` says whether a jump
    /// was asked for since the step before.
    pub fn step(&mut self, want_jump: bool)
        requires
            old(self).wf(),
        ensures
            final(self).wf(),
            old(self)@.steps_to(final(self)@, want_jump),
    {
        if want_jump {
            if self.is_dead {
                self.reset();
            }
            self.bird_v = FLAP_VELOCITY;
        }
        let ghost start = self@;
        self.fall();
        if self.is_dead {
            proof {
                start.lemma_advance_valid(last_gap(self@.pipes));
                old(self)@.lemma_jump_found(want_jump, start, self@);
            }
            return ;
        }
        self.spawn_due();
        let ghost gap = last_gap(self@.pipes);
        self.scroll();
        self.retire();
        self.check_pipes();
        proof {
            assert(self@ == start.advance(gap));
            start.lemma_advance_valid(gap);
            old(self)@.lemma_jump_found(want_jump, start, self@);
        }
    }

    /// The score of the game in progress.
    pub fn score(&self) -> (score: u32)
        ensures
            score == self@.score,
    {
        self.score
    }

    /// Whether the bird is dead.
    pub fn is_dead(&self) -> (dead: bool)
        ensures
            dead == self@.is_dead,
    {
        self.is_dead
    }

    /// Height of the bird's centre, measured down from the top of the world.
    pub fn bird_y(&self) -> (y: i64)
        ensures
            y == self@.bird_y,
    {
        self.bird_y
    }

    /// Velocity of the bird, positive downward.
    pub fn bird_v(&self) -> (v: i64)
        ensures
            v == self@.bird_v,
    {
        self.bird_v
    }

    /// The pipes of the queue, in their order.
    pub fn pipes(&self) -> (pipes: &Vec<PipePair>)
        ensures
            pipes@ == self@.pipes,
    {
        &self.pipes
    }
}

impl Game {
    /// The game as a list of coloured rectangles for a screen of `screen_w`
    /// by `screen_h` pixels, back to front.
    pub fn instance_data(&self, screen_w: u32, screen_h: u32) -> (instances: Vec<InstanceData>)
        requires
            self.wf(),
        ensures
            instances@ == self@.instances(screen_w as int, screen_h as int),
    {
        let (scale, offset) = compute_scale_and_offset(screen_w, screen_h);
        let mut instances: Vec<InstanceData> = Vec::new();
        instances.push(
            rect(
                Vec2 { x: 0, y: GROUND_TOP },
                Vec2 { x: WORLD_WIDTH, y: GROUND_HEIGHT },
                Color { r: 217, g: 189, b: 115, a: 255 },
                scale,
                offset,
            ),
        );
        let bird_color = if self.is_dead {
            Color { r: 179, g: 77, b: 77, a: 255 }
        } else {
            Color { r: 255, g: 237, b: 0, a: 255 }
        };
        instances.push(
            rect(
                Vec2 { x: BIRD_LEFT, y: self.bird_y - BIRD_HALF_HEIGHT },
                Vec2 { x: BIRD_WIDTH, y: BIRD_HEIGHT },
                bird_color,
                scale,
                offset,
            ),
        );
        let ghost head = instances@;
        let n = self.pipes.len();
        let mut i: usize = 0;
        while i < n
            invariant
                i <= n,
                n == self.pipes@.len(),
                self.wf(),
                0 <= scale <= 16 * u32::MAX,
                0 <= offset.x <= 1_000_000_000_000_000_000,
                0 <= offset.y <= 1_000_000_000_000_000_000,
                instances@ == head + pipe_instances(
                    self@.pipes.take(i as int),
                    scale as int,
                    offset,
                ),
            decreases n - i,
        {
            proof {
                lemma_take_next(self@.pipes, i as int);
            }
            let pipe = self.pipes[i];
            assert(pipe == self@.pipes[i as int]);
            assert(pipe.gap_ok());
            let ghost so_far = instances@;
            let top_h: i64 = if pipe.gap_center - HALF_GAP > 0 {
                pipe.gap_center - HALF_GAP
            } else {
                0
            };
            if top_h > 0 {
                instances.push(
                    rect(
                        Vec2 { x: pipe.x, y: 0 },
                        Vec2 { x: PIPE_WIDTH, y: top_h },
                        Color { r: 94, g: 209, b: 99, a: 255 },
                        scale,
                        offset,
                    ),
                );
            }
            let bottom_y: i64 = pipe.gap_center + HALF_GAP;
            let bottom_h: i64 = if WORLD_HEIGHT - bottom_y - GROUND_HEIGHT > 0 {
                WORLD_HEIGHT - bottom_y - GROUND_HEIGHT
            } else {
                0
            };
            if bottom_h > 0 {
                instances.push(
                    rect(
                        Vec2 { x: pipe.x, y: bottom_y },
                        Vec2 { x: PIPE_WIDTH, y: bottom_h },
                        Color { r: 94, g: 209, b: 99, a: 255 },
                        scale,
                        offset,
                    ),
                );
            }
            assert(instances@ =~= so_far + pipe.instances(scale as int, offset));
            assert(instances@ =~= head + pipe_instances(
                self@.pipes.take(i as int + 1),
                scale as int,
                offset,
            ));
            i += 1;
        }
        proof {
            assert(self@.pipes.take(n as int) =~= self@.pipes);
        }
        instances
    }
}

} // verus!
