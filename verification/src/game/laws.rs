//! What is true of every game and of every step, proved from the rules.
use crate::bob;
use crate::game::rules::{
    exit_line, first_pipe_x, ground_top, spawn_line, GameState, GameView, Pipe,
    BIRD_HALF_HEIGHT, ENERGY_LIMIT, FLAP_VELOCITY, GAP_MARGIN, GAP_SLACK, GRAVITY, PIPE_WIDTH,
    SCROLL_PER_STEP, SPEED_LIMIT,
};
use crate::units::{max, UNITS_PER_PIXEL};
use vstd::prelude::*;

verus! {

/// The pipes of `a` and `b` have the same gaps, place by place.
pub open spec fn same_gaps(a: Seq<Pipe>, b: Seq<Pipe>) -> bool {
    forall|i: int|
        0 <= i < a.len() && 0 <= i < b.len() ==> (#[trigger] a[i]).gap_center == b[i].gap_center
            && a[i].gap_height == b[i].gap_height
}

/// `trace` is a run of the game under the flaps `flaps`: each game of it
/// steps to the next under the flap of that place.
pub open spec fn is_run(trace: Seq<GameView>, flaps: Seq<bool>) -> bool {
    &&& trace.len() == flaps.len() + 1
    &&& forall|i: int|
        0 <= i < flaps.len() ==> trace[i].steps_to(trace[i + 1], #[trigger] flaps[i])
}

impl GameView {
    /// A step is a function of the game, the flap and the gaps of the new
    /// pipes: two games that the same game steps to under the same flap, and whose
    /// pipes have the same gaps, are the same game.
    pub proof fn lemma_step_deterministic(self, a: GameView, b: GameView, flap: bool)
        requires
            self.steps_to(a, flap),
            self.steps_to(b, flap),
            same_gaps(a.pipes, b.pipes),
        ensures
            a == b,
    {
        match self.state {
            GameState::Ready => {},
            GameState::Running => {
                let carried = self.carried_pipes();
                assert(a.pipes.len() == b.pipes.len());
                assert forall|i: int| 0 <= i < a.pipes.len() implies a.pipes[i] == b.pipes[i] by {
                    if i < carried.len() {
                        assert(a.pipes[i] == carried[i]);
                        assert(b.pipes[i] == carried[i]);
                    } else {
                        assert(a.pipes[i] == a.pipes.last());
                        assert(b.pipes[i] == b.pipes.last());
                    }
                }
                assert(a.pipes =~= b.pipes);
                assert(a.bird_rect() == b.bird_rect());
                assert(a.collides() == b.collides());
            },
            GameState::Dead => {
                if flap {
                    assert forall|i: int| 0 <= i < a.pipes.len() implies a.pipes[i]
                        == b.pipes[i] by {}
                    assert(a.pipes =~= b.pipes);
                }
            },
        }
    }

    /// The score never drops but by a reset, and a step adds at most one
    /// point to it: the point for the one pipe whose flag the step sets.  A flag
    /// once set stays set as long as the pipe is in the queue.
    pub proof fn lemma_score_monotone(self, next: GameView, flap: bool)
        requires
            self.valid(),
            self.steps_to(next, flap),
            !(self.state == GameState::Dead && flap),
        ensures
            self.score <= next.score <= self.score + 1,
            self.state != GameState::Running ==> next.score == self.score && next.pipes
                == self.pipes,
            self.state == GameState::Running ==> {
                &&& forall|j: int|
                    self.first_kept() <= j < self.pipes.len() && (#[trigger] self.pipes[j]).scored
                        ==> next.pipes[j - self.first_kept()].scored
                &&& self.score < u32::MAX ==> (next.score == self.score + 1 <==> exists|j: int|
                    self.first_kept() <= j < self.pipes.len() && !(#[trigger] self.pipes[j]).scored
                        && next.pipes[j - self.first_kept()].scored)
            },
    {
        if self.state == GameState::Running {
            let from = self.first_kept();
            let carried = self.carried_pipes();
            assert forall|j: int|
                from <= j < self.pipes.len() && (#[trigger] self.pipes[j]).scored implies next.pipes[j
                - from].scored by {
                assert(next.pipes[j - from] == carried[j - from]);
            }
            let turned = exists|j: int|
                from <= j < self.pipes.len() && !(#[trigger] self.pipes[j]).scored && next.pipes[j
                    - from].scored;
            if self.passes_pipe() {
                let w = choose|w: int|
                    from <= w < self.pipes.len() && (#[trigger] self.pipes[w]).crosses(
                        self.bird_x(),
                    );
                assert(next.pipes[w - from] == carried[w - from]);
                assert(!self.pipes[w].scored && next.pipes[w - from].scored);
                assert(turned);
            }
            if turned {
                let j = choose|j: int|
                    from <= j < self.pipes.len() && !(#[trigger] self.pipes[j]).scored
                        && next.pipes[j - from].scored;
                assert(next.pipes[j - from] == carried[j - from]);
                assert(self.pipes[j].crosses(self.bird_x()));
                assert(self.passes_pipe());
            }
        }
    }

    /// A bird that is dead and was not revived lies on the ground or above
    /// it; a bird that is still in a run after a step of that run is wholly between
    /// the top of the screen and the ground.
    pub proof fn lemma_bird_contained(self, next: GameView, flap: bool)
        requires
            self.valid(),
            self.steps_to(next, flap),
        ensures
            self.state == GameState::Dead && !flap ==> next.bird_y + BIRD_HALF_HEIGHT
                <= next.ground_top(),
            self.state == GameState::Running && next.state == GameState::Running ==> {
                &&& BIRD_HALF_HEIGHT <= next.bird_y
                &&& next.bird_y + BIRD_HALF_HEIGHT <= next.ground_top()
            },
            self.state == GameState::Running && (next.bird_y < BIRD_HALF_HEIGHT || next.bird_y
                + BIRD_HALF_HEIGHT > next.ground_top()) ==> next.state == GameState::Dead,
    {
    }

    /// The queue never runs dry ahead of the screen: its last pipe is at
    /// least one spacing right of the screen's right edge, and so all the more
    /// within one step's scroll of that.
    pub proof fn lemma_queue_coverage(self)
        requires
            self.valid(),
        ensures
            self.pipes.len() >= 1,
            self.pipes.last().x >= UNITS_PER_PIXEL * self.width + self.pipe_spacing(),
            self.pipes.last().x >= UNITS_PER_PIXEL * self.width + self.pipe_spacing()
                - SCROLL_PER_STEP,
    {
    }

    /// Above every gap there are at least 40 pixels of pipe.  Below it, down
    /// to the ground, there are as many wherever the ground leaves room for the
    /// gap, both margins and the slack of the centre.
    pub proof fn lemma_gap_placement(self, i: int)
        requires
            self.valid(),
            0 <= i < self.pipes.len(),
        ensures
            self.pipes[i].gap_top() >= GAP_MARGIN,
            self.ground_top() >= self.pipes[i].gap_height + 2 * GAP_MARGIN + GAP_SLACK
                ==> self.pipes[i].gap_bottom() <= self.ground_top() - GAP_MARGIN,
    {
        assert(self.pipes[i].gap_ok(self.ground_top()));
    }

    /// On a screen at least 500 pixels high every gap has 40 pixels of pipe
    /// above it and 40 pixels between it and the ground.
    pub proof fn lemma_gap_placement_on_tall_screen(self, i: int)
        requires
            self.valid(),
            self.height >= 500,
            0 <= i < self.pipes.len(),
        ensures
            self.pipes[i].gap_top() >= GAP_MARGIN,
            self.pipes[i].gap_bottom() <= self.ground_top() - GAP_MARGIN,
    {
        self.lemma_gap_placement(i);
        assert(ground_top(self.height) >= 1_476_000);
    }

    /// The best score never drops, whatever the step; a reset makes it the
    /// larger of the best score and the score just lost, and nothing else changes
    /// it.
    pub proof fn lemma_best_score(self, next: GameView, flap: bool)
        requires
            self.valid(),
            self.steps_to(next, flap),
        ensures
            next.best_score >= self.best_score,
            self.state == GameState::Dead && flap ==> next.best_score == max(
                self.best_score,
                self.score,
            ),
            !(self.state == GameState::Dead && flap) ==> next.best_score == self.best_score,
    {
    }
}

/// Two runs from the same game under the same flaps, in which the pipes get
/// the same gaps, are the same run.
pub proof fn lemma_run_deterministic(a: Seq<GameView>, b: Seq<GameView>, flaps: Seq<bool>)
    requires
        is_run(a, flaps),
        is_run(b, flaps),
        a[0] == b[0],
        forall|i: int| 0 <= i < a.len() ==> same_gaps(#[trigger] a[i].pipes, b[i].pipes),
    ensures
        a == b,
{
    lemma_run_prefix(a, b, flaps, flaps.len() as int);
    assert(a =~= b);
}

/// Two such runs agree up to any place.
proof fn lemma_run_prefix(a: Seq<GameView>, b: Seq<GameView>, flaps: Seq<bool>, n: int)
    requires
        is_run(a, flaps),
        is_run(b, flaps),
        a[0] == b[0],
        forall|i: int| 0 <= i < a.len() ==> same_gaps(#[trigger] a[i].pipes, b[i].pipes),
        0 <= n <= flaps.len(),
    ensures
        forall|i: int| 0 <= i <= n ==> a[i] == b[i],
    decreases n,
{
    if n > 0 {
        lemma_run_prefix(a, b, flaps, n - 1);
        assert(a[n - 1] == b[n - 1]);
        let flap = flaps[n - 1];
        assert(a[n - 1].steps_to(a[n - 1 + 1], flap));
        assert(b[n - 1].steps_to(b[n - 1 + 1], flap));
        assert(same_gaps(a[n].pipes, b[n].pipes));
        a[n - 1].lemma_step_deterministic(a[n], b[n], flap);
    }
}

/// The product of a count up to three and a spacing, bounded without
/// multiplying two unknowns.
pub(crate) proof fn lemma_small_multiple(i: int, spacing: int)
    by (nonlinear_arith)
    requires
        0 <= i <= 3,
        0 <= spacing,
    ensures
        0 <= i * spacing <= 3 * spacing,
        (i + 1) * spacing == i * spacing + spacing,
{
}

/// The arch of the bob starts at zero.
proof fn lemma_bob_starts_at_rest()
    ensures
        bob::offset(0) == 0,
{
    assert(0int * (bob::HALF_PERIOD - 0int) == 0) by (nonlinear_arith);
    assert(bob::HALF_PERIOD * bob::HALF_PERIOD == 7_259_040_000int);
}

impl GameView {
    /// A game started over is valid, whatever it was before, if its best
    /// score is in range.
    pub proof fn lemma_restart_valid(self, next: GameView)
        requires
            1 <= self.width <= u32::MAX,
            1 <= self.height <= u32::MAX,
            0 <= next.best_score <= u32::MAX,
            self.restarts_to(next),
        ensures
            next.valid(),
    {
        lemma_bob_starts_at_rest();
        let sp = self.pipe_spacing();
        assert forall|i: int| 0 <= i < 4 implies 0 <= #[trigger] (i * sp) <= 3 * sp && (i + 1)
            * sp == i * sp + sp by {
            lemma_small_multiple(i, sp);
        }
        assert(next.pipes[3].x == first_pipe_x(self.width) + 3 * sp);
        assert(next.pipes.last() == next.pipes[3]);
        assert forall|i: int, j: int| 0 <= i && j == i + 1 && j < next.pipes.len() implies (
        #[trigger] next.pipes[j]).x == (#[trigger] next.pipes[i]).x + sp by {
            assert((i + 1) * sp == i * sp + sp);
        }
        assert forall|i: int, j: int| 0 <= i < j < next.pipes.len() implies (
        #[trigger] next.pipes[i]).x + sp <= (#[trigger] next.pipes[j]).x by {
            assert((i + 1) * sp == i * sp + sp);
            assert(next.pipes[1].x == next.pipes[0].x + sp);
            assert(next.pipes[2].x == next.pipes[1].x + sp);
            assert(next.pipes[3].x == next.pipes[2].x + sp);
        }
    }
}

impl GameView {
    /// Two pipes of a valid queue cannot both pass the bird in one step:
    /// they are a spacing apart, and a step moves them by less.
    pub proof fn lemma_one_pipe_passes(self, i: int, j: int)
        requires
            1 <= self.width,
            self.pipes_valid(),
            0 <= i < self.pipes.len(),
            0 <= j < self.pipes.len(),
            self.pipes[i].crosses(self.bird_x()),
            self.pipes[j].crosses(self.bird_x()),
        ensures
            i == j,
    {
        if i < j {
            assert(self.pipes[i].x + self.pipe_spacing() <= self.pipes[j].x);
        } else if j < i {
            assert(self.pipes[j].x + self.pipe_spacing() <= self.pipes[i].x);
        }
    }
}

/// A bird within the energy bound that is not too far down is within the
/// speed limit, with room for one more step of gravity, and not too far up.
pub(crate) proof fn lemma_speed_bound(v: int, y: int)
    by (nonlinear_arith)
    requires
        v * v - 2 * 550 * y <= 553_770_000,
        y <= 15_462_032_305_750,
    ensures
        -149_999_450 <= v <= 149_999_450,
        y >= -503_428,
{
    assert(v * v >= 0);
    if v > 149_999_450 {
        assert(v * v >= 149_999_450 * 149_999_450);
    }
    if v < -149_999_450 {
        assert(v * v >= 149_999_450 * 149_999_450);
    }
}

impl GameView {
    /// The bird is never faster than [`SPEED_LIMIT`], up or down, and never
    /// higher above the top of the screen than a flap from the crest of the idle
    /// bob can throw it.
    pub proof fn lemma_speed_limit(self)
        requires
            self.valid(),
        ensures
            -SPEED_LIMIT <= self.bird_vel <= SPEED_LIMIT,
            2 * GRAVITY * self.bird_y >= -ENERGY_LIMIT,
    {
        lemma_speed_bound(self.bird_vel, self.bird_y);
        assert(self.bird_vel * self.bird_vel >= 0) by (nonlinear_arith);
    }
}

/// One step of free fall lowers `v * v - 2 * GRAVITY * y` by the square of
/// the gravity.
pub(crate) proof fn lemma_fall_energy(v: int, y: int)
    by (nonlinear_arith)
    ensures
        (v + 550) * (v + 550) - 2 * 550 * (y + (v + 550)) == v * v - 2 * 550 * y - 550 * 550,
{
}

/// The square of the flap velocity.
pub(crate) proof fn lemma_flap_energy(v: int)
    by (nonlinear_arith)
    requires
        v == -22_500,
    ensures
        v * v == 506_250_000,
{
}

/// The square of no velocity.
pub(crate) proof fn lemma_rest_energy(v: int)
    by (nonlinear_arith)
    requires
        v == 0,
    ensures
        v * v == 0,
{
}

impl GameView {
    /// The pipes of a valid game are still a valid queue after a step of a
    /// run.
    proof fn lemma_running_keeps_pipes_valid(self, next: GameView)
        requires
            1 <= self.width <= u32::MAX,
            self.pipes_valid(),
            self.pipes_step_to(next.pipes),
            next.width == self.width,
            next.height == self.height,
        ensures
            next.pipes_valid(),
    {
        let from = self.first_kept();
        let carried = self.carried_pipes();
        let sp = self.pipe_spacing();
        let old = self.pipes;
        let new = next.pipes;
        assert(old.last().x >= spawn_line(self.width));
        assert(old.len() - from >= 1);
        assert forall|k: int| 0 <= k < carried.len() implies #[trigger] new[k] == old[k
            + from].advanced(self.bird_x()) by {
            assert(new[k] == carried[k]);
        }
        assert forall|k: int| 0 <= k < new.len() implies (#[trigger] new[k]).gap_ok(
            next.ground_top(),
        ) by {
            if k < carried.len() {
                assert(old[k + from].gap_ok(self.ground_top()));
            }
        }
        assert forall|k: int| 0 <= k < new.len() implies exit_line(next.width) - PIPE_WIDTH <= (
        #[trigger] new[k]).x <= first_pipe_x(next.width) + 3 * next.pipe_spacing() by {
            if k < carried.len() {
                if k + from > 0 {
                    assert(old[0].x + sp <= old[k + from].x);
                }
            }
        }
        assert forall|a: int, b: int| 0 <= a && b == a + 1 && b < new.len() implies (
        #[trigger] new[b]).x == (#[trigger] new[a]).x + next.pipe_spacing() by {
            if b < carried.len() {
                assert(old[b + from].x == old[a + from].x + sp);
            } else {
                assert(new[a] == old[a + from].advanced(self.bird_x()));
                assert(old[a + from] == old.last());
            }
        }
        assert forall|a: int, b: int| 0 <= a < b < new.len() implies (#[trigger] new[a]).x
            + next.pipe_spacing() <= (#[trigger] new[b]).x by {
            assert(new[a] == old[a + from].advanced(self.bird_x()));
            if b < carried.len() {
                assert(old[a + from].x + sp <= old[b + from].x);
            } else {
                if a + from < old.len() - 1 {
                    assert(old[a + from].x + sp <= old[old.len() - 1].x);
                }
            }
        }
        assert forall|k: int| 0 <= k < new.len() implies ((#[trigger] new[k]).scored
            <==> new[k].x + PIPE_WIDTH < next.bird_x()) by {
            if k < carried.len() {
                assert(old[k + from].scored <==> old[k + from].x + PIPE_WIDTH < self.bird_x());
            }
        }
        if !self.spawns() {
            assert(new.last() == old[new.len() - 1 + from].advanced(self.bird_x()));
        }
    }

    /// What holds of a game at all times holds after a step if it held
    /// before.
    pub proof fn lemma_step_keeps_valid(self, next: GameView, flap: bool)
        requires
            self.valid(),
            self.steps_to(next, flap),
        ensures
            next.valid(),
    {
        lemma_speed_bound(self.bird_vel, self.bird_y);
        lemma_fall_energy(self.bird_vel, self.bird_y);
        lemma_fall_energy(FLAP_VELOCITY as int, self.bird_y);
        lemma_flap_energy(FLAP_VELOCITY as int);
        lemma_rest_energy(0);
        match self.state {
            GameState::Ready => {
                bob::lemma_offset_bounds(next.bob_phase);
            },
            GameState::Running => {
                self.lemma_running_keeps_pipes_valid(next);
            },
            GameState::Dead => {
                if flap {
                    self.lemma_restart_valid(next);
                }
            },
        }
    }
}

} // verus!
