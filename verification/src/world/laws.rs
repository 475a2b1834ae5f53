//! What is true of every step of the letterboxed game, proved from its rule.
use crate::world::rules::{
    advanced_all, first_pipes, last_gap, passing, still_in_view, PipePair, WorldView,
    BIRD_HALF_HEIGHT, EXIT_X, FIRST_PIPE_X, FLAP_VELOCITY, GROUND_TOP, INITIAL_PIPES, PIPE_MAX_Y,
    PIPE_MIN_Y, PIPE_SPACING, PIPE_WIDTH, SPAWN_X,
};
use vstd::prelude::*;

verus! {

/// The queues `a` and `b` have the same gaps, place by place.
pub open spec fn same_gaps(a: Seq<PipePair>, b: Seq<PipePair>) -> bool {
    forall|i: int|
        0 <= i < a.len() && 0 <= i < b.len() ==> (#[trigger] a[i]).gap_center == b[i].gap_center
}

/// `trace` is a run of the game under the jumps `jumps`: each game of it
/// steps to the next under the jump of that place.
pub open spec fn is_run(trace: Seq<WorldView>, jumps: Seq<bool>) -> bool {
    &&& trace.len() == jumps.len() + 1
    &&& forall|i: int|
        0 <= i < jumps.len() ==> trace[i].steps_to(trace[i + 1], #[trigger] jumps[i])
}

impl WorldView {
    /// The queue as a step to `next` finds it once the jump is dealt with and
    /// the pipe that is due is added.
    pub open spec fn queue_found(self, next: WorldView, want_jump: bool) -> Seq<PipePair> {
        self.jumped(want_jump, next.pipes).queue(last_gap(next.pipes))
    }

    /// A step is a function of the game, the jump and the gaps of the pipes:
    /// two games that the same game steps to under the same jump, and whose queues
    /// have the same gaps, are the same game.
    pub proof fn lemma_step_deterministic(self, a: WorldView, b: WorldView, want_jump: bool)
        requires
            self.steps_to(a, want_jump),
            self.steps_to(b, want_jump),
            same_gaps(a.pipes, b.pipes),
        ensures
            a == b,
    {
        if want_jump && self.is_dead {
            assert(a.pipes.last().gap_center == b.pipes.last().gap_center);
            assert(first_pipes(a.pipes) =~= first_pipes(b.pipes));
        } else {
            let start = self.jumped(want_jump, a.pipes);
            assert(start == self.jumped(want_jump, b.pipes));
            if !start.dies_moving() && start.spawns() {
                start.lemma_spawned_last(last_gap(a.pipes));
                start.lemma_spawned_last(last_gap(b.pipes));
                assert(a.pipes.len() == b.pipes.len());
                assert(a.pipes.last().gap_center == b.pipes.last().gap_center);
            }
        }
    }

    /// Where a step adds a pipe, the queue after it is the pipes that are
    /// kept of those that were there, and the new pipe behind them.
    proof fn lemma_spawned_last(self, gap: int)
        requires
            !self.dies_moving(),
            self.spawns(),
        ensures
            self.advance(gap).pipes == still_in_view(advanced_all(self.pipes)).push(
                (PipePair { x: SPAWN_X, gap_center: gap as i64, passed: false }).advanced(),
            ),
    {
        let new = PipePair { x: SPAWN_X, gap_center: gap as i64, passed: false };
        let queue = self.queue(gap);
        let moved = advanced_all(queue);
        assert(moved.drop_last() =~= advanced_all(self.pipes));
        assert(moved.last() == new.advanced());
    }

    /// The score never drops but by a reset, and a step adds to it the
    /// number of pipes that pass the bird in it, which is no more than there are
    /// pipes.
    pub proof fn lemma_score_monotone(self, next: WorldView, want_jump: bool)
        requires
            self.valid(),
            self.steps_to(next, want_jump),
            !(want_jump && self.is_dead),
        ensures
            self.score <= next.score,
            next.score <= self.score + self.pipes.len() + 1,
            next.is_dead && self.is_dead ==> next.score == self.score && next.pipes == self.pipes,
    {
        let start = self.jumped(want_jump, next.pipes);
        lemma_passing_bounded(start.queue(last_gap(next.pipes)));
    }

    /// Every pipe of the queue after a step in which the bird lives is a
    /// pipe that the step found, moved on: no pipe is made but the one that is due,
    /// and a pipe that was passed stays passed.
    pub proof fn lemma_pipes_carried(self, next: WorldView, want_jump: bool, i: int)
        requires
            self.valid(),
            self.steps_to(next, want_jump),
            !next.is_dead || !self.jumped(want_jump, next.pipes).dies_moving(),
            0 <= i < next.pipes.len(),
        ensures
            exists|j: int|
                0 <= j < self.queue_found(next, want_jump).len() && next.pipes[i] == (
                #[trigger] self.queue_found(next, want_jump)[j]).advanced(),
    {
        let queue = self.queue_found(next, want_jump);
        let moved = advanced_all(queue);
        lemma_in_view_keeps(moved);
        assert(next.pipes[i] == still_in_view(moved)[i]);
        let j = choose|j: int| 0 <= j < moved.len() && moved[j] == still_in_view(moved)[i];
        assert(next.pipes[i] == queue[j].advanced());
    }

    /// What holds of a game at all times holds after a step if it held
    /// before.
    pub proof fn lemma_step_keeps_valid(self, next: WorldView, want_jump: bool)
        requires
            self.valid(),
            self.steps_to(next, want_jump),
        ensures
            next.valid(),
    {
        let start = self.jumped(want_jump, next.pipes);
        if want_jump && self.is_dead {
            assert forall|k: int| 0 <= k < 4 implies 0 <= #[trigger] (k * PIPE_SPACING)
                <= 2_376_000 by {
                lemma_first_pipe_places(k);
            }
            assert forall|i: int| 0 <= i < start.pipes.len() implies (
            #[trigger] start.pipes[i]).gap_ok() by {
                assert(next.pipes[i].gap_ok());
            }
        }
        start.lemma_advance_valid(last_gap(next.pipes));
    }

    /// The bird never rises above the top of the world, and a living bird is
    /// above the ground.
    pub proof fn lemma_bird_contained(self, next: WorldView, want_jump: bool)
        requires
            self.valid(),
            self.steps_to(next, want_jump),
        ensures
            next.bird_y >= 0,
            !next.is_dead ==> next.bird_y + BIRD_HALF_HEIGHT < GROUND_TOP,
    {
    }
}

/// Two runs from the same game under the same jumps, in which the pipes get
/// the same gaps, are the same run.
pub proof fn lemma_run_deterministic(a: Seq<WorldView>, b: Seq<WorldView>, jumps: Seq<bool>)
    requires
        is_run(a, jumps),
        is_run(b, jumps),
        a[0] == b[0],
        forall|i: int| 0 <= i < a.len() ==> same_gaps(#[trigger] a[i].pipes, b[i].pipes),
    ensures
        a == b,
{
    lemma_run_prefix(a, b, jumps, jumps.len() as int);
    assert(a =~= b);
}

/// Two such runs agree up to any place.
proof fn lemma_run_prefix(a: Seq<WorldView>, b: Seq<WorldView>, jumps: Seq<bool>, n: int)
    requires
        is_run(a, jumps),
        is_run(b, jumps),
        a[0] == b[0],
        forall|i: int| 0 <= i < a.len() ==> same_gaps(#[trigger] a[i].pipes, b[i].pipes),
        0 <= n <= jumps.len(),
    ensures
        forall|i: int| 0 <= i <= n ==> a[i] == b[i],
    decreases n,
{
    if n > 0 {
        lemma_run_prefix(a, b, jumps, n - 1);
        assert(a[n - 1] == b[n - 1]);
        let jump = jumps[n - 1];
        assert(a[n - 1].steps_to(a[n - 1 + 1], jump));
        assert(b[n - 1].steps_to(b[n - 1 + 1], jump));
        assert(same_gaps(a[n].pipes, b[n].pipes));
        a[n - 1].lemma_step_deterministic(a[n], b[n], jump);
    }
}

/// The products that place the first pipes, without multiplying unknowns.
pub(crate) proof fn lemma_first_pipe_places(i: int)
    by (nonlinear_arith)
    requires
        0 <= i <= 3,
    ensures
        0 <= i * 792_000 <= 2_376_000,
        (i + 1) * 792_000 == i * 792_000 + 792_000,
{
}

/// Taking one more pipe of a queue, then dropping it again, leaves the
/// queue taken so far.
pub(crate) proof fn lemma_take_next(pipes: Seq<PipePair>, i: int)
    requires
        0 <= i < pipes.len(),
    ensures
        pipes.take(i + 1).drop_last() == pipes.take(i),
        pipes.take(i + 1).last() == pipes[i],
        pipes.take(i + 1).len() == i + 1,
{
    assert(pipes.take(i + 1).drop_last() =~= pipes.take(i));
}

/// No more pipes pass than there are.
pub proof fn lemma_passing_bounded(pipes: Seq<PipePair>)
    ensures
        passing(pipes) <= pipes.len(),
    decreases pipes.len(),
{
    if pipes.len() > 0 {
        lemma_passing_bounded(pipes.drop_last());
    }
}

/// Every pipe that is kept is in view and was there before.
proof fn lemma_in_view_keeps(pipes: Seq<PipePair>)
    ensures
        forall|i: int|
            0 <= i < still_in_view(pipes).len() ==> (#[trigger] still_in_view(pipes)[i]).in_view()
                && exists|j: int| 0 <= j < pipes.len() && pipes[j] == still_in_view(pipes)[i],
    decreases pipes.len(),
{
    if pipes.len() > 0 {
        let rest = pipes.drop_last();
        lemma_in_view_keeps(rest);
        let kept = still_in_view(pipes);
        assert forall|i: int| 0 <= i < kept.len() implies (#[trigger] kept[i]).in_view()
            && exists|j: int| 0 <= j < pipes.len() && pipes[j] == kept[i] by {
            if i < still_in_view(rest).len() {
                let j = choose|j: int| 0 <= j < rest.len() && rest[j] == still_in_view(rest)[i];
                assert(pipes[j] == kept[i]);
            } else {
                assert(pipes[pipes.len() - 1] == kept[i]);
            }
        }
    }
}

impl WorldView {
    /// A valid game advances to a valid game, and the pipe that the step
    /// adds is the last of the queue after it.
    pub proof fn lemma_advance_valid(self, gap: int)
        requires
            self.valid(),
            !self.dies_moving() && self.spawns() ==> PIPE_MIN_Y <= gap <= PIPE_MAX_Y,
        ensures
            self.advance(gap).valid(),
            !self.dies_moving() && self.spawns() ==> {
                &&& self.advance(gap).pipes.len() >= 1
                &&& self.advance(gap).pipes.last().gap_center == gap
            },
            !(!self.dies_moving() && self.spawns()) ==> forall|other: int|
                #[trigger] self.advance(other) == self.advance(gap),
    {
        if !self.dies_moving() {
            let queue = self.queue(gap);
            let moved = advanced_all(queue);
            let next = still_in_view(moved);
            lemma_passing_bounded(queue);
            lemma_in_view_keeps(moved);
            assert forall|i: int| 0 <= i < queue.len() implies EXIT_X - PIPE_WIDTH < (
            #[trigger] queue[i]).x <= FIRST_PIPE_X + 3 * PIPE_SPACING && queue[i].gap_ok() by {
                if i < self.pipes.len() {
                    assert(queue[i] == self.pipes[i]);
                }
            }
            assert forall|i: int| 0 <= i < next.len() implies EXIT_X - PIPE_WIDTH < (
            #[trigger] next[i]).x <= FIRST_PIPE_X + 3 * PIPE_SPACING && next[i].gap_ok() by {
                assert(next[i].in_view());
                let j = choose|j: int| 0 <= j < moved.len() && moved[j] == next[i];
                assert(moved[j] == queue[j].advanced());
            }
            if self.spawns() {
                assert(moved.last() == queue.last().advanced());
                lemma_in_view_last(moved);
            }
        }
    }

    /// The first step of a game just started over, with a jump: the bird
    /// lives, no pipe is added or dropped, and the pipes keep their gaps.
    pub proof fn lemma_fresh_step(gaps: Seq<PipePair>, gap: int)
        ensures
            ({
                let start = WorldView { bird_v: FLAP_VELOCITY as int, ..Self::fresh(gaps) };
                let next = start.advance(gap);
                &&& !start.dies_moving()
                &&& !start.spawns()
                &&& next.pipes == advanced_all(first_pipes(gaps))
                &&& next.pipes.len() == INITIAL_PIPES
                &&& first_pipes(next.pipes) == first_pipes(gaps)
            }),
    {
        let start = WorldView { bird_v: FLAP_VELOCITY as int, ..Self::fresh(gaps) };
        let next = start.advance(gap);
        lemma_first_pipes_stay(gaps);
        assert(start.queue(gap) == first_pipes(gaps));
        assert(first_pipes(next.pipes) =~= first_pipes(gaps));
    }

    /// What `step` has found is what the rule of the step asks for: `next` is
    /// this game one step later, if `start` is this game after the jump and `next`
    /// is `start` advanced with the gap of its last pipe.
    pub(crate) proof fn lemma_jump_found(self, want_jump: bool, start: WorldView, next: WorldView)
        requires
            self.valid(),
            start.valid(),
            next == start.advance(last_gap(next.pipes)),
            !start.dies_moving() && start.spawns() ==> next.pipes.len() >= 1
                && next.pipes.last().gap_ok(),
            want_jump && self.is_dead ==> start == (WorldView {
                bird_v: FLAP_VELOCITY as int,
                ..Self::fresh(start.pipes)
            }) && forall|i: int| 0 <= i < start.pipes.len() ==> (#[trigger] start.pipes[i]).gap_ok(),
            want_jump && !self.is_dead ==> start == (WorldView {
                bird_v: FLAP_VELOCITY as int,
                ..self
            }),
            !want_jump ==> start == self,
        ensures
            self.steps_to(next, want_jump),
    {
        if want_jump && self.is_dead {
            let gap = last_gap(next.pipes);
            Self::lemma_fresh_step(start.pipes, gap);
            assert(first_pipes(start.pipes) == start.pipes);
            assert forall|i: int| 0 <= i < next.pipes.len() implies (
            #[trigger] next.pipes[i]).gap_ok() by {
                assert(next.pipes[i] == start.pipes[i].advanced());
            }
        }
    }
}

/// A last pipe that is in view is the last of the pipes that are kept.
proof fn lemma_in_view_last(pipes: Seq<PipePair>)
    requires
        pipes.len() >= 1,
        pipes.last().in_view(),
    ensures
        still_in_view(pipes).len() >= 1,
        still_in_view(pipes).last() == pipes.last(),
{
}

/// The first queue is all in view after its first step.
proof fn lemma_first_pipes_stay(gaps: Seq<PipePair>)
    ensures
        still_in_view(advanced_all(first_pipes(gaps))) == advanced_all(first_pipes(gaps)),
{
    let moved = advanced_all(first_pipes(gaps));
    assert forall|k: int| 0 <= k < 4 implies 0 <= #[trigger] (k * PIPE_SPACING) <= 2_376_000 by {
        lemma_first_pipe_places(k);
    }
    lemma_all_in_view(moved, 4);
    assert(moved.take(4) =~= moved);
}

/// A queue whose first `n` pipes are in view keeps them all.
proof fn lemma_all_in_view(pipes: Seq<PipePair>, n: int)
    requires
        0 <= n <= pipes.len(),
        forall|i: int| 0 <= i < n ==> (#[trigger] pipes[i]).in_view(),
    ensures
        still_in_view(pipes.take(n)) == pipes.take(n),
    decreases n,
{
    if n > 0 {
        lemma_all_in_view(pipes, n - 1);
        lemma_take_next(pipes, n - 1);
        assert(pipes.take(n - 1).push(pipes[n - 1]) =~= pipes.take(n));
    } else {
        assert(pipes.take(0) =~= Seq::<PipePair>::empty());
    }
}

} // verus!
