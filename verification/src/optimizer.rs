use crate::boundary::CubicBoundary;
use crate::fixed::clamp;
use crate::fixed::lemma_vel_update_at_best;
use crate::fixed::pos_update_exec;
use crate::fixed::vel_update;
use crate::fixed::vel_update_exec;
use crate::fixed::TURTLE_VELOCITY;
use crate::objective::Objective;
use crate::score::exceeds_goal;
use crate::score::improves;
use crate::score::score_le;
use crate::score::Score;
use crate::turtle::clone_vec;
use crate::turtle::filled;
use crate::turtle::Turtle;
use vstd::prelude::*;

verus! {

/// The global best (score, position) pair after the evaluate phase has
/// scanned the swarm `ts` left to right, starting from `(g, gp)`: an agent
/// replaces the global best exactly when its score improves both its own
/// prior personal best and the global best standing at its turn.
pub open spec fn scan_global<F: Objective>(f: F, ts: Seq<Turtle>, g: Score, gp: Seq<i64>) -> (
    Score,
    Seq<i64>,
)
    decreases ts.len(),
{
    if ts.len() == 0 {
        (g, gp)
    } else {
        let t = ts[0];
        let s = f.value(t.position@);
        if improves(s, t.best_score) && improves(s, g) {
            scan_global(f, ts.drop_first(), Score::Finite(s), t.position@)
        } else {
            scan_global(f, ts.drop_first(), g, gp)
        }
    }
}

/// The global best position that a scan hands back is never invented: it is
/// either the position the scan started from or the position of one of the
/// scanned turtles.
pub proof fn lemma_scan_position_source<F: Objective>(f: F, ts: Seq<Turtle>, g: Score, gp: Seq<
    i64,
>)
    ensures
        scan_global(f, ts, g, gp).1 == gp || exists|i: int|
            0 <= i < ts.len() && scan_global(f, ts, g, gp).1 == (#[trigger] ts[i]).position@,
    decreases ts.len(),
{
    if ts.len() > 0 {
        let s = f.value(ts[0].position@);
        let rest = ts.drop_first();
        if improves(s, ts[0].best_score) && improves(s, g) {
            lemma_scan_position_source(f, rest, Score::Finite(s), ts[0].position@);
            if scan_global(f, rest, Score::Finite(s), ts[0].position@).1 == ts[0].position@ {
                assert(scan_global(f, ts, g, gp).1 == ts[0].position@);
            } else {
                let j = choose|j: int|
                    0 <= j < rest.len() && scan_global(f, rest, Score::Finite(s), ts[0].position@).1
                        == (#[trigger] rest[j]).position@;
                assert(rest[j] == ts[j + 1]);
                assert(scan_global(f, ts, g, gp).1 == ts[j + 1].position@);
            }
        } else {
            lemma_scan_position_source(f, rest, g, gp);
            if scan_global(f, rest, g, gp).1 != gp {
                let j = choose|j: int|
                    0 <= j < rest.len() && scan_global(f, rest, g, gp).1 == (
                    #[trigger] rest[j]).position@;
                assert(rest[j] == ts[j + 1]);
                assert(scan_global(f, ts, g, gp).1 == ts[j + 1].position@);
            }
        }
    }
}

/// Law: the evaluate scan of a swarm in which nothing has been observed yet
/// always elects some turtle's own position as the global best position,
/// whatever the objective — the turtle whose velocity the following
/// velocity-update phase then leaves at the nonzero initial constant.
pub proof fn lemma_fresh_scan_elects_leader<F: Objective>(f: F, ts: Seq<Turtle>, gp: Seq<i64>)
    requires
        ts.len() > 0,
        forall|i: int| 0 <= i < ts.len() ==> (#[trigger] ts[i]).best_score == Score::Infinite,
    ensures
        exists|i: int|
            0 <= i < ts.len() && scan_global(f, ts, Score::Infinite, gp).1 == (
            #[trigger] ts[i]).position@,
{
    let s = f.value(ts[0].position@);
    let rest = ts.drop_first();
    lemma_scan_position_source(f, rest, Score::Finite(s), ts[0].position@);
    if scan_global(f, rest, Score::Finite(s), ts[0].position@).1 == ts[0].position@ {
        assert(scan_global(f, ts, Score::Infinite, gp).1 == ts[0].position@);
    } else {
        let j = choose|j: int|
            0 <= j < rest.len() && scan_global(f, rest, Score::Finite(s), ts[0].position@).1 == (
            #[trigger] rest[j]).position@;
        assert(rest[j] == ts[j + 1]);
        assert(scan_global(f, ts, Score::Infinite, gp).1 == ts[j + 1].position@);
    }
}

/// The mutable part of an optimizer between cycles: the swarm and the global
/// best pair, as one mathematical value.
pub struct SwarmState {
    pub turtles: Seq<Turtle>,
    pub best_score: Score,
    pub best_position: Seq<i64>,
}

/// One full three-phase cycle, stated over swarm states: `post` is `pre`
/// after the evaluate, update-velocities and update-positions phases have
/// each run once, in that order — the velocity update reads the settled
/// phase-1 bests, the position update the settled phase-2 velocities.
pub open spec fn cycle_step<F: Objective>(
    f: F,
    b: CubicBoundary,
    pre: SwarmState,
    post: SwarmState,
) -> bool {
    let scan = scan_global(f, pre.turtles, pre.best_score, pre.best_position);
    &&& post.turtles.len() == pre.turtles.len()
    &&& post.best_score == scan.0
    &&& post.best_position == scan.1
    &&& forall|i: int|
        0 <= i < pre.turtles.len() ==> {
            let t = pre.turtles[i];
            let s = f.value(t.position@);
            let pb = if improves(s, t.best_score) {
                Score::Finite(s)
            } else {
                t.best_score
            };
            let pbp = if improves(s, t.best_score) {
                t.position@
            } else {
                t.best_position@
            };
            let u = #[trigger] post.turtles[i];
            &&& u.best_score == pb
            &&& u.best_position@ == pbp
            &&& u.velocity@.len() == t.velocity@.len()
            &&& u.position@.len() == t.position@.len()
            &&& forall|d: int|
                0 <= d < b.shape ==> (#[trigger] u.velocity@[d]) as int == vel_update(
                    t.velocity@[d],
                    t.position@[d],
                    pbp[d],
                    scan.1[d],
                )
            &&& forall|d: int|
                0 <= d < b.shape ==> (#[trigger] u.position@[d]) as int == clamp(
                    t.position@[d] + u.velocity@[d],
                    b.lower as int,
                    b.upper as int,
                )
        }
}

/// `post` is the swarm state after exactly `k` full cycles from `pre`, every
/// one of those cycles having started from a state whose global best score
/// still exceeded the goal.
pub open spec fn cycles_from<F: Objective>(
    f: F,
    b: CubicBoundary,
    goal: i64,
    pre: SwarmState,
    post: SwarmState,
    k: int,
) -> bool
    decreases k,
{
    if k <= 0 {
        post == pre
    } else {
        exists|mid: SwarmState|
            {
                &&& cycles_from(f, b, goal, pre, mid, k - 1)
                &&& exceeds_goal(mid.best_score, goal)
                &&& #[trigger] cycle_step(f, b, mid, post)
            }
    }
}

/// Extending a run of cycles by one more cycle at its end.
pub proof fn lemma_cycles_snoc<F: Objective>(
    f: F,
    b: CubicBoundary,
    goal: i64,
    pre: SwarmState,
    mid: SwarmState,
    post: SwarmState,
    k: int,
)
    requires
        k >= 1,
        cycles_from(f, b, goal, pre, mid, k - 1),
        exceeds_goal(mid.best_score, goal),
        cycle_step(f, b, mid, post),
    ensures
        cycles_from(f, b, goal, pre, post, k),
{
    assert(cycles_from(f, b, goal, pre, mid, k - 1));
    assert(cycle_step(f, b, mid, post));
}

/// Turtle `i` of the swarm still has its whole velocity at the nonzero
/// initial constant.
pub open spec fn keeps_initial_velocity<F: Objective>(o: Optimizer<F>, i: int) -> bool {
    forall|d: int|
        0 <= d < o.boundaries.shape ==> (#[trigger] o.turtles@[i].velocity@[d]) == TURTLE_VELOCITY
}

/// Law: after one velocity-update phase following one evaluate phase of a
/// swarm fresh from construction, at least one turtle — the one whose
/// position the evaluate phase elected as the global best — still has its
/// whole velocity at the nonzero initial constant: the swarm is in motion.
/// `s0` is a freshly built optimizer, `s1` the same optimizer after one
/// evaluate phase, `s2` that one after one velocity-update phase, each pair
/// related by the contract of the phase between them.
pub proof fn lemma_movement_after_first_cycle<F: Objective>(
    s0: Optimizer<F>,
    s1: Optimizer<F>,
    s2: Optimizer<F>,
)
    requires
        s0.wf(),
        s0.turtles@.len() > 0,
        s0.best_score == Score::Infinite,
        forall|i: int|
            0 <= i < s0.turtles@.len() ==> (#[trigger] s0.turtles@[i]).fresh(s0.boundaries),
        s1.boundaries == s0.boundaries,
        s1.turtles@.len() == s0.turtles@.len(),
        forall|i: int|
            0 <= i < s0.turtles@.len() ==> {
                let t = s0.turtles@[i];
                let s = s0.objective_function.value(t.position@);
                let u = #[trigger] s1.turtles@[i];
                &&& u.position@ == t.position@
                &&& u.velocity@ == t.velocity@
                &&& u.best_score == (if improves(s, t.best_score) {
                    Score::Finite(s)
                } else {
                    t.best_score
                })
                &&& u.best_position@ == (if improves(s, t.best_score) {
                    t.position@
                } else {
                    t.best_position@
                })
            },
        s1.best_position@ == scan_global(
            s0.objective_function,
            s0.turtles@,
            s0.best_score,
            s0.best_position@,
        ).1,
        s2.boundaries == s1.boundaries,
        s2.turtles@.len() == s1.turtles@.len(),
        forall|i: int, d: int|
            0 <= i < s1.turtles@.len() && 0 <= d < s1.boundaries.shape
                ==> (#[trigger] s2.turtles@[i].velocity@[d]) as int == vel_update(
                s1.turtles@[i].velocity@[d],
                s1.turtles@[i].position@[d],
                s1.turtles@[i].best_position@[d],
                s1.best_position@[d],
            ),
    ensures
        exists|i: int| 0 <= i < s2.turtles@.len() && #[trigger] keeps_initial_velocity(s2, i),
{
    lemma_fresh_scan_elects_leader(s0.objective_function, s0.turtles@, s0.best_position@);
    let i = choose|i: int|
        0 <= i < s0.turtles@.len() && scan_global(
            s0.objective_function,
            s0.turtles@,
            Score::Infinite,
            s0.best_position@,
        ).1 == (#[trigger] s0.turtles@[i]).position@;
    assert(s1.best_position@ == s0.turtles@[i].position@);
    assert forall|d: int|
        0 <= d < s2.boundaries.shape implies (#[trigger] s2.turtles@[i].velocity@[d])
        == TURTLE_VELOCITY by {
        let p = s1.turtles@[i].position@[d];
        assert(s1.turtles@[i].velocity@[d] == TURTLE_VELOCITY);
        assert(s1.turtles@[i].best_position@[d] == p);
        assert(s1.best_position@[d] == p);
        lemma_vel_update_at_best(TURTLE_VELOCITY, p);
    };
    assert(0 <= i < s2.turtles@.len() && keeps_initial_velocity(s2, i));
}

/// A mutable reference to the `i`th turtle of the swarm.
fn swarm_at(ts: &mut Vec<Turtle>, i: usize) -> (t: &mut Turtle)
    requires
        i < old(ts).len(),
    ensures
        *t == old(ts)@[i as int],
        final(ts)@ == old(ts)@.update(i as int, *final(t)),
{
    &mut ts[i]
}

/// The updated velocity vector of one turtle: per dimension, the old
/// velocity plus the pulls toward the personal best and the global best.
fn step_velocity(t: &Turtle, gbp: &Vec<i64>) -> (r: Vec<i64>)
    requires
        t.velocity@.len() == t.position@.len(),
        t.best_position@.len() == t.position@.len(),
        gbp@.len() == t.position@.len(),
    ensures
        r@.len() == t.position@.len(),
        forall|d: int|
            0 <= d < r@.len() ==> (#[trigger] r@[d]) as int == vel_update(
                t.velocity@[d],
                t.position@[d],
                t.best_position@[d],
                gbp@[d],
            ),
{
    let mut r: Vec<i64> = Vec::new();
    let mut d: usize = 0;
    let n = t.position.len();
    while d < n
        invariant
            d <= n,
            n == t.position@.len(),
            t.velocity@.len() == n,
            t.best_position@.len() == n,
            gbp@.len() == n,
            r@.len() == d,
            forall|k: int|
                0 <= k < d ==> (#[trigger] r@[k]) as int == vel_update(
                    t.velocity@[k],
                    t.position@[k],
                    t.best_position@[k],
                    gbp@[k],
                ),
        decreases n - d,
    {
        r.push(vel_update_exec(t.velocity[d], t.position[d], t.best_position[d], gbp[d]));
        d += 1;
    }
    r
}

/// The updated position vector of one turtle: the additive step, clamped
/// into the boundary interval per dimension.
fn step_position(t: &Turtle, lower: i64, upper: i64) -> (r: Vec<i64>)
    requires
        lower <= upper,
        t.velocity@.len() == t.position@.len(),
    ensures
        r@.len() == t.position@.len(),
        forall|d: int|
            0 <= d < r@.len() ==> (#[trigger] r@[d]) as int == clamp(
                t.position@[d] + t.velocity@[d],
                lower as int,
                upper as int,
            ),
        forall|d: int| 0 <= d < r@.len() ==> lower <= #[trigger] r@[d] <= upper,
{
    let mut r: Vec<i64> = Vec::new();
    let mut d: usize = 0;
    let n = t.position.len();
    while d < n
        invariant
            d <= n,
            n == t.position@.len(),
            t.velocity@.len() == n,
            lower <= upper,
            r@.len() == d,
            forall|k: int|
                0 <= k < d ==> (#[trigger] r@[k]) as int == clamp(
                    t.position@[k] + t.velocity@[k],
                    lower as int,
                    upper as int,
                ),
            forall|k: int| 0 <= k < d ==> lower <= #[trigger] r@[k] <= upper,
        decreases n - d,
    {
        r.push(pos_update_exec(t.position[d], t.velocity[d], lower, upper));
        d += 1;
    }
    r
}

/// The Optimizer type is the core of this library. It defines how the
/// minimization proceeds. One important deviation from classical particle
/// swarm optimization: there is no early exit short of achieving the goal
/// score.
pub struct Optimizer<F: Objective> {
    pub turtles: Vec<Turtle>,
    pub boundaries: CubicBoundary,
    pub iterations: usize,
    pub best_score: Score,
    pub best_position: Vec<i64>,
    pub objective_function: F,
    pub goal: i64,
}

impl<F: Objective> Optimizer<F> {
    /// Well-formedness: the boundary is sane, every vector has the boundary's
    /// dimensionality, every position lies inside the boundary, the global
    /// best score is at least as good as every personal best, and a finite
    /// global best score is the objective's value at the global best
    /// position.
    pub open spec fn wf(self) -> bool {
        &&& self.boundaries.wf()
        &&& self.best_position@.len() == self.boundaries.shape
        &&& forall|i: int|
            0 <= i < self.turtles@.len() ==> (#[trigger] self.turtles@[i]).wf(self.boundaries)
        &&& forall|i: int|
            0 <= i < self.turtles@.len() ==> score_le(
                self.best_score,
                (#[trigger] self.turtles@[i]).best_score,
            )
        &&& match self.best_score {
            Score::Finite(s) => s == self.objective_function.value(self.best_position@),
            Score::Infinite => true,
        }
    }

    /// This optimizer's swarm state: exactly the part one cycle changes.
    pub open spec fn state(self) -> SwarmState {
        SwarmState {
            turtles: self.turtles@,
            best_score: self.best_score,
            best_position: self.best_position@,
        }
    }

    /// Phase 1 — evaluate: each turtle's position is scored; a turtle that
    /// improves its own personal best records the score and a copy of its
    /// position, and — nested inside that improvement — a score that also
    /// improves the global best replaces it. The swarm is scanned strictly
    /// left to right.
    pub fn evaluate(&mut self)
        requires
            old(self).wf(),
        ensures
            final(self).wf(),
            final(self).boundaries == old(self).boundaries,
            final(self).iterations == old(self).iterations,
            final(self).goal == old(self).goal,
            final(self).objective_function == old(self).objective_function,
            final(self).turtles@.len() == old(self).turtles@.len(),
            forall|i: int|
                0 <= i < old(self).turtles@.len() ==> {
                    let t = old(self).turtles@[i];
                    let s = old(self).objective_function.value(t.position@);
                    let u = #[trigger] final(self).turtles@[i];
                    &&& u.position@ == t.position@
                    &&& u.velocity@ == t.velocity@
                    &&& u.best_score == (if improves(s, t.best_score) {
                        Score::Finite(s)
                    } else {
                        t.best_score
                    })
                    &&& u.best_position@ == (if improves(s, t.best_score) {
                        t.position@
                    } else {
                        t.best_position@
                    })
                },
            final(self).best_score == scan_global(
                old(self).objective_function,
                old(self).turtles@,
                old(self).best_score,
                old(self).best_position@,
            ).0,
            final(self).best_position@ == scan_global(
                old(self).objective_function,
                old(self).turtles@,
                old(self).best_score,
                old(self).best_position@,
            ).1,
            score_le(final(self).best_score, old(self).best_score),
            forall|i: int|
                0 <= i < old(self).turtles@.len() ==> score_le(
                    (#[trigger] final(self).turtles@[i]).best_score,
                    old(self).turtles@[i].best_score,
                ),
    {
        let ghost f = old(self).objective_function;
        let ghost ts0 = old(self).turtles@;
        let ghost g0 = old(self).best_score;
        let ghost gp0 = old(self).best_position@;
        let ghost b0 = old(self).boundaries;
        let ghost it0 = old(self).iterations;
        let ghost goal0 = old(self).goal;
        let n = self.turtles.len();
        let mut i: usize = 0;
        proof {
            assert(ts0.skip(0) =~= ts0);
        }
        while i < n
            invariant
                i <= n,
                n == ts0.len(),
                self.turtles@.len() == n,
                self.boundaries == b0,
                self.iterations == it0,
                self.goal == goal0,
                self.objective_function == f,
                self.boundaries.wf(),
                self.best_position@.len() == self.boundaries.shape,
                forall|j: int| i <= j < n ==> self.turtles@[j] == ts0[j],
                forall|j: int|
                    0 <= j < i ==> {
                        let t = ts0[j];
                        let s = f.value(t.position@);
                        let u = #[trigger] self.turtles@[j];
                        &&& u.position@ == t.position@
                        &&& u.velocity@ == t.velocity@
                        &&& u.best_score == (if improves(s, t.best_score) {
                            Score::Finite(s)
                        } else {
                            t.best_score
                        })
                        &&& u.best_position@ == (if improves(s, t.best_score) {
                            t.position@
                        } else {
                            t.best_position@
                        })
                    },
                forall|j: int|
                    0 <= j < n ==> (#[trigger] self.turtles@[j]).wf(self.boundaries),
                forall|j: int|
                    0 <= j < n ==> score_le(
                        self.best_score,
                        (#[trigger] self.turtles@[j]).best_score,
                    ),
                score_le(self.best_score, g0),
                match self.best_score {
                    Score::Finite(s) => s == f.value(self.best_position@),
                    Score::Infinite => true,
                },
                scan_global(f, ts0, g0, gp0) == scan_global(
                    f,
                    ts0.skip(i as int),
                    self.best_score,
                    self.best_position@,
                ),
            decreases n - i,
        {
            let score = self.objective_function.evaluate(&self.turtles[i].position);
            proof {
                assert(ts0.skip(i as int).len() == n - i);
                assert(ts0.skip(i as int)[0] == ts0[i as int]);
                assert(ts0.skip(i as int).drop_first() =~= ts0.skip(i as int + 1));
            }
            if self.turtles[i].best_score.beaten_by(score) {
                let improves_global = self.best_score.beaten_by(score);
                let t = swarm_at(&mut self.turtles, i);
                t.best_score = Score::Finite(score);
                t.best_position = clone_vec(&t.position);
                if improves_global {
                    self.best_score = Score::Finite(score);
                    self.best_position = clone_vec(&t.position);
                }
            }
            i += 1;
        }
        proof {
            assert(ts0.skip(n as int) =~= Seq::<Turtle>::empty());
        }
    }

    /// Phase 2 — update velocities: every turtle's velocity gains the pull
    /// toward its own best position and the pull toward the global best
    /// position as it stands at the end of phase 1 of the same iteration.
    /// Here we deviate from Kennedy and Eberhart and omit social and
    /// personal motivation constants: we aren't sure exactly what motivates
    /// turtles, so we favor neither in a stochastic sense.
    pub fn update_velocities(&mut self)
        requires
            old(self).wf(),
        ensures
            final(self).wf(),
            final(self).boundaries == old(self).boundaries,
            final(self).iterations == old(self).iterations,
            final(self).goal == old(self).goal,
            final(self).objective_function == old(self).objective_function,
            final(self).best_score == old(self).best_score,
            final(self).best_position@ == old(self).best_position@,
            final(self).turtles@.len() == old(self).turtles@.len(),
            forall|i: int|
                0 <= i < old(self).turtles@.len() ==> {
                    let t = old(self).turtles@[i];
                    let u = #[trigger] final(self).turtles@[i];
                    &&& u.position@ == t.position@
                    &&& u.best_score == t.best_score
                    &&& u.best_position@ == t.best_position@
                    &&& u.velocity@.len() == t.velocity@.len()
                },
            forall|i: int, d: int|
                0 <= i < old(self).turtles@.len() && 0 <= d < old(self).boundaries.shape
                    ==> (#[trigger] final(self).turtles@[i].velocity@[d]) as int == vel_update(
                    old(self).turtles@[i].velocity@[d],
                    old(self).turtles@[i].position@[d],
                    old(self).turtles@[i].best_position@[d],
                    old(self).best_position@[d],
                ),
    {
        let ghost o = *old(self);
        let n = self.turtles.len();
        let mut i: usize = 0;
        while i < n
            invariant
                i <= n,
                n == o.turtles@.len(),
                self.turtles@.len() == n,
                self.boundaries == o.boundaries,
                self.iterations == o.iterations,
                self.goal == o.goal,
                self.objective_function == o.objective_function,
                self.best_score == o.best_score,
                self.best_position@ == o.best_position@,
                self.boundaries.wf(),
                self.best_position@.len() == self.boundaries.shape,
                forall|j: int| i <= j < n ==> self.turtles@[j] == o.turtles@[j],
                forall|j: int|
                    0 <= j < i ==> {
                        let t = o.turtles@[j];
                        let u = #[trigger] self.turtles@[j];
                        &&& u.position@ == t.position@
                        &&& u.best_score == t.best_score
                        &&& u.best_position@ == t.best_position@
                        &&& u.velocity@.len() == t.velocity@.len()
                    },
                forall|j: int, d: int|
                    0 <= j < i && 0 <= d < o.boundaries.shape
                        ==> (#[trigger] self.turtles@[j].velocity@[d]) as int == vel_update(
                        o.turtles@[j].velocity@[d],
                        o.turtles@[j].position@[d],
                        o.turtles@[j].best_position@[d],
                        o.best_position@[d],
                    ),
                forall|j: int|
                    0 <= j < n ==> (#[trigger] self.turtles@[j]).wf(self.boundaries),
                forall|j: int|
                    0 <= j < n ==> score_le(
                        self.best_score,
                        (#[trigger] self.turtles@[j]).best_score,
                    ),
                match self.best_score {
                    Score::Finite(s) => s == self.objective_function.value(self.best_position@),
                    Score::Infinite => true,
                },
            decreases n - i,
        {
            let nv = step_velocity(&self.turtles[i], &self.best_position);
            let t = swarm_at(&mut self.turtles, i);
            t.velocity = nv;
            i += 1;
        }
    }

    /// Phase 3 — update positions: every turtle takes its full additive step
    /// `position + velocity`, then each dimension is clamped independently
    /// into the boundary. The velocity itself is never clamped.
    pub fn update_positions(&mut self)
        requires
            old(self).wf(),
        ensures
            final(self).wf(),
            final(self).boundaries == old(self).boundaries,
            final(self).iterations == old(self).iterations,
            final(self).goal == old(self).goal,
            final(self).objective_function == old(self).objective_function,
            final(self).best_score == old(self).best_score,
            final(self).best_position@ == old(self).best_position@,
            final(self).turtles@.len() == old(self).turtles@.len(),
            forall|i: int|
                0 <= i < old(self).turtles@.len() ==> {
                    let t = old(self).turtles@[i];
                    let u = #[trigger] final(self).turtles@[i];
                    &&& u.velocity@ == t.velocity@
                    &&& u.best_score == t.best_score
                    &&& u.best_position@ == t.best_position@
                    &&& u.position@.len() == t.position@.len()
                },
            forall|i: int, d: int|
                0 <= i < old(self).turtles@.len() && 0 <= d < old(self).boundaries.shape
                    ==> (#[trigger] final(self).turtles@[i].position@[d]) as int == clamp(
                    old(self).turtles@[i].position@[d] + old(self).turtles@[i].velocity@[d],
                    old(self).boundaries.lower as int,
                    old(self).boundaries.upper as int,
                ),
    {
        let ghost o = *old(self);
        let n = self.turtles.len();
        let mut i: usize = 0;
        while i < n
            invariant
                i <= n,
                n == o.turtles@.len(),
                self.turtles@.len() == n,
                self.boundaries == o.boundaries,
                self.iterations == o.iterations,
                self.goal == o.goal,
                self.objective_function == o.objective_function,
                self.best_score == o.best_score,
                self.best_position@ == o.best_position@,
                self.boundaries.wf(),
                self.best_position@.len() == self.boundaries.shape,
                forall|j: int| i <= j < n ==> self.turtles@[j] == o.turtles@[j],
                forall|j: int|
                    0 <= j < i ==> {
                        let t = o.turtles@[j];
                        let u = #[trigger] self.turtles@[j];
                        &&& u.velocity@ == t.velocity@
                        &&& u.best_score == t.best_score
                        &&& u.best_position@ == t.best_position@
                        &&& u.position@.len() == t.position@.len()
                    },
                forall|j: int, d: int|
                    0 <= j < i && 0 <= d < o.boundaries.shape
                        ==> (#[trigger] self.turtles@[j].position@[d]) as int == clamp(
                        o.turtles@[j].position@[d] + o.turtles@[j].velocity@[d],
                        o.boundaries.lower as int,
                        o.boundaries.upper as int,
                    ),
                forall|j: int|
                    0 <= j < n ==> (#[trigger] self.turtles@[j]).wf(self.boundaries),
                forall|j: int|
                    0 <= j < n ==> score_le(
                        self.best_score,
                        (#[trigger] self.turtles@[j]).best_score,
                    ),
                match self.best_score {
                    Score::Finite(s) => s == self.objective_function.value(self.best_position@),
                    Score::Infinite => true,
                },
            decreases n - i,
        {
            let np = step_position(&self.turtles[i], self.boundaries.lower, self.boundaries.upper);
            let t = swarm_at(&mut self.turtles, i);
            t.position = np;
            i += 1;
        }
    }

    /// Runs evaluate / update-velocities / update-positions cycles, counting
    /// iterations, until the global best score no longer exceeds the goal.
    /// The contract ties the final state to the work done: it is the result
    /// of exactly `final iterations - old iterations` full three-phase
    /// cycles (`cycles_from`), each begun while the goal was still unmet —
    /// so when the goal is already met on entry, nothing at all changes.
    /// There is no convergence detection and no practical iteration cap:
    /// when the goal score is unreachable the loop runs until the iteration
    /// counter exhausts the whole range of `usize` — an accepted liveness
    /// risk, stated in the contract. Instead of allowing early termination
    /// based on the number of iterations, we put the turtles to work until
    /// they reach our goal. No animals were harmed in the making of this.
    pub fn optimize(&mut self)
        requires
            old(self).wf(),
        ensures
            final(self).wf(),
            !exceeds_goal(final(self).best_score, old(self).goal) || final(self).iterations
                == usize::MAX,
            final(self).boundaries == old(self).boundaries,
            final(self).goal == old(self).goal,
            final(self).objective_function == old(self).objective_function,
            final(self).turtles@.len() == old(self).turtles@.len(),
            score_le(final(self).best_score, old(self).best_score),
            forall|i: int|
                0 <= i < old(self).turtles@.len() ==> score_le(
                    (#[trigger] final(self).turtles@[i]).best_score,
                    old(self).turtles@[i].best_score,
                ),
            final(self).iterations >= old(self).iterations,
            cycles_from(
                old(self).objective_function,
                old(self).boundaries,
                old(self).goal,
                old(self).state(),
                final(self).state(),
                final(self).iterations - old(self).iterations,
            ),
            (!exceeds_goal(old(self).best_score, old(self).goal) || old(self).iterations
                == usize::MAX) ==> *final(self) == *old(self),
            exceeds_goal(old(self).best_score, old(self).goal) && old(self).iterations
                < usize::MAX ==> final(self).iterations > old(self).iterations,
    {
        let ghost o = *old(self);
        while self.best_score.above(self.goal) && self.iterations < usize::MAX
            invariant
                self.wf(),
                self.boundaries == o.boundaries,
                self.goal == o.goal,
                self.objective_function == o.objective_function,
                self.turtles@.len() == o.turtles@.len(),
                score_le(self.best_score, o.best_score),
                forall|i: int|
                    0 <= i < o.turtles@.len() ==> score_le(
                        (#[trigger] self.turtles@[i]).best_score,
                        o.turtles@[i].best_score,
                    ),
                self.iterations >= o.iterations,
                cycles_from(
                    o.objective_function,
                    o.boundaries,
                    o.goal,
                    o.state(),
                    self.state(),
                    self.iterations - o.iterations,
                ),
                (!exceeds_goal(o.best_score, o.goal) || o.iterations == usize::MAX) ==> *self == o,
                *self == o || self.iterations > o.iterations,
            decreases usize::MAX - self.iterations,
        {
            let ghost prev = *self;
            self.evaluate();
            self.update_velocities();
            self.update_positions();
            let ghost next = *self;
            self.iterations = self.iterations + 1;
            proof {
                let k0: int = prev.iterations - o.iterations;
                assert(cycle_step(o.objective_function, o.boundaries, prev.state(), next.state()));
                assert(exceeds_goal(prev.best_score, o.goal));
                lemma_cycles_snoc(
                    o.objective_function,
                    o.boundaries,
                    o.goal,
                    o.state(),
                    prev.state(),
                    next.state(),
                    k0 + 1,
                );
                assert(self.state() == next.state());
            }
        }
    }

    /// Builds the swarm: `turtles` randomly placed agents, no iteration run
    /// yet, nothing observed yet (both the global and every personal best
    /// score are positive infinity, their positions zero vectors).
    pub fn new(turtles: usize, boundaries: CubicBoundary, objective_function: F, goal: i64) -> (r:
        Self)
        requires
            turtles >= 1,
            boundaries.wf(),
        ensures
            r.wf(),
            r.turtles@.len() == turtles,
            forall|i: int|
                0 <= i < turtles ==> (#[trigger] r.turtles@[i]).fresh(boundaries),
            r.boundaries == boundaries,
            r.iterations == 0,
            r.best_score == Score::Infinite,
            forall|d: int| 0 <= d < boundaries.shape ==> r.best_position@[d] == 0,
            r.objective_function == objective_function,
            r.goal == goal,
    {
        let mut swarm: Vec<Turtle> = Vec::new();
        let mut i: usize = 0;
        while i < turtles
            invariant
                i <= turtles,
                boundaries.wf(),
                swarm@.len() == i,
                forall|j: int| 0 <= j < i ==> (#[trigger] swarm@[j]).wf(boundaries),
                forall|j: int| 0 <= j < i ==> (#[trigger] swarm@[j]).fresh(boundaries),
            decreases turtles - i,
        {
            swarm.push(Turtle::new(&boundaries));
            i += 1;
        }
        Optimizer {
            turtles: swarm,
            boundaries,
            iterations: 0,
            best_score: Score::Infinite,
            best_position: filled(boundaries.shape, 0),
            objective_function,
            goal,
        }
    }
}

} // verus!
