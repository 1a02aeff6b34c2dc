use crate::boundary::CubicBoundary;
use crate::fixed::TURTLE_VELOCITY;
use crate::sampling::random_positions;
use crate::score::Score;
use vstd::prelude::*;

verus! {

/// A vector of `n` copies of `x`.
pub fn filled(n: usize, x: i64) -> (r: Vec<i64>)
    ensures
        r@.len() == n,
        forall|d: int| 0 <= d < n ==> r@[d] == x,
{
    let mut r: Vec<i64> = Vec::new();
    let mut i: usize = 0;
    while i < n
        invariant
            i <= n,
            r@.len() == i,
            forall|d: int| 0 <= d < i ==> r@[d] == x,
        decreases n - i,
    {
        r.push(x);
        i += 1;
    }
    r
}

/// An exact copy of a coordinate vector.
pub fn clone_vec(v: &Vec<i64>) -> (r: Vec<i64>)
    ensures
        r@ == v@,
{
    let mut r: Vec<i64> = Vec::new();
    let mut i: usize = 0;
    while i < v.len()
        invariant
            i <= v@.len(),
            r@ == v@.take(i as int),
        decreases v@.len() - i,
    {
        r.push(v[i]);
        i += 1;
        proof {
            assert(v@.take(i - 1).push(v@[i - 1]) =~= v@.take(i as int));
        }
    }
    proof {
        assert(v@.take(v@.len() as int) =~= v@);
    }
    r
}

// Turtles are similar to particles in particle swarm optimization
// strategies. They store a location, velocity, and local best scoring
// information.
#[derive(Debug)]
pub struct Turtle {
    pub position: Vec<i64>,
    pub velocity: Vec<i64>,
    pub best_score: Score,
    pub best_position: Vec<i64>,
}

impl Turtle {
    /// Every vector has the boundary's dimensionality and the position lies
    /// inside the boundary.
    pub open spec fn wf(self, b: CubicBoundary) -> bool {
        &&& self.position@.len() == b.shape
        &&& self.velocity@.len() == b.shape
        &&& self.best_position@.len() == b.shape
        &&& forall|d: int| 0 <= d < b.shape ==> b.lower <= #[trigger] self.position@[d] <= b.upper
    }

    /// A turtle as construction leaves it: nothing observed yet, the tiny
    /// initial velocity in every dimension, a zero best position.
    pub open spec fn fresh(self, b: CubicBoundary) -> bool {
        &&& self.best_score == Score::Infinite
        &&& forall|d: int| 0 <= d < b.shape ==> #[trigger] self.velocity@[d] == TURTLE_VELOCITY
        &&& forall|d: int| 0 <= d < b.shape ==> #[trigger] self.best_position@[d] == 0
    }

    /// A new turtle: its position drawn from the boundary interval in every
    /// dimension, its velocity the fixed tiny constant everywhere, its
    /// personal best not yet observed.
    pub fn new(boundaries: &CubicBoundary) -> (r: Self)
        requires
            boundaries.wf(),
        ensures
            r.wf(*boundaries),
            r.fresh(*boundaries),
    {
        Turtle {
            position: random_positions(boundaries.shape, boundaries.lower, boundaries.upper),
            velocity: filled(boundaries.shape, TURTLE_VELOCITY),
            best_score: Score::Infinite,
            best_position: filled(boundaries.shape, 0),
        }
    }
}

} // verus!
