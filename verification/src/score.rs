use vstd::prelude::*;

verus! {

/// A score as the optimizer records it: either nothing has been observed yet
/// (`Infinite`, standing for positive infinity) or a finite fixed-point value.
#[derive(Clone, Copy, Debug, PartialEq, Eq, Structural)]
pub enum Score {
    Infinite,
    Finite(i64),
}

/// A freshly computed finite score `s` is strictly better (lower) than `b`.
pub open spec fn improves(s: i64, b: Score) -> bool {
    match b {
        Score::Infinite => true,
        Score::Finite(v) => s < v,
    }
}

/// `a` is at least as good (as low) as `b`.
pub open spec fn score_le(a: Score, b: Score) -> bool {
    match b {
        Score::Infinite => true,
        Score::Finite(y) => match a {
            Score::Infinite => false,
            Score::Finite(x) => x <= y,
        },
    }
}

/// `b` is still strictly worse (higher) than the goal `g`.
pub open spec fn exceeds_goal(b: Score, g: i64) -> bool {
    match b {
        Score::Infinite => true,
        Score::Finite(v) => v > g,
    }
}

impl Score {
    /// Whether the freshly computed score `s` beats this score.
    pub fn beaten_by(&self, s: i64) -> (r: bool)
        ensures
            r == improves(s, *self),
    {
        match *self {
            Score::Infinite => true,
            Score::Finite(v) => s < v,
        }
    }

    /// Whether this score is still strictly above the goal `g`.
    pub fn above(&self, g: i64) -> (r: bool)
        ensures
            r == exceeds_goal(*self, g),
    {
        match *self {
            Score::Infinite => true,
            Score::Finite(v) => v > g,
        }
    }
}

} // verus!
