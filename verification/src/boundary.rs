use vstd::prelude::*;

verus! {

/// The hyper-rectangular feasible region: the same scalar bounds apply to
/// every one of the `shape` dimensions.
#[derive(Clone, Copy)]
pub struct CubicBoundary {
    pub lower: i64,
    pub upper: i64,
    pub shape: usize,
}

impl CubicBoundary {
    /// A boundary is sane when its bounds are ordered and it spans at least
    /// one dimension.
    pub open spec fn wf(self) -> bool {
        self.lower <= self.upper && self.shape >= 1
    }

    /// Builds a boundary with ordered bounds: reversed bounds are swapped,
    /// never rejected.
    pub fn new(shape: usize, lower: i64, upper: i64) -> (r: Self)
        requires
            shape >= 1,
        ensures
            r.shape == shape,
            lower <= upper ==> r.lower == lower && r.upper == upper,
            lower > upper ==> r.lower == upper && r.upper == lower,
            r.wf(),
    {
        // Just in case someone makes a mistake here.
        if lower > upper {
            Self { lower: upper, upper: lower, shape }
        } else {
            Self { lower, upper, shape }
        }
    }
}

} // verus!
