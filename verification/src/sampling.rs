use ndarray_rand::rand_distr::Uniform;
use ndarray_rand::RandomExt;
use vstd::prelude::*;

verus! {

/// Relies on ndarray_rand's `RandomExt::random` with rand's inclusive
/// `Uniform` distribution over `i64`: the produced array holds one
/// independent draw per index, each within the closed range, and `to_vec`
/// lists them in order. Nothing more can be promised of a random draw than
/// its range.
#[verifier::external_body]
pub(crate) fn random_positions(shape: usize, lower: i64, upper: i64) -> (r: Vec<i64>)
    requires
        lower <= upper,
    ensures
        r@.len() == shape,
        forall|d: int| 0 <= d < shape ==> lower <= #[trigger] r@[d] <= upper,
{
    ndarray::Array1::random(shape, Uniform::new_inclusive(lower, upper)).to_vec()
}

} // verus!
