use crate::fixed::SCALE;
use vstd::arithmetic::div_mod::lemma_fundamental_div_mod;
use vstd::prelude::*;

verus! {

/// A caller-supplied black-box objective: a pure function from a position
/// vector to the fixed-point score the optimizer is to minimize. `value`
/// states the function mathematically; `evaluate` computes exactly it.
pub trait Objective {
    spec fn value(&self, p: Seq<i64>) -> i64;

    fn evaluate(&self, p: &Vec<i64>) -> (r: i64)
        ensures
            r == self.value(p@),
    ;
}

/// One squared term of the paraboloid: the truncated fixed-point product
/// `x * x / SCALE`, never negative.
pub open spec fn square_term(x: i64) -> int {
    (x * x) / (SCALE as int)
}

pub proof fn lemma_square_term_nonneg(x: i64)
    ensures
        0 <= square_term(x),
{
    assert((x as int) * (x as int) >= 0) by (nonlinear_arith);
    lemma_fundamental_div_mod((x as int) * (x as int), SCALE as int);
}

/// The paraboloid's value over the first `n` coordinates: the running sum of
/// the squared terms, saturated at `i64::MAX` at every step so that the value
/// is defined for every vector.
pub open spec fn paraboloid_value(p: Seq<i64>, n: int) -> int
    decreases n,
{
    if n <= 0 {
        0
    } else {
        let rest = paraboloid_value(p, n - 1);
        let t = square_term(p[n - 1]);
        if rest + t > i64::MAX {
            i64::MAX as int
        } else {
            rest + t
        }
    }
}

pub proof fn lemma_paraboloid_value_bounds(p: Seq<i64>, n: int)
    ensures
        0 <= paraboloid_value(p, n) <= i64::MAX,
    decreases n,
{
    if n > 0 {
        lemma_paraboloid_value_bounds(p, n - 1);
        lemma_square_term_nonneg(p[n - 1]);
    }
}

/// The convex benchmark objective `f(x) = sum of x_i^2`, in fixed point.
pub struct Paraboloid;

impl Objective for Paraboloid {
    open spec fn value(&self, p: Seq<i64>) -> i64 {
        paraboloid_value(p, p.len() as int) as i64
    }

    fn evaluate(&self, p: &Vec<i64>) -> (r: i64) {
        let mut acc: i64 = 0;
        let mut i: usize = 0;
        while i < p.len()
            invariant
                i <= p@.len(),
                0 <= acc,
                acc as int == paraboloid_value(p@, i as int),
            decreases p@.len() - i,
        {
            let x = p[i];
            let xi: i128 = x as i128;
            let ax: u128 = if xi >= 0 {
                xi as u128
            } else {
                (-xi) as u128
            };
            proof {
                assert((ax as int) * (ax as int) <= 0x8000_0000_0000_0000 * 0x8000_0000_0000_0000)
                    by (nonlinear_arith)
                    requires
                        0 <= ax as int <= 0x8000_0000_0000_0000,
                ;
                assert((ax as int) * (ax as int) == (x as int) * (x as int)) by (nonlinear_arith)
                    requires
                        ax as int == x as int || ax as int == -(x as int),
                ;
            }
            let sq: u128 = ax * ax;
            let t: u128 = sq / (SCALE as u128);
            proof {
                lemma_square_term_nonneg(x);
            }
            if t > (i64::MAX - acc) as u128 {
                acc = i64::MAX;
            } else {
                acc = acc + (t as i64);
            }
            i += 1;
        }
        proof {
            lemma_paraboloid_value_bounds(p@, p@.len() as int);
        }
        acc
    }
}

} // verus!
