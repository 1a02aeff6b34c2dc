use vstd::arithmetic::div_mod::lemma_fundamental_div_mod;
use vstd::prelude::*;

verus! {

/// Fixed-point denominator: a stored value `v` stands for the real number
/// `v / SCALE`.
pub const SCALE: i64 = 1000;

// Turtles move slowly and methodically, whatever you do don't change this
// parameter. It is the smallest positive fixed-point value — the
// machine-epsilon scale of this representation — and it serves both as every
// turtle's initial per-dimension velocity and as the acceleration coefficient
// of the velocity update. Raising it would lose all of the advantages of the
// turtle swarm optimizer.
pub const TURTLE_VELOCITY: i64 = 1;

/// A bound comfortably above any difference of two `i64` values; every pull
/// computation stays within it.
pub const DIFF_BOUND: i128 = 0x4_0000_0000_0000_0000;

/// `x` clamped into `[lower, upper]`, exactly as the position update applies
/// it: a component above `upper` becomes `upper`, then one below `lower`
/// becomes `lower`.
pub open spec fn clamp(x: int, lower: int, upper: int) -> int {
    if x > upper {
        upper
    } else if x < lower {
        lower
    } else {
        x
    }
}

/// `x` saturated into the range of `i64`.
pub open spec fn sat64(x: int) -> int {
    if x > i64::MAX {
        i64::MAX as int
    } else if x < i64::MIN {
        i64::MIN as int
    } else {
        x
    }
}

/// The attraction a difference `diff` of two fixed-point values exerts:
/// the fixed-point product `TURTLE_VELOCITY * diff`, truncated toward zero.
pub open spec fn pull(diff: int) -> int {
    if diff >= 0 {
        (TURTLE_VELOCITY * diff) / (SCALE as int)
    } else {
        -((TURTLE_VELOCITY * -diff) / (SCALE as int))
    }
}

/// One dimension of the velocity update: the old velocity plus the pulls
/// toward the personal best and the global best, saturated at the range of
/// `i64`. The velocity is never clamped to the boundary — only saturated at
/// the machine limit.
pub open spec fn vel_update(v: i64, p: i64, pb: i64, gb: i64) -> int {
    sat64(v + pull(pb - p) + pull(gb - p))
}

/// Law: the pull of a zero difference vanishes, so a turtle that sits
/// exactly on its own best position and on the global best position keeps
/// its velocity unchanged. In particular, right after a first evaluate
/// phase the turtle holding the global best keeps its nonzero initial
/// velocity: the swarm is in motion.
pub proof fn lemma_vel_update_at_best(v: i64, p: i64)
    ensures
        vel_update(v, p, p, p) == v,
{
    lemma_fundamental_div_mod(0, SCALE as int);
}

/// The truncated quotient `TURTLE_VELOCITY * d / SCALE` of a nonnegative
/// difference, computed without overflow.
fn pull_nonneg(d: u128) -> (r: u128)
    requires
        d <= DIFF_BOUND,
    ensures
        r as int == (TURTLE_VELOCITY * (d as int)) / (SCALE as int),
        r <= d,
{
    let n: u128 = (TURTLE_VELOCITY as u128) * d;
    let q: u128 = n / (SCALE as u128);
    proof {
        lemma_fundamental_div_mod(n as int, SCALE as int);
    }
    q
}

/// The pull of a signed difference, computed in `i128`.
pub fn pull_diff(d: i128) -> (r: i128)
    requires
        -DIFF_BOUND <= d <= DIFF_BOUND,
    ensures
        r as int == pull(d as int),
        -DIFF_BOUND <= r <= DIFF_BOUND,
{
    if d >= 0 {
        let q = pull_nonneg(d as u128);
        q as i128
    } else {
        let q = pull_nonneg((-d) as u128);
        -(q as i128)
    }
}

/// Saturate an `i128` into an `i64`.
pub fn sat_to_i64(x: i128) -> (r: i64)
    ensures
        r as int == sat64(x as int),
{
    if x > i64::MAX as i128 {
        i64::MAX
    } else if x < i64::MIN as i128 {
        i64::MIN
    } else {
        x as i64
    }
}

/// One dimension of the velocity update, executable form.
pub fn vel_update_exec(v: i64, p: i64, pb: i64, gb: i64) -> (r: i64)
    ensures
        r as int == vel_update(v, p, pb, gb),
{
    let d1: i128 = pb as i128 - p as i128;
    let d2: i128 = gb as i128 - p as i128;
    let t1 = pull_diff(d1);
    let t2 = pull_diff(d2);
    sat_to_i64(v as i128 + t1 + t2)
}

/// One dimension of the position update: the additive step, clamped into the
/// boundary interval.
pub fn pos_update_exec(p: i64, v: i64, lower: i64, upper: i64) -> (r: i64)
    requires
        lower <= upper,
    ensures
        r as int == clamp(p as int + v as int, lower as int, upper as int),
        lower <= r <= upper,
{
    let x: i128 = p as i128 + v as i128;
    if x > upper as i128 {
        upper
    } else if x < lower as i128 {
        lower
    } else {
        x as i64
    }
}

} // verus!
