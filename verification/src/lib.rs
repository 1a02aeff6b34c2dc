//! Turtle swarm optimization: a slow-and-steady particle-swarm variant that
//! minimizes a caller-supplied black-box objective over a clamped
//! hyper-rectangular region, iterating until a goal score is reached.
//!
//! Every quantity is a fixed-point number: a stored value `v` stands for the
//! real number `v / SCALE` (see the `fixed` module).

pub mod boundary;
pub mod fixed;
pub mod objective;
pub mod optimizer;
mod sampling;
pub mod score;
pub mod turtle;

pub use boundary::CubicBoundary;
pub use objective::Objective;
pub use objective::Paraboloid;
pub use optimizer::Optimizer;
pub use score::Score;
pub use turtle::Turtle;
