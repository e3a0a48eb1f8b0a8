//! A grid snake simulation: a body of fixed-size cells advances on a timed
//! tick, grows when it reaches the food, and ends the session when it leaves
//! the play field or runs into itself.
//!
//! All coordinates live on a lattice: multiples of the cell diameter, offset
//! by one cell radius, so every position is an exact integer and proximity
//! tests are exact comparisons of squared distances.

pub mod direction;
pub mod food;
pub mod geometry;
pub mod session;
pub mod snake;

use vstd::prelude::*;

verus! {

/// Upper bound on the play-field extent (and so on every coordinate a session
/// can produce), far above any real board; it keeps all the integer
/// arithmetic on coordinates comfortably inside `i64`.
pub const COORD_LIMIT: i64 = 1_000_000;

} // verus!
