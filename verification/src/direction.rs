//! The four-way movement heading and its "opposite" relation, used to reject
//! reversal requests.

use vstd::prelude::*;

verus! {

/// One of the four grid headings.
#[derive(Copy, Clone, Debug, PartialEq, Eq, Structural)]
pub enum Direction {
    Up,
    Down,
    Left,
    Right,
}

impl Direction {
    /// The heading pointing the other way.
    pub open spec fn opposite_spec(self) -> Direction {
        match self {
            Direction::Up => Direction::Down,
            Direction::Down => Direction::Up,
            Direction::Left => Direction::Right,
            Direction::Right => Direction::Left,
        }
    }

    /// Returns the opposite heading.
    pub fn opposite(self) -> (r: Direction)
        ensures
            r == self.opposite_spec(),
    {
        match self {
            Direction::Up => Direction::Down,
            Direction::Down => Direction::Up,
            Direction::Left => Direction::Right,
            Direction::Right => Direction::Left,
        }
    }

    /// The signed offset of one grid step in this heading. The vertical axis
    /// grows downward, so `Up` is a negative `y` offset.
    pub open spec fn displacement_spec(self, diameter: int) -> (int, int) {
        match self {
            Direction::Up => (0, -diameter),
            Direction::Down => (0, diameter),
            Direction::Left => (-diameter, 0),
            Direction::Right => (diameter, 0),
        }
    }

    /// Returns the signed `(x, y)` offset of one grid step of the given
    /// diameter in this heading.
    pub fn displacement(self, diameter: i64) -> (r: (i64, i64))
        requires
            0 <= diameter,
        ensures
            (r.0 as int, r.1 as int) == self.displacement_spec(diameter as int),
    {
        match self {
            Direction::Up => (0, -diameter),
            Direction::Down => (0, diameter),
            Direction::Left => (-diameter, 0),
            Direction::Right => (diameter, 0),
        }
    }
}

/// The opposite mapping is an involution: applying it twice gives the
/// starting heading back.
pub proof fn lemma_opposite_involutive(d: Direction)
    ensures
        d.opposite_spec().opposite_spec() == d,
{
}

} // verus!
