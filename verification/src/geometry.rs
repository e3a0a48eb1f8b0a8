//! The play-field extent and the grid cell: positions, one-step moves, and
//! exact squared-distance proximity tests.

use vstd::prelude::*;

use crate::direction::Direction;
use crate::COORD_LIMIT;

verus! {

/// One grid-aligned position occupied by part of the snake or by the food.
#[derive(Copy, Clone, Debug, PartialEq, Eq, Structural)]
pub struct Cell {
    pub x: i64,
    pub y: i64,
}

/// A coordinate sits on the lattice: at least one radius from the origin and
/// a whole number of diameters beyond it.
pub open spec fn lattice_aligned(coord: int, radius: int, diameter: int) -> bool {
    &&& coord >= radius
    &&& (coord - radius) % diameter == 0
}

impl Cell {
    /// Both coordinates are small enough that one step and one squared
    /// distance stay inside `i64`.
    pub open spec fn in_limit(self) -> bool {
        &&& -2 * COORD_LIMIT <= self.x <= 2 * COORD_LIMIT
        &&& -2 * COORD_LIMIT <= self.y <= 2 * COORD_LIMIT
    }

    pub fn new(x: i64, y: i64) -> (c: Cell)
        ensures
            c == (Cell { x, y }),
    {
        Cell { x, y }
    }

    /// The cell one grid step away in the given heading. The vertical axis
    /// grows downward, so `Up` decreases `y`.
    pub open spec fn step_spec(self, dir: Direction, diameter: int) -> Cell {
        match dir {
            Direction::Up => Cell { x: self.x, y: (self.y - diameter) as i64 },
            Direction::Down => Cell { x: self.x, y: (self.y + diameter) as i64 },
            Direction::Left => Cell { x: (self.x - diameter) as i64, y: self.y },
            Direction::Right => Cell { x: (self.x + diameter) as i64, y: self.y },
        }
    }

    /// Moves one grid step in the given heading.
    pub fn step(self, dir: Direction, diameter: i64) -> (c: Cell)
        requires
            self.in_limit(),
            0 < diameter <= COORD_LIMIT,
        ensures
            c == self.step_spec(dir, diameter as int),
    {
        match dir {
            Direction::Up => Cell { x: self.x, y: self.y - diameter },
            Direction::Down => Cell { x: self.x, y: self.y + diameter },
            Direction::Left => Cell { x: self.x - diameter, y: self.y },
            Direction::Right => Cell { x: self.x + diameter, y: self.y },
        }
    }

    /// The square of the Euclidean distance between two cells. Comparing it
    /// against a squared threshold is exact where a floating-point distance
    /// would not be.
    pub open spec fn dist_sq_spec(self, other: Cell) -> int {
        (self.x - other.x) * (self.x - other.x) + (self.y - other.y) * (self.y - other.y)
    }

    /// Computes the squared Euclidean distance to `other`.
    pub fn dist_sq(self, other: Cell) -> (r: i64)
        requires
            self.in_limit(),
            other.in_limit(),
        ensures
            r == self.dist_sq_spec(other),
    {
        let dx = self.x - other.x;
        let dy = self.y - other.y;
        proof {
            assert(dx * dx + dy * dy <= 32 * COORD_LIMIT * COORD_LIMIT) by (nonlinear_arith)
                requires
                    -4 * COORD_LIMIT <= dx <= 4 * COORD_LIMIT,
                    -4 * COORD_LIMIT <= dy <= 4 * COORD_LIMIT,
            ;
            assert(dx * dx >= 0 && dy * dy >= 0) by (nonlinear_arith);
        }
        dx * dx + dy * dy
    }
}

/// One grid step lands exactly one displacement away: `step_spec` adds the
/// heading's signed offset to the coordinates.
pub proof fn lemma_step_is_displacement(c: Cell, dir: Direction, diameter: int)
    requires
        c.in_limit(),
        0 < diameter <= COORD_LIMIT,
    ensures
        c.step_spec(dir, diameter).x == c.x + dir.displacement_spec(diameter).0,
        c.step_spec(dir, diameter).y == c.y + dir.displacement_spec(diameter).1,
{
}

/// Two cells lie within one `radius` of each other; on the lattice this means
/// they coincide.
pub open spec fn near(a: Cell, b: Cell, radius: int) -> bool {
    a.dist_sq_spec(b) < radius * radius
}

/// The fixed width and height of the play field.
#[derive(Copy, Clone, Debug, PartialEq, Eq, Structural)]
pub struct Bounds {
    pub width: i64,
    pub height: i64,
}

impl Bounds {
    /// The extent is positive and small enough for all coordinate arithmetic.
    pub open spec fn wf(self) -> bool {
        &&& 0 < self.width <= COORD_LIMIT
        &&& 0 < self.height <= COORD_LIMIT
    }

    pub fn new(width: i64, height: i64) -> (b: Bounds)
        requires
            0 < width <= COORD_LIMIT,
            0 < height <= COORD_LIMIT,
        ensures
            b == (Bounds { width, height }),
            b.wf(),
    {
        Bounds { width, height }
    }

    /// The cell lies strictly inside the field: touching an edge is out.
    pub open spec fn contains_spec(self, c: Cell) -> bool {
        &&& 0 < c.x < self.width
        &&& 0 < c.y < self.height
    }

    /// Tests whether a cell lies strictly inside the field.
    pub fn contains(&self, c: Cell) -> (r: bool)
        ensures
            r == self.contains_spec(c),
    {
        c.x > 0 && c.x < self.width && c.y > 0 && c.y < self.height
    }
}

} // verus!
