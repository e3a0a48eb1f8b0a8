//! The single collectible: it occupies one lattice cell inside the play field
//! and is repositioned — at a random slot — whenever the snake reaches it.

use vstd::prelude::*;

use vstd::arithmetic::div_mod::{
    lemma_div_is_ordered,
    lemma_div_multiples_vanish,
    lemma_fundamental_div_mod,
    lemma_mod_bound,
    lemma_mod_multiples_basic,
};
use vstd::arithmetic::mul::{lemma_mul_inequality, lemma_mul_is_distributive_sub_other_way};

use crate::geometry::{lattice_aligned, Bounds, Cell};
use crate::COORD_LIMIT;

verus! {

/// Relies on `rand::random_range` over `0..n`: the result lies in that
/// half-open range. The range is non-empty, so the call does not panic.
#[verifier::external_body]
fn random_below(n: u64) -> (r: u64)
    requires
        0 < n,
    ensures
        r < n,
{
    rand::random_range(0..n)
}

/// The coordinate of lattice slot `k` along one axis: one radius in from the
/// origin plus `k` whole diameters.
pub open spec fn slot_coord_spec(radius: int, k: int) -> int {
    radius + k * (2 * radius)
}

/// The slot index of the middle of an axis of the given extent.
pub open spec fn middle_slot(extent: int, radius: int) -> int {
    (extent / (2 * radius)) / 2
}

/// Every slot strictly below `extent / diameter` yields a lattice-aligned
/// coordinate strictly inside the axis, with at least one radius to spare on
/// either side.
pub proof fn lemma_slot_coord_in_extent(extent: int, radius: int, k: int)
    requires
        0 < radius,
        4 * radius <= extent,
        0 <= k < extent / (2 * radius),
    ensures
        radius <= slot_coord_spec(radius, k) <= extent - 2 * radius + radius,
        0 < slot_coord_spec(radius, k) < extent,
        lattice_aligned(slot_coord_spec(radius, k), radius, 2 * radius),
{
    let d = 2 * radius;
    let q = extent / d;
    lemma_fundamental_div_mod(extent, d);
    lemma_mod_bound(extent, d);
    lemma_mul_inequality(k, q - 1, d);
    lemma_mul_is_distributive_sub_other_way(d, q, 1);
    lemma_mod_multiples_basic(k, d);
    assert(k * d >= 0) by (nonlinear_arith)
        requires
            k >= 0,
            d > 0,
    ;
}

/// An axis of at least twice the cell diameter holds at least two slots.
pub proof fn lemma_extent_has_two_slots(extent: int, radius: int)
    requires
        0 < radius,
        4 * radius <= extent,
    ensures
        extent / (2 * radius) >= 2,
{
    let d = 2 * radius;
    lemma_div_is_ordered(2 * d, extent, d);
    lemma_div_multiples_vanish(2, d);
}

/// Picks the coordinate of slot `k` along an axis of the given extent.
fn slot_coord(extent: i64, radius: i64, k: i64) -> (r: i64)
    requires
        0 < radius,
        4 * radius <= extent <= COORD_LIMIT,
        0 <= k < extent as int / (2 * radius as int),
    ensures
        r == slot_coord_spec(radius as int, k as int),
        0 < r < extent,
        lattice_aligned(r as int, radius as int, 2 * radius as int),
{
    proof {
        lemma_slot_coord_in_extent(extent as int, radius as int, k as int);
    }
    radius + k * (2 * radius)
}

/// Picks a uniformly random slot coordinate along an axis of the given
/// extent.
pub fn random_coord(extent: i64, radius: i64) -> (r: i64)
    requires
        0 < radius,
        4 * radius <= extent <= COORD_LIMIT,
    ensures
        0 < r < extent,
        lattice_aligned(r as int, radius as int, 2 * radius as int),
{
    proof {
        lemma_extent_has_two_slots(extent as int, radius as int);
    }
    let slots = extent / (2 * radius);
    let k = random_below(slots as u64) as i64;
    slot_coord(extent, radius, k)
}

/// Picks the slot coordinate at the middle of an axis of the given extent.
pub fn middle_coord(extent: i64, radius: i64) -> (r: i64)
    requires
        0 < radius,
        4 * radius <= extent <= COORD_LIMIT,
    ensures
        r == slot_coord_spec(radius as int, middle_slot(extent as int, radius as int)),
        0 < r < extent,
        lattice_aligned(r as int, radius as int, 2 * radius as int),
{
    proof {
        lemma_extent_has_two_slots(extent as int, radius as int);
    }
    let slots = extent / (2 * radius);
    slot_coord(extent, radius, slots / 2)
}

/// The collectible item, occupying one lattice cell.
#[derive(Copy, Clone, Debug, PartialEq, Eq, Structural)]
pub struct Food {
    pub pos: Cell,
}

impl Food {
    /// The food sits on the coordinate lattice, strictly inside the field.
    pub open spec fn placed_on_grid(self, bounds: Bounds, radius: int) -> bool {
        &&& lattice_aligned(self.pos.x as int, radius, 2 * radius)
        &&& lattice_aligned(self.pos.y as int, radius, 2 * radius)
        &&& bounds.contains_spec(self.pos)
    }

    /// Places the food at a random lattice slot strictly inside the field.
    pub fn spawn(bounds: &Bounds, radius: i64) -> (f: Food)
        requires
            0 < radius,
            bounds.wf(),
            4 * radius <= bounds.width,
            4 * radius <= bounds.height,
        ensures
            f.placed_on_grid(*bounds, radius as int),
    {
        Food {
            pos: Cell { x: random_coord(bounds.width, radius), y: random_coord(bounds.height, radius) },
        }
    }

    /// Moves the food to a freshly chosen random lattice slot. Nothing keeps
    /// the new slot from coinciding with the old one.
    pub fn relocate(&mut self, bounds: &Bounds, radius: i64)
        requires
            0 < radius,
            bounds.wf(),
            4 * radius <= bounds.width,
            4 * radius <= bounds.height,
        ensures
            final(self).placed_on_grid(*bounds, radius as int),
    {
        self.pos = Cell { x: random_coord(bounds.width, radius), y: random_coord(bounds.height, radius) };
    }

    /// The squared Euclidean distance from the food to a cell.
    pub fn dist_sq_to(&self, c: Cell) -> (r: i64)
        requires
            self.pos.in_limit(),
            c.in_limit(),
        ensures
            r == self.pos.dist_sq_spec(c),
    {
        self.pos.dist_sq(c)
    }
}

} // verus!
