//! The snake: an ordered double-ended body of cells (head at the front) and
//! the current heading, with advance/shrink operations, reversal-rejecting
//! direction changes, and the two collision checks.

use vstd::prelude::*;

use std::collections::VecDeque;

use crate::direction::Direction;
use crate::geometry::{near, Bounds, Cell};
use crate::COORD_LIMIT;

verus! {

/// The heading a request leaves the snake with: a reversal is ignored, any
/// other request is adopted.
pub open spec fn new_direction(current: Direction, requested: Direction) -> Direction {
    if requested == current.opposite_spec() {
        current
    } else {
        requested
    }
}

/// A requested reversal never changes the heading.
pub proof fn lemma_reversal_rejected(d: Direction)
    ensures
        new_direction(d, d.opposite_spec()) == d,
{
}

/// Every body cell lies strictly inside the field.
pub open spec fn all_in_bounds(body: Seq<Cell>, bounds: Bounds) -> bool {
    forall|i: int| 0 <= i < body.len() ==> bounds.contains_spec(#[trigger] body[i])
}

/// No body cell other than the head itself lies within one `radius` of the
/// head.
pub open spec fn no_self_overlap(body: Seq<Cell>, radius: int) -> bool {
    forall|i: int| 1 <= i < body.len() ==> !near(#[trigger] body[i], body[0], radius)
}

/// A body fails the bounds test exactly when at least one of its cells has a
/// coordinate at or below zero, or at or beyond the respective field extent.
pub proof fn lemma_bounds_violation(body: Seq<Cell>, bounds: Bounds)
    ensures
        !all_in_bounds(body, bounds) <==> exists|i: int|
            0 <= i < body.len() && ((#[trigger] body[i]).x <= 0 || body[i].x >= bounds.width
                || body[i].y <= 0 || body[i].y >= bounds.height),
{
}

/// The moving body: cells ordered head first, plus the current heading.
#[derive(Debug)]
pub struct Snake {
    pub body: VecDeque<Cell>,
    pub dir: Direction,
}

impl Snake {
    /// The body never becomes empty after construction.
    pub open spec fn wf(self) -> bool {
        self.body@.len() >= 1
    }

    /// Seeds the body with exactly two cells: the start cell, and one cell
    /// behind it along the opposite of the initial heading.
    pub fn new(start: Cell, dir: Direction, diameter: i64) -> (s: Snake)
        requires
            start.in_limit(),
            0 < diameter <= COORD_LIMIT,
        ensures
            s.wf(),
            s.dir == dir,
            s.body@.len() == 2,
            s.body@[0] == start,
            s.body@[1] == start.step_spec(dir.opposite_spec(), diameter as int),
    {
        let mut body = VecDeque::new();
        body.push_back(start);
        body.push_back(start.step(dir.opposite(), diameter));
        Snake { body, dir }
    }

    /// Returns the front cell.
    pub fn head(&self) -> (c: Cell)
        requires
            self.wf(),
        ensures
            c == self.body@[0],
    {
        self.body[0]
    }

    /// Adopts the requested heading unless it is the exact reversal of the
    /// current one; a reversal request is silently ignored. Returns whether
    /// the request was accepted. The change takes effect on the next advance.
    pub fn set_direction(&mut self, requested: Direction) -> (accepted: bool)
        ensures
            final(self).body == old(self).body,
            final(self).dir == new_direction(old(self).dir, requested),
            accepted == (requested != old(self).dir.opposite_spec()),
    {
        let accepted = requested != self.dir.opposite();
        if accepted {
            self.dir = requested;
        }
        accepted
    }

    /// Pushes a new head one grid step along the current heading. The caller
    /// decides afterwards whether to keep the tail (growing) or to shorten it
    /// (steady).
    pub fn advance(&mut self, diameter: i64)
        requires
            old(self).wf(),
            old(self).body@[0].in_limit(),
            0 < diameter <= COORD_LIMIT,
        ensures
            final(self).wf(),
            final(self).dir == old(self).dir,
            final(self).body@ == seq![
                old(self).body@[0].step_spec(old(self).dir, diameter as int),
            ] + old(self).body@,
    {
        let new_head = self.head().step(self.dir, diameter);
        self.body.push_front(new_head);
    }

    /// Pops the oldest cell; a no-op if at most one cell remains, so the body
    /// never empties.
    pub fn shorten_tail(&mut self)
        ensures
            final(self).dir == old(self).dir,
            old(self).body@.len() > 1 ==> final(self).body@ == old(self).body@.take(
                old(self).body@.len() - 1,
            ),
            old(self).body@.len() <= 1 ==> final(self).body == old(self).body,
    {
        if self.body.len() > 1 {
            self.body.pop_back();
        }
    }

    /// Tests whether every body cell lies strictly inside the field.
    pub fn check_bounds(&self, bounds: &Bounds) -> (r: bool)
        ensures
            r == all_in_bounds(self.body@, *bounds),
    {
        let mut i: usize = 0;
        while i < self.body.len()
            invariant
                0 <= i <= self.body@.len(),
                forall|j: int| 0 <= j < i ==> bounds.contains_spec(#[trigger] self.body@[j]),
            decreases self.body@.len() - i,
        {
            if !bounds.contains(self.body[i]) {
                return false;
            }
            i = i + 1;
        }
        true
    }

    /// Tests that the head does not overlap any other body cell: every cell
    /// within one `radius` of the head is counted — the head itself always
    /// counts once — and more than one such pairing is an overlap.
    pub fn check_self_collision(&self, radius: i64) -> (r: bool)
        requires
            self.wf(),
            0 < radius <= COORD_LIMIT,
            forall|i: int| 0 <= i < self.body@.len() ==> (#[trigger] self.body@[i]).in_limit(),
        ensures
            r == no_self_overlap(self.body@, radius as int),
    {
        let head = self.head();
        proof {
            assert(0 < radius * radius <= COORD_LIMIT * COORD_LIMIT) by (nonlinear_arith)
                requires
                    0 < radius <= COORD_LIMIT,
            ;
        }
        let threshold = radius * radius;
        let mut collisions: usize = 0;
        let mut i: usize = 0;
        while i < self.body.len()
            invariant
                self.wf(),
                0 < radius <= COORD_LIMIT,
                forall|k: int| 0 <= k < self.body@.len() ==> (#[trigger] self.body@[k]).in_limit(),
                head == self.body@[0],
                threshold == radius * radius,
                threshold > 0,
                0 <= i <= self.body@.len(),
                collisions <= i,
                i >= 1 ==> collisions >= 1,
                (collisions <= 1) == (forall|j: int|
                    1 <= j < i ==> !near(#[trigger] self.body@[j], self.body@[0], radius as int)),
            decreases self.body@.len() - i,
        {
            let c = self.body[i];
            proof {
                let a = head.x as int;
                let b = head.y as int;
                assert((a - a) * (a - a) == 0) by (nonlinear_arith);
                assert((b - b) * (b - b) == 0) by (nonlinear_arith);
                assert(head.dist_sq_spec(head) == 0);
            }
            if c.dist_sq(head) < threshold {
                collisions = collisions + 1;
            }
            i = i + 1;
        }
        collisions <= 1
    }
}

} // verus!
