//! The session controller: ties a tick clock and an input-acceptance window
//! to the snake and the food. Each tick decides whether to advance, whether
//! the advance was fatal, and whether the food was consumed; once the session
//! is over, nothing mutates it any more.
//!
//! Time never comes from a clock of its own: the embedder passes the current
//! monotonic time (in milliseconds) into `tick` and `on_input`.

use vstd::prelude::*;

use crate::direction::Direction;
use crate::food::Food;
use crate::geometry::{lattice_aligned, Bounds, Cell};
use crate::snake::{all_in_bounds, new_direction, no_self_overlap, Snake};
use crate::COORD_LIMIT;

verus! {

/// What a single call to `tick` did.
#[derive(Copy, Clone, Debug, PartialEq, Eq, Structural)]
pub enum TickOutcome {
    /// Nothing happened: the session is over, or the current delay has not
    /// elapsed yet.
    Idle,
    /// The snake advanced one step without reaching the food.
    Moved,
    /// The snake advanced one step, reached the food and grew by one cell.
    Ate,
    /// The advance left the field or hit the body: the session just ended.
    GameOver,
}

/// The whole mutable state of one session.
pub struct GameState {
    pub snake: Snake,
    pub food: Food,
    pub bounds: Bounds,
    /// The cell radius; the grid spacing is twice this.
    pub radius: i64,
    /// The default inter-tick delay, in milliseconds.
    pub slow_delay: u64,
    /// The inter-tick delay while input is being repeated, in milliseconds.
    pub fast_delay: u64,
    /// The delay currently in force: always one of the two fixed values.
    pub delay: u64,
    /// When the snake last advanced.
    pub last_move: u64,
    /// When an input was last accepted.
    pub last_input: u64,
    /// How many times the food has been consumed.
    pub score: u32,
    /// Terminal flag: once set, ticks and inputs are ignored.
    pub game_over: bool,
}

impl GameState {
    /// The grid spacing: one cell diameter.
    pub open spec fn diameter(self) -> int {
        2 * self.radius
    }

    /// The session constants are sane: a positive radius and a field that
    /// holds at least two slots along each axis.
    pub open spec fn config_wf(self) -> bool {
        &&& 0 < self.radius
        &&& self.bounds.wf()
        &&& 4 * self.radius <= self.bounds.width
        &&& 4 * self.radius <= self.bounds.height
    }

    /// Every body cell lies strictly inside the field.
    pub open spec fn cells_ok(self) -> bool {
        all_in_bounds(self.snake.body@, self.bounds)
    }

    /// The session invariant: sane constants, a non-empty body, food on the
    /// lattice inside the field, a delay that is one of the two fixed values,
    /// and — while the session is active — a body that lies entirely inside
    /// the field with its head overlapping no other cell.
    pub open spec fn wf(self) -> bool {
        &&& self.config_wf()
        &&& self.snake.wf()
        &&& self.food.placed_on_grid(self.bounds, self.radius as int)
        &&& self.delay == self.slow_delay || self.delay == self.fast_delay
        &&& !self.game_over ==> self.cells_ok()
        &&& !self.game_over ==> no_self_overlap(self.snake.body@, self.radius as int)
    }

    /// The delay in force at `now`: the fast value decays back to the slow
    /// default once a full delay has passed since the last accepted input.
    pub open spec fn effective_delay(self, now: u64) -> u64 {
        if now - self.last_input >= self.delay {
            self.slow_delay
        } else {
            self.delay
        }
    }

    /// Whether a tick at `now` performs an advance: the session is active and
    /// the delay in force has elapsed since the last advance.
    pub open spec fn advances(self, now: u64) -> bool {
        &&& !self.game_over
        &&& now - self.last_move >= self.effective_delay(now)
    }

    /// Where the head moves on the next advance.
    pub open spec fn next_head(self) -> Cell {
        self.snake.body@[0].step_spec(self.snake.dir, self.diameter())
    }

    /// The body right after the next advance, before any tail shortening.
    pub open spec fn advanced_body(self) -> Seq<Cell> {
        seq![self.next_head()] + self.snake.body@
    }

    /// The next advance is fatal: some cell ends up outside the field, or the
    /// new head overlaps another body cell.
    pub open spec fn fatal_after_advance(self) -> bool {
        ||| !all_in_bounds(self.advanced_body(), self.bounds)
        ||| !no_self_overlap(self.advanced_body(), self.radius as int)
    }

    /// After the next advance the head lies within one diameter of the food.
    pub open spec fn food_reached(self) -> bool {
        self.food.pos.dist_sq_spec(self.next_head()) < self.diameter() * self.diameter()
    }

    /// Starts a session: a two-cell snake at the middle of the field heading
    /// right, the food at a random lattice slot, the slow delay in force.
    pub fn new(bounds: Bounds, radius: i64, slow_delay: u64, fast_delay: u64, now: u64) -> (s:
        GameState)
        requires
            0 < radius,
            bounds.wf(),
            4 * radius <= bounds.width,
            4 * radius <= bounds.height,
        ensures
            s.wf(),
            !s.game_over,
            s.score == 0,
            s.bounds == bounds,
            s.radius == radius,
            s.slow_delay == slow_delay,
            s.fast_delay == fast_delay,
            s.delay == slow_delay,
            s.last_move == now,
            s.last_input == now,
            s.snake.dir == Direction::Right,
            s.snake.body@.len() == 2,
            s.snake.body@[0].x == crate::food::slot_coord_spec(
                radius as int,
                crate::food::middle_slot(bounds.width as int, radius as int),
            ),
            s.snake.body@[0].y == crate::food::slot_coord_spec(
                radius as int,
                crate::food::middle_slot(bounds.height as int, radius as int),
            ),
            s.snake.body@[1] == s.snake.body@[0].step_spec(Direction::Left, 2 * radius as int),
            s.food.placed_on_grid(bounds, radius as int),
    {
        let mid = Cell {
            x: crate::food::middle_coord(bounds.width, radius),
            y: crate::food::middle_coord(bounds.height, radius),
        };
        let diameter = 2 * radius;
        let snake = Snake::new(mid, Direction::Right, diameter);
        let food = Food::spawn(&bounds, radius);
        let s = GameState {
            snake,
            food,
            bounds,
            radius,
            slow_delay,
            fast_delay,
            delay: slow_delay,
            last_move: now,
            last_input: now,
            score: 0,
            game_over: false,
        };
        proof {
            lemma_middle_leaves_room(bounds.width as int, radius as int);
            assert(s.cells_ok()) by {
                assert(s.snake.body@.len() == 2);
                assert(s.bounds.contains_spec(s.snake.body@[0]));
                assert(s.bounds.contains_spec(s.snake.body@[1]));
            }
            assert(no_self_overlap(s.snake.body@, radius as int)) by {
                let hx = s.snake.body@[0].x as int;
                let hy = s.snake.body@[0].y as int;
                let tx = s.snake.body@[1].x as int;
                let ty = s.snake.body@[1].y as int;
                assert(tx == hx - 2 * (radius as int));
                assert(ty == hy);
                assert((tx - hx) * (tx - hx) + (ty - hy) * (ty - hy) >= (radius as int) * (
                radius as int)) by (nonlinear_arith)
                    requires
                        tx - hx == -2 * (radius as int),
                        ty == hy,
                        (radius as int) > 0,
                ;
            }
        }
        s
    }

    /// One simulation step at monotonic time `now`. Before the delay in force
    /// has elapsed nothing happens; otherwise the snake advances, a fatal
    /// advance ends the session, reaching the food grows the body by one cell
    /// and relocates the food, and any other advance shortens the tail so the
    /// body length is unchanged.
    pub fn tick(&mut self, now: u64) -> (outcome: TickOutcome)
        requires
            old(self).wf(),
            now >= old(self).last_move,
            now >= old(self).last_input,
            old(self).score < u32::MAX,
        ensures
            final(self).wf(),
            final(self).bounds == old(self).bounds,
            final(self).radius == old(self).radius,
            final(self).slow_delay == old(self).slow_delay,
            final(self).fast_delay == old(self).fast_delay,
            final(self).last_input == old(self).last_input,
            old(self).game_over ==> *final(self) == *old(self) && outcome == TickOutcome::Idle,
            !old(self).game_over ==> final(self).delay == old(self).effective_delay(now),
            !old(self).game_over && !old(self).advances(now) ==> {
                &&& final(self).snake == old(self).snake
                &&& final(self).food == old(self).food
                &&& final(self).score == old(self).score
                &&& final(self).last_move == old(self).last_move
                &&& !final(self).game_over
                &&& outcome == TickOutcome::Idle
            },
            old(self).advances(now) ==> final(self).last_move == now && final(self).snake.dir
                == old(self).snake.dir,
            old(self).advances(now) && old(self).fatal_after_advance() ==> {
                &&& final(self).game_over
                &&& final(self).snake.body@ == old(self).advanced_body()
                &&& final(self).food == old(self).food
                &&& final(self).score == old(self).score
                &&& outcome == TickOutcome::GameOver
            },
            old(self).advances(now) && !old(self).fatal_after_advance() && old(self).food_reached()
                ==> {
                &&& !final(self).game_over
                &&& final(self).snake.body@ == old(self).advanced_body()
                &&& final(self).snake.body@.len() == old(self).snake.body@.len() + 1
                &&& final(self).score == old(self).score + 1
                &&& final(self).food.placed_on_grid(old(self).bounds, old(self).radius as int)
                &&& outcome == TickOutcome::Ate
            },
            old(self).advances(now) && !old(self).fatal_after_advance() && !old(
                self,
            ).food_reached() ==> {
                &&& !final(self).game_over
                &&& final(self).snake.body@ == old(self).advanced_body().take(
                    old(self).snake.body@.len() as int,
                )
                &&& final(self).snake.body@.len() == old(self).snake.body@.len()
                &&& final(self).food == old(self).food
                &&& final(self).score == old(self).score
                &&& outcome == TickOutcome::Moved
            },
    {
        if self.game_over {
            return TickOutcome::Idle;
        }
        if now - self.last_input >= self.delay {
            self.delay = self.slow_delay;
        }
        if now - self.last_move < self.delay {
            return TickOutcome::Idle;
        }
        self.last_move = now;
        let diameter = 2 * self.radius;
        proof {
            assert(self.bounds.contains_spec(self.snake.body@[0]));
        }
        self.snake.advance(diameter);
        let ghost advanced = self.snake.body@;
        proof {
            assert forall|i: int| 0 <= i < self.snake.body@.len() implies (
            #[trigger] self.snake.body@[i]).in_limit() by {
                if i > 0 {
                    assert(old(self).bounds.contains_spec(old(self).snake.body@[i - 1]));
                }
            }
        }
        let ok_bounds = self.snake.check_bounds(&self.bounds);
        let ok_body = self.snake.check_self_collision(self.radius);
        if !ok_bounds || !ok_body {
            self.game_over = true;
            return TickOutcome::GameOver;
        }
        let head = self.snake.head();
        proof {
            assert(self.bounds.contains_spec(self.snake.body@[0]));
            assert(diameter * diameter <= COORD_LIMIT * COORD_LIMIT) by (nonlinear_arith)
                requires
                    0 < diameter <= COORD_LIMIT,
            ;
        }
        if self.food.dist_sq_to(head) < diameter * diameter {
            self.food.relocate(&self.bounds, self.radius);
            self.score = self.score + 1;
            TickOutcome::Ate
        } else {
            self.snake.shorten_tail();
            proof {
                assert forall|i: int| 0 <= i < self.snake.body@.len() implies self.bounds.contains_spec(
                    #[trigger] self.snake.body@[i],
                ) by {
                    assert(self.snake.body@[i] == advanced[i]);
                }
            }
            TickOutcome::Moved
        }
    }

    /// One input event at monotonic time `now`: ignored entirely once the
    /// session is over; otherwise a reversal request changes nothing, and any
    /// other request sets the heading, puts the fast delay in force when the
    /// input is a repeat (the slow one otherwise), and refreshes the input
    /// timestamp.
    pub fn on_input(&mut self, requested: Direction, is_repeat: bool, now: u64)
        requires
            old(self).wf(),
        ensures
            final(self).wf(),
            final(self).bounds == old(self).bounds,
            final(self).radius == old(self).radius,
            final(self).slow_delay == old(self).slow_delay,
            final(self).fast_delay == old(self).fast_delay,
            final(self).food == old(self).food,
            final(self).score == old(self).score,
            final(self).game_over == old(self).game_over,
            final(self).last_move == old(self).last_move,
            final(self).snake.body == old(self).snake.body,
            old(self).game_over ==> *final(self) == *old(self),
            !old(self).game_over ==> final(self).snake.dir == new_direction(
                old(self).snake.dir,
                requested,
            ),
            !old(self).game_over && requested == old(self).snake.dir.opposite_spec() ==> {
                &&& final(self).snake.dir == old(self).snake.dir
                &&& final(self).delay == old(self).delay
                &&& final(self).last_input == old(self).last_input
            },
            !old(self).game_over && requested != old(self).snake.dir.opposite_spec() ==> {
                &&& final(self).snake.dir == requested
                &&& final(self).delay == (if is_repeat {
                    old(self).fast_delay
                } else {
                    old(self).slow_delay
                })
                &&& final(self).last_input == now
            },
    {
        if self.game_over {
            return ;
        }
        let accepted = self.snake.set_direction(requested);
        if accepted {
            self.delay = if is_repeat {
                self.fast_delay
            } else {
                self.slow_delay
            };
            self.last_input = now;
        }
    }

    /// Puts the food at a chosen lattice cell inside the field: a
    /// deterministic placement for embedders that substitute their own
    /// strategy for the random one.
    pub fn place_food(&mut self, pos: Cell)
        requires
            old(self).wf(),
            lattice_aligned(pos.x as int, old(self).radius as int, 2 * old(self).radius as int),
            lattice_aligned(pos.y as int, old(self).radius as int, 2 * old(self).radius as int),
            old(self).bounds.contains_spec(pos),
        ensures
            final(self).wf(),
            final(self).food.pos == pos,
            final(self).food.placed_on_grid(old(self).bounds, old(self).radius as int),
            final(self).snake == old(self).snake,
            final(self).bounds == old(self).bounds,
            final(self).radius == old(self).radius,
            final(self).slow_delay == old(self).slow_delay,
            final(self).fast_delay == old(self).fast_delay,
            final(self).delay == old(self).delay,
            final(self).last_move == old(self).last_move,
            final(self).last_input == old(self).last_input,
            final(self).score == old(self).score,
            final(self).game_over == old(self).game_over,
    {
        self.food = Food { pos };
    }
}

/// The middle slot of an axis with at least two slots is not the first one,
/// so one step back along the axis stays strictly inside it.
pub proof fn lemma_middle_leaves_room(extent: int, radius: int)
    requires
        0 < radius,
        4 * radius <= extent,
    ensures
        crate::food::middle_slot(extent, radius) >= 1,
        crate::food::slot_coord_spec(radius, crate::food::middle_slot(extent, radius)) - 2 * radius
            > 0,
{
    let d = 2 * radius;
    let k = crate::food::middle_slot(extent, radius);
    crate::food::lemma_extent_has_two_slots(extent, radius);
    assert(k >= 1);
    vstd::arithmetic::mul::lemma_mul_inequality(1, k, d);
}

} // verus!
