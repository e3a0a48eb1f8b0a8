use snake::direction::Direction;
use snake::food::Food;
use snake::geometry::{Bounds, Cell};
use snake::session::{GameState, TickOutcome};

fn standard_session() -> GameState {
    GameState::new(Bounds::new(800, 600), 5, 125, 25, 0)
}

fn assert_on_lattice(x: i64, y: i64, radius: i64, bounds: &Bounds) {
    let d = 2 * radius;
    assert!(x >= radius && (x - radius) % d == 0, "x = {} off the lattice", x);
    assert!(y >= radius && (y - radius) % d == 0, "y = {} off the lattice", y);
    assert!(x > 0 && x < bounds.width && y > 0 && y < bounds.height);
}

#[test]
fn session_starts_in_the_middle_heading_right() {
    let s = standard_session();
    assert!(!s.game_over);
    assert_eq!(s.score, 0);
    assert_eq!(s.delay, 125);
    assert_eq!(s.snake.dir, Direction::Right);
    assert_eq!(s.snake.body.len(), 2);
    assert_eq!(s.snake.body[0], Cell::new(405, 305));
    assert_eq!(s.snake.body[1], Cell::new(395, 305));
    assert_on_lattice(s.food.pos.x, s.food.pos.y, s.radius, &s.bounds);
}

#[test]
fn three_ticks_move_the_head_three_diameters() {
    let mut s = standard_session();
    s.place_food(Cell::new(5, 5));
    for i in 0..3u64 {
        let outcome = s.tick(125 * (i + 1));
        assert_eq!(outcome, TickOutcome::Moved);
    }
    assert_eq!(s.snake.body[0], Cell::new(435, 305));
    assert_eq!(s.snake.body.len(), 2);
    assert_eq!(s.score, 0);
}

#[test]
fn tick_before_the_delay_does_nothing() {
    let mut s = standard_session();
    s.place_food(Cell::new(5, 5));
    let outcome = s.tick(124);
    assert_eq!(outcome, TickOutcome::Idle);
    assert_eq!(s.snake.body[0], Cell::new(405, 305));
    let outcome = s.tick(125);
    assert_eq!(outcome, TickOutcome::Moved);
}

#[test]
fn steady_ticks_keep_the_body_length() {
    let mut s = standard_session();
    s.place_food(Cell::new(5, 5));
    for i in 0..10u64 {
        assert_eq!(s.tick(125 * (i + 1)), TickOutcome::Moved);
        assert_eq!(s.snake.body.len(), 2);
    }
}

#[test]
fn reaching_the_food_grows_the_body_and_relocates_the_food() {
    let mut s = standard_session();
    // The next advance puts the head exactly on this cell.
    s.place_food(Cell::new(415, 305));
    let outcome = s.tick(125);
    assert_eq!(outcome, TickOutcome::Ate);
    assert_eq!(s.snake.body.len(), 3);
    assert_eq!(s.score, 1);
    assert_eq!(s.snake.body[0], Cell::new(415, 305));
    assert_on_lattice(s.food.pos.x, s.food.pos.y, s.radius, &s.bounds);
    assert!(!s.game_over);
}

#[test]
fn food_one_cell_away_is_not_reached() {
    let mut s = standard_session();
    // One full diameter from the next head position: not within reach.
    s.place_food(Cell::new(425, 305));
    assert_eq!(s.tick(125), TickOutcome::Moved);
    assert_eq!(s.snake.body.len(), 2);
    assert_eq!(s.score, 0);
    assert_eq!(s.food.pos, Cell::new(425, 305));
}

#[test]
fn reversal_input_leaves_direction_and_delay_alone() {
    let mut s = standard_session();
    s.on_input(Direction::Left, false, 10);
    assert_eq!(s.snake.dir, Direction::Right);
    assert_eq!(s.delay, 125);
    assert_eq!(s.last_input, 0);
}

#[test]
fn repeat_input_speeds_up_and_decays_back() {
    let mut s = standard_session();
    s.place_food(Cell::new(5, 5));
    s.on_input(Direction::Up, true, 10);
    assert_eq!(s.snake.dir, Direction::Up);
    assert_eq!(s.delay, 25);
    assert_eq!(s.last_input, 10);
    // A full fast delay after the input, the slow default comes back.
    let outcome = s.tick(35);
    assert_eq!(s.delay, 125);
    assert_eq!(outcome, TickOutcome::Idle);
}

#[test]
fn fast_delay_makes_the_snake_advance_sooner() {
    let mut s = standard_session();
    s.place_food(Cell::new(5, 5));
    s.on_input(Direction::Up, true, 10);
    // 25 ms after the last move and within the input window: a move.
    assert_eq!(s.tick(30), TickOutcome::Moved);
    assert_eq!(s.snake.body[0], Cell::new(405, 295));
}

#[test]
fn running_into_the_right_wall_ends_the_session() {
    let mut s = standard_session();
    s.place_food(Cell::new(5, 5));
    let mut moves = 0u64;
    loop {
        let outcome = s.tick(125 * (moves + 1));
        moves += 1;
        if outcome == TickOutcome::GameOver {
            break;
        }
        assert_eq!(outcome, TickOutcome::Moved);
        assert!(moves < 100, "the wall was never hit");
    }
    // From x = 405, the first out-of-bounds head is at x = 805, the 40th move.
    assert_eq!(moves, 40);
    assert_eq!(s.snake.body[0], Cell::new(805, 305));
    assert!(s.game_over);
    assert!(!s.snake.check_bounds(&s.bounds));
}

#[test]
fn ticks_after_game_over_change_nothing() {
    let mut s = standard_session();
    s.place_food(Cell::new(5, 5));
    let mut t = 0u64;
    loop {
        t += 125;
        if s.tick(t) == TickOutcome::GameOver {
            break;
        }
        assert!(t < 100_000, "the wall was never hit");
    }
    let head = s.snake.body[0];
    let len = s.snake.body.len();
    let score = s.score;
    assert_eq!(s.tick(t + 125), TickOutcome::Idle);
    assert_eq!(s.snake.body[0], head);
    assert_eq!(s.snake.body.len(), len);
    assert_eq!(s.score, score);
    assert!(s.game_over);
    // Input after game over is ignored entirely.
    s.on_input(Direction::Up, false, t + 200);
    assert_eq!(s.snake.dir, Direction::Right);
}

#[test]
fn running_into_the_top_wall_ends_the_session() {
    let mut s = standard_session();
    s.place_food(Cell::new(795, 595));
    s.on_input(Direction::Up, false, 0);
    assert_eq!(s.snake.dir, Direction::Up);
    let mut moves = 0u64;
    loop {
        let outcome = s.tick(125 * (moves + 1));
        moves += 1;
        if outcome == TickOutcome::GameOver {
            break;
        }
        assert!(moves < 100, "the wall was never hit");
    }
    // From y = 305, the first out-of-bounds head is at y = -5, the 31st move.
    assert_eq!(moves, 31);
    assert_eq!(s.snake.body[0], Cell::new(405, -5));
    assert!(s.game_over);
}

#[test]
fn turning_into_the_body_ends_the_session() {
    let mut s = standard_session();
    // Three meals on the way right: the body grows to five cells.
    s.place_food(Cell::new(415, 305));
    assert_eq!(s.tick(125), TickOutcome::Ate);
    s.place_food(Cell::new(425, 305));
    assert_eq!(s.tick(250), TickOutcome::Ate);
    s.place_food(Cell::new(435, 305));
    assert_eq!(s.tick(375), TickOutcome::Ate);
    assert_eq!(s.snake.body.len(), 5);
    assert_eq!(s.score, 3);
    s.place_food(Cell::new(5, 595));
    // A tight square turn: up, left, then down into the own body.
    s.on_input(Direction::Up, false, 380);
    assert_eq!(s.tick(500), TickOutcome::Moved);
    assert_eq!(s.snake.body[0], Cell::new(435, 295));
    s.on_input(Direction::Left, false, 505);
    assert_eq!(s.tick(625), TickOutcome::Moved);
    assert_eq!(s.snake.body[0], Cell::new(425, 295));
    s.on_input(Direction::Down, false, 630);
    assert_eq!(s.tick(750), TickOutcome::GameOver);
    assert_eq!(s.snake.body[0], Cell::new(425, 305));
    assert!(s.game_over);
    assert!(!s.snake.check_self_collision(s.radius));
    assert!(s.snake.check_bounds(&s.bounds));
}

#[test]
fn smallest_board_has_room_for_the_starting_snake() {
    let b = Bounds::new(20, 20);
    let s = GameState::new(b, 5, 125, 25, 0);
    assert_eq!(s.snake.body[0], Cell::new(15, 15));
    assert_eq!(s.snake.body[1], Cell::new(5, 15));
    assert!(!s.game_over);
}

#[test]
fn largest_board_dimensions_stay_exact() {
    let b = Bounds::new(1_000_000, 1_000_000);
    let s = GameState::new(b, 250_000, 125, 25, 0);
    assert_eq!(s.snake.body[0], Cell::new(750_000, 750_000));
    assert_eq!(s.snake.body[1], Cell::new(250_000, 750_000));
    // Only two slots per axis: every spawn lands on one of them.
    for _ in 0..20 {
        let f = Food::spawn(&b, 250_000);
        assert!(f.pos.x == 250_000 || f.pos.x == 750_000);
        assert!(f.pos.y == 250_000 || f.pos.y == 750_000);
    }
}

#[test]
fn spawned_food_is_always_on_the_lattice_inside_bounds() {
    let b = Bounds::new(40, 40);
    for _ in 0..50 {
        let f = Food::spawn(&b, 5);
        assert_on_lattice(f.pos.x, f.pos.y, 5, &b);
    }
    let big = Bounds::new(800, 600);
    for _ in 0..50 {
        let mut f = Food::spawn(&big, 5);
        f.relocate(&big, 5);
        assert_on_lattice(f.pos.x, f.pos.y, 5, &big);
    }
}
