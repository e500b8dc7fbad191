use snake_core::game::{Collision, GameState, BASE_VELOCITY};
use snake_core::geometry::{Direction, Key, Position};

// At base velocity (6.00 ticks per second) the tick interval is 166_666
// microseconds; this comfortably crosses it even after a few speed-ups.
const TICK: u64 = 200_000;

#[test]
fn construction_layout() {
    let g = GameState::new(10, 10);
    assert_eq!(g.head_position(), Position { x: 5, y: 5 });
    let body = g.body_positions();
    assert_eq!(body.len(), 4);
    assert_eq!(body[0], Position { x: 6, y: 5 });
    assert_eq!(body[1], Position { x: 7, y: 5 });
    assert_eq!(body[2], Position { x: 8, y: 5 });
    assert_eq!(body[3], Position { x: 9, y: 5 });
    assert_eq!(g.current_direction(), Direction::Left);
    assert_eq!(g.current_score(), 0);
    assert_eq!(g.velocity, BASE_VELOCITY);
    assert!(!g.is_game_over());
    assert_eq!(g.dimensions(), (10, 10));
}

#[test]
fn construction_fruit_strictly_inside() {
    for _ in 0..200 {
        let g = GameState::new(10, 10);
        let f = g.fruit_position();
        assert!(1 <= f.x && f.x <= 8);
        assert!(1 <= f.y && f.y <= 8);
    }
}

#[test]
fn fruit_placement_varies() {
    // On a large board the draw is from 48 * 48 cells: two hundred games
    // with one and the same fruit cell would mean the randomness is gone.
    let first = GameState::new(50, 50).fruit_position();
    let mut saw_different = false;
    for _ in 0..200 {
        if GameState::new(50, 50).fruit_position() != first {
            saw_different = true;
        }
    }
    assert!(saw_different);
}

#[test]
fn fruit_on_smallest_board_is_forced() {
    // On a 3 by 3 board the only cell at distance one from every border
    // is (1, 1); the random placement must produce exactly it.
    for _ in 0..20 {
        let g = GameState::new(3, 3);
        assert_eq!(g.fruit_position(), Position { x: 1, y: 1 });
    }
}

#[test]
fn first_tick_moves_head_left() {
    let mut g = GameState::new(10, 10);
    g.update(TICK);
    assert_eq!(g.head_position(), Position { x: 4, y: 5 });
    let body = g.body_positions();
    assert_eq!(body.len(), 4);
    assert_eq!(body[0], Position { x: 5, y: 5 });
    assert_eq!(body[1], Position { x: 6, y: 5 });
    assert_eq!(body[2], Position { x: 7, y: 5 });
    assert_eq!(body[3], Position { x: 8, y: 5 });
}

#[test]
fn sub_tick_calls_do_not_mutate() {
    let mut g = GameState::new(10, 10);
    let head = g.head_position();
    let body = g.body_positions().clone();
    let fruit = g.fruit_position();
    // Four times 40_000 microseconds stays below the 166_666 interval.
    for _ in 0..4 {
        g.update(40_000);
        assert_eq!(g.head_position(), head);
        assert_eq!(g.body_positions().clone(), body);
        assert_eq!(g.fruit_position(), fruit);
        assert_eq!(g.current_score(), 0);
        assert!(!g.is_game_over());
    }
    // The fifth call crosses the interval and the snake finally moves.
    g.update(40_000);
    assert_eq!(g.head_position(), Position { x: 4, y: 5 });
}

#[test]
fn anti_reversal_is_ignored() {
    let mut g = GameState::new(10, 10);
    // Right is the exact reverse of the initial direction Left.
    g.handle_key(Key::Right);
    assert_eq!(g.current_direction(), Direction::Left);
    // The rejected key did not take the lock either: Up is still accepted.
    g.handle_key(Key::Up);
    assert_eq!(g.current_direction(), Direction::Up);
}

#[test]
fn one_direction_change_per_tick() {
    let mut g = GameState::new(10, 10);
    // First accepted key wins the tick...
    g.handle_key(Key::Up);
    assert_eq!(g.current_direction(), Direction::Up);
    // ...and every further direction key before the next tick is ignored.
    g.handle_key(Key::Left);
    g.handle_key(Key::Right);
    assert_eq!(g.current_direction(), Direction::Up);
    // A tick re-opens the window: the next key is accepted again.
    g.update(TICK);
    g.handle_key(Key::Left);
    assert_eq!(g.current_direction(), Direction::Left);
}

#[test]
fn unrecognized_key_is_a_no_op() {
    let mut g = GameState::new(10, 10);
    g.handle_key(Key::Other);
    assert_eq!(g.current_direction(), Direction::Left);
    // It did not take the lock: a direction key still works.
    g.handle_key(Key::Down);
    assert_eq!(g.current_direction(), Direction::Down);
}

#[test]
fn growth_is_delayed_by_one_tick() {
    let mut g = GameState::new(10, 10);
    // Put the fruit under the head: the coming tick eats it.
    g.fruit = Position { x: 5, y: 5 };
    g.update(TICK);
    // Eating tick: score and speed rise, the body has not grown yet.
    assert_eq!(g.current_score(), 1);
    assert_eq!(g.velocity, BASE_VELOCITY + 1);
    assert!(g.growth_pending);
    assert_eq!(g.body_positions().len(), 4);
    assert_eq!(g.head_position(), Position { x: 4, y: 5 });
    // Next movement tick: the vacated tail cell is kept.
    g.update(TICK);
    assert_eq!(g.body_positions().len(), 5);
}

#[test]
fn border_collision_ends_game_without_moving() {
    let mut g = GameState::new(10, 10);
    g.head = Position { x: 0, y: 5 };
    let body = g.body_positions().clone();
    g.update(TICK);
    assert!(g.is_game_over());
    assert_eq!(g.head_position(), Position { x: 0, y: 5 });
    assert_eq!(g.body_positions().clone(), body);
    assert_eq!(g.current_score(), 0);
}

#[test]
fn far_border_collision_ends_game() {
    let mut g = GameState::new(10, 10);
    g.head = Position { x: 10, y: 5 };
    g.update(TICK);
    assert!(g.is_game_over());
    assert_eq!(g.head_position(), Position { x: 10, y: 5 });

    let mut g = GameState::new(10, 10);
    g.head = Position { x: 5, y: 10 };
    g.update(TICK);
    assert!(g.is_game_over());

    let mut g = GameState::new(10, 10);
    g.head = Position { x: 5, y: 0 };
    g.update(TICK);
    assert!(g.is_game_over());
}

#[test]
fn game_over_tick_consumes_the_tick() {
    let mut g = GameState::new(10, 10);
    g.head = Position { x: 0, y: 5 };
    g.update(TICK);
    assert!(g.is_game_over());
    // The collision tick was consumed like any other tick: the time
    // accumulator was reset, so a short follow-up call stays sub-tick
    // and only accumulates time again.
    assert_eq!(g.elapsed_micros, 0);
    g.update(100_000);
    assert_eq!(g.elapsed_micros, 100_000);
    assert!(g.is_game_over());
}

#[test]
fn self_collision_ends_game_and_halts() {
    let mut g = GameState::new(10, 10);
    // Drive the head onto the first body cell.
    g.head = Position { x: 6, y: 5 };
    g.update(TICK);
    assert!(g.is_game_over());
    assert_eq!(g.head_position(), Position { x: 6, y: 5 });
    // Further ticks keep detecting the collision and never move again.
    g.update(TICK);
    g.update(TICK);
    assert!(g.is_game_over());
    assert_eq!(g.head_position(), Position { x: 6, y: 5 });
}

#[test]
fn collision_priority_snake_then_border_then_fruit() {
    let mut g = GameState::new(10, 10);
    // Head on the border: border wins over the fruit, wherever it is.
    g.head = Position { x: 0, y: 5 };
    assert_eq!(g.is_collision(), Collision::WithBorder);
    // Head on a body cell that also lies on the border: snake wins.
    g.body[0] = Position { x: 0, y: 5 };
    assert_eq!(g.is_collision(), Collision::WithSnake);
    // Head strictly inside on the fruit cell: a meal.
    let mut g = GameState::new(10, 10);
    g.head = g.fruit;
    assert_eq!(g.is_collision(), Collision::WithFruit);
    // Head strictly inside, on nothing: no collision.
    let mut g = GameState::new(10, 10);
    g.fruit = Position { x: 1, y: 1 };
    g.head = Position { x: 2, y: 2 };
    assert_eq!(g.is_collision(), Collision::NoCollision);
}

#[test]
fn restart_rebuilds_fresh_game() {
    let mut g = GameState::new(12, 8);
    // End the game on the border, with some score on the board.
    g.score = 3;
    g.velocity = BASE_VELOCITY + 3;
    g.head = Position { x: 0, y: 4 };
    g.update(TICK);
    assert!(g.is_game_over());
    // The restart key is honored even though the game is over.
    g.handle_key(Key::Restart);
    g.update(0);
    assert!(!g.is_game_over());
    assert_eq!(g.head_position(), Position { x: 6, y: 4 });
    let body = g.body_positions();
    assert_eq!(body.len(), 4);
    assert_eq!(body[0], Position { x: 7, y: 4 });
    assert_eq!(body[3], Position { x: 10, y: 4 });
    assert_eq!(g.current_direction(), Direction::Left);
    assert_eq!(g.current_score(), 0);
    assert_eq!(g.velocity, BASE_VELOCITY);
    assert_eq!(g.dimensions(), (12, 8));
}

#[test]
fn restart_key_works_while_direction_locked() {
    let mut g = GameState::new(10, 10);
    g.handle_key(Key::Up);
    // The lock is held now, yet the restart wish is still recorded.
    g.handle_key(Key::Restart);
    assert!(g.restart_requested);
    g.update(0);
    assert_eq!(g.head_position(), Position { x: 5, y: 5 });
    assert_eq!(g.current_direction(), Direction::Left);
}

#[test]
fn score_and_velocity_saturate() {
    let mut g = GameState::new(10, 10);
    g.score = u32::MAX;
    g.velocity = u32::MAX;
    g.fruit = Position { x: 5, y: 5 };
    g.update(TICK);
    assert_eq!(g.current_score(), u32::MAX);
    assert_eq!(g.velocity, u32::MAX);
}

#[test]
fn tick_fires_exactly_at_the_interval() {
    // At base velocity the interval is 100_000_000 / 600 = 166_666
    // microseconds: one short of it nothing moves, reaching it ticks.
    let mut g = GameState::new(10, 10);
    g.update(166_665);
    assert_eq!(g.head_position(), Position { x: 5, y: 5 });
    g.update(1);
    assert_eq!(g.head_position(), Position { x: 4, y: 5 });
    // The accumulator was reset by the tick: a short call does nothing.
    g.update(100_000);
    assert_eq!(g.head_position(), Position { x: 4, y: 5 });
}

#[test]
fn growth_action_rewards_a_meal() {
    let mut g = GameState::new(10, 10);
    g.growth_action();
    assert!(g.growth_pending);
    assert_eq!(g.current_score(), 1);
    assert_eq!(g.velocity, BASE_VELOCITY + 1);
    let f = g.fruit_position();
    assert!(1 <= f.x && f.x <= 8);
    assert!(1 <= f.y && f.y <= 8);
    // Nothing else is touched by the reward itself.
    assert_eq!(g.head_position(), Position { x: 5, y: 5 });
    assert_eq!(g.body_positions().len(), 4);
    assert!(!g.is_game_over());
}

#[test]
fn turning_changes_the_path() {
    let mut g = GameState::new(10, 10);
    g.handle_key(Key::Up);
    g.update(TICK);
    assert_eq!(g.head_position(), Position { x: 5, y: 4 });
    g.handle_key(Key::Left);
    g.update(TICK);
    assert_eq!(g.head_position(), Position { x: 4, y: 4 });
    g.handle_key(Key::Down);
    g.update(TICK);
    assert_eq!(g.head_position(), Position { x: 4, y: 5 });
}
