use snake::consume_input;
use snake::level_corners;
use snake::play_area;
use snake::random_pos;
use snake::Apple;
use snake::Direction;
use snake::GameStatus;
use snake::GridVector;
use snake::Session;
use snake::Snake;

fn gv(x: i16, y: i16) -> GridVector {
    GridVector { x, y }
}

fn in_play_area(p: GridVector) -> bool {
    2 <= p.x && p.x < 38 && 2 <= p.y && p.y < 20
}

/// A hand-built session: one snake segment at (5, 5), the apple parked
/// well away from it, a tick every 100 ms, last tick at time zero.
fn session_at_5_5(velocity: GridVector, grow: i16) -> Session {
    Session {
        snake: Snake {
            tail: vec![gv(5, 5)],
            velocity,
            speed: 100_000,
            last_round: 0,
            lost_at: None,
            score: 0,
            grow,
        },
        apple: Apple { position: gv(30, 15), spawned_at: 0 },
        stones: level_corners(),
        game_over: false,
    }
}

#[test]
fn fresh_session_is_well_formed() {
    let s = Session::new(17);
    assert_eq!(s.snake.tail.len(), 1);
    assert!(in_play_area(s.snake.tail[0]));
    assert_eq!(s.snake.velocity, gv(1, 0));
    assert_eq!(s.snake.speed, 100_000);
    assert_eq!(s.snake.last_round, 17);
    assert_eq!(s.snake.lost_at, None);
    assert_eq!(s.snake.score, 0);
    assert_eq!(s.snake.grow, 1);
    assert!(in_play_area(s.apple.position));
    assert_ne!(s.apple.position, s.snake.tail[0]);
    assert_eq!(s.apple.spawned_at, 17);
    assert_eq!(s.stones, level_corners());
    assert!(!s.game_over);
    assert_eq!(s.status(), GameStatus::Moving);
}

#[test]
fn reset_starts_afresh() {
    let mut s = Session::new(0);
    s.snake.score = 9;
    s.snake.lost_at = Some(5);
    s.game_over = true;
    s.reset(123);
    assert_eq!(s.snake.score, 0);
    assert_eq!(s.snake.lost_at, None);
    assert_eq!(s.snake.last_round, 123);
    assert!(!s.game_over);
    assert_eq!(s.status(), GameStatus::Moving);
}

#[test]
fn random_positions_land_in_the_area() {
    let area = play_area();
    for _ in 0..100 {
        assert!(in_play_area(random_pos(&area)));
    }
}

#[test]
fn idle_snake_never_moves() {
    let mut s = session_at_5_5(gv(0, 0), 0);
    assert_eq!(s.status(), GameStatus::Idle);
    for k in 1..6u64 {
        s.step(k * 10_000_000, None);
        assert_eq!(s.snake.tail, vec![gv(5, 5)]);
        assert_eq!(s.snake.velocity, gv(0, 0));
        assert_eq!(s.snake.lost_at, None);
    }
}

#[test]
fn reverse_input_is_dropped() {
    let mut s = session_at_5_5(gv(1, 0), 0);
    s.step(200_000, Some(Direction::Left));
    assert_eq!(s.snake.velocity, gv(1, 0));
    assert_eq!(s.snake.tail, vec![gv(6, 5)]);
}

#[test]
fn consume_input_turns_and_rejects() {
    assert_eq!(consume_input(gv(1, 0), Some(Direction::Left)), gv(1, 0));
    assert_eq!(consume_input(gv(1, 0), Some(Direction::Up)), gv(0, -1));
    assert_eq!(consume_input(gv(1, 0), Some(Direction::Down)), gv(0, 1));
    assert_eq!(consume_input(gv(1, 0), Some(Direction::Right)), gv(1, 0));
    assert_eq!(consume_input(gv(0, -1), Some(Direction::Down)), gv(0, -1));
    assert_eq!(consume_input(gv(0, 0), Some(Direction::Left)), gv(-1, 0));
    assert_eq!(consume_input(gv(0, 1), None), gv(0, 1));
}

#[test]
fn plain_move_slides_the_snake() {
    let mut s = session_at_5_5(gv(1, 0), 0);
    s.step(200_000, None);
    assert_eq!(s.snake.tail, vec![gv(6, 5)]);
    assert_eq!(s.snake.lost_at, None);
    assert_eq!(s.snake.last_round, 200_000);
    assert_eq!(s.snake.score, 0);
}

#[test]
fn growth_credit_keeps_the_tail_end() {
    let mut s = session_at_5_5(gv(1, 0), 2);
    s.step(200_000, None);
    assert_eq!(s.snake.tail, vec![gv(5, 5), gv(6, 5)]);
    assert_eq!(s.snake.grow, 1);
}

#[test]
fn step_is_a_no_op_until_due() {
    let mut s = session_at_5_5(gv(1, 0), 0);
    s.step(50_000, None);
    assert_eq!(s.snake.tail, vec![gv(5, 5)]);
    assert_eq!(s.snake.last_round, 0);
    s.step(100_000, None);
    assert_eq!(s.snake.tail, vec![gv(5, 5)]);
    s.step(100_001, None);
    assert_eq!(s.snake.tail, vec![gv(6, 5)]);
}

#[test]
fn eating_scores_grows_and_respawns_the_apple() {
    let mut s = session_at_5_5(gv(1, 0), 0);
    s.apple = Apple { position: gv(6, 5), spawned_at: 0 };
    s.step(200_000, None);
    assert_eq!(s.snake.score, 1);
    assert_eq!(s.snake.grow, 2);
    assert_eq!(s.snake.tail, vec![gv(5, 5), gv(6, 5)]);
    assert_eq!(s.snake.speed, 100_000 - 100_000 / 36);
    assert_eq!(s.snake.lost_at, None);
    assert!(in_play_area(s.apple.position));
    assert_ne!(s.apple.position, gv(5, 5));
    assert_eq!(s.apple.spawned_at, 200_000);
}

#[test]
fn speed_keeps_decreasing_with_each_apple() {
    let mut s = session_at_5_5(gv(1, 0), 0);
    s.apple = Apple { position: gv(6, 5), spawned_at: 0 };
    s.step(200_000, None);
    assert_eq!(s.snake.speed, 97_223);
    s.apple = Apple { position: gv(7, 5), spawned_at: 0 };
    s.step(400_000, None);
    assert_eq!(s.snake.speed, 97_223 - 97_223 / 36);
    assert_eq!(s.snake.score, 2);
}

#[test]
fn self_collision_kills_and_then_times_out() {
    let mut s = Session {
        snake: Snake {
            tail: vec![gv(5, 5), gv(6, 5), gv(6, 6)],
            velocity: gv(0, -1),
            speed: 100_000,
            last_round: 0,
            lost_at: None,
            score: 0,
            grow: 0,
        },
        apple: Apple { position: gv(30, 15), spawned_at: 0 },
        stones: level_corners(),
        game_over: false,
    };
    s.step(200_000, None);
    assert_eq!(s.snake.lost_at, Some(200_000));
    assert_eq!(s.status(), GameStatus::Dying);
    assert_eq!(s.snake.tail, vec![gv(5, 5), gv(6, 5), gv(6, 6), gv(6, 5)]);

    let tail_at_death = s.snake.tail.clone();
    s.step(400_000, Some(Direction::Right));
    assert_eq!(s.snake.tail, tail_at_death);
    assert_eq!(s.snake.velocity, gv(0, -1));
    assert!(!s.game_over);

    s.step(200_000 + 900_000, None);
    assert!(!s.game_over);
    s.step(200_000 + 900_001, None);
    assert!(s.game_over);
    assert_eq!(s.status(), GameStatus::GameOver);

    s.step(10_000_000, Some(Direction::Left));
    assert_eq!(s.snake.tail, tail_at_death);
    assert!(s.game_over);
}

#[test]
fn elapsed_since_death_tracks_the_fatal_tick() {
    let mut s = session_at_5_5(gv(1, 0), 0);
    assert_eq!(s.elapsed_since_death(500_000), None);
    s.snake.lost_at = Some(200_000);
    assert_eq!(s.elapsed_since_death(500_000), Some(300_000));
    assert_eq!(s.elapsed_since_death(100_000), Some(0));
}

#[test]
fn moving_into_the_vacated_tail_cell_still_kills() {
    // The collision check runs against the pre-move body, so sliding into
    // the cell the tail end is about to leave is fatal.
    let mut s = Session {
        snake: Snake {
            tail: vec![gv(6, 5), gv(6, 6), gv(5, 6), gv(5, 5)],
            velocity: gv(1, 0),
            speed: 100_000,
            last_round: 0,
            lost_at: None,
            score: 0,
            grow: 0,
        },
        apple: Apple { position: gv(30, 15), spawned_at: 0 },
        stones: level_corners(),
        game_over: false,
    };
    s.step(200_000, None);
    assert_eq!(s.snake.lost_at, Some(200_000));
}

#[test]
fn stone_collision_kills() {
    let mut s = Session {
        snake: Snake {
            tail: vec![gv(2, 2)],
            velocity: gv(0, -1),
            speed: 100_000,
            last_round: 0,
            lost_at: None,
            score: 0,
            grow: 0,
        },
        apple: Apple { position: gv(30, 15), spawned_at: 0 },
        stones: level_corners(),
        game_over: false,
    };
    // One cell up from (2, 2) is (2, 1), a stone of the top-left corner.
    s.step(200_000, None);
    assert_eq!(s.snake.lost_at, Some(200_000));
    assert_eq!(s.snake.tail, vec![gv(2, 2), gv(2, 1)]);
}

#[test]
fn movement_wraps_around_the_grid() {
    let mut s = Session {
        snake: Snake {
            tail: vec![gv(39, 10)],
            velocity: gv(1, 0),
            speed: 100_000,
            last_round: 0,
            lost_at: None,
            score: 0,
            grow: 0,
        },
        apple: Apple { position: gv(30, 15), spawned_at: 0 },
        stones: level_corners(),
        game_over: false,
    };
    s.step(200_000, None);
    assert_eq!(s.snake.tail, vec![gv(0, 10)]);
    assert_eq!(s.snake.lost_at, None);
}
