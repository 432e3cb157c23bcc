use snake_game::constants::GameState;
use snake_game::constants::Keyboard;
use snake_game::constants::Pos;
use snake_game::snake::Snake;

fn engine_with(body: Vec<Pos>, apple: Pos, vx: i32, vy: i32) -> Snake {
    Snake {
        game_state: GameState::Play,
        wrap: false,
        velocity_x: vx,
        velocity_y: vy,
        score: 0,
        snake_vec: body,
        apple,
    }
}

#[test]
fn restart_resets_state() {
    let mut s = Snake::new();
    s.setup_board();
    assert_eq!(s.score, 0);
    assert_eq!(s.snake_vec.len(), 2);
    assert_eq!(s.game_state, GameState::Play);
    assert_eq!(s.velocity_x, 0);
    assert_eq!(s.velocity_y, 0);
    assert!(!s.wrap);
    assert!(1 <= s.apple.x && s.apple.x < 40);
    assert!(1 <= s.apple.y && s.apple.y < 40);
    for segment in &s.snake_vec {
        assert_ne!(s.apple, *segment);
    }
}

#[test]
fn restart_after_game_over() {
    let mut s = engine_with(vec![Pos { x: 5, y: 5 }, Pos { x: 5, y: 5 }], Pos { x: 1, y: 1 }, 0, 0);
    s.score = 7;
    assert_eq!(s.play_state(), GameState::GameOver);
    s.setup_board();
    assert_eq!(s.score, 0);
    assert_eq!(s.snake_vec.len(), 2);
    assert_eq!(s.game_state, GameState::Play);
}

#[test]
fn parse_event_sets_velocity() {
    let mut s = Snake::new();
    s.parse_event(Keyboard::Up);
    assert_eq!((s.velocity_x, s.velocity_y), (0, -1));
    s.parse_event(Keyboard::Down);
    assert_eq!((s.velocity_x, s.velocity_y), (0, 1));
    s.parse_event(Keyboard::Left);
    assert_eq!((s.velocity_x, s.velocity_y), (-1, 0));
    s.parse_event(Keyboard::Right);
    assert_eq!((s.velocity_x, s.velocity_y), (1, 0));
    s.parse_event(Keyboard::Unknown);
    assert_eq!((s.velocity_x, s.velocity_y), (1, 0));
}

#[test]
fn scenario_eat_apple() {
    let mut s = engine_with(
        vec![Pos { x: 20, y: 20 }, Pos { x: 19, y: 20 }],
        Pos { x: 21, y: 20 },
        1,
        0,
    );
    let state = s.play_state();
    assert_eq!(state, GameState::Play);
    assert_eq!(s.snake_vec[0], Pos { x: 21, y: 20 });
    assert_eq!(s.score, 1);
    assert_eq!(s.snake_vec.len(), 3);
    assert_eq!(s.snake_vec[1], Pos { x: 20, y: 20 });
    assert_eq!(s.snake_vec[2], Pos { x: 19, y: 20 });
    assert!(1 <= s.apple.x && s.apple.x < 40);
    assert!(1 <= s.apple.y && s.apple.y < 40);
}

#[test]
fn plain_move_without_apple() {
    let mut s = engine_with(
        vec![Pos { x: 10, y: 10 }, Pos { x: 9, y: 10 }],
        Pos { x: 30, y: 30 },
        1,
        0,
    );
    let state = s.play_state();
    assert_eq!(state, GameState::Play);
    assert_eq!(s.snake_vec, vec![Pos { x: 11, y: 10 }, Pos { x: 10, y: 10 }]);
    assert_eq!(s.score, 0);
    assert_eq!(s.apple, Pos { x: 30, y: 30 });
}

#[test]
fn self_collision_reports_game_over() {
    let mut s = engine_with(vec![Pos { x: 5, y: 5 }, Pos { x: 5, y: 5 }], Pos { x: 1, y: 1 }, 0, 0);
    let state = s.play_state();
    assert_eq!(state, GameState::GameOver);
    assert_eq!(s.game_state, GameState::GameOver);
    assert_eq!(s.snake_vec, vec![Pos { x: 5, y: 5 }, Pos { x: 5, y: 5 }]);
}

#[test]
fn reversal_into_neck_kills_long_snake() {
    let mut s = engine_with(
        vec![Pos { x: 6, y: 5 }, Pos { x: 5, y: 5 }, Pos { x: 4, y: 5 }],
        Pos { x: 30, y: 30 },
        1,
        0,
    );
    s.parse_event(Keyboard::Left);
    let state = s.play_state();
    assert_eq!(state, GameState::GameOver);
    assert_eq!(s.snake_vec, vec![Pos { x: 5, y: 5 }, Pos { x: 6, y: 5 }, Pos { x: 5, y: 5 }]);
}

#[test]
fn reversal_with_two_segments_survives() {
    let mut s = engine_with(
        vec![Pos { x: 6, y: 5 }, Pos { x: 5, y: 5 }],
        Pos { x: 30, y: 30 },
        1,
        0,
    );
    s.parse_event(Keyboard::Left);
    let state = s.play_state();
    assert_eq!(state, GameState::Play);
    assert_eq!(s.snake_vec, vec![Pos { x: 5, y: 5 }, Pos { x: 6, y: 5 }]);
}

#[test]
fn wrap_left_edge_latches() {
    let mut s = engine_with(
        vec![Pos { x: 1, y: 5 }, Pos { x: 2, y: 5 }],
        Pos { x: 30, y: 30 },
        -1,
        0,
    );
    assert_eq!(s.play_state(), GameState::Play);
    assert_eq!(s.snake_vec[0], Pos { x: 38, y: 5 });
    assert!(s.wrap);
    assert_eq!(s.play_state(), GameState::Play);
    assert_eq!(s.snake_vec[0], Pos { x: 37, y: 5 });
    assert!(!s.wrap);
}

#[test]
fn wrap_right_edge() {
    let mut s = engine_with(
        vec![Pos { x: 38, y: 5 }, Pos { x: 37, y: 5 }],
        Pos { x: 30, y: 30 },
        1,
        0,
    );
    assert_eq!(s.play_state(), GameState::Play);
    assert_eq!(s.snake_vec[0], Pos { x: 1, y: 5 });
    assert!(s.wrap);
    assert_eq!(s.play_state(), GameState::Play);
    assert_eq!(s.snake_vec[0], Pos { x: 2, y: 5 });
    assert!(!s.wrap);
}

#[test]
fn wrap_vertical_edges() {
    let mut s = engine_with(
        vec![Pos { x: 5, y: 1 }, Pos { x: 5, y: 2 }],
        Pos { x: 30, y: 30 },
        0,
        -1,
    );
    assert_eq!(s.play_state(), GameState::Play);
    assert_eq!(s.snake_vec[0], Pos { x: 5, y: 38 });
    assert!(s.wrap);
}

#[test]
fn latched_wrap_allows_reaching_the_edge() {
    // A wrap latched on the right edge followed by a reversal walks the
    // head onto column 0; from there an outward move keeps it in place, so
    // the head can never leave the grid.
    let mut s = engine_with(
        vec![Pos { x: 1, y: 5 }, Pos { x: 2, y: 5 }],
        Pos { x: 30, y: 30 },
        -1,
        0,
    );
    s.wrap = true;
    assert_eq!(s.play_state(), GameState::Play);
    assert_eq!(s.snake_vec[0], Pos { x: 0, y: 5 });
    assert!(!s.wrap);
    // Another outward tick keeps the head on column 0; the trailing segment
    // catches up with it, which the engine reports as a self-collision.
    assert_eq!(s.play_state(), GameState::GameOver);
    assert_eq!(s.snake_vec[0], Pos { x: 0, y: 5 });
}

#[test]
fn growth_per_eaten_apple() {
    let mut s = engine_with(
        vec![Pos { x: 10, y: 10 }, Pos { x: 9, y: 10 }],
        Pos { x: 11, y: 10 },
        1,
        0,
    );
    for round in 0..3usize {
        let head = s.snake_vec[0];
        s.apple = Pos { x: head.x + 1, y: head.y };
        assert_eq!(s.play_state(), GameState::Play);
        assert_eq!(s.snake_vec.len(), 3 + round);
        assert_eq!(s.score, (1 + round) as i32);
    }
}

#[test]
fn eating_at_rest_scores_without_growth() {
    let mut s = engine_with(vec![Pos { x: 5, y: 5 }], Pos { x: 5, y: 5 }, 0, 0);
    let state = s.play_state();
    assert_eq!(state, GameState::Play);
    assert_eq!(s.score, 1);
    assert_eq!(s.snake_vec.len(), 1);
    assert_ne!(s.apple, Pos { x: 0, y: 0 });
}

#[test]
fn score_saturates_at_integer_bound() {
    let mut s = engine_with(vec![Pos { x: 5, y: 5 }], Pos { x: 5, y: 5 }, 0, 0);
    s.score = i32::MAX;
    assert_eq!(s.play_state(), GameState::Play);
    assert_eq!(s.score, i32::MAX);
}

#[test]
fn new_engine_is_empty() {
    let s = Snake::new();
    assert_eq!(s.score, 0);
    assert_eq!(s.snake_vec.len(), 0);
    assert_eq!(s.game_state, GameState::Play);
    assert_eq!((s.velocity_x, s.velocity_y), (0, 0));
    assert!(!s.wrap);
}
