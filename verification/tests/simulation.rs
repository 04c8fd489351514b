use snake_sim::geometry::{Direction, Pos};
use snake_sim::sim::{ConfigError, GameState, SnakeSimulation};
use rand::SeedableRng;

fn err_of(r: Result<SnakeSimulation, ConfigError>) -> ConfigError {
    match r {
        Err(e) => e,
        Ok(_) => panic!("expected construction to fail"),
    }
}

fn running_snake(body: Vec<Pos>, direction: Direction, fruit: Pos) -> SnakeSimulation {
    SnakeSimulation {
        half_width: 5,
        half_height: 5,
        cell_size: 1,
        head: Pos { x: 0, y: 0 },
        direction: Some(direction),
        body,
        fruit,
        state: GameState::Running,
        rng: rand::rngs::SmallRng::seed_from_u64(1),
    }
}

#[test]
fn idle_tick_keeps_head_in_place() {
    // grid half-extents (2,2), cell size 1, no direction set yet
    let mut s = SnakeSimulation::with_fruit(2, 2, 1, 3, Pos { x: 2, y: 2 }).unwrap();
    s.tick();
    assert_eq!(s.head, Pos { x: 0, y: 0 });
    assert!(!s.is_game_over());
    assert_eq!(s.body.len(), 0);
}

#[test]
fn right_run_reaches_boundary_then_dies() {
    // half-width 2: two ticks reach the rightmost column alive, the next
    // tick runs into the wall
    let mut s = SnakeSimulation::with_fruit(2, 2, 1, 3, Pos { x: 2, y: 2 }).unwrap();
    s.set_direction(Direction::Right);
    s.tick();
    assert_eq!(s.head, Pos { x: 1, y: 0 });
    assert!(!s.is_game_over());
    s.tick();
    assert_eq!(s.head, Pos { x: 2, y: 0 });
    assert!(!s.is_game_over());
    s.tick();
    assert!(s.is_game_over());
}

#[test]
fn right_run_with_wider_grid_survives_three_ticks() {
    // half-width 3: after three ticks the head sits on the boundary cell,
    // still alive; a fourth tick ends the game
    let mut s = SnakeSimulation::with_fruit(3, 3, 1, 3, Pos { x: 3, y: 3 }).unwrap();
    s.set_direction(Direction::Right);
    s.tick();
    s.tick();
    s.tick();
    assert_eq!(s.head, Pos { x: 3, y: 0 });
    assert!(!s.is_game_over());
    s.tick();
    assert!(s.is_game_over());
}

#[test]
fn pickup_grows_body_and_relocates_fruit() {
    // fruit at (1,0), head at (0,0) moving right with an empty body
    let mut s = SnakeSimulation::with_fruit(5, 5, 1, 11, Pos { x: 1, y: 0 }).unwrap();
    s.set_direction(Direction::Right);
    s.tick();
    assert_eq!(s.head, Pos { x: 1, y: 0 });
    assert_eq!(s.body.len(), 1);
    // the new segment fills the cell the head vacated
    assert_eq!(s.body[0], Pos { x: 0, y: 0 });
    // the fruit moved off the consumed cell and stayed on the grid
    assert_ne!(s.fruit, Pos { x: 1, y: 0 });
    assert!(s.fruit.x >= -5 && s.fruit.x <= 5);
    assert!(s.fruit.y >= -5 && s.fruit.y <= 5);
    assert!(!s.is_game_over());
}

#[test]
fn segment_count_unchanged_without_pickup() {
    let mut s = SnakeSimulation::with_fruit(5, 5, 1, 11, Pos { x: 1, y: 0 }).unwrap();
    s.set_direction(Direction::Right);
    s.tick();
    assert_eq!(s.body.len(), 1);
    // steer away from wherever the fruit went, so no second pickup happens
    let toward_top = s.fruit != (Pos { x: 1, y: 1 });
    s.set_direction(if toward_top { Direction::Up } else { Direction::Down });
    s.tick();
    assert_eq!(s.body.len(), 1);
    assert!(!s.is_game_over());
}

#[test]
fn segments_follow_their_predecessors() {
    let mut s = running_snake(
        vec![Pos { x: -1, y: 0 }, Pos { x: -2, y: 0 }],
        Direction::Right,
        Pos { x: 5, y: 5 },
    );
    s.tick();
    assert_eq!(s.head, Pos { x: 1, y: 0 });
    assert_eq!(s.body, vec![Pos { x: 0, y: 0 }, Pos { x: -1, y: 0 }]);
    assert!(!s.is_game_over());
    s.set_direction(Direction::Up);
    s.tick();
    assert_eq!(s.head, Pos { x: 1, y: 1 });
    assert_eq!(s.body, vec![Pos { x: 1, y: 0 }, Pos { x: 0, y: 0 }]);
    assert!(!s.is_game_over());
}

#[test]
fn reversal_with_two_segments_is_fatal() {
    let mut s = running_snake(
        vec![Pos { x: -1, y: 0 }, Pos { x: -2, y: 0 }],
        Direction::Right,
        Pos { x: 5, y: 5 },
    );
    s.set_direction(Direction::Left);
    s.tick();
    assert!(s.is_game_over());
}

#[test]
fn reversal_with_one_segment_survives() {
    // with a single segment the head moves into the cell the segment is
    // leaving, so no cells coincide after the shift
    let mut s = running_snake(vec![Pos { x: -1, y: 0 }], Direction::Right, Pos { x: 5, y: 5 });
    s.set_direction(Direction::Left);
    s.tick();
    assert_eq!(s.head, Pos { x: -1, y: 0 });
    assert_eq!(s.body, vec![Pos { x: 0, y: 0 }]);
    assert!(!s.is_game_over());
}

#[test]
fn walls_kill_in_every_direction() {
    let cases = [
        (Pos { x: 5, y: 0 }, Direction::Right),
        (Pos { x: -5, y: 0 }, Direction::Left),
        (Pos { x: 0, y: 5 }, Direction::Up),
        (Pos { x: 0, y: -5 }, Direction::Down),
    ];
    for (start, dir) in cases {
        let mut s = running_snake(Vec::new(), dir, Pos { x: 3, y: 3 });
        s.head = start;
        s.tick();
        assert!(s.is_game_over());
    }
}

#[test]
fn head_stays_on_grid_while_running() {
    let mut s = SnakeSimulation::with_fruit(2, 2, 1, 17, Pos { x: 2, y: 2 }).unwrap();
    s.set_direction(Direction::Left);
    while !s.is_game_over() {
        assert!(s.head.x >= -2 && s.head.x <= 2);
        assert!(s.head.y >= -2 && s.head.y <= 2);
        s.tick();
    }
}

#[test]
fn fruit_stays_on_grid_and_off_the_head_for_many_seeds() {
    for seed in 0..60u64 {
        let s = SnakeSimulation::new(3, 3, 1, seed).unwrap();
        assert!(s.fruit.x >= -3 && s.fruit.x <= 3);
        assert!(s.fruit.y >= -3 && s.fruit.y <= 3);
        assert_ne!(s.fruit, Pos { x: 0, y: 0 });

        let mut t = SnakeSimulation::with_fruit(3, 3, 1, seed, Pos { x: 1, y: 0 }).unwrap();
        t.set_direction(Direction::Right);
        t.tick();
        assert!(t.fruit.x >= -3 && t.fruit.x <= 3);
        assert!(t.fruit.y >= -3 && t.fruit.y <= 3);
        assert_ne!(t.fruit, Pos { x: 1, y: 0 });
    }
}

#[test]
fn operations_are_inert_after_game_over() {
    let mut s = running_snake(Vec::new(), Direction::Right, Pos { x: 3, y: 3 });
    s.head = Pos { x: 5, y: 0 };
    s.tick();
    assert!(s.is_game_over());
    let head = s.head;
    let body = s.body.clone();
    let fruit = s.fruit;
    s.set_direction(Direction::Up);
    s.tick();
    assert_eq!(s.head, head);
    assert_eq!(s.body, body);
    assert_eq!(s.fruit, fruit);
    assert!(s.is_game_over());
    assert_eq!(s.direction, Some(Direction::Right));
}

#[test]
fn positions_scale_by_cell_size() {
    // a 50-unit cell, as a sprite-based renderer would configure
    let mut s = SnakeSimulation::with_fruit(5, 5, 50, 11, Pos { x: 1, y: 0 }).unwrap();
    s.set_direction(Direction::Right);
    s.tick();
    assert_eq!(s.head_position(), Pos { x: 50, y: 0 });
    let body = s.body_positions();
    assert_eq!(body.len(), 1);
    assert_eq!(body[0], Pos { x: 0, y: 0 });
    let fruit = s.fruit_position();
    assert_eq!(fruit, Pos { x: s.fruit.x * 50, y: s.fruit.y * 50 });
}

#[test]
fn construction_rejects_bad_configuration() {
    assert_eq!(
        err_of(SnakeSimulation::new(0, 5, 1, 1)),
        ConfigError::HalfWidthOutOfRange
    );
    assert_eq!(
        err_of(SnakeSimulation::new(5, -1, 1, 1)),
        ConfigError::HalfHeightOutOfRange
    );
    assert_eq!(
        err_of(SnakeSimulation::new(5, 5, 0, 1)),
        ConfigError::CellSizeOutOfRange
    );
    assert_eq!(
        err_of(SnakeSimulation::new(1_000_001, 5, 1, 1)),
        ConfigError::HalfWidthOutOfRange
    );
    assert_eq!(
        err_of(SnakeSimulation::with_fruit(5, 5, 1, 1, Pos { x: 6, y: 0 })),
        ConfigError::FruitOutOfBounds
    );
    assert_eq!(
        err_of(SnakeSimulation::with_fruit(5, 5, 1, 1, Pos { x: 0, y: 0 })),
        ConfigError::FruitOnHead
    );
    assert!(SnakeSimulation::new(5, 5, 1, 1).is_ok());
}

#[test]
fn last_direction_set_wins() {
    let mut s = SnakeSimulation::with_fruit(5, 5, 1, 3, Pos { x: 5, y: 5 }).unwrap();
    s.set_direction(Direction::Right);
    s.set_direction(Direction::Up);
    s.tick();
    assert_eq!(s.head, Pos { x: 0, y: 1 });
}
