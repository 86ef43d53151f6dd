use shooter::{
    draw_line, Dir, Enemy, Key, Point, Shape, Shooter, State, ENEMY_SIZE, ENEMY_SPEED,
    HIT_TOLERANCE, LINE_WIDTH, LINE_X, PLAYER_SIZE, PLAYER_SPEED, PLAYER_X_POS, PLAYER_Y_MAX, SCREEN_HEIGHT,
    SCREEN_WIDTH, STEPS_PER_UNIT,
};

fn shooter_at(y: i64, dir: Dir) -> Shooter {
    Shooter { pos: Point { x: PLAYER_X_POS, y }, dir }
}

fn enemy_at_units(x: i32, y: i32) -> Enemy {
    Enemy::new(Point::at_units(x, y))
}

#[test]
fn constants_match_the_screen_in_units() {
    assert_eq!(STEPS_PER_UNIT, 3);
    assert_eq!(SCREEN_WIDTH, 800 * STEPS_PER_UNIT);
    assert_eq!(SCREEN_HEIGHT, 500 * STEPS_PER_UNIT);
    assert_eq!(PLAYER_SPEED, SCREEN_HEIGHT / 100);
    assert_eq!(PLAYER_X_POS, 60 * STEPS_PER_UNIT);
    assert_eq!(PLAYER_Y_MAX, 499 * STEPS_PER_UNIT);
    assert_eq!(ENEMY_SPEED * 150, SCREEN_WIDTH);
    assert_eq!(ENEMY_SIZE, 20 * STEPS_PER_UNIT);
    assert_eq!(HIT_TOLERANCE * 10, ENEMY_SIZE * 11);
}

#[test]
fn point_at_units_scales() {
    let p = Point::at_units(300, -7);
    assert_eq!(p, Point { x: 900, y: -21 });
}

#[test]
fn player_starts_in_lane_halfway_down() {
    let s = Shooter::new();
    assert_eq!(s.pos, Point::at_units(60, 250));
    assert_eq!(s.dir, Dir::Stationary);
}

#[test]
fn player_moves_by_speed() {
    let mut s = shooter_at(750, Dir::Up);
    s.update();
    assert_eq!(s.pos.y, 735);
    s.set_direction(Dir::Down);
    s.update();
    s.update();
    assert_eq!(s.pos.y, 765);
    s.set_direction(Dir::Stationary);
    s.update();
    assert_eq!(s.pos.y, 765);
    assert_eq!(s.dir, Dir::Stationary);
}

#[test]
fn player_is_clamped_for_every_direction_and_start() {
    let starts = [i64::MIN, -1000, -1, 0, 1, 14, 15, 750, 1484, 1485, 1498, 1499, 1500, 9999, i64::MAX];
    for &y in starts.iter() {
        for &d in [Dir::Up, Dir::Down, Dir::Stationary].iter() {
            let mut s = shooter_at(y, d);
            s.update();
            assert!(s.pos.y >= 0 && s.pos.y <= PLAYER_Y_MAX, "y {} dir {:?} -> {}", y, d, s.pos.y);
            assert_eq!(s.pos.x, PLAYER_X_POS);
        }
    }
}

#[test]
fn player_clamp_edges() {
    let mut s = shooter_at(5, Dir::Up);
    s.update();
    assert_eq!(s.pos.y, 0);
    let mut s = shooter_at(1490, Dir::Down);
    s.update();
    assert_eq!(s.pos.y, PLAYER_Y_MAX);
    let mut s = shooter_at(1485, Dir::Down);
    s.update();
    assert_eq!(s.pos.y, PLAYER_Y_MAX);
    let mut s = shooter_at(1482, Dir::Down);
    s.update();
    assert_eq!(s.pos.y, 1497);
    let mut s = shooter_at(1481, Dir::Down);
    s.update();
    assert_eq!(s.pos.y, 1496);
    let mut s = shooter_at(1500, Dir::Stationary);
    s.update();
    assert_eq!(s.pos.y, 1497);
    let mut s = shooter_at(1498, Dir::Stationary);
    s.update();
    assert_eq!(s.pos.y, 1497);
    let mut s = Shooter { pos: Point::at_units(60, 497), dir: Dir::Down };
    s.update();
    assert_eq!(s.pos, Point::at_units(60, 499));
}

#[test]
fn player_lane_never_changes() {
    let mut g = State::new();
    g.key_down_event(Key::Up);
    for _ in 0..200 {
        g.update();
        assert_eq!(g.player().pos.x, PLAYER_X_POS);
    }
    assert_eq!(g.player().pos.y, 0);
    g.key_down_event(Key::Down);
    for _ in 0..300 {
        g.update();
        assert_eq!(g.player().pos.x, PLAYER_X_POS);
    }
    assert_eq!(g.player().pos.y, PLAYER_Y_MAX);
}

#[test]
fn enemy_drifts_left_only() {
    let mut e = enemy_at_units(799, 250);
    for _ in 0..7 {
        e.update();
    }
    assert_eq!(e.pos.x, 799 * 3 - 7 * ENEMY_SPEED);
    assert_eq!(e.pos.y, 750);
}

#[test]
fn enemies_drift_n_times_speed_in_game() {
    let mut g = State::from_parts(
        Shooter::new(),
        vec![enemy_at_units(799, 100), enemy_at_units(10, 400)],
        0,
    );
    let n: i64 = 200;
    for _ in 0..n {
        g.update();
    }
    assert_eq!(g.enemies().len(), 2);
    assert_eq!(g.enemies()[0].pos, Point { x: 2397 - n * ENEMY_SPEED, y: 300 });
    assert_eq!(g.enemies()[1].pos, Point { x: 30 - n * ENEMY_SPEED, y: 1200 });
    assert!(g.enemies()[1].pos.x < 0);
    assert_eq!(g.score(), 0);
}

#[test]
fn new_game_layout() {
    let g = State::new();
    assert_eq!(g.player().pos, Point { x: 180, y: 750 });
    assert_eq!(g.enemies().clone(), vec![Enemy::new(Point::at_units(799, 250))]);
    assert_eq!(g.score(), 0);
}

#[test]
fn shoot_initial_state_clears_enemy() {
    let mut g = State::new();
    g.shoot();
    assert_eq!(g.score(), 1);
    assert!(g.enemies().is_empty());
}

#[test]
fn shoot_with_nothing_in_corridor_changes_nothing() {
    let enemies = vec![enemy_at_units(400, 100), enemy_at_units(500, 400)];
    let mut g = State::from_parts(shooter_at(750, Dir::Stationary), enemies.clone(), 3);
    g.shoot();
    assert_eq!(g.score(), 3);
    assert_eq!(g.enemies().clone(), enemies);
    assert_eq!(g.player(), shooter_at(750, Dir::Stationary));
}

#[test]
fn new_game_enemy_after_one_tick() {
    let mut g = State::new();
    g.update();
    assert_eq!(g.enemies()[0].pos, Point { x: 799 * 3 - ENEMY_SPEED, y: 750 });
    assert_eq!(g.player().pos, Point::at_units(60, 250));
}

#[test]
fn target_names_the_struck_enemy() {
    let g = State::from_parts(
        Shooter::new(),
        vec![enemy_at_units(500, 250), enemy_at_units(300, 100), enemy_at_units(300, 250)],
        0,
    );
    assert_eq!(g.target(), Some(2));
    let g = State::from_parts(Shooter::new(), vec![enemy_at_units(300, 100)], 0);
    assert_eq!(g.target(), None);
}

#[test]
fn miss_at_top_score_is_fine() {
    let mut g = State::from_parts(Shooter::new(), vec![enemy_at_units(300, 100)], u32::MAX);
    g.shoot();
    assert!(!g.key_down_event(Key::Space));
    assert_eq!(g.score(), u32::MAX);
    assert_eq!(g.enemies().len(), 1);
}

#[test]
fn shoot_with_no_enemies() {
    let mut g = State::from_parts(Shooter::new(), vec![], 0);
    g.shoot();
    assert_eq!(g.score(), 0);
    assert!(g.enemies().is_empty());
}

#[test]
fn shoot_single_enemy_in_corridor() {
    let mut g = State::from_parts(
        Shooter::new(),
        vec![enemy_at_units(400, 50), enemy_at_units(600, 255), enemy_at_units(300, 450)],
        0,
    );
    g.shoot();
    assert_eq!(g.score(), 1);
    assert_eq!(g.enemies().clone(), vec![enemy_at_units(400, 50), enemy_at_units(300, 450)]);
}

#[test]
fn shoot_removes_nearest_of_two() {
    let mut g = State::from_parts(
        Shooter::new(),
        vec![enemy_at_units(500, 250), enemy_at_units(300, 250)],
        0,
    );
    g.shoot();
    assert_eq!(g.score(), 1);
    assert_eq!(g.enemies().clone(), vec![enemy_at_units(500, 250)]);
    g.shoot();
    assert_eq!(g.score(), 2);
    assert!(g.enemies().is_empty());
}

#[test]
fn shoot_tie_removes_earliest() {
    let mut g = State::from_parts(
        Shooter::new(),
        vec![enemy_at_units(300, 240), enemy_at_units(300, 260)],
        0,
    );
    g.shoot();
    assert_eq!(g.enemies().clone(), vec![enemy_at_units(300, 260)]);
}

#[test]
fn corridor_band_is_inclusive() {
    // enemy at 300, band [278, 322]
    for &(py, hit) in [(320, true), (322, true), (323, false), (278, true), (277, false), (300, true)].iter() {
        let mut g = State::from_parts(
            Shooter { pos: Point::at_units(60, py), dir: Dir::Stationary },
            vec![enemy_at_units(400, 300)],
            0,
        );
        g.shoot();
        assert_eq!(g.score(), if hit { 1 } else { 0 }, "player at {}", py);
        assert_eq!(g.enemies().is_empty(), hit);
    }
}

#[test]
fn enemy_behind_player_can_be_struck() {
    let mut g = State::from_parts(Shooter::new(), vec![Enemy::new(Point { x: -500, y: 750 })], 0);
    g.shoot();
    assert_eq!(g.score(), 1);
}

#[test]
fn keys_drive_the_player_and_the_shot() {
    let mut g = State::new();
    assert!(!g.key_down_event(Key::Up));
    assert_eq!(g.player().dir, Dir::Up);
    g.key_up_event(Key::Up);
    assert_eq!(g.player().dir, Dir::Stationary);
    assert!(!g.key_down_event(Key::Down));
    assert_eq!(g.player().dir, Dir::Down);
    g.key_up_event(Key::Space);
    assert_eq!(g.player().dir, Dir::Down);
    g.key_up_event(Key::Up);
    assert_eq!(g.player().dir, Dir::Stationary);
    assert!(!g.key_down_event(Key::Other));
    assert_eq!(g.score(), 0);
    assert!(!g.key_down_event(Key::Space));
    assert_eq!(g.score(), 1);
    assert!(g.enemies().is_empty());
    assert!(g.key_down_event(Key::Q));
    assert_eq!(g.score(), 1);
}

#[test]
fn draw_lists_every_shape() {
    let g = State::from_parts(
        shooter_at(300, Dir::Up),
        vec![enemy_at_units(700, 10), enemy_at_units(500, 20)],
        7,
    );
    let shapes = g.draw();
    assert_eq!(
        shapes,
        vec![
            Shape::Line {
                from: Point { x: LINE_X, y: 0 },
                to: Point { x: LINE_X, y: SCREEN_HEIGHT },
                width: LINE_WIDTH,
            },
            Shape::Circle { center: Point { x: PLAYER_X_POS, y: 300 }, radius: PLAYER_SIZE },
            Shape::Square { center: Point { x: 2100, y: 30 }, side: ENEMY_SIZE },
            Shape::Square { center: Point { x: 1500, y: 60 }, side: ENEMY_SIZE },
            Shape::Score(7),
        ]
    );
    assert_eq!(LINE_X, 70 * STEPS_PER_UNIT);
    assert_eq!(draw_line(), shapes[0]);
    assert_eq!(g.draw_score(), Shape::Score(7));
}

#[test]
fn draw_leaves_the_game_unchanged() {
    let g = State::new();
    let first = g.draw();
    for _ in 0..5 {
        assert_eq!(g.draw(), first);
    }
    assert_eq!(g.player(), Shooter::new());
    assert_eq!(g.enemies().clone(), vec![Enemy::new(Point::at_units(799, 250))]);
    assert_eq!(g.score(), 0);
}
