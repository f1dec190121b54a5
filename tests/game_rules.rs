use dodge_core::{
    clamp_player_x, collide, inner_half_span, integrate, player_velocity, random_spawn_x, Enemy,
    GameState, Player, Point, Size, SpawnTimer, TickInput, Velocity, WindowSize, World,
    ENEMY_HEIGHT, ENEMY_SPAWN_PERIOD, ENEMY_SPEED, ENEMY_WIDTH, PLAYER_HEIGHT, PLAYER_SPEED,
    PLAYER_START_Y, PLAYER_WIDTH, UNITS_PER_PIXEL,
};

const PX: i64 = UNITS_PER_PIXEL;

fn window() -> WindowSize {
    WindowSize { width: 800 * PX, height: 600 * PX }
}

fn player_size() -> Size {
    Size { width: PLAYER_WIDTH, height: PLAYER_HEIGHT }
}

fn enemy_size() -> Size {
    Size { width: ENEMY_WIDTH, height: ENEMY_HEIGHT }
}

fn enemy_at(x: i64, y: i64) -> Enemy {
    Enemy { position: Point { x, y }, velocity: Velocity { x: 0, y: -ENEMY_SPEED } }
}

fn idle() -> TickInput {
    TickInput { elapsed: 0, left_held: false, right_held: false, restart_pressed: false }
}

#[test]
fn enemy_on_player_ends_game() {
    let mut world = World::new();
    world.enemies.push(enemy_at(0, -250 * PX));
    assert!(collide(
        Point { x: 0, y: -250 * PX },
        player_size(),
        Point { x: 0, y: -250 * PX },
        enemy_size()
    ));
    let report = world.step(idle(), window());
    assert!(report.game_over);
    assert_eq!(world.state, GameState::GameOver);
    assert_eq!(world.player, None);
    assert!(world.notice_shown);
    assert_eq!(world.enemies.len(), 1);
}

#[test]
fn enemy_beside_player_is_no_collision() {
    assert!(!collide(
        Point { x: 0, y: -250 * PX },
        player_size(),
        Point { x: 100 * PX, y: -250 * PX },
        enemy_size()
    ));
    let mut world = World::new();
    world.enemies.push(enemy_at(100 * PX, -250 * PX));
    assert!(!world.check_collisions());
    assert_eq!(world.state, GameState::Playing);
    assert!(world.player.is_some());
}

#[test]
fn overlap_is_symmetric_on_examples() {
    let cases = [
        (Point { x: 0, y: 0 }, Point { x: 44 * PX, y: 10 * PX }),
        (Point { x: 3, y: -7 }, Point { x: 45 * PX, y: 0 }),
        (Point { x: -20 * PX, y: 5 * PX }, Point { x: 20 * PX, y: -39 * PX }),
    ];
    for (a, b) in cases {
        assert_eq!(
            collide(a, player_size(), b, enemy_size()),
            collide(b, enemy_size(), a, player_size())
        );
    }
}

#[test]
fn touching_edges_do_not_collide() {
    // half widths 25 px and 20 px: centres 45 px apart touch exactly
    let a = Point { x: 0, y: 0 };
    assert!(!collide(a, player_size(), Point { x: 45 * PX, y: 0 }, enemy_size()));
    assert!(!collide(a, player_size(), Point { x: 0, y: -45 * PX }, enemy_size()));
    assert!(collide(a, player_size(), Point { x: 45 * PX - 1, y: 0 }, enemy_size()));
    assert!(collide(a, player_size(), Point { x: 0, y: -45 * PX + 1 }, enemy_size()));
}

#[test]
fn integrate_moves_by_speed_times_time() {
    let p = integrate(Point { x: 0, y: 0 }, Velocity { x: 500, y: -300 }, 16_000);
    assert_eq!(p, Point { x: 8 * PX, y: -4_800_000 });
    let q = integrate(Point { x: 7, y: -9 }, Velocity { x: 500, y: -300 }, 0);
    assert_eq!(q, Point { x: 7, y: -9 });
}

#[test]
fn integrate_saturates_at_the_limits() {
    let p = integrate(Point { x: i64::MAX - 10, y: i64::MIN + 10 }, Velocity { x: 500, y: -300 }, 1_000);
    assert_eq!(p, Point { x: i64::MAX, y: i64::MIN });
    let q = integrate(Point { x: 0, y: 0 }, Velocity { x: i64::MIN, y: i64::MAX }, u64::MAX);
    assert_eq!(q, Point { x: i64::MIN, y: i64::MAX });
}

#[test]
fn keys_give_player_velocity() {
    assert_eq!(player_velocity(true, false), Velocity { x: -PLAYER_SPEED, y: 0 });
    assert_eq!(player_velocity(false, true), Velocity { x: PLAYER_SPEED, y: 0 });
    assert_eq!(player_velocity(true, true), Velocity { x: 0, y: 0 });
    assert_eq!(player_velocity(false, false), Velocity { x: 0, y: 0 });
}

#[test]
fn player_is_clamped_to_window() {
    assert_eq!(inner_half_span(800 * PX, PLAYER_WIDTH), 375 * PX);
    assert_eq!(clamp_player_x(1_000 * PX, 800 * PX), 375 * PX);
    assert_eq!(clamp_player_x(-1_000 * PX, 800 * PX), -375 * PX);
    assert_eq!(clamp_player_x(12 * PX, 800 * PX), 12 * PX);
    assert_eq!(clamp_player_x(5 * PX, PLAYER_WIDTH), 0);
}

#[test]
fn player_held_right_for_long_stops_at_edge() {
    let mut world = World::new();
    let input = TickInput { elapsed: 10_000_000, left_held: false, right_held: true, restart_pressed: false };
    world.step(input, window());
    let p = world.player.unwrap();
    assert_eq!(p.position.x, 375 * PX);
    assert_eq!(p.velocity, Velocity { x: PLAYER_SPEED, y: 0 });
    let input = TickInput { elapsed: 100_000, left_held: true, right_held: false, restart_pressed: false };
    world.step(input, window());
    assert_eq!(world.player.unwrap().position.x, 325 * PX);
}

#[test]
fn timer_fires_at_period_and_keeps_remainder() {
    let mut t = SpawnTimer::new(ENEMY_SPAWN_PERIOD);
    assert!(!t.tick(500_000));
    assert_eq!(t.elapsed, 500_000);
    assert!(t.tick(500_000));
    assert_eq!(t.elapsed, 250_000);
    assert!(t.tick(500_000));
    assert_eq!(t.elapsed, 0);
}

#[test]
fn timer_fires_once_for_a_long_tick() {
    let mut t = SpawnTimer::new(ENEMY_SPAWN_PERIOD);
    assert!(t.tick(2_000_000));
    assert_eq!(t.elapsed, 500_000);
    assert!(!t.tick(0));
}

#[test]
fn spawn_count_does_not_depend_on_split() {
    let splits: [&[u64]; 3] = [
        &[750_000, 750_000, 750_000, 100_000],
        &[50_000; 47],
        &[400_000, 700_000, 10_000, 640_000, 600_000],
    ];
    for deltas in splits {
        let total: u64 = deltas.iter().sum();
        assert_eq!(total, 2_350_000);
        let mut t = SpawnTimer::new(ENEMY_SPAWN_PERIOD);
        let fired = deltas.iter().filter(|d| t.tick(**d)).count();
        assert_eq!(fired, 3);
    }
}

#[test]
fn spawner_adds_enemy_on_top_edge() {
    let mut world = World::new();
    assert!(!world.enemy_spawner(700_000, window()));
    assert!(world.enemies.is_empty());
    assert!(world.enemy_spawner(50_000, window()));
    assert_eq!(world.enemies.len(), 1);
    let e = world.enemies[0];
    assert_eq!(e.position.y, 300 * PX);
    assert_eq!(e.velocity, Velocity { x: 0, y: -ENEMY_SPEED });
    assert!(-380 * PX <= e.position.x && e.position.x <= 380 * PX);
}

#[test]
fn random_spawn_x_stays_in_range_and_varies() {
    let w = 800 * PX;
    let mut seen = Vec::new();
    for _ in 0..200 {
        let x = random_spawn_x(w);
        assert!(-380 * PX <= x && x <= 380 * PX);
        seen.push(x);
    }
    assert!(seen.iter().any(|x| *x != seen[0]));
    assert_eq!(random_spawn_x(ENEMY_WIDTH), 0);
}

#[test]
fn spawned_enemy_falls() {
    let mut world = World::new();
    world.spawn_enemy(10 * PX, 600 * PX);
    world.move_entities(1_000_000, 800 * PX);
    assert_eq!(world.enemies[0].position, Point { x: 10 * PX, y: 0 });
    let e = Enemy::spawned_at(-3, 601);
    assert_eq!(e.position, Point { x: -3, y: 300 });
}

#[test]
fn idle_tick_changes_nothing() {
    let mut world = World::new();
    world.enemies.push(enemy_at(100 * PX, 200 * PX));
    world.spawn_timer.elapsed = 300_000;
    let report = world.step(idle(), window());
    assert_eq!(report.spawned, false);
    assert_eq!(report.game_over, false);
    assert_eq!(world.state, GameState::Playing);
    assert_eq!(world.player.unwrap().position, Point { x: 0, y: PLAYER_START_Y });
    assert_eq!(world.enemies[0].position, Point { x: 100 * PX, y: 200 * PX });
    assert_eq!(world.spawn_timer.elapsed, 300_000);
}

#[test]
fn game_over_waits_for_restart_key() {
    let mut world = World::new();
    world.enemies.push(enemy_at(0, PLAYER_START_Y));
    world.enemies.push(enemy_at(200 * PX, 0));
    assert!(world.step(idle(), window()).game_over);
    let moving = TickInput { elapsed: 800_000, left_held: true, right_held: false, restart_pressed: false };
    let report = world.step(moving, window());
    assert_eq!(report, dodge_core::TickReport { spawned: false, game_over: false, restarted: false });
    assert_eq!(world.state, GameState::GameOver);
    assert_eq!(world.enemies.len(), 2);
    assert_eq!(world.enemies[1].position, Point { x: 200 * PX, y: 0 });
    assert!(!world.restart_game(false));
    let restart = TickInput { elapsed: 0, left_held: false, right_held: false, restart_pressed: true };
    let report = world.step(restart, window());
    assert!(report.restarted);
    assert_eq!(world.state, GameState::Playing);
    assert!(world.enemies.is_empty());
    assert!(!world.notice_shown);
    assert_eq!(world.player, Some(Player::at_start()));
    assert_eq!(
        Player::at_start(),
        Player { position: Point { x: 0, y: -250 * PX }, velocity: Velocity { x: 0, y: 0 } }
    );
}

#[test]
fn restart_key_while_playing_does_nothing() {
    let mut world = World::new();
    assert!(!world.restart_game(true));
    let restart = TickInput { elapsed: 0, left_held: false, right_held: false, restart_pressed: true };
    assert!(!world.step(restart, window()).restarted);
    assert_eq!(world.state, GameState::Playing);
}

#[test]
fn despawn_clears_enemies_and_notice() {
    let mut world = World::new();
    world.enemies.push(enemy_at(0, 0));
    world.game_over_message();
    assert!(world.notice_shown);
    world.despawn_all_entities();
    assert!(world.enemies.is_empty());
    assert!(!world.notice_shown);
    world.player = None;
    world.setup_game();
    assert_eq!(world.player, Some(Player::at_start()));
}

#[test]
fn movement_input_sets_player_velocity() {
    let mut world = World::new();
    world.player_movement(false, true);
    assert_eq!(world.player.unwrap().velocity, Velocity { x: PLAYER_SPEED, y: 0 });
    world.player = None;
    world.player_movement(true, false);
    assert_eq!(world.player, None);
}
