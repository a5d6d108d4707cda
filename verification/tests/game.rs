use asteroids::enemy::{Enemy, EnemyType};
use asteroids::game::{Game, GameAction, GameState};
use asteroids::game_settings::GameSettings;
use asteroids::projectile::Projectile;

fn enemy_at(x: i64, y: i64, radius: i64, enemy_type: EnemyType) -> Enemy {
    Enemy {
        dy: 500,
        dx: 500,
        id: 1_000_000,
        x,
        y,
        radius,
        reproduce_limit: 10_000,
        enemy_type,
        health: 1,
    }
}

fn projectile_at(x: i64, y: i64, hits: i32) -> Projectile {
    Projectile { id: 2_000_000, dx: 0, dy: 0, x, y, hits, damage: 1, radius: 20_000 }
}

fn running() -> Game {
    let mut game = Game::new();
    game.step(GameAction::Start).unwrap();
    // keep the field empty of newcomers for a while
    game.time_until_enemy_spawn = 1_000;
    game
}

/// Everything of a game that a test can compare.
fn snapshot(game: &Game) -> String {
    format!(
        "{:?} {:?} {:?} {} {} {} {} {} {} {:?} {:?} {:?}",
        game.id,
        game.shop,
        game.game_settings,
        game.score,
        game.coins,
        game.lives,
        game.time_until_next_shot,
        game.time_until_vulnerable,
        game.time_until_enemy_spawn,
        game.state,
        game.enemies,
        game.projectiles
    )
}

#[test]
fn new_game_is_not_running() {
    let game = Game::new();
    assert_eq!(game.id, None);
    assert_eq!(game.state, GameState::NotRunning);
    assert_eq!(game.score, 0);
    assert_eq!(game.coins, 0);
    assert_eq!(game.lives, 3);
    assert_eq!(game.time_until_next_shot, 0);
    assert_eq!(game.time_until_vulnerable, 0);
    assert_eq!(game.time_until_enemy_spawn, 0);
    assert!(game.enemies.is_empty());
    assert!(game.projectiles.is_empty());
    assert_eq!(game.game_settings, GameSettings::new());
    assert_eq!(game.shop.items.len(), 6);
    assert!(!game.is_invulnerable());
    assert!(game.has_room());
}

#[test]
fn default_settings() {
    let settings = GameSettings::new();
    assert_eq!(settings.projectile_speed, 5_000);
    assert_eq!(settings.asteroid_probability, 600);
    assert_eq!(settings.enemy_speed_multiplier, 2_000);
    assert_eq!(settings.coin_multiplier, 10);
    assert_eq!(settings.score_increase, 30);
    assert_eq!(settings.ship_visibility, 5_000);
    assert_eq!(settings.enemy_min_speed, 500);
    assert_eq!(settings.shoot_timeout, 70);
    assert_eq!(settings.max_lives, 3);
    assert_eq!((settings.field.width, settings.field.height), (1100, 700));
    assert_eq!((settings.ship.x, settings.ship.y), (550_000, 350_000));
    assert_eq!(settings.invulnerability_time, 100);
    assert_eq!(settings.enemy_spawn_timeout, 80_000);
    assert_eq!(settings.projectile_hits, 1);
}

#[test]
fn ids_are_handed_out_once() {
    let game = Game::new();
    let first = game.get_next_id();
    let second = game.get_next_id();
    let third = Game::new().get_next_id();
    assert_ne!(first, second);
    assert_ne!(second, third);
    assert_ne!(first, third);
}

#[test]
fn fresh_game_starts_buys_and_pays() {
    let mut game = Game::new();
    assert_eq!((game.coins, game.lives, game.state), (0, 3, GameState::NotRunning));
    game.step(GameAction::Start).unwrap();
    assert_eq!(game.state, GameState::Running);

    let before = snapshot(&game);
    let error = game.step(GameAction::BuyItem(0, false)).unwrap_err();
    assert_eq!(error.get_message(), Some("Not enough coins".to_string()));
    assert_eq!(snapshot(&game), before);
    assert_eq!(game.coins, 0);
    assert_eq!(game.state, GameState::Running);

    game.coins = 300;
    game.step(GameAction::BuyItem(0, false)).unwrap();
    assert_eq!(game.game_settings.shoot_timeout, 60);
    assert_eq!(game.coins, 90);
    assert_eq!(game.shop.items[0].level, 1);
    assert_eq!(game.state, GameState::Running);
}

#[test]
fn idle_actions_change_nothing() {
    let idle = [
        (GameState::Paused, GameAction::RotateShip(1_000, 2_000)),
        (GameState::Paused, GameAction::Shoot),
        (GameState::Paused, GameAction::Tick),
        (GameState::Paused, GameAction::Pause),
        (GameState::NotRunning, GameAction::Tick),
        (GameState::NotRunning, GameAction::Shoot),
        (GameState::NotRunning, GameAction::RotateShip(1_000, 2_000)),
        (GameState::NotRunning, GameAction::Pause),
        (GameState::NotRunning, GameAction::BuyItem(0, true)),
        (GameState::NotRunning, GameAction::BuyItem(0, false)),
        (GameState::NotRunning, GameAction::BuyItem(77, false)),
        (GameState::NotRunning, GameAction::End),
        (GameState::Running, GameAction::Start),
    ];
    for (state, action) in idle {
        let mut game = running();
        game.coins = 5_000;
        game.score = 12_345;
        game.time_until_next_shot = 7;
        game.time_until_vulnerable = 8;
        game.time_until_enemy_spawn = 9;
        game.enemies.push(enemy_at(100_000, 100_000, 30_000, EnemyType::Asteroid));
        game.projectiles.push(projectile_at(100_000, 100_000, 1));
        game.state = state;
        let before = snapshot(&game);
        assert!(game.step(action).is_ok());
        assert_eq!(snapshot(&game), before);
    }
}

#[test]
fn start_pause_and_end_change_the_state() {
    let mut game = Game::new();
    game.step(GameAction::Start).unwrap();
    assert_eq!(game.state, GameState::Running);
    game.step(GameAction::Pause).unwrap();
    assert_eq!(game.state, GameState::Paused);
    game.step(GameAction::Start).unwrap();
    assert_eq!(game.state, GameState::Running);
    game.step(GameAction::End).unwrap();
    assert_eq!(game.state, GameState::NotRunning);
    assert_eq!(game.lives, 0);

    let mut game = Game::new();
    game.step(GameAction::Start).unwrap();
    game.step(GameAction::Pause).unwrap();
    game.step(GameAction::End).unwrap();
    assert_eq!(game.state, GameState::NotRunning);
    assert_eq!(game.lives, 0);
}

#[test]
fn rotation_sets_the_direction_as_given() {
    let mut game = running();
    game.step(GameAction::RotateShip(-123_456, 7)).unwrap();
    assert_eq!((game.game_settings.ship.dx, game.game_settings.ship.dy), (-123_456, 7));
    assert_eq!((game.game_settings.ship.x, game.game_settings.ship.y), (550_000, 350_000));
    game.step(GameAction::RotateShip(i64::MIN, i64::MAX)).unwrap();
    assert_eq!((game.game_settings.ship.dx, game.game_settings.ship.dy), (i64::MIN, i64::MAX));
}

#[test]
fn shot_flies_where_the_ship_looks() {
    let mut game = running();
    game.step(GameAction::RotateShip(3_000, 4_000)).unwrap();
    game.step(GameAction::Shoot).unwrap();
    assert_eq!(game.projectiles.len(), 1);
    let projectile = game.projectiles[0];
    // three fifths and four fifths of the speed
    assert_eq!((projectile.dx, projectile.dy), (3_000, 4_000));
    // on the edge of the ship, 40 units from its centre
    assert_eq!((projectile.x, projectile.y), (550_000 + 24_000, 350_000 + 32_000));
    assert_eq!(projectile.hits, 1);
    assert_eq!(projectile.damage, 1);
    assert_eq!(projectile.radius, 20_000);
    assert_eq!(game.time_until_next_shot, 70);
}

#[test]
fn shot_against_both_axes() {
    let mut game = running();
    game.step(GameAction::RotateShip(-4_000, -3_000)).unwrap();
    game.step(GameAction::Shoot).unwrap();
    let projectile = game.projectiles[0];
    assert_eq!((projectile.dx, projectile.dy), (-4_000, -3_000));
    assert_eq!((projectile.x, projectile.y), (550_000 - 32_000, 350_000 - 24_000));
}

#[test]
fn shot_flies_on_along_the_direction_of_the_ship() {
    let mut game = running();
    game.step(GameAction::RotateShip(0, 9)).unwrap();
    game.step(GameAction::Shoot).unwrap();
    assert_eq!((game.projectiles[0].x, game.projectiles[0].y), (550_000, 390_000));
    game.step(GameAction::Tick).unwrap();
    assert_eq!((game.projectiles[0].x, game.projectiles[0].y), (550_000, 395_000));
}

#[test]
fn shot_straight_to_the_right() {
    let mut game = running();
    game.step(GameAction::RotateShip(250, 0)).unwrap();
    game.step(GameAction::Shoot).unwrap();
    let projectile = game.projectiles[0];
    assert_eq!((projectile.dx, projectile.dy), (5_000, 0));
    assert_eq!((projectile.x, projectile.y), (590_000, 350_000));
}

#[test]
fn shot_of_a_ship_that_looks_nowhere_rests_at_its_centre() {
    let mut game = running();
    game.step(GameAction::Shoot).unwrap();
    let projectile = game.projectiles[0];
    assert_eq!((projectile.dx, projectile.dy), (0, 0));
    assert_eq!((projectile.x, projectile.y), (550_000, 350_000));
}

#[test]
fn shot_with_the_largest_direction() {
    let mut game = running();
    game.step(GameAction::RotateShip(i64::MIN, i64::MIN)).unwrap();
    game.step(GameAction::Shoot).unwrap();
    let projectile = game.projectiles[0];
    assert!(projectile.dx < -3_500 && projectile.dx > -3_600);
    assert_eq!(projectile.dy, projectile.dx);
}

#[test]
fn second_shot_waits_for_the_cooldown() {
    let mut game = running();
    game.step(GameAction::RotateShip(1_000, 0)).unwrap();
    game.step(GameAction::Shoot).unwrap();
    game.step(GameAction::Shoot).unwrap();
    assert_eq!(game.projectiles.len(), 1);
    assert_eq!(game.time_until_next_shot, 70);
    for _ in 0..69 {
        game.step(GameAction::Tick).unwrap();
        game.step(GameAction::Shoot).unwrap();
    }
    assert_eq!(game.time_until_next_shot, 1);
    assert_eq!(game.projectiles.len(), 1);
    game.step(GameAction::Tick).unwrap();
    game.step(GameAction::Shoot).unwrap();
    assert_eq!(game.projectiles.len(), 2);
    assert_ne!(game.projectiles[0].id, game.projectiles[1].id);
}

#[test]
fn tick_counts_score_and_countdowns() {
    let mut game = running();
    game.time_until_next_shot = 2;
    game.time_until_vulnerable = 1;
    game.step(GameAction::Tick).unwrap();
    assert_eq!(game.score, 30);
    assert_eq!(game.time_until_next_shot, 1);
    assert_eq!(game.time_until_vulnerable, 0);
    assert_eq!(game.time_until_enemy_spawn, 999);
    game.step(GameAction::Tick).unwrap();
    assert_eq!(game.score, 60);
    assert_eq!(game.time_until_next_shot, 0);
    assert_eq!(game.time_until_vulnerable, 0);
    game.step(GameAction::Tick).unwrap();
    assert_eq!(game.time_until_next_shot, 0);
    assert_eq!(game.state, GameState::Running);
}

#[test]
fn first_tick_brings_an_enemy() {
    let mut game = Game::new();
    game.step(GameAction::Start).unwrap();
    game.step(GameAction::Tick).unwrap();
    assert_eq!(game.enemies.len(), 1);
    assert_eq!(game.time_until_enemy_spawn, 79);
    let enemy = game.enemies[0];
    assert_eq!(enemy.enemy_type, EnemyType::Asteroid);
    assert_eq!(enemy.health, 1);
    assert!(enemy.radius >= 20_000 && enemy.radius < 40_000);
    for _ in 0..79 {
        game.step(GameAction::Tick).unwrap();
    }
    assert_eq!(game.time_until_enemy_spawn, 0);
    let before = game.enemies.len();
    game.step(GameAction::Tick).unwrap();
    assert!(game.enemies.len() <= before + 1);
    assert_eq!(game.time_until_enemy_spawn, 79);
}

#[test]
fn spawn_timeout_shrinks_while_the_rounded_score_is_a_multiple_of_a_hundred() {
    let mut game = running();
    // the score rounds to zero for the first sixteen ticks
    game.step(GameAction::Tick).unwrap();
    assert_eq!(game.game_settings.enemy_spawn_timeout, 79_970);
    for _ in 0..15 {
        game.step(GameAction::Tick).unwrap();
    }
    assert_eq!(game.score, 480);
    assert_eq!(game.game_settings.enemy_spawn_timeout, 79_520);
    game.step(GameAction::Tick).unwrap();
    // 0.51 points round to one
    assert_eq!(game.score, 510);
    assert_eq!(game.game_settings.enemy_spawn_timeout, 79_520);
    game.score = 99_500 - 30;
    game.step(GameAction::Tick).unwrap();
    assert_eq!(game.game_settings.enemy_spawn_timeout, 79_490);
}

#[test]
fn spawn_timeout_stops_at_one_tick() {
    let mut game = running();
    game.game_settings.enemy_spawn_timeout = 1_010;
    game.step(GameAction::Tick).unwrap();
    assert_eq!(game.game_settings.enemy_spawn_timeout, 980);
    game.step(GameAction::Tick).unwrap();
    assert_eq!(game.game_settings.enemy_spawn_timeout, 980);
}

#[test]
fn spawn_countdown_starts_at_the_whole_ticks_of_the_timeout() {
    let mut game = running();
    game.time_until_enemy_spawn = 0;
    game.game_settings.enemy_spawn_timeout = 2_999 + 30;
    game.step(GameAction::Tick).unwrap();
    assert_eq!(game.game_settings.enemy_spawn_timeout, 2_999);
    assert_eq!(game.time_until_enemy_spawn, 2);
    assert_eq!(game.enemies.len(), 1);
}

#[test]
fn projectile_beyond_the_field_is_removed() {
    let mut game = running();
    let mut projectile = projectile_at(1_100_000 + 20_000 + 1_000, 350_000, 1);
    projectile.dx = 5_000;
    game.projectiles.push(projectile);
    game.step(GameAction::Tick).unwrap();
    assert!(game.projectiles.is_empty());
}

#[test]
fn projectile_in_the_field_flies_on() {
    let mut game = running();
    let mut projectile = projectile_at(1_000_000, 350_000, 1);
    projectile.dx = 5_000;
    projectile.dy = -1_000;
    game.projectiles.push(projectile);
    game.step(GameAction::Tick).unwrap();
    assert_eq!(game.projectiles.len(), 1);
    assert_eq!((game.projectiles[0].x, game.projectiles[0].y), (1_005_000, 349_000));
    assert_eq!(game.projectiles[0].id, 2_000_000);
}

#[test]
fn projectile_that_comes_back_into_the_field_stays() {
    let mut game = running();
    let mut projectile = projectile_at(1_121_000, 350_000, 1);
    projectile.dx = -5_000;
    game.projectiles.push(projectile);
    game.step(GameAction::Tick).unwrap();
    assert_eq!(game.projectiles.len(), 1);
}

#[test]
fn projectile_without_hits_is_removed() {
    let mut game = running();
    game.projectiles.push(projectile_at(100_000, 100_000, 0));
    game.projectiles.push(projectile_at(200_000, 100_000, 1));
    game.projectiles.push(projectile_at(300_000, 100_000, -1));
    game.step(GameAction::Tick).unwrap();
    assert_eq!(game.projectiles.len(), 1);
    assert_eq!(game.projectiles[0].x, 200_000);
}

#[test]
fn enemy_moves_and_leaves() {
    let mut game = running();
    let mut leaving = enemy_at(-59_400, 100_000, 30_000, EnemyType::Asteroid);
    leaving.dx = -500;
    game.enemies.push(leaving);
    game.enemies.push(enemy_at(100_000, 100_000, 30_000, EnemyType::Asteroid));
    game.step(GameAction::Tick).unwrap();
    assert_eq!(game.enemies.len(), 2);
    assert_eq!((game.enemies[0].x, game.enemies[0].y), (-59_900, 100_500));
    assert_eq!((game.enemies[1].x, game.enemies[1].y), (100_500, 100_500));
    game.step(GameAction::Tick).unwrap();
    assert_eq!(game.enemies.len(), 1);
    assert_eq!((game.enemies[0].x, game.enemies[0].y), (101_000, 101_000));
}

#[test]
fn hit_on_a_small_enemy_pays_and_wears_the_projectile() {
    let mut game = running();
    game.enemies.push(enemy_at(100_000, 100_000, 8_000, EnemyType::Ship));
    game.projectiles.push(projectile_at(100_000, 100_000, 2));
    game.step(GameAction::Tick).unwrap();
    // the reward of a ship is two, the multiplier ten
    assert_eq!(game.coins, 20);
    assert_eq!(game.projectiles.len(), 1);
    assert_eq!(game.projectiles[0].hits, 1);
    // the enemy stays, without health
    assert_eq!(game.enemies.len(), 1);
    assert_eq!(game.enemies[0].health, 0);
    assert_eq!((game.enemies[0].x, game.enemies[0].y), (100_500, 100_500));
    // hit again, it leaves nothing, and pays once more
    game.step(GameAction::Tick).unwrap();
    assert_eq!(game.coins, 40);
    assert!(game.enemies.is_empty());
    assert!(game.projectiles.is_empty());
}

#[test]
fn hit_on_a_large_enemy_breaks_it() {
    let mut game = running();
    game.enemies.push(enemy_at(100_000, 100_000, 30_000, EnemyType::Asteroid));
    game.projectiles.push(projectile_at(110_000, 100_000, 1));
    game.step(GameAction::Tick).unwrap();
    assert_eq!(game.coins, 10);
    assert!(game.projectiles.is_empty());
    assert!(game.enemies.len() == 2 || game.enemies.len() == 3);
    for piece in &game.enemies {
        assert_eq!(piece.radius, 15_000);
        assert_eq!(piece.reproduce_limit, 5_000);
        assert_eq!(piece.enemy_type, EnemyType::Asteroid);
        assert_ne!(piece.id, 1_000_000);
    }
}

#[test]
fn reward_grows_with_the_coin_multiplier() {
    let mut game = running();
    game.step(GameAction::BuyItem(3, true)).unwrap();
    game.step(GameAction::BuyItem(3, true)).unwrap();
    assert_eq!(game.game_settings.coin_multiplier, 12);
    game.enemies.push(enemy_at(100_000, 100_000, 8_000, EnemyType::Debris));
    game.projectiles.push(projectile_at(100_000, 100_000, 1));
    game.step(GameAction::Tick).unwrap();
    assert_eq!(game.coins, 48);
}

#[test]
fn projectile_hits_one_enemy_per_tick() {
    let mut game = running();
    game.enemies.push(enemy_at(100_000, 100_000, 8_000, EnemyType::Asteroid));
    game.enemies.push(enemy_at(101_000, 100_000, 8_000, EnemyType::Asteroid));
    game.projectiles.push(projectile_at(100_000, 100_000, 5));
    game.step(GameAction::Tick).unwrap();
    assert_eq!(game.coins, 10);
    assert_eq!(game.projectiles[0].hits, 4);
    assert_eq!(game.enemies.len(), 2);
    assert_eq!(game.enemies[0].health, 0);
    assert_eq!(game.enemies[1].health, 1);
}

#[test]
fn second_projectile_hits_the_second_enemy() {
    let mut game = running();
    game.enemies.push(enemy_at(100_000, 100_000, 8_000, EnemyType::Asteroid));
    game.enemies.push(enemy_at(101_000, 100_000, 8_000, EnemyType::Asteroid));
    game.projectiles.push(projectile_at(100_000, 100_000, 1));
    game.projectiles.push(projectile_at(100_000, 101_000, 3));
    game.step(GameAction::Tick).unwrap();
    assert_eq!(game.coins, 20);
    assert_eq!(game.enemies[0].health, 0);
    assert_eq!(game.enemies[1].health, 0);
    assert_eq!(game.projectiles.len(), 1);
    assert_eq!(game.projectiles[0].hits, 2);
}

#[test]
fn enemy_is_hit_by_the_first_projectile_that_touches_it() {
    let mut game = running();
    game.enemies.push(enemy_at(100_000, 100_000, 8_000, EnemyType::Asteroid));
    game.projectiles.push(projectile_at(500_000, 500_000, 3));
    game.projectiles.push(projectile_at(100_000, 100_000, 3));
    game.projectiles.push(projectile_at(100_000, 100_000, 3));
    game.step(GameAction::Tick).unwrap();
    let hits: Vec<i32> = game.projectiles.iter().map(|projectile| projectile.hits).collect();
    assert_eq!(hits, vec![3, 2, 3]);
}

#[test]
fn enemies_pass_untouched_without_projectiles() {
    let mut game = running();
    game.enemies.push(enemy_at(100_000, 100_000, 30_000, EnemyType::Asteroid));
    game.enemies.push(enemy_at(300_000, 100_000, 8_000, EnemyType::Ship));
    game.step(GameAction::Tick).unwrap();
    assert_eq!(game.coins, 0);
    assert_eq!(game.enemies.len(), 2);
    assert_eq!(game.enemies[0].radius, 30_000);
    assert_eq!(game.enemies[1].health, 1);
}

#[test]
fn enemy_on_the_ship_costs_a_life() {
    let mut game = running();
    game.enemies.push(enemy_at(550_000, 350_000, 30_000, EnemyType::Asteroid));
    game.enemies.push(enemy_at(100_000, 100_000, 30_000, EnemyType::Asteroid));
    game.step(GameAction::Tick).unwrap();
    assert_eq!(game.lives, 2);
    assert_eq!(game.time_until_vulnerable, 100);
    assert!(game.is_invulnerable());
    assert_eq!(game.state, GameState::Running);
    assert_eq!(game.enemies.len(), 1);
    assert_eq!(game.enemies[0].x, 100_500);
}

#[test]
fn invulnerable_ship_keeps_its_lives() {
    let mut game = running();
    game.time_until_vulnerable = 2;
    game.enemies.push(enemy_at(550_000, 350_000, 30_000, EnemyType::Asteroid));
    game.step(GameAction::Tick).unwrap();
    assert_eq!(game.lives, 3);
    assert_eq!(game.time_until_vulnerable, 1);
    // the enemy is gone all the same
    assert!(game.enemies.is_empty());
}

#[test]
fn ship_is_vulnerable_again_when_the_countdown_ends_in_the_tick() {
    let mut game = running();
    game.time_until_vulnerable = 1;
    game.enemies.push(enemy_at(550_000, 350_000, 30_000, EnemyType::Asteroid));
    game.step(GameAction::Tick).unwrap();
    assert_eq!(game.lives, 2);
    assert_eq!(game.time_until_vulnerable, 100);
}

#[test]
fn enemies_at_the_place_of_the_rammer_leave_with_it() {
    let mut game = running();
    let mut twin = enemy_at(550_000, 350_000, 5_000, EnemyType::Ship);
    twin.id = 5;
    game.enemies.push(enemy_at(100_000, 100_000, 30_000, EnemyType::Asteroid));
    game.enemies.push(enemy_at(550_000, 350_000, 30_000, EnemyType::Asteroid));
    game.enemies.push(enemy_at(560_000, 350_000, 30_000, EnemyType::Asteroid));
    game.enemies.push(twin);
    game.step(GameAction::Tick).unwrap();
    assert_eq!(game.lives, 2);
    let left: Vec<i64> = game.enemies.iter().map(|enemy| enemy.x).collect();
    // one collision is resolved per tick
    assert_eq!(left, vec![100_500, 560_500]);
}

#[test]
fn last_life_ends_the_game_within_the_tick() {
    let mut game = running();
    game.lives = 1;
    game.enemies.push(enemy_at(550_000, 350_000, 30_000, EnemyType::Asteroid));
    game.enemies.push(enemy_at(100_000, 100_000, 30_000, EnemyType::Asteroid));
    game.step(GameAction::Tick).unwrap();
    assert_eq!(game.lives, 0);
    assert_eq!(game.state, GameState::NotRunning);
    assert_eq!(game.time_until_vulnerable, 100);
    // the rammer is gone, the other enemy has moved on
    assert_eq!(game.enemies.len(), 1);
    assert_eq!((game.enemies[0].x, game.enemies[0].y), (100_500, 100_500));
    // the rest of the tick has run
    assert_eq!(game.score, 30);
    assert_eq!(game.time_until_enemy_spawn, 999);
}

#[test]
fn lives_never_go_negative_in_a_game_that_is_played_from_the_start() {
    let mut game = running();
    for _ in 0..5 {
        game.time_until_vulnerable = 0;
        game.enemies.push(enemy_at(550_000, 350_000, 30_000, EnemyType::Asteroid));
        game.step(GameAction::Tick).unwrap();
        assert!(game.lives >= 0);
        assert!(game.lives > 0 || game.state == GameState::NotRunning);
    }
    assert_eq!(game.lives, 0);
    assert_eq!(game.state, GameState::NotRunning);
}

#[test]
fn purchases_are_open_while_paused() {
    let mut game = running();
    game.coins = 1_000;
    game.step(GameAction::Pause).unwrap();
    game.step(GameAction::BuyItem(1, false)).unwrap();
    assert_eq!(game.coins, 1_000 - 252);
    assert_eq!(game.game_settings.projectile_speed, 7_500);
    assert_eq!(game.state, GameState::Paused);
}

#[test]
fn purchases_change_the_settings() {
    let mut game = running();
    for id in 0..6 {
        game.step(GameAction::BuyItem(id, true)).unwrap();
    }
    let settings = game.game_settings;
    assert_eq!(settings.shoot_timeout, 60);
    assert_eq!(settings.projectile_speed, 7_500);
    assert_eq!(settings.ship_visibility, 4_000);
    assert_eq!(settings.coin_multiplier, 11);
    assert_eq!(settings.projectile_hits, 2);
    assert_eq!(settings.invulnerability_time, 150);
    assert_eq!(game.coins, 0);
}

#[test]
fn ignored_coins_are_not_spent() {
    let mut game = running();
    game.coins = 77;
    game.step(GameAction::BuyItem(5, true)).unwrap();
    assert_eq!(game.coins, 77);
    assert_eq!(game.shop.items[5].level, 1);
}

#[test]
fn each_level_costs_its_price() {
    let mut game = running();
    game.coins = 10_000;
    game.step(GameAction::BuyItem(4, false)).unwrap();
    assert_eq!(game.coins, 10_000 - 630);
    game.step(GameAction::BuyItem(4, false)).unwrap();
    assert_eq!(game.coins, 10_000 - 630 - 1_260);
    let error = game.step(GameAction::BuyItem(4, false)).unwrap_err();
    assert_eq!(error.get_message(), Some("Item already at max level".to_string()));
    assert_eq!(game.coins, 10_000 - 630 - 1_260);
    assert_eq!(game.game_settings.projectile_hits, 3);
}

#[test]
fn unknown_item_fails_the_step() {
    let mut game = running();
    let before = snapshot(&game);
    let error = game.step(GameAction::BuyItem(6, true)).unwrap_err();
    assert_eq!(error.get_message(), Some("Item not found".to_string()));
    assert_eq!(snapshot(&game), before);
}

#[test]
fn piercing_shots_have_more_hits() {
    let mut game = running();
    game.step(GameAction::BuyItem(4, true)).unwrap();
    game.step(GameAction::BuyItem(1, true)).unwrap();
    game.step(GameAction::BuyItem(0, true)).unwrap();
    game.step(GameAction::RotateShip(0, 1)).unwrap();
    game.step(GameAction::Shoot).unwrap();
    assert_eq!(game.projectiles[0].hits, 2);
    assert_eq!((game.projectiles[0].dx, game.projectiles[0].dy), (0, 7_500));
    assert_eq!(game.time_until_next_shot, 60);
}

#[test]
fn room_for_a_tick_ends_with_the_range_of_the_coins() {
    let mut game = running();
    game.enemies.push(enemy_at(100_000, 100_000, 30_000, EnemyType::Asteroid));
    game.coins = i32::MAX - 40;
    assert!(game.has_room());
    game.coins = i32::MAX - 39;
    assert!(!game.has_room());
    game.coins = 0;
    game.lives = i32::MIN;
    assert!(!game.has_room());
    game.lives = 3;
    game.score = i64::MAX - 29;
    assert!(!game.has_room());
    game.score = i64::MAX - 30;
    assert!(game.has_room());
}

#[test]
fn game_that_is_started_without_lives_can_lose_more() {
    let mut game = running();
    game.step(GameAction::End).unwrap();
    assert_eq!((game.lives, game.state), (0, GameState::NotRunning));
    game.step(GameAction::Start).unwrap();
    assert_eq!((game.lives, game.state), (0, GameState::Running));
    game.enemies.push(enemy_at(550_000, 350_000, 30_000, EnemyType::Asteroid));
    game.step(GameAction::Tick).unwrap();
    assert_eq!((game.lives, game.state), (-1, GameState::Running));
}

#[test]
fn long_game_stays_valid() {
    let mut game = Game::new();
    assert!(game.is_valid());
    game.step(GameAction::Start).unwrap();
    game.game_settings.enemy_spawn_timeout = 3_000;
    let mut fired = 0;
    for tick in 0..3_000i64 {
        if game.state != GameState::Running {
            game.lives = 3;
            game.step(GameAction::Start).unwrap();
        }
        game.step(GameAction::RotateShip(1_000 - (tick % 2_000), 500 - (tick * 7 % 1_000))).unwrap();
        let before = game.projectiles.len();
        game.step(GameAction::Shoot).unwrap();
        fired += game.projectiles.len() - before;
        if game.step(GameAction::BuyItem((tick % 6) as u32, false)).is_ok() {
            assert!(game.coins >= 0);
        }
        assert!(game.has_room());
        let score = game.score;
        let coins = game.coins;
        game.step(GameAction::Tick).unwrap();
        assert!(game.is_valid());
        assert_eq!(game.score, score + 30);
        assert!(game.coins >= coins);
        assert!(game.projectiles.iter().all(|projectile| projectile.hits > 0));
        let mut ids: Vec<i64> = game.enemies.iter().map(|enemy| enemy.id).collect();
        ids.sort();
        ids.dedup();
        assert_eq!(ids.len(), game.enemies.len());
    }
    assert!(fired >= 3_000 / 70);
    assert!(game.score == 90_000);
}

#[test]
fn games_that_tests_build_are_valid() {
    let mut game = running();
    game.enemies.push(enemy_at(100_000, 100_000, 30_000, EnemyType::Asteroid));
    game.projectiles.push(projectile_at(100_000, 100_000, 1));
    game.coins = -5;
    game.lives = 0;
    assert!(game.is_valid());
    game.projectiles[0].hits = i32::MIN;
    assert!(!game.is_valid());
    game.projectiles[0].hits = 1;
    game.enemies[0].radius = -1;
    assert!(!game.is_valid());
    game.enemies[0].radius = 30_000;
    game.game_settings.shoot_timeout = 65;
    assert!(!game.is_valid());
    game.game_settings.shoot_timeout = 70;
    game.shop.items[0].max_level = 7;
    assert!(!game.is_valid());
    game.shop.items[0].max_level = 6;
    game.shop.items.pop();
    assert!(!game.is_valid());
}
