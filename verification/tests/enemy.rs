use asteroids::enemy::arrival::{asteroid_chance, entry_position, ODDS};
use asteroids::enemy::speed::pick_speed;
use asteroids::enemy::{Enemy, EnemyType};
use asteroids::game_settings::field::Field;
use asteroids::game_settings::GameSettings;
use unique_id::sequence::SequenceGenerator;

fn enemy(radius: i64, reproduce_limit: i64, enemy_type: EnemyType, health: i32) -> Enemy {
    Enemy {
        dy: 700,
        dx: -900,
        id: 4711,
        x: 200_000,
        y: 300_000,
        radius,
        reproduce_limit,
        enemy_type,
        health,
    }
}

fn magnitude(value: i64) -> i64 {
    if value < 0 {
        -value
    } else {
        value
    }
}

#[test]
fn reward_depends_on_the_type() {
    assert_eq!(enemy(30_000, 10_000, EnemyType::Asteroid, 1).get_coins(), 1);
    assert_eq!(enemy(30_000, 10_000, EnemyType::Ship, 1).get_coins(), 2);
    assert_eq!(enemy(30_000, 10_000, EnemyType::Debris, 1).get_coins(), 4);
}

#[test]
fn dead_enemy_leaves_nothing() {
    let settings = GameSettings::new();
    let dead = enemy(30_000, 10_000, EnemyType::Asteroid, 0);
    assert!(dead.take_damage(&settings, 1, SequenceGenerator::default()).is_empty());
    let deader = enemy(5_000, 10_000, EnemyType::Asteroid, -3);
    assert!(deader.take_damage(&settings, 1, SequenceGenerator::default()).is_empty());
}

#[test]
fn small_enemy_loses_health_and_stays() {
    let settings = GameSettings::new();
    let small = enemy(8_000, 10_000, EnemyType::Ship, 3);
    let result = small.take_damage(&settings, 2, SequenceGenerator::default());
    assert_eq!(result.len(), 1);
    let left = result[0];
    assert_eq!(left.health, 1);
    assert_eq!(left.id, 4711);
    assert_eq!((left.x, left.y, left.dx, left.dy), (200_000, 300_000, -900, 700));
    assert_eq!(left.radius, 8_000);
    assert_eq!(left.reproduce_limit, 10_000);
    assert_eq!(left.enemy_type, EnemyType::Ship);
}

#[test]
fn enemy_at_its_limit_does_not_split() {
    let settings = GameSettings::new();
    let at_limit = enemy(10_000, 10_000, EnemyType::Asteroid, 1);
    let result = at_limit.take_damage(&settings, 1, SequenceGenerator::default());
    assert_eq!(result.len(), 1);
    // the enemy is returned although it has no health left
    assert_eq!(result[0].health, 0);
}

#[test]
fn small_enemy_can_be_left_with_negative_health() {
    let settings = GameSettings::new();
    let small = enemy(1_000, 10_000, EnemyType::Asteroid, 1);
    let result = small.take_damage(&settings, 5, SequenceGenerator::default());
    assert_eq!(result.len(), 1);
    assert_eq!(result[0].health, -4);
}

#[test]
fn enemy_with_radius_30_and_limit_10_splits() {
    let settings = GameSettings::new();
    let parent = enemy(30_000, 10_000, EnemyType::Asteroid, 1);
    for _ in 0..200 {
        let children = parent.take_damage(&settings, 1, SequenceGenerator::default());
        assert!(children.len() >= 2 && children.len() <= 4);
        assert!(children.len() == 2 || children.len() == 3);
        for child in &children {
            assert_eq!(child.radius, 15_000);
            assert_eq!(child.reproduce_limit, 5_000);
            assert_eq!(child.health, 0);
            assert_eq!(child.enemy_type, EnemyType::Asteroid);
            assert!(child.x >= 200_000 - 15_000 && child.x < 200_000 + 15_000);
            assert!(child.y >= 300_000 - 15_000 && child.y < 300_000 + 15_000);
            assert!(magnitude(child.dx) >= 500 && magnitude(child.dx) <= 2_000);
            assert!(magnitude(child.dy) >= 500 && magnitude(child.dy) <= 2_000);
            assert_ne!(child.id, parent.id);
        }
        for (i, a) in children.iter().enumerate() {
            for b in &children[i + 1..] {
                assert_ne!(a.id, b.id);
            }
        }
    }
}

#[test]
fn split_ignores_the_damage() {
    let settings = GameSettings::new();
    let parent = enemy(30_000, 10_000, EnemyType::Asteroid, 9);
    let children = parent.take_damage(&settings, 1000, SequenceGenerator::default());
    assert!(children.len() >= 2);
    assert!(children.iter().all(|child| child.health == 4));
}

#[test]
fn two_pieces_are_no_more_than_the_whole() {
    let settings = GameSettings::new();
    let parent = enemy(30_001, 10_000, EnemyType::Asteroid, 7);
    for _ in 0..200 {
        let children = parent.take_damage(&settings, 1, SequenceGenerator::default());
        let radius: i64 = children.iter().map(|child| child.radius).sum();
        let health: i32 = children.iter().map(|child| child.health).sum();
        assert!(children.iter().all(|child| child.radius == 15_000 && child.health == 3));
        if children.len() == 2 {
            assert!(radius <= parent.radius);
            assert!(health <= parent.health);
        } else {
            assert_eq!(children.len(), 3);
            assert_eq!(radius, 45_000);
            assert_eq!(health, 9);
        }
    }
}

#[test]
fn ship_breaks_into_debris() {
    let settings = GameSettings::new();
    let parent = enemy(30_000, 10_000, EnemyType::Ship, 1);
    let children = parent.take_damage(&settings, 1, SequenceGenerator::default());
    assert!(children.len() >= 2);
    assert!(children.iter().all(|child| child.enemy_type == EnemyType::Debris));
}

#[test]
fn debris_breaks_into_debris() {
    let settings = GameSettings::new();
    let parent = enemy(30_000, 10_000, EnemyType::Debris, 1);
    let children = parent.take_damage(&settings, 1, SequenceGenerator::default());
    assert!(children.iter().all(|child| child.enemy_type == EnemyType::Debris));
}

#[test]
fn tiny_enemy_splits_in_place() {
    let settings = GameSettings::new();
    let parent = enemy(1, 0, EnemyType::Asteroid, 1);
    let children = parent.take_damage(&settings, 1, SequenceGenerator::default());
    assert!(children.len() >= 2);
    assert!(children.iter().all(|child| (child.x, child.y, child.radius) == (200_000, 300_000, 0)));
}

#[test]
fn both_numbers_of_pieces_occur() {
    let settings = GameSettings::new();
    let parent = enemy(30_000, 10_000, EnemyType::Asteroid, 1);
    let mut seen = [false; 5];
    for _ in 0..500 {
        seen[parent.take_damage(&settings, 1, SequenceGenerator::default()).len()] = true;
    }
    assert_eq!(seen, [false, false, true, true, false]);
}

#[test]
fn odds_of_an_asteroid_fall_with_the_score() {
    let settings = GameSettings::new();
    assert_eq!(asteroid_chance(&settings, 0), ODDS);
    assert_eq!(asteroid_chance(&settings, 1), 999_999);
    // 300 points
    assert_eq!(asteroid_chance(&settings, 300_000), 700_000);
    assert_eq!(asteroid_chance(&settings, 599_999), 400_001);
    // from 600 points on the odds stay at four in ten
    assert_eq!(asteroid_chance(&settings, 600_000), 400_000);
    assert_eq!(asteroid_chance(&settings, 5_000_000), 400_000);
    assert_eq!(asteroid_chance(&settings, i64::MAX), 400_000);
}

#[test]
fn odds_follow_the_settings() {
    let mut settings = GameSettings::new();
    settings.asteroid_probability = 1_000;
    assert_eq!(asteroid_chance(&settings, 1_000_000), 0);
    settings.asteroid_probability = 0;
    assert_eq!(asteroid_chance(&settings, 1_000_000), ODDS);
}

#[test]
fn first_enemies_are_asteroids() {
    let settings = GameSettings::new();
    for _ in 0..200 {
        assert_eq!(EnemyType::new(&settings, 0), EnemyType::Asteroid);
    }
}

#[test]
fn enemies_are_ships_where_the_odds_leave_no_asteroid() {
    let mut settings = GameSettings::new();
    settings.asteroid_probability = 1_000;
    for _ in 0..200 {
        assert_eq!(EnemyType::new(&settings, 1_000_000), EnemyType::Ship);
    }
}

#[test]
fn later_enemies_are_asteroids_or_ships() {
    let settings = GameSettings::new();
    let mut asteroids = 0;
    let mut ships = 0;
    for _ in 0..2000 {
        match EnemyType::new(&settings, 600_000) {
            EnemyType::Asteroid => asteroids += 1,
            EnemyType::Ship => ships += 1,
            EnemyType::Debris => panic!("debris does not spawn"),
        }
    }
    assert!(asteroids > 0);
    assert!(ships > 0);
}

#[test]
fn entry_is_just_outside_an_edge() {
    let field = Field::new(1100, 700);
    assert_eq!(entry_position(&field, 20_000, true, true, 5), (5, -20_000));
    assert_eq!(entry_position(&field, 20_000, true, false, 5), (5, 720_000));
    assert_eq!(entry_position(&field, 20_000, false, true, 5), (-20_000, 5));
    assert_eq!(entry_position(&field, 20_000, false, false, 5), (1_120_000, 5));
    // the margin is the radius rounded up to whole units
    assert_eq!(entry_position(&field, 20_001, true, true, 0), (0, -21_000));
    assert_eq!(entry_position(&field, 39_999, false, false, 7), (1_140_000, 7));
}

#[test]
fn new_enemy_is_in_the_ranges_of_new_enemies() {
    let settings = GameSettings::new();
    let mut sides = [false; 4];
    for _ in 0..500 {
        let enemy = Enemy::new(&settings, 0, 42);
        assert_eq!(enemy.id, 42);
        assert!(enemy.radius >= 20_000 && enemy.radius < 40_000);
        assert!(enemy.reproduce_limit >= 5_000 && enemy.reproduce_limit < 10_000);
        assert_eq!(enemy.health, 1);
        assert_eq!(enemy.enemy_type, EnemyType::Asteroid);
        assert!(magnitude(enemy.dx) >= 500 && magnitude(enemy.dx) <= 2_000);
        assert!(magnitude(enemy.dy) >= 500 && magnitude(enemy.dy) <= 2_000);
        let margin = (enemy.radius + 999) / 1000 * 1000;
        let across = 0 <= enemy.x && enemy.x < 1_100_000 + margin;
        let along = 0 <= enemy.y && enemy.y < 700_000 + margin;
        if enemy.y == -margin && across {
            sides[0] = true;
        } else if enemy.y == 700_000 + margin && across {
            sides[1] = true;
        } else if enemy.x == -margin && along {
            sides[2] = true;
        } else if enemy.x == 1_100_000 + margin && along {
            sides[3] = true;
        } else {
            panic!("an enemy has appeared away from the edges");
        }
    }
    assert_eq!(sides, [true; 4]);
}

#[test]
fn speed_is_within_its_bounds() {
    let settings = GameSettings::new();
    for enemy_type in [EnemyType::Asteroid, EnemyType::Ship, EnemyType::Debris] {
        for _ in 0..300 {
            let (dx, dy) = Enemy::calculate_speed(&settings, (0, 0), &enemy_type);
            assert!(magnitude(dx) >= 500 && magnitude(dx) <= 2_000);
            assert!(magnitude(dy) >= 500 && magnitude(dy) <= 2_000);
        }
    }
}

#[test]
fn speed_at_the_narrowest_bounds() {
    let mut settings = GameSettings::new();
    settings.enemy_min_speed = 2_000;
    settings.ship_visibility = 0;
    for _ in 0..20 {
        let (dx, dy) = Enemy::calculate_speed(&settings, (0, 0), &EnemyType::Asteroid);
        assert_eq!(magnitude(dx), 2_000);
        assert_eq!(magnitude(dy), 2_000);
    }
}

#[test]
fn drawn_speed_is_taken_if_it_is_fast_enough() {
    let settings = GameSettings::new();
    let asteroid = EnemyType::Asteroid;
    assert_eq!(pick_speed(&settings, (0, 0), &asteroid, (500, -500), 0), Some((500, -500)));
    assert_eq!(pick_speed(&settings, (0, 0), &asteroid, (-2_000, 1_999), 9_999), Some((-2_000, 1_999)));
    assert_eq!(pick_speed(&settings, (0, 0), &asteroid, (499, 1_000), 0), None);
    assert_eq!(pick_speed(&settings, (0, 0), &asteroid, (1_000, -499), 0), None);
    assert_eq!(pick_speed(&settings, (0, 0), &asteroid, (0, 0), 0), None);
}

#[test]
fn unseen_ship_flies_as_drawn() {
    let settings = GameSettings::new();
    let ship = EnemyType::Ship;
    // a roll of five units or more is not below the visibility
    assert_eq!(pick_speed(&settings, (0, 0), &ship, (600, 700), 5_000), Some((600, 700)));
    assert_eq!(pick_speed(&settings, (0, 0), &ship, (100, 700), 9_999), None);
}

#[test]
fn ship_that_sees_the_player_flies_towards_the_ship() {
    let settings = GameSettings::new();
    let ship = EnemyType::Ship;
    // 30 units left of the ship and 40 above it: the direction is (3, 4) / 5
    let from = (550_000 - 30_000, 350_000 - 40_000);
    assert_eq!(pick_speed(&settings, from, &ship, (600, 700), 4_999), Some((1_200, 1_600)));
    assert_eq!(pick_speed(&settings, from, &ship, (0, 0), 0), Some((1_200, 1_600)));
    let from = (550_000 + 40_000, 350_000 + 30_000);
    assert_eq!(pick_speed(&settings, from, &ship, (600, 700), 0), Some((-1_600, -1_200)));
}

#[test]
fn homing_along_an_axis_is_too_slow_on_the_other() {
    let settings = GameSettings::new();
    let ship = EnemyType::Ship;
    assert_eq!(pick_speed(&settings, (0, 350_000), &ship, (600, 700), 0), None);
}

#[test]
fn homing_from_the_ship_itself_gives_no_speed() {
    let mut settings = GameSettings::new();
    settings.enemy_min_speed = 0;
    let ship = EnemyType::Ship;
    assert_eq!(pick_speed(&settings, (550_000, 350_000), &ship, (600, 700), 0), None);
}

#[test]
fn asteroids_and_debris_never_home() {
    let settings = GameSettings::new();
    let from = (520_000, 310_000);
    assert_eq!(pick_speed(&settings, from, &EnemyType::Asteroid, (600, 700), 0), Some((600, 700)));
    assert_eq!(pick_speed(&settings, from, &EnemyType::Debris, (600, 700), 0), Some((600, 700)));
}
