//! The game settings are the values that the rules of the game read.
//!
//! The shop items change them, and nothing else does but the rotation of the
//! ship and the slow rise of the spawn rate.

use vstd::prelude::*;
use crate::game_settings::field::Field;
use crate::game_settings::ship::Ship;
use crate::units::{MAX_SPEED, UNIT};

pub mod field;
pub mod ship;

verus! {

/// The largest spawn timeout in either direction, and the largest score
/// increase, by which the spawn timeout shrinks.
pub const MAX_TIMEOUT: i64 = 1_000_000_000_000;

/// The settings of the game. Speeds, probabilities, the score increase and
/// the spawn timeout are in thousandths.
#[derive(Clone, Copy, Debug, PartialEq, Eq, Structural)]
pub struct GameSettings {
    /// The speed of the projectiles
    pub projectile_speed: i64,
    /// The largest probability that a new enemy is no asteroid, which the
    /// score approaches
    pub asteroid_probability: i64,
    /// The multiplier for the coins gained by destroying an enemy
    pub coin_multiplier: i32,
    /// The visibility of the ship, between 0 and 10 units: a tenth of it is
    /// the chance that an enemy ship flies directly towards the ship.
    pub ship_visibility: i64,
    /// The largest speed of an enemy along each axis
    pub enemy_speed_multiplier: i64,
    /// The timeout between shots, in ticks
    pub shoot_timeout: i32,
    /// The increase in score per tick, in thousandths of a point
    pub score_increase: i64,
    /// The maximum number of lives
    pub max_lives: i32,
    /// The minimum speed of an enemy along each axis
    pub enemy_min_speed: i64,
    /// The field
    pub field: Field,
    /// The ship
    pub ship: Ship,
    /// The time the ship is invulnerable after being hit, in ticks
    pub invulnerability_time: i32,
    /// The timeout between enemy spawns, in thousandths of a tick
    pub enemy_spawn_timeout: i64,
    /// The number of enemies a projectile can hit before being destroyed
    pub projectile_hits: i32,
}

impl GameSettings {
    /// Whether the settings are in the range in which a game can be played:
    /// the field is not inverted, probabilities are at most one, an enemy
    /// can reach its minimum speed, and nothing is so large that a tick
    /// could overflow.
    pub open spec fn wf(&self) -> bool {
        &&& 0 <= self.field.width
        &&& 0 <= self.field.height
        &&& self.ship.wf()
        &&& 0 <= self.projectile_speed <= MAX_SPEED
        &&& 0 <= self.asteroid_probability <= UNIT
        &&& 0 < self.enemy_speed_multiplier <= MAX_SPEED
        &&& self.enemy_min_speed <= self.enemy_speed_multiplier
        &&& 0 <= self.score_increase <= MAX_TIMEOUT
        &&& -MAX_TIMEOUT <= self.enemy_spawn_timeout <= MAX_TIMEOUT
        &&& i32::MIN < self.projectile_hits
    }

    /// Whether the settings are well formed: see [`GameSettings::wf`].
    pub fn is_valid(&self) -> (valid: bool)
        ensures
            valid == self.wf(),
    {
        0 <= self.field.width && 0 <= self.field.height && self.ship.is_valid() && 0
            <= self.projectile_speed && self.projectile_speed <= MAX_SPEED && 0
            <= self.asteroid_probability && self.asteroid_probability <= UNIT && 0
            < self.enemy_speed_multiplier && self.enemy_speed_multiplier <= MAX_SPEED
            && self.enemy_min_speed <= self.enemy_speed_multiplier && 0 <= self.score_increase
            && self.score_increase <= MAX_TIMEOUT && -MAX_TIMEOUT <= self.enemy_spawn_timeout
            && self.enemy_spawn_timeout <= MAX_TIMEOUT && i32::MIN < self.projectile_hits
    }

    /// The settings that every game starts with.
    pub open spec fn initial() -> GameSettings {
        let field = Field { width: 1100, height: 700 };
        GameSettings {
            projectile_speed: 5_000,
            asteroid_probability: 600,
            enemy_speed_multiplier: 2_000,
            coin_multiplier: 10,
            score_increase: 30,
            ship_visibility: 5_000,
            enemy_min_speed: 500,
            shoot_timeout: 70,
            max_lives: 3,
            field,
            ship: Ship::centered(field),
            invulnerability_time: 100,
            enemy_spawn_timeout: 80_000,
            projectile_hits: 1,
        }
    }

    /// Creates the settings that every game starts with.
    pub fn new() -> (settings: Self)
        ensures
            settings == GameSettings::initial(),
            settings.wf(),
    {
        let width: i32 = 1100;
        let height: i32 = 700;
        let field: Field = Field::new(width, height);
        Self {
            projectile_speed: 5_000,
            asteroid_probability: 600,
            enemy_speed_multiplier: 2_000,
            coin_multiplier: 10,
            score_increase: 30,
            ship_visibility: 5_000,
            enemy_min_speed: 500,
            shoot_timeout: 70,
            max_lives: 3,
            field,
            ship: Ship::new(&field),
            invulnerability_time: 100,
            enemy_spawn_timeout: 80_000,
            projectile_hits: 1,
        }
    }
}

} // verus!
