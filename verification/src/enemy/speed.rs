//! The speed of an enemy.
//!
//! A speed is drawn at random along both axes. An enemy ship that has seen
//! the ship of the player flies straight towards it instead. A speed that
//! is too slow along one axis is not taken, and another is drawn.

use vstd::prelude::*;
use crate::enemy::{Enemy, EnemyType};
use crate::game_settings::GameSettings;
use crate::positioned::Positioned;
use crate::random::{gen_range, thread_rng};
use crate::units::{
    abs,
    lemma_length_covers,
    lemma_share_bounded,
    length,
    scaled,
    share,
    vector_length,
    MAX_COORD,
};

verus! {

/// How often a random speed is drawn for an enemy before the last draw is
/// taken as it is and stretched.
pub const SPEED_ATTEMPTS: u32 = 1_000;

/// The range of the draw that decides whether an enemy ship has seen the
/// ship of the player: ten units.
pub const SIGHT: i64 = 10_000;

/// Whether a speed reaches the minimum speed of enemies along both axes.
pub open spec fn fast_enough(settings: GameSettings, speed: (i64, i64)) -> bool {
    &&& abs(speed.0 as int) >= settings.enemy_min_speed
    &&& abs(speed.1 as int) >= settings.enemy_min_speed
}

/// Whether a speed is one that an enemy can have: along both axes at least
/// the minimum speed and at most the speed multiplier.
pub open spec fn allowed_speed(settings: GameSettings, speed: (i64, i64)) -> bool {
    &&& fast_enough(settings, speed)
    &&& abs(speed.0 as int) <= settings.enemy_speed_multiplier
    &&& abs(speed.1 as int) <= settings.enemy_speed_multiplier
}

/// The speed that leads from a position straight to the ship: the vector to
/// the ship, brought to the length of the speed multiplier. There is none
/// at the position of the ship itself.
pub open spec fn homing(settings: GameSettings, from: (i64, i64)) -> Option<(i64, i64)> {
    let across = settings.ship.x - from.0;
    let along = settings.ship.y - from.1;
    let distance = length(across, along) as int;
    if distance == 0 {
        None
    } else {
        Some(
            (
                share(across, settings.enemy_speed_multiplier as int, distance) as i64,
                share(along, settings.enemy_speed_multiplier as int, distance) as i64,
            ),
        )
    }
}

/// The speed that one draw stands for. An enemy ship whose roll is below
/// the visibility of the ship flies straight towards it; every other enemy
/// flies as drawn.
pub open spec fn candidate(
    settings: GameSettings,
    from: (i64, i64),
    enemy_type: EnemyType,
    drawn: (i64, i64),
    roll: i64,
) -> Option<(i64, i64)> {
    if roll < settings.ship_visibility && enemy_type is Ship {
        homing(settings, from)
    } else {
        Some(drawn)
    }
}

/// The speed that one draw gives an enemy, if it gives one: the speed that
/// the draw stands for, provided that it is fast enough.
pub open spec fn accepted(
    settings: GameSettings,
    from: (i64, i64),
    enemy_type: EnemyType,
    drawn: (i64, i64),
    roll: i64,
) -> Option<(i64, i64)> {
    match candidate(settings, from, enemy_type, drawn, roll) {
        Some(speed) => if fast_enough(settings, speed) {
            Some(speed)
        } else {
            None
        },
        None => None,
    }
}

/// A speed along one axis, raised to the minimum speed if it is below it.
/// The direction stays.
pub open spec fn stretch(settings: GameSettings, speed: i64) -> i64 {
    if abs(speed as int) >= settings.enemy_min_speed {
        speed
    } else if speed >= 0 {
        settings.enemy_min_speed
    } else {
        (-settings.enemy_min_speed) as i64
    }
}

/// Whether the numbers are ones that can be drawn for a speed: both parts
/// of the speed from the speed multiplier downwards to below it upwards,
/// and the roll within sight.
pub open spec fn drawable(settings: GameSettings, drawn: (i64, i64), roll: i64) -> bool {
    &&& -settings.enemy_speed_multiplier <= drawn.0 < settings.enemy_speed_multiplier
    &&& -settings.enemy_speed_multiplier <= drawn.1 < settings.enemy_speed_multiplier
    &&& 0 <= roll < SIGHT
}

/// What becomes of a draw for the speed of an enemy: the speed that the
/// draw gives, or, where it gives none, the speed as drawn, stretched along
/// both axes.
pub open spec fn settled(
    settings: GameSettings,
    from: (i64, i64),
    enemy_type: EnemyType,
    drawn: (i64, i64),
    roll: i64,
) -> (i64, i64) {
    match accepted(settings, from, enemy_type, drawn, roll) {
        Some(speed) => speed,
        None => (stretch(settings, drawn.0), stretch(settings, drawn.1)),
    }
}

/// Whether a speed is one that an enemy of the type can be given at the
/// position: there is a draw that gives it, or one that gives none and is
/// stretched to it.
pub open spec fn possible_speed(
    settings: GameSettings,
    from: (i64, i64),
    enemy_type: EnemyType,
    speed: (i64, i64),
) -> bool {
    exists|drawn: (i64, i64), roll: i64|
        drawable(settings, drawn, roll) && #[trigger] settled(
            settings,
            from,
            enemy_type,
            drawn,
            roll,
        ) == speed
}

/// The speed that one draw gives an enemy, if it gives one.
pub fn pick_speed(
    settings: &GameSettings,
    pos: (i64, i64),
    enemy_type: &EnemyType,
    drawn: (i64, i64),
    roll: i64,
) -> (speed: Option<(i64, i64)>)
    requires
        settings.wf(),
        -MAX_COORD <= pos.0 <= MAX_COORD,
        -MAX_COORD <= pos.1 <= MAX_COORD,
    ensures
        speed == accepted(*settings, pos, *enemy_type, drawn, roll),
{
    let (mut dx, mut dy) = drawn;
    // If the enemy is a ship and the roll is less than the ship visibility,
    // the enemy will move directly towards the ship
    if roll < settings.ship_visibility && *enemy_type == EnemyType::Ship {
        let (ship_x, ship_y) = settings.ship.get_position();
        let (diff_x, diff_y) = (ship_x - pos.0, ship_y - pos.1);
        let length = vector_length(diff_x, diff_y);
        if length == 0 {
            return None;
        }
        dx = scaled(diff_x, settings.enemy_speed_multiplier, length);
        dy = scaled(diff_y, settings.enemy_speed_multiplier, length);
    }
    if slower(dx, settings.enemy_min_speed) || slower(dy, settings.enemy_min_speed) {
        None
    } else {
        Some((dx, dy))
    }
}

/// What becomes of a draw is a speed that an enemy can have.
pub proof fn lemma_settled_is_allowed(
    settings: GameSettings,
    from: (i64, i64),
    enemy_type: EnemyType,
    drawn: (i64, i64),
    roll: i64,
)
    requires
        settings.wf(),
        -MAX_COORD <= from.0 <= MAX_COORD,
        -MAX_COORD <= from.1 <= MAX_COORD,
        drawable(settings, drawn, roll),
    ensures
        allowed_speed(settings, settled(settings, from, enemy_type, drawn, roll)),
{
    if roll < settings.ship_visibility && enemy_type is Ship {
        let across = settings.ship.x - from.0;
        let along = settings.ship.y - from.1;
        let distance = length(across, along) as int;
        lemma_length_covers(across, along);
        lemma_share_bounded(across, settings.enemy_speed_multiplier as int, distance);
        lemma_share_bounded(along, settings.enemy_speed_multiplier as int, distance);
    }
}

/// A speed that an enemy can be given is along both axes at least the
/// minimum speed and at most the speed multiplier.
pub proof fn lemma_possible_is_allowed(
    settings: GameSettings,
    from: (i64, i64),
    enemy_type: EnemyType,
    speed: (i64, i64),
)
    requires
        settings.wf(),
        -MAX_COORD <= from.0 <= MAX_COORD,
        -MAX_COORD <= from.1 <= MAX_COORD,
        possible_speed(settings, from, enemy_type, speed),
    ensures
        allowed_speed(settings, speed),
{
    let (drawn, roll) = choose|drawn: (i64, i64), roll: i64|
        drawable(settings, drawn, roll) && #[trigger] settled(
            settings,
            from,
            enemy_type,
            drawn,
            roll,
        ) == speed;
    lemma_settled_is_allowed(settings, from, enemy_type, drawn, roll);
}

/// Whether a speed along one axis is below the minimum.
fn slower(speed: i64, min_speed: i64) -> (slow: bool)
    ensures
        slow == (abs(speed as int) < min_speed),
{
    if speed >= 0 {
        speed < min_speed
    } else {
        -(speed as i128) < min_speed as i128
    }
}

/// A speed along one axis, raised to the minimum speed if it is below it.
fn stretched(settings: &GameSettings, speed: i64) -> (result: i64)
    requires
        settings.wf(),
    ensures
        result == stretch(*settings, speed),
{
    if !slower(speed, settings.enemy_min_speed) {
        speed
    } else if speed >= 0 {
        settings.enemy_min_speed
    } else {
        -settings.enemy_min_speed
    }
}

impl Enemy {
    /// Draws the speed of an enemy at a position.
    ///
    /// An enemy ship has a chance to fly directly towards the ship of the
    /// player. Draws are repeated until one gives a speed that is fast
    /// enough, but no more than [`SPEED_ATTEMPTS`] times: the last of them is
    /// taken as drawn and stretched to the minimum speed.
    pub fn calculate_speed(
        game_settings: &GameSettings,
        pos: (i64, i64),
        enemy_type: &EnemyType,
    ) -> (speed: (i64, i64))
        requires
            game_settings.wf(),
            -MAX_COORD <= pos.0 <= MAX_COORD,
            -MAX_COORD <= pos.1 <= MAX_COORD,
        ensures
            possible_speed(*game_settings, pos, *enemy_type, speed),
            allowed_speed(*game_settings, speed),
    {
        let mut rng = thread_rng();
        let speed_multi = game_settings.enemy_speed_multiplier;
        let mut attempt: u32 = 1;
        while attempt < SPEED_ATTEMPTS
            invariant
                game_settings.wf(),
                speed_multi == game_settings.enemy_speed_multiplier,
                -MAX_COORD <= pos.0 <= MAX_COORD,
                -MAX_COORD <= pos.1 <= MAX_COORD,
            decreases SPEED_ATTEMPTS - attempt,
        {
            let drawn = (
                gen_range(&mut rng, -speed_multi, speed_multi),
                gen_range(&mut rng, -speed_multi, speed_multi),
            );
            let probability = gen_range(&mut rng, 0, SIGHT);
            if let Some(speed) = pick_speed(game_settings, pos, enemy_type, drawn, probability) {
                proof {
                    lemma_settled_is_allowed(*game_settings, pos, *enemy_type, drawn, probability);
                }
                return speed;
            }
            attempt += 1;
        }
        let drawn = (
            gen_range(&mut rng, -speed_multi, speed_multi),
            gen_range(&mut rng, -speed_multi, speed_multi),
        );
        let probability = gen_range(&mut rng, 0, SIGHT);
        let speed = match pick_speed(game_settings, pos, enemy_type, drawn, probability) {
            Some(speed) => speed,
            None => (stretched(game_settings, drawn.0), stretched(game_settings, drawn.1)),
        };
        proof {
            lemma_settled_is_allowed(*game_settings, pos, *enemy_type, drawn, probability);
        }
        speed
    }
}

} // verus!
