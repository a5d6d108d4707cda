//! How a new enemy appears: of which type, and where.

use vstd::prelude::*;
use crate::enemy::EnemyType;
use crate::game_settings::field::Field;
use crate::game_settings::GameSettings;
use crate::random::{gen_ratio, thread_rng};
use crate::units::{round_up, whole_units_above, MAX_EXTENT, UNIT};

verus! {

/// The number of parts in which the chance of an asteroid is counted.
pub const ODDS: u32 = 1_000_000;

/// How many of [`ODDS`] new enemies are asteroids at the given score: all of
/// them at first, then one less per thousandth of a point, down to what the
/// settings leave.
pub open spec fn asteroid_odds(settings: GameSettings, score: int) -> int {
    if score < settings.asteroid_probability * UNIT {
        ODDS - score
    } else {
        ODDS - settings.asteroid_probability * UNIT
    }
}

/// How many of [`ODDS`] new enemies are asteroids at the given score.
pub fn asteroid_chance(settings: &GameSettings, score: i64) -> (odds: u32)
    requires
        settings.wf(),
        0 <= score,
    ensures
        odds == asteroid_odds(*settings, score as int),
        odds <= ODDS,
{
    let limit = settings.asteroid_probability * UNIT;
    if score < limit {
        ODDS - score as u32
    } else {
        ODDS - limit as u32
    }
}

impl EnemyType {
    /// Creates a new enemy type.
    ///
    /// The chance that the enemy will be a ship increases with the score.
    /// The type is an asteroid or a ship; where the odds leave no choice, it
    /// is the one they name.
    pub fn new(settings: &GameSettings, score: i64) -> (enemy_type: Self)
        requires
            settings.wf(),
            0 <= score,
        ensures
            enemy_type is Asteroid || enemy_type is Ship,
            asteroid_odds(*settings, score as int) == ODDS ==> enemy_type is Asteroid,
            asteroid_odds(*settings, score as int) == 0 ==> enemy_type is Ship,
    {
        let mut rng = thread_rng();
        if gen_ratio(&mut rng, asteroid_chance(settings, score), ODDS) {
            EnemyType::Asteroid
        } else {
            EnemyType::Ship
        }
    }
}

/// Where a new enemy of the given radius appears: just outside one of the
/// four edges of the field, by the radius rounded up to whole units.
/// `sideways` puts it above or below the field, at `offset` along the x
/// axis; otherwise it is left or right of the field, at `offset` along the y
/// axis. `near` puts it on the side of the origin.
pub open spec fn entry(field: Field, radius: i64, sideways: bool, near: bool, offset: i64) -> (
    i64,
    i64,
) {
    let margin = whole_units_above(radius as int);
    if sideways {
        (
            offset,
            if near {
                (-margin) as i64
            } else {
                (field.height * UNIT + margin) as i64
            },
        )
    } else {
        (
            if near {
                (-margin) as i64
            } else {
                (field.width * UNIT + margin) as i64
            },
            offset,
        )
    }
}

/// How far along an edge a new enemy of the given radius can appear: the
/// length of the edge and the radius rounded up to whole units.
pub open spec fn entry_span(field: Field, radius: i64, sideways: bool) -> int {
    if sideways {
        field.width * UNIT + whole_units_above(radius as int)
    } else {
        field.height * UNIT + whole_units_above(radius as int)
    }
}

/// Where a new enemy of the given radius appears.
pub fn entry_position(field: &Field, radius: i64, sideways: bool, near: bool, offset: i64) -> (pos:
    (i64, i64))
    requires
        0 <= radius <= MAX_EXTENT,
    ensures
        pos == entry(*field, radius, sideways, near, offset),
{
    let margin = round_up(radius);
    if sideways {
        (
            offset,
            if near {
                -margin
            } else {
                field.height as i64 * UNIT + margin
            },
        )
    } else {
        (
            if near {
                -margin
            } else {
                field.width as i64 * UNIT + margin
            },
            offset,
        )
    }
}

} // verus!
