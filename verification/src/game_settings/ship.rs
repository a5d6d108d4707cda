//! The ship is the player's avatar in the game.

use vstd::prelude::*;
use crate::game_settings::field::Field;
use crate::positioned::Positioned;
use crate::units::{abs, magnitude, MAX_COORD, MAX_EXTENT, UNIT};

verus! {

/// The width and the height of a new ship.
pub const SHIP_SIZE: i64 = 80_000;

/// The ship is the player's avatar in the game.
///
/// It stays in the middle of the field and can only be rotated by the
/// player.
#[derive(Clone, Copy, Debug, PartialEq, Eq, Structural)]
pub struct Ship {
    /// The x position of the ship
    pub x: i64,
    /// The y position of the ship
    pub y: i64,
    /// The y direction the ship is looking in
    pub dy: i64,
    /// The x direction the ship is looking in
    pub dx: i64,
    /// The height of the ship
    pub height: i64,
    /// The width of the ship
    pub width: i64,
}

impl Ship {
    /// Whether the ship, with all of its box, lies in the range of
    /// coordinates that the geometry can handle.
    pub open spec fn wf(&self) -> bool {
        &&& 0 <= self.width <= MAX_EXTENT
        &&& 0 <= self.height <= MAX_EXTENT
        &&& abs(self.x as int) + self.width <= MAX_COORD
        &&& abs(self.y as int) + self.height <= MAX_COORD
    }

    /// Whether the ship is well formed: see [`Ship::wf`].
    pub fn is_valid(&self) -> (valid: bool)
        ensures
            valid == self.wf(),
    {
        0 <= self.width && self.width <= MAX_EXTENT && 0 <= self.height && self.height
            <= MAX_EXTENT && -MAX_COORD <= self.x && self.x <= MAX_COORD && -MAX_COORD <= self.y
            && self.y <= MAX_COORD && magnitude(self.x) as i128 + self.width as i128
            <= MAX_COORD as i128 && magnitude(self.y) as i128 + self.height as i128
            <= MAX_COORD as i128
    }

    /// The ship that a new game on `field` starts with.
    pub open spec fn centered(field: Field) -> Ship {
        Ship {
            x: (field.width * (UNIT / 2)) as i64,
            y: (field.height * (UNIT / 2)) as i64,
            dx: 0,
            dy: 0,
            width: SHIP_SIZE,
            height: SHIP_SIZE,
        }
    }

    /// Creates a new ship in the middle of the field
    pub fn new(field: &Field) -> (ship: Self)
        ensures
            ship == Ship::centered(*field),
            ship.x == field.width * (UNIT / 2),
            ship.y == field.height * (UNIT / 2),
            ship.wf(),
    {
        Ship {
            x: field.width as i64 * (UNIT / 2),
            y: field.height as i64 * (UNIT / 2),
            dx: 0,
            dy: 0,
            width: SHIP_SIZE,
            height: SHIP_SIZE,
        }
    }
}

impl Positioned for Ship {
    open spec fn position(&self) -> (i64, i64) {
        (self.x, self.y)
    }

    open spec fn extent(&self) -> (i64, i64) {
        (self.width, self.height)
    }

    open spec fn round(&self) -> bool {
        true
    }

    open spec fn at(self, x: i64, y: i64) -> Self {
        Ship { x, y, ..self }
    }

    proof fn lemma_at(self, x: i64, y: i64) {
    }

    fn is_round(&self) -> (round: bool) {
        true
    }

    fn set_position(&mut self, x: i64, y: i64) {
        self.x = x;
        self.y = y;
    }

    fn get_position(&self) -> (position: (i64, i64)) {
        (self.x, self.y)
    }

    fn dimensions(&self) -> (extent: (i64, i64)) {
        (self.width, self.height)
    }
}

} // verus!
