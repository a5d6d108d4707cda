//! The projectiles that the ship fires.

use vstd::prelude::*;
use crate::game::Game;
use crate::game_settings::GameSettings;
use crate::positioned::{within_limits, Moves, Positioned};
use crate::units::{
    lemma_length_covers,
    lemma_share_bounded,
    length,
    scaled,
    share,
    vector_length,
    MAX_COORD,
    MAX_EXTENT,
    MAX_SPEED,
};

verus! {

/// The radius of every projectile.
pub const PROJECTILE_RADIUS: i64 = 20_000;

/// A projectile is a bullet that is shot by the player.
///
/// It moves in a straight line and can hit enemies. The projectile is
/// destroyed when the hit count reaches 0 or it leaves the field.
#[derive(Clone, Copy, Debug, PartialEq, Eq, Structural)]
pub struct Projectile {
    /// The id of the projectile. This is used to identify the projectile.
    pub id: i64,
    /// The step per tick along the x axis
    pub dx: i64,
    /// The step per tick along the y axis
    pub dy: i64,
    /// The x position of the projectile
    pub x: i64,
    /// The y position of the projectile
    pub y: i64,
    /// The number of hits this projectile can take before it is destroyed
    pub hits: i32,
    /// The damage this projectile deals on hit
    pub damage: i32,
    /// The width and the height of the projectile
    pub radius: i64,
}

impl Projectile {
    /// Whether the projectile lies in the range of coordinates that the
    /// geometry can handle, is not too fast for it and does no negative
    /// damage.
    pub open spec fn wf(&self) -> bool {
        &&& within_limits(self.position(), self.extent())
        &&& -MAX_SPEED <= self.dx <= MAX_SPEED
        &&& -MAX_SPEED <= self.dy <= MAX_SPEED
        &&& 0 <= self.damage
    }

    /// Whether the projectile is well formed: see [`Projectile::wf`].
    pub fn is_valid(&self) -> (valid: bool)
        ensures
            valid == self.wf(),
    {
        -MAX_COORD <= self.x && self.x <= MAX_COORD && -MAX_COORD <= self.y && self.y <= MAX_COORD
            && 0 <= self.radius && self.radius <= MAX_EXTENT && -MAX_SPEED <= self.dx && self.dx
            <= MAX_SPEED && -MAX_SPEED <= self.dy && self.dy <= MAX_SPEED && 0 <= self.damage
    }

    /// The projectile with the given id that a ship fires under the given
    /// settings. It starts on the edge of the ship, in the direction in
    /// which the ship looks, and flies in that direction at the speed of
    /// projectiles.
    pub open spec fn fired(settings: GameSettings, id: i64) -> Projectile {
        let ship = settings.ship;
        let facing = length(ship.dx as int, ship.dy as int) as int;
        Projectile {
            id,
            dx: share(ship.dx as int, settings.projectile_speed as int, facing) as i64,
            dy: share(ship.dy as int, settings.projectile_speed as int, facing) as i64,
            x: (ship.x + share(ship.dx as int, ship.width / 2, facing)) as i64,
            y: (ship.y + share(ship.dy as int, ship.height / 2, facing)) as i64,
            hits: settings.projectile_hits,
            damage: 1,
            radius: PROJECTILE_RADIUS,
        }
    }

    /// The projectile that the ship of the game fires now.
    pub fn new(game: &Game) -> (projectile: Self)
        requires
            game.game_settings.wf(),
        ensures
            projectile == Projectile::fired(game.game_settings, projectile.id),
            projectile.wf(),
            projectile.hits == game.game_settings.projectile_hits,
    {
        let (dx, dy) = (game.game_settings.ship.dx, game.game_settings.ship.dy);
        let (x, y) = game.game_settings.ship.get_center();
        let length = vector_length(dx, dy);
        let speed = game.game_settings.projectile_speed;
        Self {
            id: game.get_next_id(),
            dx: scaled(dx, speed, length),
            dy: scaled(dy, speed, length),
            x: x + scaled(dx, game.game_settings.ship.width / 2, length),
            y: y + scaled(dy, game.game_settings.ship.height / 2, length),
            hits: game.game_settings.projectile_hits,
            damage: 1,
            radius: PROJECTILE_RADIUS,
        }
    }
}

/// The projectile that a ship fires is well formed.
pub proof fn lemma_fired_sound(settings: GameSettings, id: i64)
    requires
        settings.wf(),
    ensures
        Projectile::fired(settings, id).wf(),
{
    let ship = settings.ship;
    let facing = length(ship.dx as int, ship.dy as int) as int;
    lemma_length_covers(ship.dx as int, ship.dy as int);
    lemma_share_bounded(ship.dx as int, settings.projectile_speed as int, facing);
    lemma_share_bounded(ship.dy as int, settings.projectile_speed as int, facing);
    lemma_share_bounded(ship.dx as int, ship.width / 2, facing);
    lemma_share_bounded(ship.dy as int, ship.height / 2, facing);
}

/// Whether every one of the projectiles is well formed.
pub open spec fn sound_projectiles(projectiles: Seq<Projectile>) -> bool {
    forall|index: int| 0 <= index < projectiles.len() ==> (#[trigger] projectiles[index]).wf()
}

impl Positioned for Projectile {
    open spec fn position(&self) -> (i64, i64) {
        (self.x, self.y)
    }

    open spec fn extent(&self) -> (i64, i64) {
        (self.radius, self.radius)
    }

    open spec fn round(&self) -> bool {
        true
    }

    open spec fn at(self, x: i64, y: i64) -> Self {
        Projectile { x, y, ..self }
    }

    proof fn lemma_at(self, x: i64, y: i64) {
    }

    fn is_round(&self) -> (round: bool) {
        true
    }

    fn get_position(&self) -> (position: (i64, i64)) {
        (self.x, self.y)
    }

    fn set_position(&mut self, x: i64, y: i64) {
        self.x = x;
        self.y = y;
    }

    fn dimensions(&self) -> (extent: (i64, i64)) {
        (self.radius, self.radius)
    }
}

impl Moves for Projectile {
    open spec fn velocity(&self) -> (i64, i64) {
        (self.dx, self.dy)
    }

    proof fn lemma_velocity_stays(self, x: i64, y: i64) {
    }

    fn direction(&self) -> (velocity: (i64, i64)) {
        (self.dx, self.dy)
    }
}

} // verus!
