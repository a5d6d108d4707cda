//! The enemies: how they appear, how they move and how they break apart.

use vstd::prelude::*;
use vstd::std_specs::cmp::PartialEqSpecImpl;
use unique_id::sequence::SequenceGenerator;
use crate::enemy::arrival::{asteroid_odds, entry, entry_position, entry_span, ODDS};
use crate::enemy::speed::{lemma_possible_is_allowed, possible_speed};
use crate::game_settings::GameSettings;
use crate::ids::next_id;
use crate::positioned::{Moves, Positioned};
use crate::random::{gen_range, gen_ratio, thread_rng};
use crate::units::{abs, magnitude, quotient, round_up, MAX_COORD, MAX_EXTENT, MAX_SPEED, UNIT};

pub mod arrival;
pub mod speed;

verus! {

/// The type of the enemy. This determines the enemy's appearance and the
/// reward for hitting it.
#[derive(Clone, Copy, Debug, PartialEq, Eq, Structural)]
pub enum EnemyType {
    Asteroid,
    Ship,
    Debris,
}

/// An enemy. Position, speed and radius are in thousandths.
#[derive(Clone, Copy, Debug)]
pub struct Enemy {
    /// The step per tick along the y axis
    pub dy: i64,
    /// The step per tick along the x axis
    pub dx: i64,
    /// The id of the enemy. This is used to identify the enemy.
    pub id: i64,
    /// The x position of the enemy
    pub x: i64,
    /// The y position of the enemy
    pub y: i64,
    /// The radius of the enemy
    pub radius: i64,
    /// The radius up to which the enemy will not split into smaller enemies
    /// on hit
    pub reproduce_limit: i64,
    /// The type of the enemy
    pub enemy_type: EnemyType,
    /// The health of the enemy
    pub health: i32,
}

impl Enemy {
    /// Whether the enemy, with all of its disc, lies in the range of
    /// coordinates that the geometry can handle, and is not too fast for it.
    pub open spec fn wf(&self) -> bool {
        &&& 0 <= self.radius
        &&& 2 * self.radius <= MAX_EXTENT
        &&& abs(self.x as int) + self.radius <= MAX_COORD
        &&& abs(self.y as int) + self.radius <= MAX_COORD
        &&& -MAX_SPEED <= self.dx <= MAX_SPEED
        &&& -MAX_SPEED <= self.dy <= MAX_SPEED
    }

    /// The width and height of the enemy: twice its radius, or the nearest
    /// number that fits if the radius is out of all proportion.
    pub open spec fn diameter(&self) -> i64 {
        if self.radius * 2 > i64::MAX {
            i64::MAX
        } else if self.radius * 2 < i64::MIN {
            i64::MIN
        } else {
            (self.radius * 2) as i64
        }
    }

    /// Whether the enemy is well formed: see [`Enemy::wf`].
    pub fn is_valid(&self) -> (valid: bool)
        ensures
            valid == self.wf(),
    {
        0 <= self.radius && self.radius <= MAX_EXTENT / 2 && -MAX_COORD <= self.x && self.x
            <= MAX_COORD && -MAX_COORD <= self.y && self.y <= MAX_COORD && magnitude(self.x) as i128
            + self.radius as i128 <= MAX_COORD as i128 && magnitude(self.y) as i128
            + self.radius as i128 <= MAX_COORD as i128 && -MAX_SPEED <= self.dx && self.dx
            <= MAX_SPEED && -MAX_SPEED <= self.dy && self.dy <= MAX_SPEED
    }

    /// Whether the enemy is one that can appear at the given score: of the
    /// size, the health and a type of new enemies, just outside an edge of
    /// the field, and with a speed that it can be given there.
    pub open spec fn spawned(self, settings: GameSettings, score: int, id: i64) -> bool {
        &&& self.id == id
        &&& 20 * UNIT <= self.radius < 40 * UNIT
        &&& 5 * UNIT <= self.reproduce_limit < 10 * UNIT
        &&& self.health == 1
        &&& self.enemy_type is Asteroid || self.enemy_type is Ship
        &&& asteroid_odds(settings, score) == ODDS ==> self.enemy_type is Asteroid
        &&& asteroid_odds(settings, score) == 0 ==> self.enemy_type is Ship
        &&& exists|sideways: bool, near: bool, offset: i64|
            0 <= offset < entry_span(settings.field, self.radius, sideways) && self.position()
                == #[trigger] entry(settings.field, self.radius, sideways, near, offset)
        &&& possible_speed(settings, self.position(), self.enemy_type, (self.dx, self.dy))
    }

    /// The type of the pieces into which the enemy breaks: a ship leaves
    /// debris, anything else more of its kind.
    pub open spec fn piece_type(self) -> EnemyType {
        if self.enemy_type is Ship {
            EnemyType::Debris
        } else {
            self.enemy_type
        }
    }

    /// Whether `piece` is one of the pieces into which the enemy can break:
    /// half as large, half as healthy, with half the limit, within half a
    /// radius of the enemy along both axes, and with a speed that it can be
    /// given there.
    pub open spec fn piece(self, settings: GameSettings, piece: Enemy) -> bool {
        let half = self.radius / 2;
        &&& piece.radius == half
        &&& piece.health == self.health / 2
        &&& piece.reproduce_limit == quotient(self.reproduce_limit as int, 2)
        &&& piece.enemy_type == self.piece_type()
        &&& if half == 0 {
            piece.x == self.x
        } else {
            -half <= piece.x - self.x < half
        }
        &&& if half == 0 {
            piece.y == self.y
        } else {
            -half <= piece.y - self.y < half
        }
        &&& possible_speed(settings, piece.position(), piece.enemy_type, (piece.dx, piece.dy))
    }

    /// Whether `result` is what can become of the enemy when it takes the
    /// damage. A dead enemy leaves nothing. An enemy no larger than its
    /// limit loses health and is otherwise the same, whatever health it is
    /// left with. A larger enemy breaks into two or three pieces, and the
    /// damage is lost on them.
    pub open spec fn damaged(
        self,
        settings: GameSettings,
        damage: i32,
        result: Seq<Enemy>,
    ) -> bool {
        if self.health <= 0 {
            result.len() == 0
        } else if self.radius <= self.reproduce_limit {
            result == seq![Enemy { health: (self.health - damage) as i32, ..self }]
        } else {
            &&& 2 <= result.len() <= 3
            &&& forall|index: int|
                0 <= index < result.len() ==> self.piece(settings, #[trigger] result[index])
        }
    }

    /// Creates a new enemy with a random position and speed, at the edge of
    /// the field.
    pub fn new(game_settings: &GameSettings, score: i64, id: i64) -> (enemy: Self)
        requires
            game_settings.wf(),
            0 <= score,
        ensures
            enemy.spawned(*game_settings, score as int, id),
            enemy.wf(),
    {
        let mut rng = thread_rng();
        let radius: i64 = gen_range(&mut rng, 20 * UNIT, 40 * UNIT);
        let reproduce_limit = gen_range(&mut rng, 5 * UNIT, 10 * UNIT);

        let enemy_type = EnemyType::new(game_settings, score);

        let health = gen_range(&mut rng, 1, 2) as i32;

        let margin = round_up(radius);
        let sideways = gen_ratio(&mut rng, 1, 2);
        let (near, offset) = if sideways {
            let offset = gen_range(&mut rng, 0, game_settings.field.width as i64 * UNIT + margin);
            (gen_ratio(&mut rng, 1, 2), offset)
        } else {
            let near = gen_ratio(&mut rng, 1, 2);
            (near, gen_range(&mut rng, 0, game_settings.field.height as i64 * UNIT + margin))
        };
        let (x, y) = entry_position(&game_settings.field, radius, sideways, near, offset);
        let (dx, dy) = Enemy::calculate_speed(game_settings, (x, y), &enemy_type);

        let enemy = Self { id, dy, dx, x, y, radius, reproduce_limit, enemy_type, health };
        assert(enemy.position() == entry(
            game_settings.field,
            enemy.radius,
            sideways,
            near,
            offset,
        ));
        enemy
    }

    /// Applies damage to the enemy.
    ///
    /// The enemy will split into smaller enemies if it is bigger than the
    /// reproduce limit. If the enemy is dead the method will return an empty
    /// vec.
    pub fn take_damage(
        &self,
        game_settings: &GameSettings,
        damage: i32,
        generator: SequenceGenerator,
    ) -> (result: Vec<Self>)
        requires
            self.wf(),
            game_settings.wf(),
            0 < self.health && self.radius <= self.reproduce_limit ==> self.health - damage
                <= i32::MAX,
        ensures
            self.damaged(*game_settings, damage, result@),
            sound_enemies(result@),
    {
        if self.health <= 0 {
            return vec![];
        }
        if self.radius <= self.reproduce_limit {
            let mut new_enemy = *self;
            new_enemy.health -= damage;
            let result = vec![new_enemy];
            assert(result@ =~= seq![new_enemy]);
            return result;
        }
        let mut rng = thread_rng();
        let mut children: Vec<Enemy> = vec![];
        let count = gen_range(&mut rng, 2, 4);
        let half = self.radius / 2;
        let mut born: i64 = 0;
        while born < count
            invariant
                self.wf(),
                game_settings.wf(),
                self.radius > self.reproduce_limit,
                self.health > 0,
                half == self.radius / 2,
                0 <= born <= count,
                2 <= count <= 3,
                children@.len() == born,
                forall|index: int|
                    0 <= index < children@.len() ==> self.piece(
                        *game_settings,
                        #[trigger] children@[index],
                    ),
                sound_enemies(children@),
            decreases count - born,
        {
            let mut child = *self;
            child.id = next_id(&generator);
            child.radius = child.radius / 2;
            child.health = child.health / 2;
            child.reproduce_limit = child.reproduce_limit / 2;
            // Make sure the child spawns in the radius of the parent
            if half > 0 {
                child.x += gen_range(&mut rng, -half, half);
                child.y += gen_range(&mut rng, -half, half);
            }
            if self.enemy_type == EnemyType::Ship {
                child.enemy_type = EnemyType::Debris;
            }
            let (dx, dy) = Enemy::calculate_speed(
                game_settings,
                (child.x, child.y),
                &child.enemy_type,
            );
            child.dx = dx;
            child.dy = dy;

            children.push(child);
            born += 1;
        }
        children
    }

    /// The coins that a hit on the enemy is worth, before the coin
    /// multiplier is applied.
    pub open spec fn reward(&self) -> int {
        match self.enemy_type {
            EnemyType::Asteroid => 1,
            EnemyType::Ship => 2,
            EnemyType::Debris => 4,
        }
    }

    /// Returns the amount of coins the enemy drops when it is hit.
    ///
    /// The amount of coins depends on the enemy type. The game multiplies
    /// it by the coin multiplier of its settings.
    pub fn get_coins(&self) -> (coins: i32)
        ensures
            coins == self.reward(),
    {
        match self.enemy_type {
            EnemyType::Asteroid => 1,
            EnemyType::Ship => 2,
            // Get rewards for cleaning up the space
            EnemyType::Debris => 4,
        }
    }
}

/// Whether every one of the enemies is well formed.
pub open spec fn sound_enemies(enemies: Seq<Enemy>) -> bool {
    forall|index: int| 0 <= index < enemies.len() ==> (#[trigger] enemies[index]).wf()
}

/// Two enemies are equal when they are at the same position.
impl PartialEq for Enemy {
    fn eq(&self, other: &Self) -> (equal: bool) {
        self.x == other.x && self.y == other.y
    }
}

impl PartialEqSpecImpl for Enemy {
    open spec fn obeys_eq_spec() -> bool {
        true
    }

    open spec fn eq_spec(&self, other: &Self) -> bool {
        self.x == other.x && self.y == other.y
    }
}

impl Eq for Enemy {

}

impl Positioned for Enemy {
    open spec fn position(&self) -> (i64, i64) {
        (self.x, self.y)
    }

    open spec fn extent(&self) -> (i64, i64) {
        (self.diameter(), self.diameter())
    }

    open spec fn round(&self) -> bool {
        true
    }

    open spec fn at(self, x: i64, y: i64) -> Self {
        Enemy { x, y, ..self }
    }

    proof fn lemma_at(self, x: i64, y: i64) {
    }

    fn is_round(&self) -> (round: bool) {
        true
    }

    fn get_position(&self) -> (position: (i64, i64)) {
        (self.x, self.y)
    }

    fn set_position(&mut self, x: i64, y: i64) {
        self.x = x;
        self.y = y;
    }

    fn dimensions(&self) -> (extent: (i64, i64)) {
        let diameter = if self.radius > i64::MAX / 2 {
            i64::MAX
        } else if self.radius < i64::MIN / 2 {
            i64::MIN
        } else {
            self.radius * 2
        };
        (diameter, diameter)
    }
}

impl Moves for Enemy {
    open spec fn velocity(&self) -> (i64, i64) {
        (self.dx, self.dy)
    }

    proof fn lemma_velocity_stays(self, x: i64, y: i64) {
    }

    fn direction(&self) -> (velocity: (i64, i64)) {
        (self.dx, self.dy)
    }
}

/// The sum of the radii of the enemies.
pub open spec fn total_radius(enemies: Seq<Enemy>) -> int
    decreases enemies.len(),
{
    if enemies.len() == 0 {
        0
    } else {
        total_radius(enemies.drop_last()) + enemies.last().radius
    }
}

/// The sum of the health of the enemies.
pub open spec fn total_health(enemies: Seq<Enemy>) -> int
    decreases enemies.len(),
{
    if enemies.len() == 0 {
        0
    } else {
        total_health(enemies.drop_last()) + enemies.last().health
    }
}

/// Pieces of an enemy have half its radius and half its health each.
proof fn lemma_pieces_total(enemy: Enemy, settings: GameSettings, pieces: Seq<Enemy>)
    requires
        forall|index: int|
            0 <= index < pieces.len() ==> enemy.piece(settings, #[trigger] pieces[index]),
    ensures
        total_radius(pieces) == pieces.len() * (enemy.radius / 2),
        total_health(pieces) == pieces.len() * (enemy.health / 2),
    decreases pieces.len(),
{
    if pieces.len() > 0 {
        let first = pieces.drop_last();
        lemma_pieces_total(enemy, settings, first);
        assert(pieces.len() * (enemy.radius / 2) == first.len() * (enemy.radius / 2) + enemy.radius
            / 2) by (nonlinear_arith)
            requires
                pieces.len() == first.len() + 1,
        ;
        assert(pieces.len() * (enemy.health / 2) == first.len() * (enemy.health / 2) + enemy.health
            / 2) by (nonlinear_arith)
            requires
                pieces.len() == first.len() + 1,
        ;
    }
}

/// What damage makes of a living enemy. An enemy above its limit breaks
/// into two or three pieces, none larger or healthier than the enemy, and
/// two pieces are together no larger and no healthier than it. An enemy
/// that is not above its limit stays one enemy.
pub proof fn lemma_damage_shrinks(
    enemy: Enemy,
    settings: GameSettings,
    damage: i32,
    result: Seq<Enemy>,
)
    requires
        0 <= enemy.radius,
        0 < enemy.health,
        enemy.damaged(settings, damage, result),
    ensures
        enemy.radius > enemy.reproduce_limit ==> {
            &&& 2 <= result.len() <= 4
            &&& forall|index: int|
                0 <= index < result.len() ==> {
                    &&& (#[trigger] result[index]).radius <= enemy.radius
                    &&& result[index].health <= enemy.health
                }
            &&& 2 * total_radius(result) <= result.len() * enemy.radius
            &&& 2 * total_health(result) <= result.len() * enemy.health
            &&& result.len() == 2 ==> total_radius(result) <= enemy.radius && total_health(result)
                <= enemy.health
        },
        enemy.radius <= enemy.reproduce_limit ==> result.len() == 1,
{
    if enemy.radius > enemy.reproduce_limit {
        lemma_pieces_total(enemy, settings, result);
    }
}

/// What damage makes of a well-formed enemy is well formed.
pub proof fn lemma_damaged_sound(
    enemy: Enemy,
    settings: GameSettings,
    damage: i32,
    result: Seq<Enemy>,
)
    requires
        enemy.wf(),
        settings.wf(),
        enemy.damaged(settings, damage, result),
    ensures
        sound_enemies(result),
{
    if enemy.health > 0 && enemy.radius > enemy.reproduce_limit {
        assert forall|index: int| 0 <= index < result.len() implies (
        #[trigger] result[index]).wf() by {
            let piece = result[index];
            lemma_possible_is_allowed(
                settings,
                piece.position(),
                piece.enemy_type,
                (piece.dx, piece.dy),
            );
        }
    }
}

/// An enemy that can appear is well formed.
pub proof fn lemma_spawned_sound(enemy: Enemy, settings: GameSettings, score: int, id: i64)
    requires
        settings.wf(),
        enemy.spawned(settings, score, id),
    ensures
        enemy.wf(),
{
    let (sideways, near, offset) = choose|sideways: bool, near: bool, offset: i64|
        0 <= offset < entry_span(settings.field, enemy.radius, sideways) && enemy.position()
            == #[trigger] entry(settings.field, enemy.radius, sideways, near, offset);
    lemma_possible_is_allowed(settings, enemy.position(), enemy.enemy_type, (enemy.dx, enemy.dy));
}

/// An enemy that is no larger than its limit does not break: damage leaves
/// nothing of it if it is dead, and otherwise the one enemy, with the
/// damage taken from its health.
pub proof fn lemma_small_enemy_stays_whole(
    enemy: Enemy,
    settings: GameSettings,
    damage: i32,
    result: Seq<Enemy>,
)
    requires
        enemy.radius <= enemy.reproduce_limit,
        enemy.damaged(settings, damage, result),
    ensures
        result.len() <= 1,
        result.len() == 0 <==> enemy.health <= 0,
        enemy.health > 0 ==> result[0] == (Enemy {
            health: (enemy.health - damage) as i32,
            ..enemy
        }),
{
}

/// A dead enemy leaves nothing when it is hit.
pub proof fn lemma_dead_leaves_nothing(
    enemy: Enemy,
    settings: GameSettings,
    damage: i32,
    result: Seq<Enemy>,
)
    requires
        enemy.health <= 0,
        enemy.damaged(settings, damage, result),
    ensures
        result.len() == 0,
{
}

} // verus!
