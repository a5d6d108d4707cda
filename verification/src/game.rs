//! The heart of the game is the game struct. It contains all the
//! information about the game state.
//!
//! The central game loop is a state machine: [`Game::step`] takes one action
//! and moves the game to its next state.

use vstd::prelude::*;
use unique_id::sequence::SequenceGenerator;
use crate::enemy::{sound_enemies, Enemy};
use crate::error_message::ErrorMessage;
use crate::game::hits::{fair, rewards, survivors, worn};
use crate::game_settings::field::Field;
use crate::game_settings::ship::Ship;
use crate::game_settings::{GameSettings, MAX_TIMEOUT};
use crate::ids::{new_generator, next_id};
use crate::positioned::{advanced, collide, within, Positioned};
use crate::projectile::Projectile;
use crate::shop::{catalog, purchase, Item, Refusal, Shop};
use crate::units::{quotient, UNIT};

pub mod hits;
pub mod laws;
pub mod loading;
pub mod motion;
pub mod ramming;

verus! {

/// The state of the game
#[derive(Clone, Copy, Debug, PartialEq, Eq, Structural)]
pub enum GameState {
    Running,
    Paused,
    /// The game is not running. This is the initial state and the state
    /// when the game is over.
    NotRunning,
}

/// The actions that can be performed on the game
#[derive(Clone, Copy, Debug, PartialEq, Eq, Structural)]
pub enum GameAction {
    /// A tick is a frame of the game. This is used to calculate the next
    /// frame.
    Tick,
    /// The ship shoots a projectile
    Shoot,
    /// The ship rotates. The parameters are the x and y parts of the
    /// direction in which it then looks.
    RotateShip(i64, i64),
    /// The game is started
    Start,
    /// The game is paused
    Pause,
    /// An item is bought. The parameters are the id of the item and if the
    /// coins should be ignored (e.g. for loading an old game state, the
    /// coins should not get substracted twice).
    BuyItem(u32, bool),
    /// The game is ended
    End,
}

/// The model of the game. It contains all the information about the game
/// state.
pub struct Game {
    /// The id used to save the game
    pub id: Option<u32>,
    /// The id generator is used to generate unique ids for game objects
    pub id_generator: SequenceGenerator,
    /// The shop contains all the items that can be bought
    pub shop: Shop,
    /// The game settings contain all the settings of the game
    pub game_settings: GameSettings,
    /// The score of the game, in thousandths of a point
    pub score: i64,
    /// The coins of the game. Coins can be used to buy items in the shop.
    pub coins: i32,
    /// The lives the player has left. If this is 0, the game is over.
    /// Starts with 3.
    pub lives: i32,
    /// The time until the next shot can be fired.
    pub time_until_next_shot: i32,
    /// The time until the ship is vulnerable again.
    pub time_until_vulnerable: i32,
    /// The time until the next enemy is spawned.
    pub time_until_enemy_spawn: i32,
    /// The state of the game.
    pub state: GameState,
    /// The enemies in the game
    pub enemies: Vec<Enemy>,
    /// The projectiles in the game
    pub projectiles: Vec<Projectile>,
}

/// What a [`Game`] holds, but for the generator of its ids.
pub struct GameView {
    /// The id used to save the game
    pub id: Option<u32>,
    /// The items of the shop
    pub items: Seq<Item>,
    /// The settings
    pub game_settings: GameSettings,
    /// The score, in thousandths of a point
    pub score: int,
    /// The coins
    pub coins: int,
    /// The lives the player has left
    pub lives: int,
    /// The time until the next shot can be fired
    pub time_until_next_shot: int,
    /// The time until the ship is vulnerable again
    pub time_until_vulnerable: int,
    /// The time until the next enemy is spawned
    pub time_until_enemy_spawn: int,
    /// The state of the game
    pub state: GameState,
    /// The enemies, in their order
    pub enemies: Seq<Enemy>,
    /// The projectiles, in their order
    pub projectiles: Seq<Projectile>,
}

/// What chance adds to a step of the game: whatever the rules leave open.
pub struct Chance {
    /// For each enemy, in the order of the enemies, what a hit makes of it.
    /// The entry of an enemy that is not hit means nothing.
    pub outcomes: Seq<Seq<Enemy>>,
    /// The enemy that appears, if the time has come for one.
    pub newcomer: Enemy,
    /// The id of the projectile, if one is fired.
    pub id: i64,
}

/// Whether an item is offered as the other is: under the same id, at the
/// same price, up to the same level and with the same effect.
pub open spec fn same_offer(item: Item, other: Item) -> bool {
    &&& item.id == other.id
    &&& item.internal_price == other.internal_price
    &&& item.max_level == other.max_level
    &&& item.effect == other.effect
}

/// Whether the items are offered as those of the catalog are, each at a
/// level of its own.
pub open spec fn stocked(items: Seq<Item>) -> bool {
    &&& items.len() == catalog().len()
    &&& forall|index: int|
        0 <= index < items.len() ==> {
            &&& (#[trigger] items[index]).level <= items[index].max_level
            &&& same_offer(items[index], catalog()[index])
        }
}

/// The settings of a game whose shop holds the items: those of a new game,
/// changed by the effect of every level that was bought, with the ship
/// looking in the given direction and with the given spawn timeout.
pub open spec fn tuned(
    items: Seq<Item>,
    direction: (i64, i64),
    spawn_timeout: i64,
) -> GameSettings {
    let initial = GameSettings::initial();
    GameSettings {
        shoot_timeout: (initial.shoot_timeout - 10 * items[0].level) as i32,
        projectile_speed: (initial.projectile_speed + 2_500 * items[1].level) as i64,
        ship_visibility: (initial.ship_visibility - 1_000 * items[2].level) as i64,
        coin_multiplier: (initial.coin_multiplier + items[3].level) as i32,
        projectile_hits: (initial.projectile_hits + items[4].level) as i32,
        invulnerability_time: (initial.invulnerability_time + 50 * items[5].level) as i32,
        ship: Ship { dx: direction.0, dy: direction.1, ..initial.ship },
        enemy_spawn_timeout: spawn_timeout,
        ..initial
    }
}

/// The test that an enemy is not at the place.
pub open spec fn elsewhere(place: (i64, i64)) -> spec_fn(Enemy) -> bool {
    |enemy: Enemy| enemy.position() != place
}

/// The step that takes a projectile through one tick.
pub open spec fn fly() -> spec_fn(Projectile) -> Projectile {
    |projectile: Projectile| advanced(projectile)
}

/// The step that takes an enemy through one tick.
pub open spec fn drift() -> spec_fn(Enemy) -> Enemy {
    |enemy: Enemy| advanced(enemy)
}

/// The test that a projectile stays in the game: it is in the field, at
/// least in part, and has a hit left.
pub open spec fn live(field: Field) -> spec_fn(Projectile) -> bool {
    |projectile: Projectile| within(projectile, field) && projectile.hits > 0
}

/// The test that an enemy stays in the game: it is in the field, at least in
/// part.
pub open spec fn present(field: Field) -> spec_fn(Enemy) -> bool {
    |enemy: Enemy| within(enemy, field)
}

/// A countdown one tick later: it stops at zero.
pub open spec fn countdown(ticks: int) -> int {
    if ticks > 0 {
        ticks - 1
    } else {
        ticks
    }
}

/// A score in whole points, rounded to the nearest.
pub open spec fn rounded(score: int) -> int {
    (score + UNIT / 2) / (UNIT as int)
}

/// Whether the action does nothing in the state.
pub open spec fn idle(state: GameState, action: GameAction) -> bool {
    match (state, action) {
        (GameState::Paused, GameAction::RotateShip(_, _)) => true,
        (GameState::Paused, GameAction::Shoot) => true,
        (GameState::Paused, GameAction::Tick) => true,
        (GameState::NotRunning, GameAction::Tick) => true,
        (GameState::NotRunning, GameAction::Shoot) => true,
        (GameState::NotRunning, GameAction::RotateShip(_, _)) => true,
        (GameState::Running, GameAction::Start) => true,
        (GameState::Paused, GameAction::Pause) => true,
        (GameState::NotRunning, GameAction::Pause) => true,
        (GameState::NotRunning, GameAction::BuyItem(_, _)) => true,
        (GameState::NotRunning, GameAction::End) => true,
        _ => false,
    }
}

impl GameView {
    /// Whether the game is one that the rules can lead to from a new game
    /// or a loaded one, as far as a step relies on it: the shop holds the
    /// catalog, the settings are those that the levels of its items make,
    /// the score is not negative, every number fits its type, every enemy
    /// and projectile is well formed, and every projectile can lose a hit.
    pub open spec fn wf(self) -> bool {
        &&& stocked(self.items)
        &&& self.game_settings == tuned(
            self.items,
            (self.game_settings.ship.dx, self.game_settings.ship.dy),
            self.game_settings.enemy_spawn_timeout,
        )
        &&& -MAX_TIMEOUT <= self.game_settings.enemy_spawn_timeout <= MAX_TIMEOUT
        &&& 0 <= self.score <= i64::MAX
        &&& i32::MIN <= self.coins <= i32::MAX
        &&& i32::MIN <= self.lives <= i32::MAX
        &&& i32::MIN <= self.time_until_next_shot <= i32::MAX
        &&& i32::MIN <= self.time_until_vulnerable <= i32::MAX
        &&& i32::MIN <= self.time_until_enemy_spawn <= i32::MAX
        &&& sound_enemies(self.enemies)
        &&& forall|index: int|
            0 <= index < self.projectiles.len() ==> {
                &&& (#[trigger] self.projectiles[index]).wf()
                &&& i32::MIN < self.projectiles[index].hits
            }
    }

    /// Whether the counters have room for one more tick: the score for its
    /// increase, the coins for the largest reward that every enemy could
    /// bring, and the lives for the loss of one.
    pub open spec fn has_room(self) -> bool {
        &&& self.score + self.game_settings.score_increase <= i64::MAX
        &&& self.coins + 4 * self.game_settings.coin_multiplier * self.enemies.len() <= i32::MAX
        &&& i32::MIN < self.lives
    }

    /// Whether the ship is invulnerable (e.g. after getting hit by an
    /// enemy).
    pub open spec fn is_invulnerable(self) -> bool {
        self.time_until_vulnerable > 0
    }

    /// The game that every session starts with.
    pub open spec fn initial() -> GameView {
        GameView {
            id: None,
            items: catalog(),
            game_settings: GameSettings::initial(),
            score: 0,
            coins: 0,
            lives: GameSettings::initial().max_lives as int,
            time_until_next_shot: 0,
            time_until_vulnerable: 0,
            time_until_enemy_spawn: 0,
            state: GameState::NotRunning,
            enemies: Seq::empty(),
            projectiles: Seq::empty(),
        }
    }

    /// The first part of a tick: the score rises and the countdowns of the
    /// ship run.
    pub open spec fn counted(self) -> GameView {
        GameView {
            score: self.score + self.game_settings.score_increase,
            time_until_next_shot: countdown(self.time_until_next_shot),
            time_until_vulnerable: countdown(self.time_until_vulnerable),
            ..self
        }
    }

    /// The second part of a tick: the projectiles hit the enemies, and every
    /// hit pays its reward times the coin multiplier.
    pub open spec fn shot_through(self, outcomes: Seq<Seq<Enemy>>) -> GameView {
        GameView {
            enemies: survivors(
                self.enemies,
                self.projectiles,
                outcomes,
                self.enemies.len() as int,
            ),
            projectiles: worn(self.enemies, self.projectiles),
            coins: self.coins + rewards(
                self.enemies,
                self.projectiles,
                self.enemies.len() as int,
            ) * self.game_settings.coin_multiplier,
            ..self
        }
    }

    /// Whether the enemy at `index` is the first that collides with the
    /// ship.
    pub open spec fn rams(self, index: int) -> bool {
        &&& 0 <= index < self.enemies.len()
        &&& collide(self.game_settings.ship, self.enemies[index])
        &&& forall|earlier: int|
            0 <= earlier < index ==> !collide(
                self.game_settings.ship,
                #[trigger] self.enemies[earlier],
            )
    }

    /// The place of the first enemy that collides with the ship, if there
    /// is one.
    pub open spec fn rammer(self) -> Option<int> {
        if exists|index: int| self.rams(index) {
            Some(choose|index: int| self.rams(index))
        } else {
            None
        }
    }

    /// The third part of a tick: the first enemy that collides with the
    /// ship leaves the game, together with every enemy at the same
    /// position. Unless the ship is invulnerable this costs a life and
    /// makes the ship invulnerable for a while; with the last life the game
    /// ends.
    pub open spec fn rammed(self) -> GameView {
        match self.rammer() {
            None => self,
            Some(index) => {
                let place = self.enemies[index].position();
                let cleared = GameView { enemies: self.enemies.filter(elsewhere(place)), ..self };
                if self.is_invulnerable() {
                    cleared
                } else {
                    GameView {
                        time_until_vulnerable: self.game_settings.invulnerability_time as int,
                        lives: self.lives - 1,
                        state: if self.lives - 1 == 0 {
                            GameState::NotRunning
                        } else {
                            self.state
                        },
                        ..cleared
                    }
                }
            },
        }
    }

    /// The fourth part of a tick: whenever the rounded score is a multiple
    /// of a hundred points, a spawn timeout above one tick shrinks by the
    /// score increase.
    pub open spec fn hastened(self) -> GameView {
        if rounded(self.score) % 100 == 0 && self.game_settings.enemy_spawn_timeout > UNIT {
            GameView {
                game_settings: GameSettings {
                    enemy_spawn_timeout: (self.game_settings.enemy_spawn_timeout
                        - self.game_settings.score_increase) as i64,
                    ..self.game_settings
                },
                ..self
            }
        } else {
            self
        }
    }

    /// The fifth part of a tick: when the countdown to the next enemy has
    /// run out, it starts again at the whole ticks of the spawn timeout and
    /// the newcomer joins the enemies. Otherwise the countdown runs.
    pub open spec fn reinforced(self, newcomer: Enemy) -> GameView {
        if self.time_until_enemy_spawn <= 0 {
            GameView {
                time_until_enemy_spawn: quotient(
                    self.game_settings.enemy_spawn_timeout as int,
                    UNIT as int,
                ),
                enemies: self.enemies.push(newcomer),
                ..self
            }
        } else {
            GameView { time_until_enemy_spawn: self.time_until_enemy_spawn - 1, ..self }
        }
    }

    /// The last part of a tick: every projectile and every enemy moves by
    /// its step. Those that have left the field are dropped, and so are the
    /// projectiles without a hit left.
    pub open spec fn moved(self) -> GameView {
        let field = self.game_settings.field;
        GameView {
            projectiles: self.projectiles.map_values(fly()).filter(live(field)),
            enemies: self.enemies.map_values(drift()).filter(present(field)),
            ..self
        }
    }

    /// The game after a tick, given what the hits made of the enemies and
    /// which enemy was to appear.
    pub open spec fn ticked(self, outcomes: Seq<Seq<Enemy>>, newcomer: Enemy) -> GameView {
        self.counted().shot_through(outcomes).rammed().hastened().reinforced(newcomer).moved()
    }

    /// The game after a shot: if the countdown to the next shot has run
    /// out, it starts again at the shoot timeout and the ship fires a
    /// projectile with the id.
    pub open spec fn shot(self, id: i64) -> GameView {
        if self.time_until_next_shot <= 0 {
            GameView {
                time_until_next_shot: self.game_settings.shoot_timeout as int,
                projectiles: self.projectiles.push(Projectile::fired(self.game_settings, id)),
                ..self
            }
        } else {
            self
        }
    }

    /// The game with the ship looking in the direction `(dx, dy)`.
    pub open spec fn rotated(self, dx: i64, dy: i64) -> GameView {
        GameView {
            game_settings: GameSettings {
                ship: Ship { dx, dy, ..self.game_settings.ship },
                ..self.game_settings
            },
            ..self
        }
    }

    /// The game after an attempt to buy the item with the id. Where the
    /// shop sells, the level of the item rises, its effect changes the
    /// settings, and the price of the new level is taken from the coins
    /// unless they are ignored.
    pub open spec fn bought(self, id: u32, ignore_coins: bool) -> GameView {
        match purchase(self.items, id, self.coins, ignore_coins) {
            Ok(place) => {
                let item = self.items[place].raised();
                GameView {
                    items: self.items.update(place, item),
                    coins: if ignore_coins {
                        self.coins
                    } else {
                        self.coins - item.current_price()
                    },
                    game_settings: item.effect.applied(self.game_settings),
                    ..self
                }
            },
            Err(_) => self,
        }
    }

    /// The game after the action, given what chance added.
    pub open spec fn after(self, action: GameAction, chance: Chance) -> GameView {
        match (self.state, action) {
            (GameState::Running, GameAction::Tick) => self.ticked(chance.outcomes, chance.newcomer),
            (GameState::Running, GameAction::Shoot) => self.shot(chance.id),
            (GameState::Running, GameAction::RotateShip(dx, dy)) => self.rotated(dx, dy),
            (GameState::Paused, GameAction::Start) => GameView {
                state: GameState::Running,
                ..self
            },
            (GameState::Running, GameAction::Pause) => GameView {
                state: GameState::Paused,
                ..self
            },
            (GameState::NotRunning, GameAction::Start) => GameView {
                state: GameState::Running,
                ..self
            },
            (GameState::Running, GameAction::BuyItem(id, ignore_coins)) => self.bought(
                id,
                ignore_coins,
            ),
            (GameState::Paused, GameAction::BuyItem(id, ignore_coins)) => self.bought(
                id,
                ignore_coins,
            ),
            (GameState::Running, GameAction::End) => GameView {
                lives: 0,
                state: GameState::NotRunning,
                ..self
            },
            (GameState::Paused, GameAction::End) => GameView {
                lives: 0,
                state: GameState::NotRunning,
                ..self
            },
            _ => self,
        }
    }

    /// Whether chance could add this to the rest of a tick, once the score
    /// and the countdowns of the ship have been counted: every enemy that is
    /// hit becomes something that its hit can make of it, and an enemy that
    /// appears is one that can appear at the score.
    pub open spec fn permits_tick(self, chance: Chance) -> bool {
        let ready = self.shot_through(chance.outcomes).rammed().hastened();
        &&& fair(self.enemies, self.projectiles, self.game_settings, chance.outcomes)
        &&& ready.time_until_enemy_spawn <= 0 ==> chance.newcomer.spawned(
            ready.game_settings,
            ready.score,
            chance.newcomer.id,
        )
    }

    /// Whether chance could add this to the action. Only a tick leaves
    /// anything to chance that the rules restrict.
    pub open spec fn permits(self, action: GameAction, chance: Chance) -> bool {
        self.state is Running && action is Tick ==> self.counted().permits_tick(chance)
    }

    /// Why the action fails, if it does: the shop has refused a purchase.
    pub open spec fn refused(self, action: GameAction) -> Option<Refusal> {
        match (self.state, action) {
            (GameState::Running, GameAction::BuyItem(id, ignore_coins)) => match purchase(
                self.items,
                id,
                self.coins,
                ignore_coins,
            ) {
                Ok(_) => None,
                Err(refusal) => Some(refusal),
            },
            (GameState::Paused, GameAction::BuyItem(id, ignore_coins)) => match purchase(
                self.items,
                id,
                self.coins,
                ignore_coins,
            ) {
                Ok(_) => None,
                Err(refusal) => Some(refusal),
            },
            _ => None,
        }
    }
}

impl View for Game {
    type V = GameView;

    open spec fn view(&self) -> GameView {
        GameView {
            id: self.id,
            items: self.shop.items@,
            game_settings: self.game_settings,
            score: self.score as int,
            coins: self.coins as int,
            lives: self.lives as int,
            time_until_next_shot: self.time_until_next_shot as int,
            time_until_vulnerable: self.time_until_vulnerable as int,
            time_until_enemy_spawn: self.time_until_enemy_spawn as int,
            state: self.state,
            enemies: self.enemies@,
            projectiles: self.projectiles@,
        }
    }
}

impl Game {
    /// Whether the game is well formed: see [`GameView::wf`].
    pub open spec fn wf(&self) -> bool {
        self@.wf()
    }

    /// Creates a new game
    pub fn new() -> (game: Self)
        ensures
            game@ == GameView::initial(),
            game.wf(),
    {
        let game_settings = GameSettings::new();
        let game = Self {
            id: None,
            shop: Shop::new(),
            id_generator: new_generator(),
            lives: game_settings.max_lives,
            game_settings,
            score: 0,
            coins: 0,
            time_until_vulnerable: 0,
            time_until_next_shot: 0,
            time_until_enemy_spawn: 0,
            state: GameState::NotRunning,
            enemies: vec![],
            projectiles: vec![],
        };
        game
    }

    /// Calculates a new frame of the game
    ///
    /// Implemented using a state machine: what the action does depends on
    /// the state of the game, and in many states an action does nothing. A
    /// step fails only where the shop refuses a purchase, and the game is
    /// then as it was.
    pub fn step(&mut self, action: GameAction) -> (result: Result<(), ErrorMessage>)
        requires
            old(self).wf(),
            old(self).state is Running && action is Tick ==> old(self)@.has_room(),
        ensures
            final(self).wf(),
            exists|chance: Chance| #[trigger]
                old(self)@.permits(action, chance) && final(self)@ == old(self)@.after(
                    action,
                    chance,
                ),
            match old(self)@.refused(action) {
                Some(refusal) => result matches Err(error) && error@ == refusal.notice(),
                None => result is Ok,
            },
            idle(old(self).state, action) ==> *final(self) == *old(self),
    {
        let ghost mut chance = Chance { outcomes: Seq::empty(), newcomer: arbitrary(), id: 0 };
        let mut result: Result<(), ErrorMessage> = Ok(());
        match self.state {
            GameState::Running => match action {
                GameAction::Tick => {
                    let Ghost(rolled) = self.tick();
                    proof {
                        chance = rolled;
                    }
                },
                GameAction::Shoot => {
                    if self.time_until_next_shot <= 0 {
                        self.time_until_next_shot = self.game_settings.shoot_timeout;
                        let projectile = Projectile::new(self);
                        proof {
                            chance = Chance { id: projectile.id, ..chance };
                        }
                        self.projectiles.push(projectile);
                    }
                },
                GameAction::RotateShip(dx, dy) => {
                    self.game_settings.ship.dx = dx;
                    self.game_settings.ship.dy = dy;
                },
                GameAction::Pause => {
                    self.state = GameState::Paused;
                },
                GameAction::BuyItem(item_id, ignore_coins) => {
                    result = self.buy(item_id, ignore_coins);
                },
                GameAction::End => {
                    self.lives = 0;
                    self.state = GameState::NotRunning;
                },
                GameAction::Start => {},
            },
            GameState::Paused => match action {
                GameAction::Start => {
                    self.state = GameState::Running;
                },
                GameAction::BuyItem(item_id, ignore_coins) => {
                    result = self.buy(item_id, ignore_coins);
                },
                GameAction::End => {
                    self.lives = 0;
                    self.state = GameState::NotRunning;
                },
                _ => {},
            },
            GameState::NotRunning => match action {
                GameAction::Start => {
                    self.state = GameState::Running;
                },
                _ => {},
            },
        };
        assert(old(self)@.permits(action, chance) && self@ == old(self)@.after(action, chance));
        result
    }

    /// Buys an item in the shop, pays for it unless the coins are ignored,
    /// and applies its effect to the settings.
    fn buy(&mut self, item_id: u32, ignore_coins: bool) -> (result: Result<(), ErrorMessage>)
        requires
            old(self).wf(),
        ensures
            final(self).wf(),
            final(self)@ == old(self)@.bought(item_id, ignore_coins),
            match purchase(old(self)@.items, item_id, old(self)@.coins, ignore_coins) {
                Ok(_) => result is Ok,
                Err(refusal) => result matches Err(error) && error@ == refusal.notice(),
            },
    {
        let bought = self.shop.buy_item(item_id, self.coins, ignore_coins);
        match bought {
            Ok(item) => {
                let item = *item;
                if !ignore_coins {
                    self.coins -= item.get_current_price();
                }
                item.effect.apply(&mut self.game_settings, item.level);
                Ok(())
            },
            Err(error) => Err(error),
        }
    }

    /// Runs one tick of a running game.
    fn tick(&mut self) -> (chance: Ghost<Chance>)
        requires
            old(self).wf(),
            old(self)@.has_room(),
        ensures
            final(self).wf(),
            old(self)@.counted().permits_tick(chance@),
            final(self)@ == old(self)@.ticked(chance@.outcomes, chance@.newcomer),
    {
        // increase score
        self.score += self.game_settings.score_increase;

        // decrease shoot timeout if necessary
        if self.time_until_next_shot > 0 {
            self.time_until_next_shot -= 1;
        }

        // decrease invulnerability time if necessary
        if self.time_until_vulnerable > 0 {
            self.time_until_vulnerable -= 1;
        }

        // check for collisions between projectiles and enemies
        let (new_enemies, Ghost(outcomes)) = self.collisions_enemy_projectile();
        self.enemies = new_enemies;

        // check for collisions between enemies and ship
        if let Some(e) = self.collision_enemy_ship() {
            if !self.is_invulnerable() {
                self.time_until_vulnerable = self.game_settings.invulnerability_time;
                self.lives -= 1;
                if self.lives == 0 {
                    self.state = GameState::NotRunning;
                }
            }

            // remove enemy
            self.remove_enemies_at(e.get_position());
        }

        // increase the enemy spawn rate every 100 points
        if ((self.score as i128 + (UNIT / 2) as i128) / (UNIT as i128)) % 100 == 0
            && self.game_settings.enemy_spawn_timeout > UNIT {
            self.game_settings.enemy_spawn_timeout -= self.game_settings.score_increase;
        }

        // spawn new enemies
        let ghost ready = self@;
        let ghost mut newcomer: Enemy = arbitrary();
        if self.time_until_enemy_spawn <= 0 {
            self.time_until_enemy_spawn = (self.game_settings.enemy_spawn_timeout / UNIT) as i32;
            let mut spawned = self.spawn_enemies();
            proof {
                newcomer = spawned@[0];
            }
            self.enemies.append(&mut spawned);
            assert(self@.enemies =~= ready.enemies.push(newcomer));
        } else {
            self.time_until_enemy_spawn -= 1;
        }

        // Move projectiles and remove out of bounds projectiles and
        // projectiles that have no hits left
        self.move_projectiles();

        // Move enemies and remove out of bounds enemies
        self.move_enemies();

        Ghost(Chance { outcomes, newcomer, id: 0 })
    }

    /// Returns the vec of enemies to be spawned in the next frame: one
    /// enemy.
    fn spawn_enemies(&self) -> (spawned: Vec<Enemy>)
        requires
            self.game_settings.wf(),
            0 <= self.score,
        ensures
            spawned@.len() == 1,
            spawned@[0].spawned(self.game_settings, self.score as int, spawned@[0].id),
            spawned@[0].wf(),
    {
        let mut new_enemies = vec![];

        let enemy = Enemy::new(&self.game_settings, self.score, self.get_next_id());
        new_enemies.push(enemy);

        new_enemies
    }

    /// Whether the game is well formed: see [`GameView::wf`].
    pub fn is_valid(&self) -> (valid: bool)
        ensures
            valid == self.wf(),
    {
        let offers = Shop::new();
        if self.shop.items.len() != offers.items.len() {
            return false;
        }
        let mut place: usize = 0;
        while place < offers.items.len()
            invariant
                offers.items@ == catalog(),
                self.shop.items@.len() == offers.items@.len(),
                place <= offers.items@.len(),
                forall|index: int|
                    0 <= index < place ==> {
                        &&& (#[trigger] self.shop.items@[index]).level
                            <= self.shop.items@[index].max_level
                        &&& same_offer(self.shop.items@[index], catalog()[index])
                    },
            decreases offers.items@.len() - place,
        {
            let item = &self.shop.items[place];
            let offer = &offers.items[place];
            if item.level > item.max_level || item.id != offer.id || item.internal_price
                != offer.internal_price || item.max_level != offer.max_level || item.effect
                != offer.effect {
                return false;
            }
            place += 1;
        }
        let items = &self.shop.items;
        let initial = GameSettings::new();
        let expected = GameSettings {
            shoot_timeout: initial.shoot_timeout - 10 * items[0].level as i32,
            projectile_speed: initial.projectile_speed + 2_500 * items[1].level as i64,
            ship_visibility: initial.ship_visibility - 1_000 * items[2].level as i64,
            coin_multiplier: initial.coin_multiplier + items[3].level as i32,
            projectile_hits: initial.projectile_hits + items[4].level as i32,
            invulnerability_time: initial.invulnerability_time + 50 * items[5].level as i32,
            ship: Ship {
                dx: self.game_settings.ship.dx,
                dy: self.game_settings.ship.dy,
                ..initial.ship
            },
            enemy_spawn_timeout: self.game_settings.enemy_spawn_timeout,
            ..initial
        };
        if self.game_settings != expected || self.game_settings.enemy_spawn_timeout < -MAX_TIMEOUT
            || self.game_settings.enemy_spawn_timeout > MAX_TIMEOUT || self.score < 0 {
            return false;
        }
        let mut index: usize = 0;
        while index < self.enemies.len()
            invariant
                index <= self.enemies@.len(),
                forall|earlier: int|
                    0 <= earlier < index ==> (#[trigger] self.enemies@[earlier]).wf(),
            decreases self.enemies@.len() - index,
        {
            if !self.enemies[index].is_valid() {
                return false;
            }
            index += 1;
        }
        let mut index: usize = 0;
        while index < self.projectiles.len()
            invariant
                index <= self.projectiles@.len(),
                forall|earlier: int|
                    0 <= earlier < index ==> {
                        &&& (#[trigger] self.projectiles@[earlier]).wf()
                        &&& i32::MIN < self.projectiles@[earlier].hits
                    },
            decreases self.projectiles@.len() - index,
        {
            if !self.projectiles[index].is_valid() || self.projectiles[index].hits == i32::MIN {
                assert(!self@.projectiles[index as int].wf() || self@.projectiles[index as int].hits
                    == i32::MIN);
                return false;
            }
            index += 1;
        }
        true
    }

    /// Whether the counters have room for one more tick: see
    /// [`GameView::has_room`].
    pub fn has_room(&self) -> (room: bool)
        ensures
            room == self@.has_room(),
    {
        let reward: i128 = 4 * (self.game_settings.coin_multiplier as i128);
        let count = self.enemies.len();
        assert(reward * self.enemies@.len() <= 0x2_0000_0000 * 0xffff_ffff_ffff_ffff
            && reward * self.enemies@.len() >= -0x2_0000_0000 * 0xffff_ffff_ffff_ffff)
            by (nonlinear_arith)
            requires
                -0x2_0000_0000 <= reward <= 0x2_0000_0000,
                0 <= self.enemies@.len() <= 0xffff_ffff_ffff_ffff,
        ;
        self.score as i128 + self.game_settings.score_increase as i128 <= i64::MAX as i128
            && self.coins as i128 + reward * (count as i128) <= i32::MAX as i128
            && i32::MIN < self.lives
    }

    /// Returns true if the ship is invulnerable (e.g. after getting hit by
    /// an enemy).
    pub fn is_invulnerable(&self) -> (invulnerable: bool)
        ensures
            invulnerable == self@.is_invulnerable(),
    {
        !(self.time_until_vulnerable <= 0)
    }

    /// Returns the next id for a game object.
    ///
    /// The id is the next number of the sequence generator, which counts in
    /// one counter for the whole process and can be set anew from anywhere
    /// in it. Nothing is therefore promised of the number, nor of how it
    /// compares with the ids that were handed out before.
    pub fn get_next_id(&self) -> (id: i64) {
        next_id(&self.id_generator)
    }
}

} // verus!
