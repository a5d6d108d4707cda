//! The game as its host sees it: a game, and the message that tells the
//! player why a purchase was refused.

use vstd::prelude::*;
use crate::enemy::Enemy;
use crate::error_message::{ErrorMessage, ErrorMessageView};
use crate::game::{Chance, Game, GameAction, GameState, GameView};
use crate::game_ressources::GameRessource;
use crate::game_settings::field::Field;
use crate::game_settings::ship::Ship;
use crate::projectile::Projectile;
use crate::shop::Item;

verus! {

/// The longest time that the ship of a model waits for its next shot: the
/// shoot timeout of a new game.
pub const LONGEST_COOLDOWN: i32 = 70;

/// How far the ship is on its way to the next shot, in percent: a hundred
/// less the rounded share of the shoot timeout that is still to wait.
pub open spec fn refill_percentage(time_until_next_shot: int, shoot_timeout: int) -> int {
    100 - (200 * time_until_next_shot + shoot_timeout) / (2 * shoot_timeout)
}

/// The items as the shop displays them: each with the price of its next
/// level noted in it.
pub open spec fn displayed(items: Seq<Item>) -> Seq<Item> {
    items.map_values(|item: Item| Item { price: item.next_level_price() as i32, ..item })
}

/// What a [`GameModel`] holds.
pub struct GameModelView {
    /// The game
    pub game: GameView,
    /// The error message
    pub error_message: ErrorMessageView,
}

impl GameModelView {
    /// What holds of every model: its game is well formed, and the ship
    /// never waits longer for its next shot than the longest cooldown.
    pub open spec fn wf(self) -> bool {
        &&& self.game.wf()
        &&& 0 <= self.game.time_until_next_shot <= LONGEST_COOLDOWN
    }

    /// Whether `next` is a model that the action can lead to: the game has
    /// taken its step, and if the step has failed, the message says why.
    pub open spec fn leads_to(self, action: GameAction, next: GameModelView) -> bool {
        &&& exists|chance: Chance| #[trigger]
            self.game.permits(action, chance) && next.game == self.game.after(action, chance)
        &&& next.error_message == match self.game.refused(action) {
            Some(refusal) => refusal.notice(),
            None => self.error_message,
        }
    }

    /// The model one tick of its message later.
    pub open spec fn aged(self) -> GameModelView {
        GameModelView { error_message: self.error_message.ticked(), ..self }
    }

    /// Whether the model can take a tick: the message can, and a running
    /// game has room in its counters.
    pub open spec fn can_tick(self) -> bool {
        &&& self.error_message.can_tick()
        &&& self.game.state is Running ==> self.game.has_room()
    }
}

/// The model of the game. It contains all the information about the game
/// state.
pub struct GameModel {
    /// The game
    game: Game,
    /// The error message
    error_message: ErrorMessage,
}

impl View for GameModel {
    type V = GameModelView;

    closed spec fn view(&self) -> GameModelView {
        GameModelView { game: self.game@, error_message: self.error_message@ }
    }
}

impl GameModel {
    /// Creates a new game model
    pub fn new() -> (model: Self)
        ensures
            model@.wf(),
            model@.game == GameView::initial(),
            model@.error_message == ErrorMessageView::empty(),
    {
        Self { game: Game::new(), error_message: ErrorMessage::new_empty() }
    }

    /// Whether the model is well formed: see [`GameModelView::wf`].
    pub fn is_valid(&self) -> (valid: bool)
        ensures
            valid == self@.wf(),
    {
        self.game.is_valid() && 0 <= self.game.time_until_next_shot
            && self.game.time_until_next_shot <= LONGEST_COOLDOWN
    }

    /// Whether the model can take a tick.
    pub fn can_tick(&self) -> (ready: bool)
        ensures
            ready == self@.can_tick(),
    {
        self.error_message.can_tick() && match self.game.state {
            GameState::Running => self.game.has_room(),
            _ => true,
        }
    }

    /// Calculates the next frame of the game.
    pub fn tick(&mut self)
        requires
            old(self)@.wf(),
            old(self)@.can_tick(),
        ensures
            final(self)@.wf(),
            old(self)@.aged().leads_to(GameAction::Tick, final(self)@),
    {
        self.error_message.tick();
        self.take_game_action(GameAction::Tick)
    }

    /// Starts a new game.
    pub fn start_game(&mut self)
        requires
            old(self)@.wf(),
        ensures
            final(self)@.wf(),
            final(self)@.game == (GameView { state: GameState::Running, ..GameView::initial() }),
            final(self)@.error_message == old(self)@.error_message,
    {
        self.game = Game::new();
        self.resume_game();
    }

    /// Ends the game.
    pub fn end_game(&mut self)
        requires
            old(self)@.wf(),
        ensures
            final(self)@.wf(),
            old(self)@.leads_to(GameAction::End, final(self)@),
    {
        self.take_game_action(GameAction::End);
    }

    /// Shoots a projectile.
    pub fn shoot(&mut self)
        requires
            old(self)@.wf(),
        ensures
            final(self)@.wf(),
            old(self)@.leads_to(GameAction::Shoot, final(self)@),
    {
        self.take_game_action(GameAction::Shoot);
    }

    /// Turns the ship into a direction.
    pub fn rotate_ship(&mut self, dx: i64, dy: i64)
        requires
            old(self)@.wf(),
        ensures
            final(self)@.wf(),
            old(self)@.leads_to(GameAction::RotateShip(dx, dy), final(self)@),
    {
        self.take_game_action(GameAction::RotateShip(dx, dy))
    }

    /// Pauses the game.
    pub fn pause_game(&mut self)
        requires
            old(self)@.wf(),
        ensures
            final(self)@.wf(),
            old(self)@.leads_to(GameAction::Pause, final(self)@),
    {
        self.take_game_action(GameAction::Pause)
    }

    /// Resumes the game.
    pub fn resume_game(&mut self)
        requires
            old(self)@.wf(),
        ensures
            final(self)@.wf(),
            old(self)@.leads_to(GameAction::Start, final(self)@),
    {
        self.take_game_action(GameAction::Start)
    }

    /// Buy an item.
    pub fn buy_item(&mut self, item_id: u32)
        requires
            old(self)@.wf(),
        ensures
            final(self)@.wf(),
            old(self)@.leads_to(GameAction::BuyItem(item_id, false), final(self)@),
    {
        self.take_game_action(GameAction::BuyItem(item_id, false));
    }

    /// Internal function to handle potential errors returned by the game.
    fn take_game_action(&mut self, game_action: GameAction)
        requires
            old(self)@.wf(),
            game_action is Tick && old(self)@.game.state is Running ==> old(self)@.game.has_room(),
        ensures
            final(self)@.wf(),
            old(self)@.leads_to(game_action, final(self)@),
    {
        if let Err(e) = self.game.step(game_action) {
            self.error_message = e;
        }
    }

    /// Dismiss the error message.
    pub fn dismiss_error(&mut self)
        requires
            old(self)@.wf(),
        ensures
            final(self)@.wf(),
            final(self)@ == (GameModelView {
                error_message: ErrorMessageView { message: None, ..old(self)@.error_message },
                ..old(self)@
            }),
    {
        self.error_message.dismiss();
    }

    /// Loads a game from a game ressource.
    ///
    /// A saved game that cannot be loaded is no input of this function:
    /// [`Game::can_load`] tells whether one can.
    pub fn load_game(&mut self, game_ressource: GameRessource)
        requires
            old(self)@.wf(),
            game_ressource@.loaded() is Ok,
        ensures
            final(self)@.wf(),
            final(self)@ == (GameModelView {
                game: game_ressource@.loaded()->Ok_0,
                ..old(self)@
            }),
    {
        proof {
            lemma_loaded_ship_is_ready(game_ressource@);
        }
        self.game = Game::load(game_ressource);
    }

    /// The id is optional. This function is used to set the id after the
    /// game is saved.
    pub fn set_id(&mut self, id: u32)
        requires
            old(self)@.wf(),
        ensures
            final(self)@.wf(),
            final(self)@ == (GameModelView {
                game: GameView { id: Some(id), ..old(self)@.game },
                ..old(self)@
            }),
    {
        self.game.id = Some(id);
    }

    // Getter
    /// Returns the id of the game.
    pub fn get_id(&self) -> (id: Option<u32>)
        ensures
            id == self@.game.id,
    {
        self.game.id
    }

    /// Return the enemy spawn timeout. This is used to save the game.
    pub fn get_enemy_spawn_timeout(&self) -> (timeout: i64)
        ensures
            timeout == self@.game.game_settings.enemy_spawn_timeout,
    {
        self.game.game_settings.enemy_spawn_timeout
    }

    /// Return the current error message if there is one.
    pub fn get_error_message(&self) -> (message: Option<String>)
        ensures
            self@.error_message.visible() == match message {
                Some(text) => Some(text@),
                None => None,
            },
    {
        self.error_message.get_message()
    }

    /// Returns the current GameState
    pub fn get_game_state(&self) -> (state: GameState)
        ensures
            state == self@.game.state,
    {
        self.game.state
    }

    /// Returns the current score
    pub fn get_score(&self) -> (score: i64)
        ensures
            score == self@.game.score,
    {
        self.game.score
    }

    /// Returns the ship
    pub fn get_ship(&self) -> (ship: Ship)
        ensures
            ship == self@.game.game_settings.ship,
    {
        self.game.game_settings.ship
    }

    /// Returns the enemies, in their order.
    pub fn get_enemies(&self) -> (enemies: Vec<Enemy>)
        ensures
            enemies@ == self@.game.enemies,
    {
        let enemies = self.game.enemies.clone();
        enemies
    }

    /// Returns the projectiles, in their order.
    pub fn get_projectiles(&self) -> (projectiles: Vec<Projectile>)
        ensures
            projectiles@ == self@.game.projectiles,
    {
        let projectiles = self.game.projectiles.clone();
        projectiles
    }

    /// Returns the field.
    pub fn get_field(&self) -> (field: Field)
        ensures
            field == self@.game.game_settings.field,
    {
        self.game.game_settings.field
    }

    /// Returns the coins.
    pub fn get_coins(&self) -> (coins: i32)
        ensures
            coins == self@.game.coins,
    {
        self.game.coins
    }

    /// Returns the number of lives left.
    pub fn get_lives(&self) -> (lives: i32)
        ensures
            lives == self@.game.lives,
    {
        self.game.lives
    }

    /// Returns the maximum number of lives.
    pub fn get_max_lives(&self) -> (lives: i32)
        ensures
            lives == self@.game.game_settings.max_lives,
    {
        self.game.game_settings.max_lives
    }

    /// Return the percentage to which the time until the next shot has run
    /// out.
    pub fn get_shoot_refill_percentage(&self) -> (percentage: i32)
        requires
            self@.wf(),
        ensures
            percentage == refill_percentage(
                self@.game.time_until_next_shot,
                self@.game.game_settings.shoot_timeout as int,
            ),
    {
        let timeout = self.game.game_settings.shoot_timeout;
        100 - (200 * self.game.time_until_next_shot + timeout) / (2 * timeout)
    }

    /// Returns if the ship is currently invulnerable.
    pub fn is_invulnerable(&self) -> (invulnerable: bool)
        ensures
            invulnerable == self@.game.is_invulnerable(),
    {
        self.game.is_invulnerable()
    }

    /// Returns the shop items, each with the price of its next level noted
    /// in it.
    pub fn get_shop_items(&mut self) -> (items: Vec<Item>)
        requires
            old(self)@.wf(),
        ensures
            final(self)@.wf(),
            final(self)@ == (GameModelView {
                game: GameView { items: displayed(old(self)@.game.items), ..old(self)@.game },
                ..old(self)@
            }),
            items@ == final(self)@.game.items,
    {
        let ghost before = self.game.shop.items@;
        let mut items: Vec<Item> = vec![];
        let mut index: usize = 0;
        while index < self.game.shop.items.len()
            invariant
                old(self)@.wf(),
                before == old(self)@.game.items,
                self@ == (GameModelView {
                    game: GameView { items: self@.game.items, ..old(self)@.game },
                    ..old(self)@
                }),
                self.game.shop.items@.len() == before.len(),
                index <= before.len(),
                forall|place: int|
                    0 <= place < before.len() ==> #[trigger] self.game.shop.items@[place]
                        == if place < index {
                        displayed(before)[place]
                    } else {
                        before[place]
                    },
                items@ == displayed(before).take(index as int),
            decreases before.len() - index,
        {
            let item = *self.game.shop.items[index].to_js_value();
            items.push(item);
            index += 1;
        }
        assert(self.game.shop.items@ =~= displayed(before));
        items
    }
}

/// A game that has just been loaded is ready to shoot.
proof fn lemma_loaded_ship_is_ready(saved: crate::game_ressources::SavedGame)
    requires
        saved.loaded() is Ok,
    ensures
        saved.loaded()->Ok_0.time_until_next_shot == 0,
{
    lemma_replay_keeps_countdown(saved.opened(), saved.levels);
}

/// Purchases leave the countdown to the next shot as it is.
proof fn lemma_replay_keeps_countdown(game: GameView, levels: Seq<(u32, u32)>)
    requires
        game.replayed(levels) is Ok,
    ensures
        game.replayed(levels)->Ok_0.time_until_next_shot == game.time_until_next_shot,
    decreases levels.len(),
{
    if levels.len() > 0 {
        lemma_purchases_keep_countdown(game, levels[0].0, levels[0].1 as nat);
        lemma_replay_keeps_countdown(
            game.bought_times(levels[0].0, levels[0].1 as nat)->Ok_0,
            levels.skip(1),
        );
    }
}

/// Purchases of one item leave the countdown to the next shot as it is.
proof fn lemma_purchases_keep_countdown(game: GameView, id: u32, times: nat)
    requires
        game.bought_times(id, times) is Ok,
    ensures
        game.bought_times(id, times)->Ok_0.time_until_next_shot == game.time_until_next_shot,
    decreases times,
{
    if times > 0 {
        lemma_purchases_keep_countdown(game.bought(id, true), id, (times - 1) as nat);
    }
}

} // verus!
