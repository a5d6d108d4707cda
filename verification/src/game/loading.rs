//! Loading a saved game.
//!
//! A saved game holds the score, the coins, the lives, the spawn timeout and
//! the level of each item. It is loaded into a new, paused game; the levels
//! are reached by buying each item as often as its level says, with the
//! coins ignored, so that the settings become what they were.
//!
//! Not everything that is saved can be loaded: [`Game::can_load`] tells, and
//! [`Game::load`] takes what has passed.

use vstd::pervasive::unreached;
use vstd::prelude::*;
use crate::error_message::ErrorMessage;
use crate::game::{Game, GameAction, GameState, GameView};
use crate::game_ressources::{GameRessource, SavedGame};
use crate::game_settings::{GameSettings, MAX_TIMEOUT};
use crate::shop::{purchase, Refusal};

verus! {

/// Why a saved game cannot be loaded.
#[derive(Debug)]
pub enum LoadError {
    /// The score is negative, or the spawn timeout is larger than a game
    /// can hold.
    OutOfRange,
    /// The shop refuses one of the purchases that lead to the saved levels,
    /// with this message.
    Rejected(ErrorMessage),
}

/// Why loading fails, in the terms of the rules.
pub enum LoadFailure {
    /// A number of the saved game is not one that a game can hold.
    OutOfRange,
    /// The shop refuses one of the purchases that lead to the saved levels,
    /// for this reason.
    Rejected(Refusal),
}

/// The level that the entries save for the item with the id: the sum of the
/// levels of the entries that name it.
pub open spec fn saved_level(levels: Seq<(u32, u32)>, id: u32) -> int
    decreases levels.len(),
{
    if levels.len() == 0 {
        0
    } else {
        saved_level(levels.skip(1), id) + if levels[0].0 == id {
            levels[0].1 as int
        } else {
            0
        }
    }
}

impl SavedGame {
    /// Whether every number is one that a game can hold.
    pub open spec fn in_range(self) -> bool {
        &&& 0 <= self.score <= i64::MAX
        &&& -MAX_TIMEOUT <= self.enemy_spawn_timeout <= MAX_TIMEOUT
        &&& i32::MIN <= self.coins <= i32::MAX
        &&& i32::MIN <= self.lives <= i32::MAX
    }

    /// The paused game that loading starts from: a new game but for the id,
    /// the score, the coins, the lives and the spawn timeout.
    pub open spec fn opened(self) -> GameView {
        GameView {
            state: GameState::Paused,
            id: self.id,
            score: self.score,
            coins: self.coins,
            lives: self.lives,
            game_settings: GameSettings {
                enemy_spawn_timeout: self.enemy_spawn_timeout as i64,
                ..GameSettings::initial()
            },
            ..GameView::initial()
        }
    }

    /// The game that loading leads to, or the reason why it fails.
    pub open spec fn loaded(self) -> Result<GameView, LoadFailure> {
        if !self.in_range() {
            Err(LoadFailure::OutOfRange)
        } else {
            match self.opened().replayed(self.levels) {
                Ok(game) => Ok(game),
                Err(refusal) => Err(LoadFailure::Rejected(refusal)),
            }
        }
    }
}

impl GameView {
    /// What is saved of the game: its id, its score, its coins, its lives,
    /// its spawn timeout and the level of each item of its shop. Whether a
    /// game counts as ended is for the one who saves it to say.
    pub open spec fn saved(self, ended: bool) -> SavedGame {
        SavedGame {
            id: self.id,
            ended,
            score: self.score,
            coins: self.coins,
            lives: self.lives,
            enemy_spawn_timeout: self.game_settings.enemy_spawn_timeout as int,
            levels: Seq::new(
                self.items.len(),
                |index: int| (self.items[index].id, self.items[index].level as u32),
            ),
        }
    }

    /// The game after the item with the id has been bought `times` times
    /// with the coins ignored, or the reason why the shop refuses one of
    /// the purchases.
    pub open spec fn bought_times(self, id: u32, times: nat) -> Result<GameView, Refusal>
        decreases times,
    {
        if times == 0 {
            Ok(self)
        } else {
            match purchase(self.items, id, self.coins, true) {
                Ok(_) => self.bought(id, true).bought_times(id, (times - 1) as nat),
                Err(refusal) => Err(refusal),
            }
        }
    }

    /// The game after the purchases that lead to the levels, entry by entry,
    /// or the reason why the shop refuses one of them.
    pub open spec fn replayed(self, levels: Seq<(u32, u32)>) -> Result<GameView, Refusal>
        decreases levels.len(),
    {
        if levels.len() == 0 {
            Ok(self)
        } else {
            match self.bought_times(levels[0].0, levels[0].1 as nat) {
                Ok(game) => game.replayed(levels.skip(1)),
                Err(refusal) => Err(refusal),
            }
        }
    }
}

impl Game {
    /// Creates a new game from a game ressource (used to load an old game
    /// state). The game is paused.
    ///
    /// A saved game that cannot be loaded is no input of this function:
    /// [`Game::can_load`] tells whether one can.
    pub fn load(game_ressource: GameRessource) -> (game: Self)
        requires
            game_ressource@.loaded() is Ok,
        ensures
            game@ == game_ressource@.loaded()->Ok_0,
            game.wf(),
    {
        match Game::replay(&game_ressource) {
            Ok(game) => game,
            Err(_) => unreached(),
        }
    }

    /// Whether a saved game can be loaded, and if not, why.
    ///
    /// It cannot where one of its numbers is out of range (a negative
    /// score, a spawn timeout larger than a game can hold), or where the
    /// shop refuses one of the purchases that lead to the saved levels: the
    /// saved game names an item that the shop does not have, or a level
    /// above the highest of an item.
    pub fn can_load(game_ressource: &GameRessource) -> (verdict: Result<(), LoadError>)
        ensures
            match game_ressource@.loaded() {
                Ok(_) => verdict is Ok,
                Err(LoadFailure::OutOfRange) => verdict matches Err(LoadError::OutOfRange),
                Err(LoadFailure::Rejected(refusal)) => verdict matches Err(
                    LoadError::Rejected(error),
                ) && error@ == refusal.notice(),
            },
    {
        match Game::replay(game_ressource) {
            Ok(_) => Ok(()),
            Err(error) => Err(error),
        }
    }

    /// Builds the game that a saved game stands for, as far as that can be
    /// done: a new, paused game with the saved numbers, in whose shop every
    /// saved level is bought with the coins ignored.
    #[verifier::loop_isolation(false)]
    fn replay(game_ressource: &GameRessource) -> (result: Result<Self, LoadError>)
        ensures
            match game_ressource@.loaded() {
                Ok(loaded) => result matches Ok(game) && game@ == loaded && game.wf(),
                Err(LoadFailure::OutOfRange) => result matches Err(LoadError::OutOfRange),
                Err(LoadFailure::Rejected(refusal)) => result matches Err(
                    LoadError::Rejected(error),
                ) && error@ == refusal.notice(),
            },
    {
        if game_ressource.score < 0 || game_ressource.enemy_spawn_timeout < -MAX_TIMEOUT
            || game_ressource.enemy_spawn_timeout > MAX_TIMEOUT {
            return Err(LoadError::OutOfRange);
        }
        let mut game = Self::new();
        game.state = GameState::Paused;
        game.id = game_ressource.id;
        game.score = game_ressource.score;
        game.coins = game_ressource.coins;
        game.lives = game_ressource.lives;
        game.game_settings.enemy_spawn_timeout = game_ressource.enemy_spawn_timeout;

        let ghost levels = game_ressource@.levels;
        let ghost target = game_ressource@.opened().replayed(levels);
        let mut entry: usize = 0;
        assert(levels.skip(0) =~= levels);
        while entry < game_ressource.items.len()
            invariant
                game.wf(),
                game.state is Paused,
                levels == game_ressource@.levels,
                levels.len() == game_ressource.items@.len(),
                entry <= levels.len(),
                game@.replayed(levels.skip(entry as int)) == target,
            decreases levels.len() - entry,
        {
            let id = game_ressource.items[entry].item.id;
            let level = game_ressource.items[entry].level;
            let ghost reached = game@.bought_times(id, level as nat);
            let ghost after = levels.skip(entry + 1);
            assert(levels.skip(entry as int).skip(1) =~= after);
            let mut bought: u32 = 0;
            while bought < level
                invariant
                    game.wf(),
                    game.state is Paused,
                    bought <= level,
                    game@.bought_times(id, (level - bought) as nat) == reached,
                    target == match reached {
                        Ok(next) => next.replayed(after),
                        Err(refusal) => Err(refusal),
                    },
                decreases level - bought,
            {
                match game.step(GameAction::BuyItem(id, true)) {
                    Ok(_) => {},
                    Err(error) => {
                        return Err(LoadError::Rejected(error));
                    },
                }
                bought += 1;
            }
            entry += 1;
        }
        Ok(game)
    }
}

} // verus!
