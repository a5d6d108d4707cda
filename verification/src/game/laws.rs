//! What holds of every step of every game.

use vstd::prelude::*;
use crate::enemy::{lemma_spawned_sound, sound_enemies};
use crate::game::hits::{
    lemma_no_projectiles_no_hits,
    lemma_rewards_bounded,
    lemma_survivors_sound,
    rewards,
};
use crate::game::loading::saved_level;
use crate::game::ramming::lemma_rams_unique;
use crate::game_ressources::SavedGame;
use crate::game::{
    drift,
    elsewhere,
    fly,
    idle,
    live,
    present,
    tuned,
    Chance,
    GameAction,
    GameView,
};
use crate::positioned::{within, Positioned};
use crate::projectile::lemma_fired_sound;
use crate::game_settings::GameSettings;
use crate::projectile::Projectile;
use crate::shop::{catalog, lemma_place_unique, purchase, Item};

verus! {

/// An action that does nothing in a state leaves every part of the game as
/// it is, the countdowns too, and does not fail.
pub proof fn lemma_idle_changes_nothing(game: GameView, action: GameAction, chance: Chance)
    requires
        idle(game.state, action),
    ensures
        game.after(action, chance) == game,
        game.refused(action) is None,
{
}

/// No step takes more than one life, and the step that takes the last one
/// ends the game.
pub proof fn lemma_last_life_ends_game(game: GameView, action: GameAction, chance: Chance)
    ensures
        game.after(action, chance).lives == game.lives || game.after(action, chance).lives
            == game.lives - 1 || game.after(action, chance).lives == 0,
        game.lives >= 1 ==> game.after(action, chance).lives >= 0,
        game.lives != 0 && game.after(action, chance).lives == 0 ==> game.after(
            action,
            chance,
        ).state is NotRunning,
{
}

/// The last life is lost within the tick in which an enemy rams the ship.
/// Where a running game has one life left, a ship that is vulnerable in this
/// tick and no projectiles, and the enemy at `index` is the first that
/// collides with the ship, the tick takes the life, ends the game and makes
/// the ship invulnerable for its time. The rammer and every enemy at its
/// place are gone: the enemies after the tick are those that were elsewhere,
/// with the newcomer if the time had come for one, moved by their steps, as
/// far as they are still in the field.
pub proof fn lemma_last_life_is_lost(game: GameView, chance: Chance, index: int)
    requires
        game.state is Running,
        game.lives == 1,
        game.time_until_vulnerable <= 1,
        game.projectiles.len() == 0,
        game.rams(index),
    ensures
        game.refused(GameAction::Tick) is None,
        game.after(GameAction::Tick, chance).lives == 0,
        game.after(GameAction::Tick, chance).state is NotRunning,
        game.after(GameAction::Tick, chance).time_until_vulnerable
            == game.game_settings.invulnerability_time,
        game.after(GameAction::Tick, chance).enemies == ({
            let spared = game.enemies.filter(elsewhere(game.enemies[index].position()));
            let joined = if game.time_until_enemy_spawn <= 0 {
                spared.push(chance.newcomer)
            } else {
                spared
            };
            joined.map_values(drift()).filter(present(game.game_settings.field))
        }),
{
    let counted = game.counted();
    lemma_no_projectiles_no_hits(counted, chance.outcomes);
    lemma_rams_unique(counted, index);
}

/// The lives never go negative, and a game without lives is not running:
/// where that holds before a step it holds after it, unless the step starts
/// a game that has no lives.
pub proof fn lemma_lives_never_negative(game: GameView, action: GameAction, chance: Chance)
    requires
        game.lives >= 0,
        game.lives == 0 ==> game.state is NotRunning,
        !(game.lives == 0 && action is Start),
    ensures
        game.after(action, chance).lives >= 0,
        game.after(action, chance).lives == 0 ==> game.after(action, chance).state is NotRunning,
{
}

/// Of two shots in a row only the first fires: a running game whose ship
/// is ready to shoot has exactly one projectile more after them.
pub proof fn lemma_second_shot_waits(game: GameView, first: Chance, second: Chance)
    requires
        game.wf(),
        game.state is Running,
        game.time_until_next_shot <= 0,
    ensures
        game.after(GameAction::Shoot, first).after(GameAction::Shoot, second) == game.after(
            GameAction::Shoot,
            first,
        ),
        game.after(GameAction::Shoot, first).projectiles == game.projectiles.push(
            Projectile::fired(game.game_settings, first.id),
        ),
{
}

/// The score never falls, and only a tick of a running game raises it.
pub proof fn lemma_score_never_falls(game: GameView, action: GameAction, chance: Chance)
    requires
        game.wf(),
    ensures
        game.after(action, chance).score >= game.score,
        !(game.state is Running && action is Tick) ==> game.after(action, chance).score
            == game.score,
{
}

/// The level of an item never falls and never passes its highest level.
pub proof fn lemma_levels_never_fall(
    game: GameView,
    action: GameAction,
    chance: Chance,
    place: int,
)
    requires
        game.wf(),
        0 <= place < game.items.len(),
    ensures
        game.after(action, chance).items.len() == game.items.len(),
        game.items[place].level <= game.after(action, chance).items[place].level
            <= game.items[place].max_level,
        game.after(action, chance).items[place].level <= game.items[place].level + 1,
{
}

/// After a tick every projectile in the game has a hit left, and every
/// projectile and every enemy is in the field, at least in part.
pub proof fn lemma_tick_clears_the_field(game: GameView, chance: Chance)
    requires
        game.state is Running,
    ensures
        forall|index: int|
            0 <= index < game.after(GameAction::Tick, chance).projectiles.len() ==> {
                &&& (#[trigger] game.after(GameAction::Tick, chance).projectiles[index]).hits > 0
                &&& within(
                    game.after(GameAction::Tick, chance).projectiles[index],
                    game.game_settings.field,
                )
            },
        forall|index: int|
            0 <= index < game.after(GameAction::Tick, chance).enemies.len() ==> within(
                #[trigger] game.after(GameAction::Tick, chance).enemies[index],
                game.game_settings.field,
            ),
{
    let full = game.counted().shot_through(chance.outcomes).rammed().hastened().reinforced(
        chance.newcomer,
    );
    let field = game.game_settings.field;
    let next = game.after(GameAction::Tick, chance);
    assert forall|index: int| 0 <= index < next.projectiles.len() implies {
        &&& (#[trigger] next.projectiles[index]).hits > 0
        &&& within(next.projectiles[index], field)
    } by {
        full.projectiles.map_values(fly()).lemma_filter_pred(live(field), index);
    }
    assert forall|index: int| 0 <= index < next.enemies.len() implies within(
        #[trigger] next.enemies[index],
        field,
    ) by {
        full.enemies.map_values(drift()).lemma_filter_pred(present(field), index);
    }
}

/// A step leads from a well-formed game to a well-formed game, whatever
/// chance adds to it within the rules, provided that the counters have room
/// where the step is a tick.
pub proof fn lemma_step_keeps_wf(game: GameView, action: GameAction, chance: Chance)
    requires
        game.wf(),
        game.permits(action, chance),
        game.state is Running && action is Tick ==> game.has_room(),
    ensures
        game.after(action, chance).wf(),
{
    if game.state is Running && action is Tick {
        lemma_tick_keeps_wf(game, chance);
    } else if game.state is Running && action is Shoot {
        lemma_fired_sound(game.game_settings, chance.id);
    }
}

/// A tick leads from a well-formed game to a well-formed game.
proof fn lemma_tick_keeps_wf(game: GameView, chance: Chance)
    requires
        game.wf(),
        game.has_room(),
        game.counted().permits_tick(chance),
    ensures
        game.ticked(chance.outcomes, chance.newcomer).wf(),
{
    let counted = game.counted();
    let hit = counted.shot_through(chance.outcomes);
    let struck = hit.rammed();
    let ready = struck.hastened();
    let full = ready.reinforced(chance.newcomer);
    let next = full.moved();
    let field = game.game_settings.field;
    let count = counted.enemies.len() as int;
    lemma_rewards_bounded(counted.enemies, counted.projectiles, count);
    lemma_survivors_sound(
        counted.enemies,
        counted.projectiles,
        counted.game_settings,
        chance.outcomes,
        count,
    );
    let factor = game.game_settings.coin_multiplier;
    assert(0 <= rewards(counted.enemies, counted.projectiles, count) * factor <= 4 * factor
        * count) by (nonlinear_arith)
        requires
            0 <= rewards(counted.enemies, counted.projectiles, count) <= 4 * count,
            0 <= factor,
    ;
    assert(sound_enemies(struck.enemies)) by {
        match hit.rammer() {
            Some(index) => {
                let place = hit.enemies[index].position();
                assert forall|at: int| 0 <= at < struck.enemies.len() implies (
                #[trigger] struck.enemies[at]).wf() by {
                    let enemy = struck.enemies[at];
                    hit.enemies.lemma_filter_contains_rev(elsewhere(place), enemy);
                }
            },
            None => {},
        }
    }
    if ready.time_until_enemy_spawn <= 0 {
        lemma_spawned_sound(
            chance.newcomer,
            ready.game_settings,
            ready.score,
            chance.newcomer.id,
        );
    }
    assert forall|at: int| 0 <= at < next.enemies.len() implies (
    #[trigger] next.enemies[at]).wf() by {
        let enemy = next.enemies[at];
        let drifted = full.enemies.map_values(drift());
        drifted.lemma_filter_pred(present(field), at);
        drifted.lemma_filter_contains_rev(present(field), enemy);
    }
    assert forall|at: int| 0 <= at < next.projectiles.len() implies {
        &&& (#[trigger] next.projectiles[at]).wf()
        &&& i32::MIN < next.projectiles[at].hits
    } by {
        let projectile = next.projectiles[at];
        let flown = full.projectiles.map_values(fly());
        flown.lemma_filter_pred(live(field), at);
        flown.lemma_filter_contains_rev(live(field), projectile);
    }
}

/// A purchase with the coins ignored leaves the coins as they are.
pub proof fn lemma_ignored_coins_stay(game: GameView, id: u32, chance: Chance)
    ensures
        game.after(GameAction::BuyItem(id, true), chance).coins == game.coins,
{
}

/// A purchase that is paid for never leaves the player in debt that was not
/// there before; it costs the price of the level that was bought.
pub proof fn lemma_purchase_costs_price(game: GameView, id: u32, chance: Chance)
    requires
        game.wf(),
        !(game.state is NotRunning),
        purchase(game.items, id, game.coins, false) is Ok,
    ensures
        ({
            let place = purchase(game.items, id, game.coins, false)->Ok_0;
            let next = game.after(GameAction::BuyItem(id, false), chance);
            &&& next.coins == game.coins - game.items[place].next_level_price()
            &&& next.coins >= 0
            &&& next.items[place].level == game.items[place].level + 1
        }),
{
}

/// The items on the way to the levels of a game: the first `done` items at
/// their levels, the next at the level `extra`, the others not bought.
spec fn partly_bought(game: GameView, done: int, extra: int) -> Seq<Item> {
    Seq::new(
        catalog().len(),
        |index: int|
            Item {
                level: if index < done {
                    game.items[index].level
                } else if index == done {
                    extra as u8
                } else {
                    0
                },
                ..catalog()[index]
            },
    )
}

/// The game on the way to a saved game, while its levels are bought.
spec fn partly_loaded(game: GameView, done: int, extra: int) -> GameView {
    let items = partly_bought(game, done, extra);
    GameView {
        items,
        game_settings: tuned(items, (0, 0), game.game_settings.enemy_spawn_timeout),
        ..game.saved(false).opened()
    }
}

/// Buying an item up to its saved level leads from one item to the next.
proof fn lemma_levels_bought(game: GameView, done: int, extra: int)
    requires
        game.wf(),
        0 <= done < catalog().len(),
        0 <= extra <= game.items[done].level,
    ensures
        partly_loaded(game, done, extra).bought_times(
            done as u32,
            (game.items[done].level - extra) as nat,
        ) == Ok::<GameView, crate::shop::Refusal>(partly_loaded(game, done + 1, 0)),
    decreases game.items[done].level - extra,
{
    let now = partly_loaded(game, done, extra);
    if extra == game.items[done].level {
        assert(partly_bought(game, done, extra) =~= partly_bought(game, done + 1, 0));
    } else {
        lemma_place_unique(now.items, done as u32, done);
        let next = now.bought(done as u32, true);
        assert(next.items =~= partly_bought(game, done, extra + 1));
        lemma_levels_bought(game, done, extra + 1);
    }
}

/// Buying every item up to its saved level leads to all the saved levels.
proof fn lemma_levels_replayed(game: GameView, done: int)
    requires
        game.wf(),
        0 <= done <= catalog().len(),
    ensures
        partly_loaded(game, done, 0).replayed(game.saved(false).levels.skip(done)) == Ok::<
            GameView,
            crate::shop::Refusal,
        >(partly_loaded(game, catalog().len() as int, 0)),
    decreases catalog().len() - done,
{
    let levels = game.saved(false).levels;
    if done < catalog().len() {
        let rest = levels.skip(done);
        assert(rest.skip(1) =~= levels.skip(done + 1));
        lemma_levels_bought(game, done, 0);
        lemma_levels_replayed(game, done + 1);
    }
}

/// A game that is saved and loaded again has the score, the coins, the
/// lives, the spawn timeout and the level of every item that it had, and
/// with them all of its settings but for the direction of the ship. It is
/// paused, and its field is empty.
pub proof fn lemma_load_restores_saved(game: GameView, ended: bool)
    requires
        game.wf(),
    ensures
        game.saved(ended).loaded() is Ok,
        ({
            let loaded = game.saved(ended).loaded()->Ok_0;
            &&& loaded.wf()
            &&& loaded.id == game.id
            &&& loaded.score == game.score
            &&& loaded.coins == game.coins
            &&& loaded.lives == game.lives
            &&& loaded.game_settings.enemy_spawn_timeout == game.game_settings.enemy_spawn_timeout
            &&& loaded.items.len() == game.items.len()
            &&& forall|index: int|
                0 <= index < game.items.len() ==> (#[trigger] loaded.items[index]).level
                    == game.items[index].level
            &&& loaded.game_settings == GameSettings {
                ship: GameSettings::initial().ship,
                ..game.game_settings
            }
            &&& loaded.state is Paused
            &&& loaded.enemies.len() == 0
            &&& loaded.projectiles.len() == 0
        }),
{
    let saved = game.saved(ended);
    assert(partly_bought(game, 0, 0) =~= catalog());
    assert(saved.levels.skip(0) =~= saved.levels);
    lemma_levels_replayed(game, 0);
}

/// Buying an item of the catalog some times, with the coins ignored, raises
/// its level by as much and changes nothing else but the settings, as long
/// as the level stays within its bound.
proof fn lemma_purchases_raise_level(game: GameView, id: u32, times: nat)
    requires
        game.wf(),
        times > 0 ==> id < catalog().len() && game.items[id as int].level + times
            <= catalog()[id as int].max_level,
    ensures
        game.bought_times(id, times) is Ok,
        ({
            let next = game.bought_times(id, times)->Ok_0;
            &&& next.wf()
            &&& next == (GameView { items: next.items, game_settings: next.game_settings, ..game })
            &&& next.game_settings.ship == game.game_settings.ship
            &&& next.game_settings.enemy_spawn_timeout == game.game_settings.enemy_spawn_timeout
            &&& forall|place: int|
                0 <= place < catalog().len() ==> (#[trigger] next.items[place]).level
                    == game.items[place].level + if place == id {
                    times as int
                } else {
                    0
                }
        }),
    decreases times,
{
    if times > 0 {
        lemma_place_unique(game.items, id, id as int);
        let next = game.bought(id, true);
        lemma_purchases_raise_level(next, id, (times - 1) as nat);
    }
}

/// Buying what the entries save, with the coins ignored, raises the level of
/// every item by what they save for it and changes nothing else but the
/// settings, as long as every entry that saves a level names an item of the
/// catalog and no level passes its bound.
proof fn lemma_replay_raises_levels(game: GameView, levels: Seq<(u32, u32)>)
    requires
        game.wf(),
        forall|entry: int|
            0 <= entry < levels.len() && (#[trigger] levels[entry]).1 > 0 ==> levels[entry].0
                < catalog().len(),
        forall|id: u32|
            id < catalog().len() ==> game.items[id as int].level + #[trigger] saved_level(
                levels,
                id,
            ) <= catalog()[id as int].max_level,
    ensures
        game.replayed(levels) is Ok,
        ({
            let next = game.replayed(levels)->Ok_0;
            &&& next.wf()
            &&& next == (GameView { items: next.items, game_settings: next.game_settings, ..game })
            &&& next.game_settings.ship == game.game_settings.ship
            &&& next.game_settings.enemy_spawn_timeout == game.game_settings.enemy_spawn_timeout
            &&& forall|place: int|
                0 <= place < catalog().len() ==> (#[trigger] next.items[place]).level
                    == game.items[place].level + saved_level(levels, place as u32)
        }),
    decreases levels.len(),
{
    if levels.len() > 0 {
        let id = levels[0].0;
        let times = levels[0].1 as nat;
        let rest = levels.skip(1);
        if times > 0 {
            lemma_saved_level_is_natural(rest, id);
            assert(saved_level(levels, id) == saved_level(rest, id) + times);
        }
        lemma_purchases_raise_level(game, id, times);
        let bought = game.bought_times(id, times)->Ok_0;
        assert forall|other: u32| other < catalog().len() implies bought.items[other as int].level
            + #[trigger] saved_level(rest, other) <= catalog()[other as int].max_level by {
            assert(saved_level(levels, other) == saved_level(rest, other) + if id == other {
                times as int
            } else {
                0
            });
        }
        lemma_replay_raises_levels(bought, rest);
    }
}

/// No item is saved at a negative level.
proof fn lemma_saved_level_is_natural(levels: Seq<(u32, u32)>, id: u32)
    ensures
        saved_level(levels, id) >= 0,
    decreases levels.len(),
{
    if levels.len() > 0 {
        lemma_saved_level_is_natural(levels.skip(1), id);
    }
}

/// Whatever is saved of a game can be loaded, and comes back as it was
/// saved, if its numbers are in range, every entry that saves a level names
/// an item of the catalog, and the levels saved for an item are together no
/// more than its highest. The entries may name the items in any order, name
/// only some of them, or name one more than once. The loaded game has the
/// saved id, score, coins, lives and spawn timeout, whatever the coins are;
/// every item has the level that was saved for it, and one that was not
/// named has none; the settings are those that these levels make. The game
/// is paused, and its field is empty.
pub proof fn lemma_load_restores_levels(saved: SavedGame)
    requires
        saved.in_range(),
        forall|entry: int|
            0 <= entry < saved.levels.len() && (#[trigger] saved.levels[entry]).1 > 0
                ==> saved.levels[entry].0 < catalog().len(),
        forall|id: u32|
            id < catalog().len() ==> #[trigger] saved_level(saved.levels, id)
                <= catalog()[id as int].max_level,
    ensures
        saved.loaded() is Ok,
        ({
            let loaded = saved.loaded()->Ok_0;
            &&& loaded.wf()
            &&& loaded.id == saved.id
            &&& loaded.score == saved.score
            &&& loaded.coins == saved.coins
            &&& loaded.lives == saved.lives
            &&& loaded.game_settings.enemy_spawn_timeout == saved.enemy_spawn_timeout
            &&& loaded.items.len() == catalog().len()
            &&& forall|place: int|
                0 <= place < catalog().len() ==> (#[trigger] loaded.items[place]).level
                    == saved_level(saved.levels, place as u32)
            &&& loaded.game_settings == tuned(
                loaded.items,
                (0, 0),
                saved.enemy_spawn_timeout as i64,
            )
            &&& loaded.state is Paused
            &&& loaded.enemies.len() == 0
            &&& loaded.projectiles.len() == 0
            &&& loaded.time_until_next_shot == 0
        }),
{
    lemma_replay_raises_levels(saved.opened(), saved.levels);
}

} // verus!
