//! The representation of a game that is saved and loaded.

use vstd::prelude::*;

verus! {

/// What a [`GameRessource`] holds of a game.
pub struct SavedGame {
    /// The id under which the game is saved
    pub id: Option<u32>,
    /// Whether the game was over when it was saved
    pub ended: bool,
    /// The score, in thousandths of a point
    pub score: int,
    /// The coins
    pub coins: int,
    /// The lives
    pub lives: int,
    /// The timeout between enemy spawns, in thousandths of a tick
    pub enemy_spawn_timeout: int,
    /// For each entry of the list of items, the id of the item and its
    /// level
    pub levels: Seq<(u32, u32)>,
}

/// The representation of the game that is saved and loaded. The score and
/// the spawn timeout are in thousandths.
#[derive(Clone, Debug)]
pub struct GameRessource {
    pub id: Option<u32>,
    pub ended: bool,
    pub score: i64,
    pub coins: i32,
    pub lives: i32,
    pub enemy_spawn_timeout: i64,
    pub items: Vec<ItemLevelRessource>,
}

/// The representation of the level of an item.
#[derive(Clone, Debug)]
pub struct ItemLevelRessource {
    pub level: u32,
    pub item: ItemRessource,
}

/// The representation of an item.
#[derive(Clone, Debug)]
pub struct ItemRessource {
    pub id: u32,
    pub name: String,
    pub description: String,
    pub price: u32,
}

impl View for GameRessource {
    type V = SavedGame;

    open spec fn view(&self) -> SavedGame {
        SavedGame {
            id: self.id,
            ended: self.ended,
            score: self.score as int,
            coins: self.coins as int,
            lives: self.lives as int,
            enemy_spawn_timeout: self.enemy_spawn_timeout as int,
            levels: self.items@.map_values(
                |entry: ItemLevelRessource| (entry.item.id, entry.level),
            ),
        }
    }
}

} // verus!
