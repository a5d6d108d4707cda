//! Enemies that run into the ship.

use vstd::prelude::*;
use crate::enemy::{sound_enemies, Enemy};
use crate::game::{elsewhere, Game, GameView};
use crate::positioned::{collide, Collides, Positioned};

verus! {

/// The ship is rammed by one enemy at most.
pub proof fn lemma_rams_unique(game: GameView, index: int)
    requires
        game.rams(index),
    ensures
        game.rammer() == Some(index),
{
}

impl Game {
    /// Checks for collisions between enemies and the ship: returns the
    /// first enemy that collides with it.
    pub(crate) fn collision_enemy_ship(&self) -> (enemy: Option<Enemy>)
        requires
            self.game_settings.ship.wf(),
            sound_enemies(self.enemies@),
        ensures
            match self@.rammer() {
                Some(index) => enemy == Some(self@.enemies[index]),
                None => enemy is None,
            },
    {
        let mut index: usize = 0;
        while index < self.enemies.len()
            invariant
                self.game_settings.ship.wf(),
                sound_enemies(self.enemies@),
                index <= self.enemies@.len(),
                forall|earlier: int|
                    0 <= earlier < index ==> !collide(
                        self.game_settings.ship,
                        #[trigger] self@.enemies[earlier],
                    ),
            decreases self.enemies@.len() - index,
        {
            if self.game_settings.ship.is_collision(&self.enemies[index]) {
                proof {
                    lemma_rams_unique(self@, index as int);
                }
                return Some(self.enemies[index]);
            }
            index += 1;
        }
        None
    }

    /// Removes every enemy at the place.
    pub(crate) fn remove_enemies_at(&mut self, place: (i64, i64))
        requires
            sound_enemies(old(self).enemies@),
        ensures
            final(self)@ == (GameView {
                enemies: old(self)@.enemies.filter(elsewhere(place)),
                ..old(self)@
            }),
            sound_enemies(final(self).enemies@),
    {
        let mut kept: Vec<Enemy> = vec![];
        let mut index: usize = 0;
        while index < self.enemies.len()
            invariant
                *self == *old(self),
                index <= self.enemies@.len(),
                sound_enemies(self.enemies@),
                sound_enemies(kept@),
                kept@ == self.enemies@.take(index as int).filter(elsewhere(place)),
            decreases self.enemies@.len() - index,
        {
            let enemy = self.enemies[index];
            proof {
                assert(self.enemies@.take(index + 1) =~= self.enemies@.take(index as int).push(
                    enemy,
                ));
                self.enemies@.take(index as int).lemma_filter_push(enemy, elsewhere(place));
            }
            let (x, y) = enemy.get_position();
            if x != place.0 || y != place.1 {
                kept.push(enemy);
            }
            index += 1;
        }
        assert(self.enemies@.take(index as int) =~= self.enemies@);
        self.enemies = kept;
    }
}

} // verus!
