//! The motion of projectiles and enemies through a tick.

use vstd::prelude::*;
use crate::enemy::{sound_enemies, Enemy};
use crate::game::{drift, fly, live, present, Game, GameView};
use crate::positioned::Moves;
use crate::projectile::{sound_projectiles, Projectile};

verus! {

impl Game {
    /// Moves the projectiles, and removes those that have left the field
    /// and those that have no hits left.
    pub(crate) fn move_projectiles(&mut self)
        requires
            sound_projectiles(old(self).projectiles@),
        ensures
            final(self)@ == (GameView {
                projectiles: old(self)@.projectiles.map_values(fly()).filter(
                    live(old(self).game_settings.field),
                ),
                ..old(self)@
            }),
            forall|index: int|
                0 <= index < final(self).projectiles@.len() ==> {
                    &&& (#[trigger] final(self).projectiles@[index]).wf()
                    &&& final(self).projectiles@[index].hits > 0
                },
    {
        let field = self.game_settings.field;
        let ghost flown = self.projectiles@.map_values(fly());
        let mut kept: Vec<Projectile> = vec![];
        let mut index: usize = 0;
        while index < self.projectiles.len()
            invariant
                *self == *old(self),
                field == self.game_settings.field,
                flown == self.projectiles@.map_values(fly()),
                sound_projectiles(self.projectiles@),
                index <= self.projectiles@.len(),
                kept@ == flown.take(index as int).filter(live(field)),
                forall|at: int|
                    0 <= at < kept@.len() ==> {
                        &&& (#[trigger] kept@[at]).wf()
                        &&& kept@[at].hits > 0
                    },
            decreases self.projectiles@.len() - index,
        {
            let mut projectile = self.projectiles[index];
            let inside = projectile.move_tick(&field);
            proof {
                assert(flown.take(index + 1) =~= flown.take(index as int).push(projectile));
                flown.take(index as int).lemma_filter_push(projectile, live(field));
            }
            if inside && projectile.hits > 0 {
                kept.push(projectile);
            }
            index += 1;
        }
        assert(flown.take(index as int) =~= flown);
        self.projectiles = kept;
    }

    /// Moves the enemies, and removes those that have left the field.
    pub(crate) fn move_enemies(&mut self)
        requires
            sound_enemies(old(self).enemies@),
        ensures
            final(self)@ == (GameView {
                enemies: old(self)@.enemies.map_values(drift()).filter(
                    present(old(self).game_settings.field),
                ),
                ..old(self)@
            }),
            sound_enemies(final(self).enemies@),
    {
        let field = self.game_settings.field;
        let ghost drifted = self.enemies@.map_values(drift());
        let mut kept: Vec<Enemy> = vec![];
        let mut index: usize = 0;
        while index < self.enemies.len()
            invariant
                *self == *old(self),
                field == self.game_settings.field,
                drifted == self.enemies@.map_values(drift()),
                sound_enemies(self.enemies@),
                index <= self.enemies@.len(),
                kept@ == drifted.take(index as int).filter(present(field)),
                sound_enemies(kept@),
            decreases self.enemies@.len() - index,
        {
            let mut enemy = self.enemies[index];
            let inside = enemy.move_tick(&field);
            proof {
                assert(drifted.take(index + 1) =~= drifted.take(index as int).push(enemy));
                drifted.take(index as int).lemma_filter_push(enemy, present(field));
            }
            if inside {
                kept.push(enemy);
            }
            index += 1;
        }
        assert(drifted.take(index as int) =~= drifted);
        self.enemies = kept;
    }
}

} // verus!
