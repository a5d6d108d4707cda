//! Which projectile hits which enemy in a tick.
//!
//! The enemies are taken in their order. Each is hit by the first projectile
//! that collides with it and has not hit another enemy in the same tick, so
//! that a projectile hits one enemy per tick at most, however many hits it
//! has left.

use vstd::prelude::*;
use crate::enemy::{lemma_damaged_sound, sound_enemies, Enemy};
use crate::game::{Game, GameView};
use crate::game_settings::GameSettings;
use crate::ids::clone_generator;
use crate::positioned::{collide, Collides, Positioned};
use crate::projectile::{sound_projectiles, Projectile};

verus! {

/// Whether the projectile at `index` is the one that hits the enemy: the
/// first that collides with it, those in `spent` left aside.
pub open spec fn strikes(
    enemy: Enemy,
    projectiles: Seq<Projectile>,
    spent: Set<int>,
    index: int,
) -> bool {
    &&& 0 <= index < projectiles.len()
    &&& !spent.contains(index)
    &&& collide(enemy, projectiles[index])
    &&& forall|earlier: int|
        0 <= earlier < index ==> spent.contains(earlier) || !collide(
            enemy,
            #[trigger] projectiles[earlier],
        )
}

/// The place of the projectile that hits the enemy, if one does.
pub open spec fn struck_by(enemy: Enemy, projectiles: Seq<Projectile>, spent: Set<int>) -> Option<
    int,
> {
    if exists|index: int| strikes(enemy, projectiles, spent, index) {
        Some(choose|index: int| strikes(enemy, projectiles, spent, index))
    } else {
        None
    }
}

/// The places of the projectiles that hit one of the first `count` enemies.
pub open spec fn spent(enemies: Seq<Enemy>, projectiles: Seq<Projectile>, count: int) -> Set<int>
    decreases count,
{
    if count <= 0 {
        Set::empty()
    } else {
        let before = spent(enemies, projectiles, count - 1);
        match struck_by(enemies[count - 1], projectiles, before) {
            Some(index) => before.insert(index),
            None => before,
        }
    }
}

/// The place of the projectile that hits the enemy at `index`, if one does.
pub open spec fn hit(enemies: Seq<Enemy>, projectiles: Seq<Projectile>, index: int) -> Option<int> {
    struck_by(enemies[index], projectiles, spent(enemies, projectiles, index))
}

/// The projectiles after the hits: each that hit an enemy has one hit less.
pub open spec fn worn(enemies: Seq<Enemy>, projectiles: Seq<Projectile>) -> Seq<Projectile> {
    Seq::new(
        projectiles.len(),
        |index: int|
            if spent(enemies, projectiles, enemies.len() as int).contains(index) {
                Projectile { hits: (projectiles[index].hits - 1) as i32, ..projectiles[index] }
            } else {
                projectiles[index]
            },
    )
}

/// The sum of the rewards for those of the first `count` enemies that are
/// hit.
pub open spec fn rewards(enemies: Seq<Enemy>, projectiles: Seq<Projectile>, count: int) -> int
    decreases count,
{
    if count <= 0 {
        0
    } else {
        rewards(enemies, projectiles, count - 1) + if hit(enemies, projectiles, count - 1) is Some {
            enemies[count - 1].reward()
        } else {
            0
        }
    }
}

/// What is left of the first `count` enemies: an enemy that is not hit stays
/// as it is, one that is hit gives way to what the hit made of it.
pub open spec fn survivors(
    enemies: Seq<Enemy>,
    projectiles: Seq<Projectile>,
    outcomes: Seq<Seq<Enemy>>,
    count: int,
) -> Seq<Enemy>
    decreases count,
{
    if count <= 0 {
        Seq::empty()
    } else {
        survivors(enemies, projectiles, outcomes, count - 1) + if hit(
            enemies,
            projectiles,
            count - 1,
        ) is Some {
            outcomes[count - 1]
        } else {
            seq![enemies[count - 1]]
        }
    }
}

/// Whether `outcomes` holds, for each enemy that is hit, something that the
/// damage of its projectile can make of it.
pub open spec fn fair(
    enemies: Seq<Enemy>,
    projectiles: Seq<Projectile>,
    settings: GameSettings,
    outcomes: Seq<Seq<Enemy>>,
) -> bool {
    &&& outcomes.len() == enemies.len()
    &&& forall|index: int|
        0 <= index < enemies.len() ==> match #[trigger] hit(enemies, projectiles, index) {
            Some(place) => enemies[index].damaged(
                settings,
                projectiles[place].damage,
                outcomes[index],
            ),
            None => true,
        }
}

/// An enemy is hit by one projectile at most.
pub proof fn lemma_strikes_unique(
    enemy: Enemy,
    projectiles: Seq<Projectile>,
    spent: Set<int>,
    index: int,
)
    requires
        strikes(enemy, projectiles, spent, index),
    ensures
        struck_by(enemy, projectiles, spent) == Some(index),
{
}

/// What is left of the first enemies depends on the outcomes of those
/// enemies only.
pub proof fn lemma_survivors_agree(
    enemies: Seq<Enemy>,
    projectiles: Seq<Projectile>,
    outcomes: Seq<Seq<Enemy>>,
    others: Seq<Seq<Enemy>>,
    count: int,
)
    requires
        forall|index: int| 0 <= index < count ==> outcomes[index] == others[index],
    ensures
        survivors(enemies, projectiles, outcomes, count) == survivors(
            enemies,
            projectiles,
            others,
            count,
        ),
    decreases count,
{
    if count > 0 {
        lemma_survivors_agree(enemies, projectiles, outcomes, others, count - 1);
    }
}

/// No hit pays more than four coins.
pub proof fn lemma_rewards_bounded(enemies: Seq<Enemy>, projectiles: Seq<Projectile>, count: int)
    requires
        0 <= count,
    ensures
        0 <= rewards(enemies, projectiles, count) <= 4 * count,
    decreases count,
{
    if count > 0 {
        lemma_rewards_bounded(enemies, projectiles, count - 1);
    }
}

/// What is left of well-formed enemies after fair hits is well formed.
pub proof fn lemma_survivors_sound(
    enemies: Seq<Enemy>,
    projectiles: Seq<Projectile>,
    settings: GameSettings,
    outcomes: Seq<Seq<Enemy>>,
    count: int,
)
    requires
        sound_enemies(enemies),
        settings.wf(),
        fair(enemies, projectiles, settings, outcomes),
        0 <= count <= enemies.len(),
    ensures
        sound_enemies(survivors(enemies, projectiles, outcomes, count)),
    decreases count,
{
    if count > 0 {
        lemma_survivors_sound(enemies, projectiles, settings, outcomes, count - 1);
        match hit(enemies, projectiles, count - 1) {
            Some(place) => {
                lemma_damaged_sound(
                    enemies[count - 1],
                    settings,
                    projectiles[place].damage,
                    outcomes[count - 1],
                );
            },
            None => {},
        }
    }
}

/// Without projectiles no enemy is hit.
proof fn lemma_nothing_to_hit(enemies: Seq<Enemy>, outcomes: Seq<Seq<Enemy>>, count: int)
    requires
        0 <= count <= enemies.len(),
    ensures
        spent(enemies, Seq::empty(), count) == Set::<int>::empty(),
        rewards(enemies, Seq::empty(), count) == 0,
        survivors(enemies, Seq::empty(), outcomes, count) == enemies.take(count),
    decreases count,
{
    if count > 0 {
        lemma_nothing_to_hit(enemies, outcomes, count - 1);
    }
}

/// Where there are no projectiles, the enemies pass through the hits as
/// they are, and no coins are paid.
pub proof fn lemma_no_projectiles_no_hits(game: GameView, outcomes: Seq<Seq<Enemy>>)
    requires
        game.projectiles.len() == 0,
    ensures
        game.shot_through(outcomes) == game,
{
    assert(game.projectiles =~= Seq::empty());
    lemma_nothing_to_hit(game.enemies, outcomes, game.enemies.len() as int);
    assert(game.enemies.take(game.enemies.len() as int) =~= game.enemies);
    assert(worn(game.enemies, game.projectiles) =~= game.projectiles);
}

impl Game {
    /// Checks for collisions between enemies and projectiles: wears the
    /// projectiles that hit, pays the rewards, and returns the enemies that
    /// take the place of the old ones.
    ///
    /// Every enemy is compared with every projectile.
    pub(crate) fn collisions_enemy_projectile(&mut self) -> (result: (
        Vec<Enemy>,
        Ghost<Seq<Seq<Enemy>>>,
    ))
        requires
            old(self).wf(),
            old(self)@.coins + 4 * old(self)@.game_settings.coin_multiplier * old(
                self,
            )@.enemies.len() <= i32::MAX,
        ensures
            fair(
                old(self)@.enemies,
                old(self)@.projectiles,
                old(self)@.game_settings,
                result.1@,
            ),
            result.0@ == old(self)@.shot_through(result.1@).enemies,
            final(self)@ == (GameView {
                enemies: old(self)@.enemies,
                ..old(self)@.shot_through(result.1@)
            }),
            sound_enemies(result.0@),
            sound_projectiles(final(self)@.projectiles),
    {
        let ghost enemies = self.enemies@;
        let ghost projectiles = self.projectiles@;
        let ghost mut outcomes: Seq<Seq<Enemy>> = Seq::empty();
        let mut new_enemies: Vec<Enemy> = vec![];
        let mut hits: i32 = 0;
        assert(4 * enemies.len() <= i32::MAX) by (nonlinear_arith)
            requires
                10 <= self.game_settings.coin_multiplier,
                i32::MIN <= self.coins,
                self.coins + 4 * self.game_settings.coin_multiplier * enemies.len() <= i32::MAX,
        ;

        if self.projectiles.len() == 0 {
            let untouched = self.enemies.clone();
            proof {
                outcomes = Seq::new(enemies.len(), |index: int| Seq::empty());
                lemma_no_projectiles_no_hits(self@, outcomes);
            }
            return (untouched, Ghost(outcomes));
        }
        let mut used: Vec<bool> = vec![];
        while used.len() < self.projectiles.len()
            invariant
                *self == *old(self),
                used@.len() <= self.projectiles@.len(),
                forall|place: int| 0 <= place < used@.len() ==> !used@[place],
            decreases self.projectiles@.len() - used@.len(),
        {
            used.push(false);
        }

        let mut index: usize = 0;
        while index < self.enemies.len()
            invariant
                old(self).wf(),
                old(self)@.coins + 4 * old(self)@.game_settings.coin_multiplier * old(
                    self,
                )@.enemies.len() <= i32::MAX,
                enemies == old(self)@.enemies,
                projectiles == old(self)@.projectiles,
                self@ == (GameView { projectiles: self@.projectiles, ..old(self)@ }),
                self.game_settings == old(self).game_settings,
                index <= enemies.len(),
                4 * enemies.len() <= i32::MAX,
                self.projectiles@.len() == projectiles.len(),
                used@.len() == projectiles.len(),
                forall|place: int|
                    0 <= place < projectiles.len() ==> used@[place] == spent(
                        enemies,
                        projectiles,
                        index as int,
                    ).contains(place),
                forall|place: int|
                    0 <= place < projectiles.len() ==> #[trigger] self.projectiles@[place]
                        == if used@[place] {
                        Projectile {
                            hits: (projectiles[place].hits - 1) as i32,
                            ..projectiles[place]
                        }
                    } else {
                        projectiles[place]
                    },
                outcomes.len() == index,
                forall|earlier: int|
                    0 <= earlier < index ==> match #[trigger] hit(enemies, projectiles, earlier) {
                        Some(place) => enemies[earlier].damaged(
                            self.game_settings,
                            projectiles[place].damage,
                            outcomes[earlier],
                        ),
                        None => true,
                    },
                new_enemies@ == survivors(enemies, projectiles, outcomes, index as int),
                hits == rewards(enemies, projectiles, index as int),
                sound_enemies(new_enemies@),
            decreases enemies.len() - index,
        {
            let enemy = self.enemies[index];
            let ghost gone = spent(enemies, projectiles, index as int);
            let ghost before = outcomes;
            let mut found: Option<usize> = None;
            let mut place: usize = 0;
            while place < self.projectiles.len() && found.is_none()
                invariant
                    old(self).wf(),
                    enemy == enemies[index as int],
                    index < enemies.len(),
                    enemies == old(self)@.enemies,
                    projectiles == old(self)@.projectiles,
                    self.projectiles@.len() == projectiles.len(),
                    used@.len() == projectiles.len(),
                    place <= projectiles.len(),
                    forall|at: int| 0 <= at < projectiles.len() ==> used@[at] == gone.contains(at),
                    forall|at: int|
                        0 <= at < projectiles.len() ==> #[trigger] self.projectiles@[at]
                            == if used@[at] {
                            Projectile {
                                hits: (projectiles[at].hits - 1) as i32,
                                ..projectiles[at]
                            }
                        } else {
                            projectiles[at]
                        },
                    forall|earlier: int|
                        0 <= earlier < place ==> gone.contains(earlier) || !collide(
                            enemy,
                            #[trigger] projectiles[earlier],
                        ),
                    found matches Some(at) ==> at == place && strikes(
                        enemy,
                        projectiles,
                        gone,
                        at as int,
                    ),
                decreases projectiles.len() - place + if found is None { 1int } else { 0int },
            {
                if !used[place] && enemy.is_collision(&self.projectiles[place]) {
                    found = Some(place);
                } else {
                    place += 1;
                }
            }
            match found {
                Some(at) => {
                    proof {
                        lemma_strikes_unique(enemy, projectiles, gone, at as int);
                    }
                    let mut pieces = enemy.take_damage(
                        &self.game_settings,
                        self.projectiles[at].damage,
                        clone_generator(&self.id_generator),
                    );
                    proof {
                        outcomes = outcomes.push(pieces@);
                    }
                    new_enemies.append(&mut pieces);
                    self.projectiles[at].hits -= 1;
                    used.set(at, true);
                    proof {
                        lemma_rewards_bounded(enemies, projectiles, index as int);
                    }
                    hits += enemy.get_coins();
                },
                None => {
                    proof {
                        outcomes = outcomes.push(Seq::empty());
                    }
                    new_enemies.push(enemy);
                },
            }
            proof {
                lemma_survivors_agree(enemies, projectiles, before, outcomes, index as int);
            }
            index += 1;
        }

        proof {
            lemma_rewards_bounded(enemies, projectiles, enemies.len() as int);
            let factor = self.game_settings.coin_multiplier;
            assert(0 <= hits * factor <= 4 * factor * enemies.len()) by (nonlinear_arith)
                requires
                    0 <= hits <= 4 * enemies.len(),
                    0 <= factor,
            ;
            assert(self.projectiles@ =~= worn(enemies, projectiles));
        }
        // increase coins
        let reward = hits as i64 * self.game_settings.coin_multiplier as i64;
        self.coins = (self.coins as i64 + reward) as i32;

        (new_enemies, Ghost(outcomes))
    }
}

} // verus!
