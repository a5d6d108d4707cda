//! The shop: a list of items that the player buys level by level.
//!
//! The effect of an item is a change of the [game settings](GameSettings).

use vstd::prelude::*;
use crate::error_message::{ErrorMessage, ErrorMessageView};
use crate::game_settings::GameSettings;
use crate::units::MAX_SPEED;

verus! {

/// The largest starting price of an item. The price of every level up to
/// the highest then fits the type of the coins.
pub const MAX_INTERNAL_PRICE: i32 = 4_000_000;

/// The ticks for which the refusal of a purchase is shown.
pub const REFUSAL_DURATION: i32 = 100;

/// The price of `level` levels of an item that starts at `internal_price`:
/// their product times 2.1, rounded to the nearest integer.
pub open spec fn price_at(internal_price: int, level: int) -> int {
    (internal_price * level * 21 + 5) / 10
}

/// A higher level is not cheaper.
pub proof fn lemma_price_monotonic(internal_price: int, low: int, high: int)
    requires
        0 <= internal_price,
        0 <= low <= high,
    ensures
        0 <= price_at(internal_price, low) <= price_at(internal_price, high),
        internal_price > 0 && low < high ==> price_at(internal_price, low) < price_at(
            internal_price,
            high,
        ),
{
    assert(0 <= internal_price * low <= internal_price * high) by (nonlinear_arith)
        requires
            0 <= internal_price,
            0 <= low <= high,
    ;
    assert(internal_price > 0 && low < high ==> internal_price * low + 1 <= internal_price * high)
        by (nonlinear_arith)
        requires
            0 <= internal_price,
            0 <= low <= high,
    ;
}

/// What buying a level of an item does to the settings.
#[derive(Clone, Copy, Debug, PartialEq, Eq, Structural)]
pub enum ItemEffect {
    /// Ten ticks less between two shots.
    FireRate,
    /// Projectiles that are two and a half units per tick faster.
    ProjectileSpeed,
    /// A ship that is one unit less visible.
    Stealth,
    /// One more coin per unit of reward.
    CoinMultiplier,
    /// Projectiles that hit one more enemy.
    Piercing,
    /// Fifty more ticks of invulnerability after a hit.
    Invulnerability,
}

impl ItemEffect {
    /// Whether the settings can take the effect once more without leaving
    /// the range of their numbers.
    pub open spec fn fits(self, settings: GameSettings) -> bool {
        match self {
            ItemEffect::FireRate => settings.shoot_timeout - 10 >= i32::MIN,
            ItemEffect::ProjectileSpeed => settings.projectile_speed + 2_500 <= MAX_SPEED,
            ItemEffect::Stealth => settings.ship_visibility - 1_000 >= i64::MIN,
            ItemEffect::CoinMultiplier => settings.coin_multiplier + 1 <= i32::MAX,
            ItemEffect::Piercing => settings.projectile_hits + 1 <= i32::MAX,
            ItemEffect::Invulnerability => settings.invulnerability_time + 50 <= i32::MAX,
        }
    }

    /// The settings after one more level of the effect.
    pub open spec fn applied(self, settings: GameSettings) -> GameSettings {
        match self {
            ItemEffect::FireRate => GameSettings {
                shoot_timeout: (settings.shoot_timeout - 10) as i32,
                ..settings
            },
            ItemEffect::ProjectileSpeed => GameSettings {
                projectile_speed: (settings.projectile_speed + 2_500) as i64,
                ..settings
            },
            ItemEffect::Stealth => GameSettings {
                ship_visibility: (settings.ship_visibility - 1_000) as i64,
                ..settings
            },
            ItemEffect::CoinMultiplier => GameSettings {
                coin_multiplier: (settings.coin_multiplier + 1) as i32,
                ..settings
            },
            ItemEffect::Piercing => GameSettings {
                projectile_hits: (settings.projectile_hits + 1) as i32,
                ..settings
            },
            ItemEffect::Invulnerability => GameSettings {
                invulnerability_time: (settings.invulnerability_time + 50) as i32,
                ..settings
            },
        }
    }

    /// Applies the effect to the settings. The level that was bought makes
    /// no difference: every level of an item changes the settings by the
    /// same amount.
    #[allow(unused_variables)]
    pub fn apply(self, settings: &mut GameSettings, level: u8)
        requires
            self.fits(*old(settings)),
        ensures
            *final(settings) == self.applied(*old(settings)),
    {
        match self {
            ItemEffect::FireRate => {
                settings.shoot_timeout -= 10;
            },
            ItemEffect::ProjectileSpeed => {
                settings.projectile_speed += 2_500;
            },
            ItemEffect::Stealth => {
                settings.ship_visibility -= 1_000;
            },
            ItemEffect::CoinMultiplier => {
                settings.coin_multiplier += 1;
            },
            ItemEffect::Piercing => {
                settings.projectile_hits += 1;
            },
            ItemEffect::Invulnerability => {
                settings.invulnerability_time += 50;
            },
        }
    }
}

/// The item struct represents an item in the shop
#[derive(Clone, Copy, Debug)]
pub struct Item {
    /// The id of the item
    pub id: u32,
    /// The name of the item
    pub title: &'static str,
    /// The description of the item.
    pub description: &'static str,
    /// The internal price is the starting price of the item.
    pub internal_price: i32,
    /// The maximum level of the item
    pub max_level: u8,
    /// The current level of the item. It starts with 0 which means the item
    /// is not bought.
    pub level: u8,
    /// What a level of the item does to the settings.
    pub effect: ItemEffect,
    /// The price of the next level as it was when the item was last
    /// prepared for display.
    pub price: i32,
}

impl Item {
    /// Whether the level is within its bound and the price within the range
    /// in which every level has a price.
    pub open spec fn wf(&self) -> bool {
        &&& self.level <= self.max_level
        &&& 0 <= self.internal_price <= MAX_INTERNAL_PRICE
    }

    /// Whether the item is well formed: see [`Item::wf`].
    pub fn is_valid(&self) -> (valid: bool)
        ensures
            valid == self.wf(),
    {
        self.level <= self.max_level && 0 <= self.internal_price && self.internal_price
            <= MAX_INTERNAL_PRICE
    }

    /// The price that was paid for the current level.
    pub open spec fn current_price(&self) -> int {
        price_at(self.internal_price as int, self.level as int)
    }

    /// The level that a purchase would lead to: the next one, or the
    /// highest if that is reached.
    pub open spec fn next_level(&self) -> int {
        if self.level < self.max_level {
            self.level + 1
        } else {
            self.max_level as int
        }
    }

    /// The price of the next level.
    pub open spec fn next_level_price(&self) -> int {
        price_at(self.internal_price as int, self.next_level())
    }

    /// The item one level higher.
    pub open spec fn raised(self) -> Item {
        Item { level: (self.level + 1) as u8, ..self }
    }

    /// The price of the item at a specific level:
    /// `internal_price * level * 2.1`, rounded.
    fn get_price(&self, level: u8) -> (price: i32)
        requires
            0 <= self.internal_price <= MAX_INTERNAL_PRICE,
        ensures
            price == price_at(self.internal_price as int, level as int),
    {
        assert(0 <= self.internal_price * level <= MAX_INTERNAL_PRICE * 255) by (nonlinear_arith)
            requires
                0 <= self.internal_price <= MAX_INTERNAL_PRICE,
                0 <= level <= 255,
        ;
        let tenfold: i64 = self.internal_price as i64 * level as i64 * 21;
        ((tenfold + 5) / 10) as i32
    }

    /// Get the current price of the item. This is what a purchase takes
    /// from the coins of the player.
    pub fn get_current_price(&self) -> (price: i32)
        requires
            self.wf(),
        ensures
            price == self.current_price(),
    {
        self.get_price(self.level)
    }

    /// Get the price of the next level of the item. This is the price that
    /// the shop displays.
    pub fn get_next_level_price(&self) -> (price: i32)
        requires
            self.wf(),
        ensures
            price == self.next_level_price(),
    {
        let next = if self.level < self.max_level {
            self.level + 1
        } else {
            self.max_level
        };
        self.get_price(next)
    }

    /// Prepares the item for display: notes the price of the next level in
    /// the item itself.
    pub fn to_js_value(&mut self) -> (item: &Self)
        requires
            old(self).wf(),
        ensures
            *final(self) == (Item { price: old(self).next_level_price() as i32, ..*old(self) }),
            *item == *final(self),
    {
        self.price = self.get_next_level_price();
        self
    }
}

/// Why the shop refuses a purchase.
#[derive(Clone, Copy, Debug, PartialEq, Eq, Structural)]
pub enum Refusal {
    /// The shop has no item with the id.
    NotFound,
    /// The item cannot rise any further.
    MaxLevel,
    /// The next level costs more than the player has.
    NotEnoughCoins,
}

impl Refusal {
    /// The words in which the player is told.
    pub open spec fn text(self) -> Seq<char> {
        match self {
            Refusal::NotFound => "Item not found"@,
            Refusal::MaxLevel => "Item already at max level"@,
            Refusal::NotEnoughCoins => "Not enough coins"@,
        }
    }

    /// The message that tells the player.
    pub open spec fn notice(self) -> ErrorMessageView {
        ErrorMessageView::fresh(self.text(), true, REFUSAL_DURATION as int)
    }

    /// The message that tells the player of the refusal.
    pub fn message(self) -> (error: ErrorMessage)
        ensures
            error@ == self.notice(),
    {
        match self {
            Refusal::NotFound => ErrorMessage::new_dismissable("Item not found", REFUSAL_DURATION),
            Refusal::MaxLevel => ErrorMessage::new_dismissable(
                "Item already at max level",
                REFUSAL_DURATION,
            ),
            Refusal::NotEnoughCoins => ErrorMessage::new_dismissable(
                "Not enough coins",
                REFUSAL_DURATION,
            ),
        }
    }
}

/// Whether `index` is the place of the first item with the id.
pub open spec fn listed_at(items: Seq<Item>, id: u32, index: int) -> bool {
    &&& 0 <= index < items.len()
    &&& items[index].id == id
    &&& forall|earlier: int| 0 <= earlier < index ==> items[earlier].id != id
}

/// Whether an item with the id is on the list.
pub open spec fn listed(items: Seq<Item>, id: u32) -> bool {
    exists|index: int| listed_at(items, id, index)
}

/// The place of the first item with the id.
pub open spec fn place_of(items: Seq<Item>, id: u32) -> int {
    choose|index: int| listed_at(items, id, index)
}

/// The first item with an id has one place only.
pub proof fn lemma_place_unique(items: Seq<Item>, id: u32, index: int)
    requires
        listed_at(items, id, index),
    ensures
        listed(items, id),
        place_of(items, id) == index,
{
}

/// What becomes of an attempt to buy the item with the id: the place of the
/// item whose level rises, or the reason why the shop refuses.
pub open spec fn purchase(items: Seq<Item>, id: u32, coins: int, ignore_coins: bool) -> Result<
    int,
    Refusal,
> {
    if !listed(items, id) {
        Err(Refusal::NotFound)
    } else {
        let item = items[place_of(items, id)];
        if item.level >= item.max_level {
            Err(Refusal::MaxLevel)
        } else if item.next_level_price() > coins && !ignore_coins {
            Err(Refusal::NotEnoughCoins)
        } else {
            Ok(place_of(items, id))
        }
    }
}

/// The items after an attempt to buy the item with the id.
pub open spec fn after_purchase(
    items: Seq<Item>,
    id: u32,
    coins: int,
    ignore_coins: bool,
) -> Seq<Item> {
    match purchase(items, id, coins, ignore_coins) {
        Ok(place) => items.update(place, items[place].raised()),
        Err(_) => items,
    }
}

/// Buying an item raises its level by one and does not lower its price: the
/// price that was shown as the next becomes the current one, and the next
/// is no lower than it.
pub proof fn lemma_purchase_raises_price(
    items: Seq<Item>,
    id: u32,
    coins: int,
    ignore_coins: bool,
)
    requires
        forall|index: int| 0 <= index < items.len() ==> (#[trigger] items[index]).wf(),
        purchase(items, id, coins, ignore_coins) is Ok,
    ensures
        ({
            let place = purchase(items, id, coins, ignore_coins)->Ok_0;
            let before = items[place];
            let after = after_purchase(items, id, coins, ignore_coins)[place];
            &&& after.level == before.level + 1
            &&& after.current_price() == before.next_level_price()
            &&& before.current_price() <= after.current_price()
            &&& before.next_level_price() <= after.next_level_price()
            &&& ignore_coins || after.current_price() <= coins
        }),
{
    let place = purchase(items, id, coins, ignore_coins)->Ok_0;
    let before = items[place];
    let after = after_purchase(items, id, coins, ignore_coins)[place];
    lemma_price_monotonic(before.internal_price as int, before.level as int, after.level as int);
    lemma_price_monotonic(before.internal_price as int, before.next_level(), after.next_level());
}

/// The shop refuses to raise an item past its highest level, whatever the
/// player would pay.
pub proof fn lemma_max_level_refuses(items: Seq<Item>, id: u32, coins: int, ignore_coins: bool)
    requires
        listed(items, id),
        items[place_of(items, id)].level >= items[place_of(items, id)].max_level,
    ensures
        purchase(items, id, coins, ignore_coins) == Err::<int, Refusal>(Refusal::MaxLevel),
        after_purchase(items, id, coins, ignore_coins) == items,
{
}

/// The items that every shop opens with.
pub open spec fn catalog() -> Seq<Item> {
    seq![
        Item {
            id: 0,
            title: "Energy Refresher",
            description: "Increases the fire rate",
            internal_price: 100,
            price: 0,
            max_level: 6,
            level: 0,
            effect: ItemEffect::FireRate,
        },
        Item {
            id: 1,
            title: "Warp Shot Amplifier",
            description: "Increases the speed of the projectiles",
            internal_price: 120,
            price: 0,
            max_level: 5,
            level: 0,
            effect: ItemEffect::ProjectileSpeed,
        },
        Item {
            id: 2,
            title: "Optic Obfuscator",
            description: "Decreases the chance of alien vessels to spot you",
            internal_price: 200,
            price: 0,
            max_level: 4,
            level: 0,
            effect: ItemEffect::Stealth,
        },
        Item {
            id: 3,
            title: "Treasure Enrichment Device",
            description: "Increases the coin multiplier",
            internal_price: 130,
            price: 0,
            max_level: 5,
            level: 0,
            effect: ItemEffect::CoinMultiplier,
        },
        Item {
            id: 4,
            title: "Piercing Projectile Mod",
            description: "Increases the amount of aliens you can hit with one shot",
            internal_price: 300,
            price: 0,
            max_level: 2,
            level: 0,
            effect: ItemEffect::Piercing,
        },
        Item {
            id: 5,
            title: "Unbreakable Fortitude",
            description: "Increases the time you stay invulnerable after getting hit",
            internal_price: 150,
            price: 0,
            max_level: 6,
            level: 0,
            effect: ItemEffect::Invulnerability,
        },
    ]
}

/// The shop struct represents the shop in the game
///
/// It contains a list of [items](Item).
#[derive(Debug)]
pub struct Shop {
    /// The list of items in the shop
    pub items: Vec<Item>,
}

impl Shop {
    /// Whether every item of the shop is well formed.
    pub open spec fn wf(&self) -> bool {
        forall|index: int| 0 <= index < self.items@.len() ==> (#[trigger] self.items@[index]).wf()
    }

    /// Whether the shop is well formed: see [`Shop::wf`].
    pub fn is_valid(&self) -> (valid: bool)
        ensures
            valid == self.wf(),
    {
        let mut index: usize = 0;
        while index < self.items.len()
            invariant
                index <= self.items@.len(),
                forall|earlier: int|
                    0 <= earlier < index ==> (#[trigger] self.items@[earlier]).wf(),
            decreases self.items@.len() - index,
        {
            if !self.items[index].is_valid() {
                return false;
            }
            index += 1;
        }
        true
    }

    /// Create a new shop
    pub fn new() -> (shop: Self)
        ensures
            shop.items@ == catalog(),
            shop.wf(),
    {
        let price: i32 = 0;
        let shop = Self {
            items: vec![
                Item {
                    id: 0,
                    title: "Energy Refresher",
                    description: "Increases the fire rate",
                    internal_price: 100,
                    price,
                    max_level: 6,
                    level: 0,
                    effect: ItemEffect::FireRate,
                },
                Item {
                    id: 1,
                    title: "Warp Shot Amplifier",
                    description: "Increases the speed of the projectiles",
                    internal_price: 120,
                    price,
                    max_level: 5,
                    level: 0,
                    effect: ItemEffect::ProjectileSpeed,
                },
                Item {
                    id: 2,
                    title: "Optic Obfuscator",
                    description: "Decreases the chance of alien vessels to spot you",
                    internal_price: 200,
                    price,
                    max_level: 4,
                    level: 0,
                    effect: ItemEffect::Stealth,
                },
                Item {
                    id: 3,
                    title: "Treasure Enrichment Device",
                    description: "Increases the coin multiplier",
                    internal_price: 130,
                    price,
                    max_level: 5,
                    level: 0,
                    effect: ItemEffect::CoinMultiplier,
                },
                Item {
                    id: 4,
                    title: "Piercing Projectile Mod",
                    description: "Increases the amount of aliens you can hit with one shot",
                    internal_price: 300,
                    price,
                    max_level: 2,
                    level: 0,
                    effect: ItemEffect::Piercing,
                },
                Item {
                    id: 5,
                    title: "Unbreakable Fortitude",
                    description: "Increases the time you stay invulnerable after getting hit",
                    internal_price: 150,
                    price,
                    max_level: 6,
                    level: 0,
                    effect: ItemEffect::Invulnerability,
                },
            ],
        };
        shop
    }

    /// Buy an item from the shop
    ///
    /// The level of the first item with the id rises by 1, and the item is
    /// returned. The shop refuses, and stays as it is, if it has no such
    /// item, if the item is at its highest level already, or if the next
    /// level costs more than `coins` while `ignore_coins` is not set.
    pub fn buy_item(&mut self, id: u32, coins: i32, ignore_coins: bool) -> (bought: Result<
        &Item,
        ErrorMessage,
    >)
        requires
            old(self).wf(),
        ensures
            final(self).wf(),
            final(self).items@ == after_purchase(old(self).items@, id, coins as int, ignore_coins),
            match purchase(old(self).items@, id, coins as int, ignore_coins) {
                Ok(place) => bought matches Ok(item) && *item == final(self).items@[place],
                Err(refusal) => bought matches Err(error) && error@ == refusal.notice(),
            },
    {
        let mut index: usize = 0;
        while index < self.items.len() && self.items[index].id != id
            invariant
                index <= self.items@.len(),
                forall|earlier: int| 0 <= earlier < index ==> self.items@[earlier].id != id,
            decreases self.items@.len() - index,
        {
            index += 1;
        }
        if index >= self.items.len() {
            return Err(Refusal::NotFound.message());
        }
        proof {
            lemma_place_unique(self.items@, id, index as int);
        }
        let item = self.items[index];
        if item.level >= item.max_level {
            return Err(Refusal::MaxLevel.message());
        }
        if item.get_next_level_price() > coins && !ignore_coins {
            return Err(Refusal::NotEnoughCoins.message());
        }
        self.items[index].level += 1;
        Ok(&self.items[index])
    }
}

} // verus!
