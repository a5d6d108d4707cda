use asteroids::game_settings::GameSettings;
use asteroids::shop::{Item, ItemEffect, Refusal, Shop};

fn message_of(refusal: Refusal) -> Option<String> {
    refusal.message().get_message()
}

#[test]
fn shop_opens_with_six_items() {
    let shop = Shop::new();
    assert_eq!(shop.items.len(), 6);
    let ids: Vec<u32> = shop.items.iter().map(|item| item.id).collect();
    assert_eq!(ids, vec![0, 1, 2, 3, 4, 5]);
    let prices: Vec<i32> = shop.items.iter().map(|item| item.internal_price).collect();
    assert_eq!(prices, vec![100, 120, 200, 130, 300, 150]);
    let levels: Vec<u8> = shop.items.iter().map(|item| item.max_level).collect();
    assert_eq!(levels, vec![6, 5, 4, 5, 2, 6]);
    assert!(shop.items.iter().all(|item| item.level == 0 && item.price == 0));
    assert_eq!(shop.items[0].title, "Energy Refresher");
    assert_eq!(shop.items[5].description, "Increases the time you stay invulnerable after getting hit");
    assert_eq!(shop.items[2].effect, ItemEffect::Stealth);
}

#[test]
fn price_is_the_level_times_the_starting_price_times_two_point_one() {
    let mut shop = Shop::new();
    let item = &mut shop.items[0];
    assert_eq!(item.get_current_price(), 0);
    assert_eq!(item.get_next_level_price(), 210);
    item.level = 1;
    assert_eq!(item.get_current_price(), 210);
    assert_eq!(item.get_next_level_price(), 420);
    item.level = 6;
    assert_eq!(item.get_current_price(), 1260);
    // at the highest level the next price is that of the highest level
    assert_eq!(item.get_next_level_price(), 1260);
}

#[test]
fn price_is_rounded_to_the_nearest() {
    let mut item = Shop::new().items[0];
    item.internal_price = 1;
    item.max_level = 10;
    item.level = 1;
    // 2.1
    assert_eq!(item.get_current_price(), 2);
    item.level = 2;
    // 4.2
    assert_eq!(item.get_current_price(), 4);
    item.level = 3;
    // 6.3
    assert_eq!(item.get_current_price(), 6);
    item.level = 4;
    // 8.4
    assert_eq!(item.get_current_price(), 8);
    item.level = 5;
    // 10.5
    assert_eq!(item.get_current_price(), 11);
    item.level = 7;
    // 14.7
    assert_eq!(item.get_current_price(), 15);
}

#[test]
fn prices_of_the_catalog() {
    let shop = Shop::new();
    let next: Vec<i32> = shop.items.iter().map(|item| item.get_next_level_price()).collect();
    assert_eq!(next, vec![210, 252, 420, 273, 630, 315]);
}

#[test]
fn to_js_value_notes_the_next_price() {
    let mut shop = Shop::new();
    let item = shop.items[1].to_js_value();
    assert_eq!(item.price, 252);
    assert_eq!(item.level, 0);
    assert_eq!(shop.items[1].price, 252);
}

#[test]
fn buying_raises_the_level_by_one() {
    let mut shop = Shop::new();
    let bought = shop.buy_item(0, 210, false).unwrap();
    assert_eq!(bought.id, 0);
    assert_eq!(bought.level, 1);
    assert_eq!(bought.get_current_price(), 210);
    assert_eq!(shop.items[0].level, 1);
    assert!(shop.items[1..].iter().all(|item| item.level == 0));
}

#[test]
fn buying_an_unknown_item_is_refused() {
    let mut shop = Shop::new();
    let error = shop.buy_item(6, 1_000_000, false).unwrap_err();
    assert_eq!(error.get_message(), Some("Item not found".to_string()));
    let error = shop.buy_item(6, 0, true).unwrap_err();
    assert_eq!(error.get_message(), Some("Item not found".to_string()));
    assert!(shop.items.iter().all(|item| item.level == 0));
}

#[test]
fn buying_without_the_coins_is_refused() {
    let mut shop = Shop::new();
    let error = shop.buy_item(0, 209, false).unwrap_err();
    assert_eq!(error.get_message(), Some("Not enough coins".to_string()));
    assert_eq!(shop.items[0].level, 0);
}

#[test]
fn buying_with_the_exact_price_is_accepted() {
    let mut shop = Shop::new();
    assert!(shop.buy_item(4, 630, false).is_ok());
    assert_eq!(shop.items[4].level, 1);
}

#[test]
fn ignored_coins_buy_with_an_empty_purse() {
    let mut shop = Shop::new();
    assert!(shop.buy_item(2, 0, true).is_ok());
    assert!(shop.buy_item(2, -5, true).is_ok());
    assert_eq!(shop.items[2].level, 2);
}

#[test]
fn buying_past_the_highest_level_is_refused() {
    let mut shop = Shop::new();
    assert!(shop.buy_item(4, 0, true).is_ok());
    assert!(shop.buy_item(4, 0, true).is_ok());
    let error = shop.buy_item(4, 0, true).unwrap_err();
    assert_eq!(error.get_message(), Some("Item already at max level".to_string()));
    assert_eq!(shop.items[4].level, 2);
}

#[test]
fn highest_level_is_named_before_the_coins() {
    let mut shop = Shop::new();
    shop.items[4].level = 2;
    let error = shop.buy_item(4, 0, false).unwrap_err();
    assert_eq!(error.get_message(), Some("Item already at max level".to_string()));
}

#[test]
fn buying_again_and_again_raises_the_price() {
    let mut shop = Shop::new();
    let mut last = shop.items[0].get_next_level_price();
    let mut paid = Vec::new();
    while let Ok(item) = shop.buy_item(0, i32::MAX, false) {
        paid.push(item.get_current_price());
        let next = item.get_next_level_price();
        assert!(next >= last);
        last = next;
    }
    assert_eq!(paid, vec![210, 420, 630, 840, 1050, 1260]);
    assert_eq!(shop.items[0].level, 6);
}

#[test]
fn first_item_with_the_id_is_bought() {
    let mut shop = Shop::new();
    let mut twin = shop.items[3];
    twin.id = 0;
    shop.items.push(twin);
    assert!(shop.buy_item(0, 0, true).is_ok());
    assert_eq!(shop.items[0].level, 1);
    assert_eq!(shop.items[6].level, 0);
}

#[test]
fn refusals_have_their_words() {
    assert_eq!(message_of(Refusal::NotFound), Some("Item not found".to_string()));
    assert_eq!(message_of(Refusal::MaxLevel), Some("Item already at max level".to_string()));
    assert_eq!(message_of(Refusal::NotEnoughCoins), Some("Not enough coins".to_string()));
}

#[test]
fn refusal_is_shown_for_a_hundred_ticks() {
    let mut error = Refusal::NotEnoughCoins.message();
    for _ in 0..100 {
        error.tick();
    }
    assert!(!error.is_expired());
    error.tick();
    assert!(error.is_expired());
}

#[test]
fn effects_change_one_setting_each() {
    let initial = GameSettings::new();

    let mut settings = GameSettings::new();
    ItemEffect::FireRate.apply(&mut settings, 1);
    assert_eq!(settings, GameSettings { shoot_timeout: 60, ..initial });

    let mut settings = GameSettings::new();
    ItemEffect::ProjectileSpeed.apply(&mut settings, 1);
    assert_eq!(settings, GameSettings { projectile_speed: 7_500, ..initial });

    let mut settings = GameSettings::new();
    ItemEffect::Stealth.apply(&mut settings, 1);
    assert_eq!(settings, GameSettings { ship_visibility: 4_000, ..initial });

    let mut settings = GameSettings::new();
    ItemEffect::CoinMultiplier.apply(&mut settings, 1);
    assert_eq!(settings, GameSettings { coin_multiplier: 11, ..initial });

    let mut settings = GameSettings::new();
    ItemEffect::Piercing.apply(&mut settings, 1);
    assert_eq!(settings, GameSettings { projectile_hits: 2, ..initial });

    let mut settings = GameSettings::new();
    ItemEffect::Invulnerability.apply(&mut settings, 1);
    assert_eq!(settings, GameSettings { invulnerability_time: 150, ..initial });
}

#[test]
fn effect_is_the_same_at_every_level() {
    let mut settings = GameSettings::new();
    ItemEffect::FireRate.apply(&mut settings, 1);
    ItemEffect::FireRate.apply(&mut settings, 5);
    assert_eq!(settings.shoot_timeout, 50);
}

#[test]
fn item_can_be_written_out() {
    let item = Item {
        id: 9,
        title: "Test",
        description: "An item of a test",
        internal_price: 10,
        max_level: 1,
        level: 0,
        effect: ItemEffect::Piercing,
        price: 0,
    };
    assert_eq!(item.get_next_level_price(), 21);
}

#[test]
fn refusals_can_be_dismissed() {
    for refusal in [Refusal::NotFound, Refusal::MaxLevel, Refusal::NotEnoughCoins] {
        assert!(format!("{:?}", refusal.message()).contains("dismissable: true"));
    }
    let mut shop = Shop::new();
    let error = shop.buy_item(0, 0, false).unwrap_err();
    assert!(format!("{:?}", error).contains("dismissable: true"));
}
