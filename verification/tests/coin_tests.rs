use coin_dispatch::coins::{
    Coin, CoinWithState, Notice, UsState, state_name, value_in_cents, value_in_cents_better,
    value_in_cents_with_state,
};
use coin_dispatch::optional::plus_one;

#[test]
fn coin_values_in_cents() {
    assert_eq!(value_in_cents(Coin::Penny), 1);
    assert_eq!(value_in_cents(Coin::Nickel), 5);
    assert_eq!(value_in_cents(Coin::Dime), 10);
    assert_eq!(value_in_cents(Coin::Quarter), 25);
}

#[test]
fn lucky_penny_emits_exactly_one_notice() {
    let mut notices: Vec<Notice> = Vec::new();
    let cents = value_in_cents_better(Coin::Penny, &mut notices);
    assert_eq!(cents, 1);
    assert_eq!(notices.len(), 1);
    assert_eq!(notices[0], Notice::LuckyPenny);
    assert_eq!(notices[0].text(), "Lucky penny!");
}

#[test]
fn other_coins_emit_no_notice() {
    let mut notices: Vec<Notice> = Vec::new();
    assert_eq!(value_in_cents_better(Coin::Nickel, &mut notices), 5);
    assert_eq!(value_in_cents_better(Coin::Dime, &mut notices), 10);
    assert_eq!(value_in_cents_better(Coin::Quarter, &mut notices), 25);
    assert!(notices.is_empty());
}

#[test]
fn alaska_quarter_records_its_state() {
    let mut states: Vec<UsState> = Vec::new();
    let cents = value_in_cents_with_state(CoinWithState::Quarter(UsState::Alaska), &mut states);
    assert_eq!(cents, 25);
    assert_eq!(states.len(), 1);
    assert_eq!(states[0], UsState::Alaska);
    assert_eq!(state_name(states[0]), "Alaska");
}

#[test]
fn alabama_quarter_records_its_state() {
    let mut states: Vec<UsState> = Vec::new();
    let cents = value_in_cents_with_state(CoinWithState::Quarter(UsState::Alabama), &mut states);
    assert_eq!(cents, 25);
    assert_eq!(states, vec![UsState::Alabama]);
    assert_eq!(state_name(states[0]), "Alabama");
}

#[test]
fn plain_coins_record_no_state() {
    let mut states: Vec<UsState> = Vec::new();
    assert_eq!(value_in_cents_with_state(CoinWithState::Penny, &mut states), 1);
    assert_eq!(value_in_cents_with_state(CoinWithState::Nickel, &mut states), 5);
    assert_eq!(value_in_cents_with_state(CoinWithState::Dime, &mut states), 10);
    assert!(states.is_empty());
}

#[test]
fn plus_one_increments_a_present_value() {
    assert_eq!(plus_one(Some(5)), Some(6));
    assert_eq!(plus_one(Some(-1)), Some(0));
    assert_eq!(plus_one(Some(i32::MAX - 1)), Some(i32::MAX));
}

#[test]
fn plus_one_passes_the_absent_value_through() {
    assert_eq!(plus_one(None), None);
}
