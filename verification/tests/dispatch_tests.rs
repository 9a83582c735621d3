use coin_dispatch::coins::Coin;
use coin_dispatch::dispatch::{CoinDispatcher, CoinPattern, standard_dispatcher};

fn full_table() -> Vec<(CoinPattern, u8)> {
    vec![
        (CoinPattern::Literal(Coin::Penny), 1),
        (CoinPattern::Literal(Coin::Nickel), 5),
        (CoinPattern::Literal(Coin::Dime), 10),
        (CoinPattern::Literal(Coin::Quarter), 25),
    ]
}

#[test]
fn fully_enumerated_table_is_accepted() {
    let dispatcher = CoinDispatcher::new(full_table()).expect("all coins are covered");
    assert_eq!(dispatcher.dispatch(Coin::Penny), 1);
    assert_eq!(dispatcher.dispatch(Coin::Nickel), 5);
    assert_eq!(dispatcher.dispatch(Coin::Dime), 10);
    assert_eq!(dispatcher.dispatch(Coin::Quarter), 25);
}

#[test]
fn standard_dispatcher_matches_the_direct_mapping() {
    let dispatcher = standard_dispatcher();
    assert_eq!(dispatcher.dispatch(Coin::Penny), 1);
    assert_eq!(dispatcher.dispatch(Coin::Quarter), 25);
}

#[test]
fn omitting_the_quarter_without_a_wildcard_is_rejected() {
    let entries = vec![
        (CoinPattern::Literal(Coin::Penny), 1),
        (CoinPattern::Literal(Coin::Nickel), 5),
        (CoinPattern::Literal(Coin::Dime), 10),
    ];
    assert!(CoinDispatcher::new(entries).is_none());
}

#[test]
fn empty_table_is_rejected() {
    assert!(CoinDispatcher::new(Vec::new()).is_none());
}

#[test]
fn wildcard_completes_a_partial_table() {
    let entries = vec![
        (CoinPattern::Literal(Coin::Penny), 1),
        (CoinPattern::Wildcard, 0),
    ];
    let dispatcher = CoinDispatcher::new(entries).expect("the wildcard covers the rest");
    assert_eq!(dispatcher.dispatch(Coin::Penny), 1);
    assert_eq!(dispatcher.dispatch(Coin::Nickel), 0);
    assert_eq!(dispatcher.dispatch(Coin::Dime), 0);
    assert_eq!(dispatcher.dispatch(Coin::Quarter), 0);
}

#[test]
fn first_matching_entry_wins_in_declaration_order() {
    let entries = vec![
        (CoinPattern::Wildcard, 99),
        (CoinPattern::Literal(Coin::Penny), 1),
    ];
    let dispatcher = CoinDispatcher::new(entries).expect("the wildcard covers every coin");
    assert_eq!(dispatcher.dispatch(Coin::Penny), 99);
    assert_eq!(dispatcher.dispatch(Coin::Dime), 99);
}

#[test]
fn duplicate_literals_keep_the_earlier_value() {
    let entries = vec![
        (CoinPattern::Literal(Coin::Dime), 10),
        (CoinPattern::Literal(Coin::Dime), 11),
        (CoinPattern::Wildcard, 0),
    ];
    let dispatcher = CoinDispatcher::new(entries).expect("the wildcard covers every coin");
    assert_eq!(dispatcher.dispatch(Coin::Dime), 10);
}
