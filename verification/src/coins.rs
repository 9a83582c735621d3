//! Cent values of a closed coin enumeration, with and without a
//! payload-bearing quarter variant, and the notices the lookups emit.

use vstd::prelude::*;

verus! {

/// A closed enumeration of plain coins.
#[derive(Clone, Copy, Debug, PartialEq, Eq, Structural)]
pub enum Coin {
    Penny,
    Nickel,
    Dime,
    Quarter,
}

/// The states a quarter can commemorate.
#[derive(Clone, Copy, Debug, PartialEq, Eq, Structural)]
pub enum UsState {
    Alabama,
    Alaska,
}

/// A closed coin enumeration whose quarter variant carries the state it
/// commemorates.
#[derive(Clone, Copy, Debug, PartialEq, Eq, Structural)]
pub enum CoinWithState {
    Penny,
    Nickel,
    Dime,
    Quarter(UsState),
}

/// A notice emitted while looking a coin up.
#[derive(Clone, Copy, Debug, PartialEq, Eq, Structural)]
pub enum Notice {
    LuckyPenny,
}

/// The cent value of each plain coin.
pub open spec fn coin_value(coin: Coin) -> u8 {
    match coin {
        Coin::Penny => 1u8,
        Coin::Nickel => 5u8,
        Coin::Dime => 10u8,
        Coin::Quarter => 25u8,
    }
}

/// The cent value of each coin with state; every quarter is worth the same
/// regardless of the state it carries.
pub open spec fn coin_with_state_value(coin: CoinWithState) -> u8 {
    match coin {
        CoinWithState::Penny => 1u8,
        CoinWithState::Nickel => 5u8,
        CoinWithState::Dime => 10u8,
        CoinWithState::Quarter(_) => 25u8,
    }
}

/// Maps each coin to its value in cents by matching every variant.
pub fn value_in_cents(coin: Coin) -> (cents: u8)
    ensures
        cents == coin_value(coin),
{
    match coin {
        Coin::Penny => 1,
        Coin::Nickel => 5,
        Coin::Dime => 10,
        Coin::Quarter => 25,
    }
}

/// The same mapping, but a penny additionally emits exactly one lucky-penny
/// notice; no other coin emits anything.
pub fn value_in_cents_better(coin: Coin, notices: &mut Vec<Notice>) -> (cents: u8)
    ensures
        cents == coin_value(coin),
        coin is Penny ==> final(notices)@ == old(notices)@.push(Notice::LuckyPenny),
        coin !is Penny ==> final(notices)@ == old(notices)@,
{
    match coin {
        Coin::Penny => {
            notices.push(Notice::LuckyPenny);
            1
        },
        Coin::Nickel => 5,
        Coin::Dime => 10,
        Coin::Quarter => 25,
    }
}

/// The mapping over the payload-bearing enumeration: a quarter's state is
/// extracted by the pattern binding and recorded; other coins record nothing.
pub fn value_in_cents_with_state(coin: CoinWithState, quarter_states: &mut Vec<UsState>) -> (cents: u8)
    ensures
        cents == coin_with_state_value(coin),
        coin matches CoinWithState::Quarter(state) ==> final(quarter_states)@ == old(quarter_states)@.push(state),
        coin !is Quarter ==> final(quarter_states)@ == old(quarter_states)@,
{
    match coin {
        CoinWithState::Penny => 1,
        CoinWithState::Nickel => 5,
        CoinWithState::Dime => 10,
        CoinWithState::Quarter(state) => {
            quarter_states.push(state);
            25
        },
    }
}

/// The name of a state, for rendering a recorded quarter.
pub fn state_name(state: UsState) -> (name: &'static str)
    ensures
        state is Alabama ==> name@ == "Alabama"@,
        state is Alaska ==> name@ == "Alaska"@,
{
    match state {
        UsState::Alabama => "Alabama",
        UsState::Alaska => "Alaska",
    }
}

impl Notice {
    /// The text of a notice, for rendering.
    pub fn text(&self) -> (text: &'static str)
        ensures
            *self is LuckyPenny ==> text@ == "Lucky penny!"@,
    {
        match self {
            Notice::LuckyPenny => "Lucky penny!",
        }
    }
}

} // verus!
