//! Coins and what they are worth.

use vstd::prelude::*;

verus! {

/// A state that has its own quarter.
#[derive(Clone, Copy, Debug, PartialEq, Eq, Structural)]
pub enum UsState {
    Alabama,
    Alaska,
}

/// A coin.
#[derive(Clone, Copy, Debug, PartialEq, Eq, Structural)]
pub enum Coin {
    Penny,
    Nickel,
    Dime,
    Quarter(UsState),
}

/// The worth of `coin` in cents.
pub open spec fn cents(coin: Coin) -> u8 {
    match coin {
        Coin::Penny => 1,
        Coin::Nickel => 5,
        Coin::Dime => 10,
        Coin::Quarter(_) => 25,
    }
}

/// The name of `state`.
pub open spec fn state_name(state: UsState) -> Seq<char> {
    match state {
        UsState::Alabama => "Alabama"@,
        UsState::Alaska => "Alaska"@,
    }
}

/// What is said when `coin` is counted, if anything: a penny is lucky,
/// and a quarter is named after its state.
pub open spec fn remark_of(coin: Coin) -> Option<Seq<char>> {
    match coin {
        Coin::Penny => Some("Lucky penny!"@),
        Coin::Quarter(state) => Some("State quarter from "@ + state_name(state)),
        _ => None,
    }
}

impl UsState {
    /// The name of the state.
    pub fn name(self) -> (name: &'static str)
        ensures
            name@ == state_name(self),
    {
        match self {
            UsState::Alabama => "Alabama",
            UsState::Alaska => "Alaska",
        }
    }
}

/// What is said when `coin` is counted, if anything.
pub fn remark(coin: Coin) -> (said: Option<String>)
    ensures
        said is Some <==> remark_of(coin) is Some,
        said matches Some(text) ==> remark_of(coin) == Some(text@),
{
    match coin {
        Coin::Penny => Some(String::from_str("Lucky penny!")),
        Coin::Quarter(state) => {
            let mut text = String::from_str("State quarter from ");
            text.append(state.name());
            Some(text)
        },
        _ => None,
    }
}

/// The worth of `coin` in cents.
pub fn value_in_cents(coin: Coin) -> (value: u8)
    ensures
        value == cents(coin),
{
    match coin {
        Coin::Penny => 1,
        Coin::Nickel => 5,
        Coin::Dime => 10,
        Coin::Quarter(_) => 25,
    }
}

/// The number after `x`, if there is an `x`.
pub fn plus_one(x: Option<i32>) -> (next: Option<i32>)
    requires
        x matches Some(i) ==> i < i32::MAX,
    ensures
        next == match x {
            None => None::<i32>,
            Some(i) => Some((i + 1) as i32),
        },
{
    match x {
        None => None,
        Some(i) => Some(i + 1),
    }
}

} // verus!
