//! Coins, optional numbers and a dice game: deciding by matching on a value.

use vstd::prelude::*;

verus! {

/// A state whose name a quarter may bear.
#[derive(Debug, PartialEq, Eq, Copy, Clone, Structural)]
pub enum UsState {
    Alabama,
    Alaska,
}

/// A coin.
#[derive(Debug, PartialEq, Eq, Copy, Clone, Structural)]
pub enum Coin {
    Penny,
    Nickel,
    Dime,
    Quarter(UsState),
}

/// What a coin is worth, in cents.
pub open spec fn cents_of(coin: Coin) -> u8 {
    match coin {
        Coin::Penny => 1,
        Coin::Nickel => 5,
        Coin::Dime => 10,
        Coin::Quarter(_) => 25,
    }
}

/// What a coin is worth, in cents.
pub fn value_in_cents(coin: Coin) -> (cents: u8)
    ensures
        cents == cents_of(coin),
{
    match coin {
        Coin::Penny => 1,
        Coin::Nickel => 5,
        Coin::Dime => 10,
        Coin::Quarter(_) => 25,
    }
}

/// The number after the one in `x`, where `x` holds one.
pub fn plus_one(x: Option<i32>) -> (next: Option<i32>)
    requires
        x matches Some(i) ==> i < i32::MAX,
    ensures
        next == match x {
            None => None::<i32>,
            Some(i) => Some((i + 1) as i32),
        },
{
    match x {
        None => None,
        Some(i) => Some(i + 1),
    }
}

/// The number after the one in `x`, where `x` holds one.
pub fn plus_one_if_let(x: Option<i32>) -> (next: Option<i32>)
    requires
        x matches Some(i) ==> i < i32::MAX,
    ensures
        next == match x {
            None => None::<i32>,
            Some(i) => Some((i + 1) as i32),
        },
{
    if let Some(value) = x {
        Some(value + 1)
    } else {
        x
    }
}

/// The prize for a roll of the dice: a stick for 1, iron for 5, gold for 8
/// and trash for anything else.
pub open spec fn prize_of(dice_number: i8) -> Seq<char> {
    if dice_number == 1 {
        "Stick"@
    } else if dice_number == 5 {
        "Iron"@
    } else if dice_number == 8 {
        "Gold"@
    } else {
        "Trash"@
    }
}

/// The prize for a roll of the dice.
pub fn dice_roll(dice_number: i8) -> (prize: String)
    ensures
        prize@ == prize_of(dice_number),
{
    match dice_number {
        1 => String::from_str("Stick"),
        5 => String::from_str("Iron"),
        8 => String::from_str("Gold"),
        _ => String::from_str("Trash"),
    }
}

} // verus!
