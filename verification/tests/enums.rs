use primer::enums::{dice_roll, plus_one, plus_one_if_let, value_in_cents, Coin, UsState};

#[test]
fn every_coin_has_its_value() {
    assert_eq!(value_in_cents(Coin::Penny), 1);
    assert_eq!(value_in_cents(Coin::Nickel), 5);
    assert_eq!(value_in_cents(Coin::Dime), 10);
    assert_eq!(value_in_cents(Coin::Quarter(UsState::Alabama)), 25);
    assert_eq!(value_in_cents(Coin::Quarter(UsState::Alaska)), 25);
}

#[test]
fn plus_one_adds_one_to_what_is_there() {
    assert_eq!(plus_one(Some(5)), Some(6));
    assert_eq!(plus_one(None), None);
    assert_eq!(plus_one(Some(-1)), Some(0));
    assert_eq!(plus_one(Some(i32::MIN)), Some(i32::MIN + 1));
    assert_eq!(plus_one(Some(i32::MAX - 1)), Some(i32::MAX));
}

#[test]
fn plus_one_if_let_does_the_same() {
    assert_eq!(plus_one_if_let(Some(8)), Some(9));
    assert_eq!(plus_one_if_let(None), None);
    assert_eq!(plus_one_if_let(Some(i32::MAX - 1)), Some(i32::MAX));
}

#[test]
fn the_dice_pay_for_one_five_and_eight() {
    assert_eq!(dice_roll(5), "Iron");
    assert_eq!(dice_roll(1), "Stick");
    assert_eq!(dice_roll(8), "Gold");
}

#[test]
fn every_other_roll_is_trash() {
    assert_eq!(dice_roll(7), "Trash");
    assert_eq!(dice_roll(3), "Trash");
    assert_eq!(dice_roll(0), "Trash");
    assert_eq!(dice_roll(-1), "Trash");
    assert_eq!(dice_roll(i8::MIN), "Trash");
    assert_eq!(dice_roll(i8::MAX), "Trash");
}
