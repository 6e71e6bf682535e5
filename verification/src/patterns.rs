//! Taking values apart: an action with or without data, a date given as a
//! pair, an argument that is ignored, and rules that go by literals, ranges
//! and guards.

use crate::numerals::{decimal, decimal_text};
use vstd::prelude::*;

verus! {

/// Something to do.
#[derive(Debug)]
pub enum Action<'a> {
    /// Stop.
    End,
    /// Go to a place.
    Move { x: i32, y: i32 },
    /// Eat some food.
    Eat { food: &'a str },
}

/// What an action is called when it is carried out.
pub open spec fn action_report(action: Action) -> Seq<char> {
    match action {
        Action::Eat { food } => "Eating "@ + food@,
        Action::Move { x, y } => "Moving to x:"@ + decimal(x as int) + ", y:"@ + decimal(y as int),
        Action::End => "The End"@,
    }
}

/// What an action is called when it is carried out.
pub fn match_action(action: Action) -> (report: String)
    ensures
        report@ == action_report(action),
{
    match action {
        Action::Eat { food } => {
            let mut report = String::from_str("Eating ");
            report.append(food);
            report
        },
        Action::Move { x, y } => {
            let mut report = String::from_str("Moving to x:");
            let x_text = decimal_text(x as i64);
            report.append(x_text.as_str());
            report.append(", y:");
            let y_text = decimal_text(y as i64);
            report.append(y_text.as_str());
            report
        },
        Action::End => String::from_str("The End"),
    }
}

/// The day and the month of a date, written with a slash between them.
pub fn day_text(date: &(u8, u8)) -> (written: String)
    ensures
        written@ == "Today is "@ + decimal(date.0 as int) + "/"@ + decimal(date.1 as int),
{
    let (day, month) = *date;
    let mut written = String::from_str("Today is ");
    let day_text = decimal_text(day as i64);
    written.append(day_text.as_str());
    written.append("/");
    let month_text = decimal_text(month as i64);
    written.append(month_text.as_str());
    written
}

/// A remark on the second argument; the first is ignored.
pub fn ignoring_first_value(_unused: i32, used: i32) -> (remark: String)
    ensures
        remark@ == "I'm using only the "@ + decimal(used as int) + " value"@,
{
    let mut remark = String::from_str("I'm using only the ");
    let used_text = decimal_text(used as i64);
    remark.append(used_text.as_str());
    remark.append(" value");
    remark
}

/// The name of a small number: `one`, `two` or `three`; anything else is
/// too much.
pub fn number_name(number: i32) -> (name: &'static str)
    ensures
        name@ == (if number == 1 {
            "one"@
        } else if number == 2 {
            "two"@
        } else if number == 3 {
            "three"@
        } else {
            "too much"@
        }),
{
    match number {
        1 => "one",
        2 => "two",
        3 => "three",
        _ => "too much",
    }
}

/// What to call a number that may be one of several: five, ten and fifty
/// share a name, two has a name in doubt, and the rest is not known.
pub fn shared_name(number: i32) -> (name: &'static str)
    ensures
        name@ == (if number == 5 || number == 10 || number == 50 {
            "five or ten or fifty"@
        } else if number == 2 {
            "two?"@
        } else {
            "don't know"@
        }),
{
    match number {
        5 | 10 | 50 => "five or ten or fifty",
        2 => "two?",
        _ => "don't know",
    }
}

/// What an age means before the law: under age from 0 to 17.
pub fn age_report(age: i32) -> (report: &'static str)
    ensures
        report@ == (if 0 <= age <= 17 {
            "Underage"@
        } else {
            "Can be arrested"@
        }),
{
    match age {
        0..=17 => "Underage",
        _ => "Can be arrested",
    }
}

/// What a grade means: `a` to `c` pass, `d` to `f` fail, and anything else
/// fails too hard.
pub fn grade_report(grade: char) -> (report: &'static str)
    ensures
        report@ == (if 'a' <= grade <= 'c' {
            "Passed"@
        } else if 'd' <= grade <= 'f' {
            "Failed"@
        } else {
            "Failed too hard"@
        }),
{
    if 'a' <= grade && grade <= 'c' {
        "Passed"
    } else if 'd' <= grade && grade <= 'f' {
        "Failed"
    } else {
        "Failed too hard"
    }
}

/// A person with a name and an age.
#[derive(Debug, Clone, Copy)]
pub struct Person<'a> {
    pub name: &'a str,
    pub age: u8,
}

/// What to say of a person by their age: under age up to 18, fit for arrest
/// up to 70, and fit to retire as well beyond that.
pub open spec fn person_report_of(name: Seq<char>, age: u8) -> Seq<char> {
    if age <= 18 {
        name + " is underage"@
    } else if age <= 70 {
        name + " can be arrested"@
    } else {
        name + " is "@ + decimal(age as int) + " yo, can be arrested and can retire"@
    }
}

/// What to say of a person by their age.
pub fn person_report(person: Person) -> (report: String)
    ensures
        report@ == person_report_of(person.name@, person.age),
{
    let mut report = String::from_str(person.name);
    if person.age <= 18 {
        report.append(" is underage");
    } else if person.age <= 70 {
        report.append(" can be arrested");
    } else {
        report.append(" is ");
        let age_text = decimal_text(person.age as i64);
        report.append(age_text.as_str());
        report.append(" yo, can be arrested and can retire");
    }
    report
}

/// What to say of a value that may be a multiple of five, or missing.
pub open spec fn five_report_of(value: Option<i32>) -> Seq<char> {
    match value {
        Some(v) => if v % 5 == 0 {
            "The value "@ + decimal(v as int) + " is multiple of 5"@
        } else {
            "The value "@ + decimal(v as int) + " is not multiple of 5"@
        },
        None => "NaN"@,
    }
}

/// What to say of a value that may be a multiple of five, or missing.
pub fn five_report(value: Option<i32>) -> (report: String)
    ensures
        report@ == five_report_of(value),
{
    match value {
        Some(v) => {
            let mut report = String::from_str("The value ");
            let value_text = decimal_text(v as i64);
            report.append(value_text.as_str());
            if v % 5 == 0 {
                report.append(" is multiple of 5");
            } else {
                report.append(" is not multiple of 5");
            }
            report
        },
        None => String::from_str("NaN"),
    }
}

/// What to say of an action by where it moves: a move to an `x` from 1 to 5
/// names the `x`, one to an `x` from 10 to 50 is only placed roughly, and
/// anything else is some action.
pub open spec fn move_report_of(action: Action) -> Seq<char> {
    match action {
        Action::Move { x, .. } => if 1 <= x <= 5 {
            "Move to x "@ + decimal(x as int)
        } else if 10 <= x <= 50 {
            "Move somewhere between x 1 and 5"@
        } else {
            "Some Action"@
        },
        _ => "Some Action"@,
    }
}

/// What to say of an action by where it moves.
pub fn move_report(action: Action) -> (report: String)
    ensures
        report@ == move_report_of(action),
{
    match action {
        Action::Move { x, .. } => {
            if 1 <= x && x <= 5 {
                let mut report = String::from_str("Move to x ");
                let x_text = decimal_text(x as i64);
                report.append(x_text.as_str());
                report
            } else if 10 <= x && x <= 50 {
                String::from_str("Move somewhere between x 1 and 5")
            } else {
                String::from_str("Some Action")
            }
        },
        _ => String::from_str("Some Action"),
    }
}

/// What to say about games and age: cooperative play comes first, then a
/// favourite game, then the age if it is known; with none of these there is
/// nothing to say.
pub open spec fn leisure_report_of(
    is_coop: bool,
    fav_game: Option<&str>,
    age: Option<u8>,
) -> Option<Seq<char>> {
    if is_coop {
        Some("Coop games are fun!"@)
    } else if fav_game is Some {
        Some(fav_game.unwrap()@ + " is my fav game"@)
    } else if age is Some {
        if age.unwrap() < 30 {
            Some("I'm "@ + decimal(age.unwrap() as int) + " years young"@)
        } else {
            Some("I'm old"@)
        }
    } else {
        None
    }
}

/// What to say about games and age, if anything.
pub fn leisure_report(is_coop: bool, fav_game: Option<&str>, age: Option<u8>) -> (report: Option<
    String,
>)
    ensures
        match report {
            Some(text) => leisure_report_of(is_coop, fav_game, age) == Some(text@),
            None => leisure_report_of(is_coop, fav_game, age) is None,
        },
{
    if is_coop {
        Some(String::from_str("Coop games are fun!"))
    } else if let Some(game) = fav_game {
        let mut text = String::from_str(game);
        text.append(" is my fav game");
        Some(text)
    } else if let Some(years) = age {
        if years < 30 {
            let mut text = String::from_str("I'm ");
            let years_text = decimal_text(years as i64);
            text.append(years_text.as_str());
            text.append(" years young");
            Some(text)
        } else {
            Some(String::from_str("I'm old"))
        }
    } else {
        None
    }
}

} // verus!
