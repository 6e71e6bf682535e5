//! A guessing game: a secret number from 1 to 100, and for each line that
//! the player types a hint, until the guess is right.

use crate::chance::random_between;
use crate::numerals::{read_u32, read_u32_between};
use crate::text::{chars_of, trim, trim_bounds};
use vstd::prelude::*;

verus! {

/// How a guess compares with the secret number.
#[derive(Debug, PartialEq, Eq, Copy, Clone, Structural)]
pub enum Verdict {
    TooSmall,
    TooBig,
    Win,
}

/// How `guess` compares with `secret`.
pub open spec fn verdict_on(guess: u32, secret: u32) -> Verdict {
    if guess < secret {
        Verdict::TooSmall
    } else if guess > secret {
        Verdict::TooBig
    } else {
        Verdict::Win
    }
}

/// The number that a line of input states: the line without the white space
/// around it, read as an unsigned number. None where that is no number.
pub open spec fn guess_in(line: Seq<char>) -> Option<u32> {
    read_u32(trim(line))
}

/// What a line of input leads to: nothing where it states no number (the
/// player is simply asked again), and else how the number compares with the
/// secret.
pub open spec fn turn_on(secret: u32, line: Seq<char>) -> Option<Verdict> {
    match guess_in(line) {
        Some(guess) => Some(verdict_on(guess, secret)),
        None => None,
    }
}

/// A secret number for a new game: some number from 1 to 100.
pub fn secret_number() -> (secret: u32)
    ensures
        1 <= secret <= 100,
{
    random_between(1, 100)
}

/// The number that a line of input states, if it states one.
pub fn read_guess(line: &str) -> (guess: Option<u32>)
    ensures
        guess == guess_in(line@),
{
    let chars = chars_of(line);
    let (from, to) = trim_bounds(&chars);
    read_u32_between(&chars, from, to)
}

/// How `guess` compares with `secret`.
pub fn judge(guess: u32, secret: u32) -> (verdict: Verdict)
    ensures
        verdict == verdict_on(guess, secret),
{
    if guess < secret {
        Verdict::TooSmall
    } else if guess > secret {
        Verdict::TooBig
    } else {
        Verdict::Win
    }
}

/// Plays one line of input against the secret. The game is over once the
/// result is a win.
pub fn take_turn(secret: u32, line: &str) -> (turn: Option<Verdict>)
    ensures
        turn == turn_on(secret, line@),
{
    match read_guess(line) {
        Some(guess) => Some(judge(guess, secret)),
        None => None,
    }
}

/// What to tell the player about a guess.
pub fn verdict_message(verdict: Verdict) -> (message: &'static str)
    ensures
        message@ == (match verdict {
            Verdict::TooSmall => "Too small!"@,
            Verdict::TooBig => "Too big!"@,
            Verdict::Win => "You win!"@,
        }),
{
    match verdict {
        Verdict::TooSmall => "Too small!",
        Verdict::TooBig => "Too big!",
        Verdict::Win => "You win!",
    }
}

} // verus!
