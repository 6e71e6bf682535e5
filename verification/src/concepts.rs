//! First steps: functions that return a value, and branching on a number.

use crate::chance::random_between;
use vstd::prelude::*;

verus! {

/// Twice `double_it`, returned with `return`.
pub fn return_function(double_it: u32) -> (doubled: u32)
    requires
        double_it * 2 <= u32::MAX,
    ensures
        doubled == double_it * 2,
{
    return double_it * 2;
}

/// Twice `double_it`, returned as the value of the body.
pub fn return_expression_function(double_it: u32) -> (doubled: u32)
    requires
        double_it * 2 <= u32::MAX,
    ensures
        doubled == double_it * 2,
{
    double_it * 2
}

/// A number from `min` to `max`, both included, picked at random.
pub fn generated_number(min: u32, max: u32) -> (number: u32)
    requires
        min <= max,
    ensures
        min <= number <= max,
{
    random_between(min, max)
}

/// How high a number is: above 75, above 50, or neither.
pub fn height_of(number: u32) -> (report: &'static str)
    ensures
        report@ == (if number > 75 {
            "Higher than 75"@
        } else if number > 50 {
            "Higher than 50"@
        } else {
            "Lower, or equals, than 50"@
        }),
{
    if number > 75 {
        "Higher than 75"
    } else if number > 50 {
        "Higher than 50"
    } else {
        "Lower, or equals, than 50"
    }
}

/// Whether a number is a multiple of five, in words.
pub fn multiple_of_five(number: u32) -> (report: &'static str)
    ensures
        report@ == (if number % 5 == 0 {
            "Multiple of 5"@
        } else {
            "Not multiple of 5"@
        }),
{
    if number % 5 == 0 {
        "Multiple of 5"
    } else {
        "Not multiple of 5"
    }
}

} // verus!
