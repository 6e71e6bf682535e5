//! Functions handed to functions, functions handed back, and a counter that
//! is changed through a mutable reference.

use vstd::prelude::*;

verus! {

/// Adds `amount` to the counter.
pub fn increment_counter(counter: &mut u32, amount: u32)
    requires
        *old(counter) + amount <= u32::MAX,
    ensures
        *final(counter) == *old(counter) + amount,
{
    *counter = *counter + amount;
}

/// Twice `num`.
pub fn double_it(num: i32) -> (doubled: i32)
    requires
        i32::MIN <= num * 2 <= i32::MAX,
    ensures
        doubled == num * 2,
{
    num * 2
}

/// The number after `num`.
pub fn sum_up(num: i32) -> (next: i32)
    requires
        num < i32::MAX,
    ensures
        next == num + 1,
{
    num + 1
}

/// Calls `function` on `num` twice and multiplies what the two calls give.
pub fn make_it_double(function: impl Fn(i32) -> i32, num: i32) -> (product: i32)
    requires
        call_requires(function, (num,)),
        forall|a: i32, b: i32|
            call_ensures(function, (num,), a) && call_ensures(function, (num,), b) ==> i32::MIN
                <= a * b <= i32::MAX,
    ensures
        exists|a: i32, b: i32|
            call_ensures(function, (num,), a) && call_ensures(function, (num,), b) && product == a
                * b,
{
    let first = function(num);
    let second = function(num);
    first * second
}

/// A function that doubles its argument.
pub fn returns_closure() -> (doubling: impl Fn(i32) -> i32)
    ensures
        forall|x: i32| i32::MIN <= x * 2 <= i32::MAX ==> call_requires(doubling, (x,)),
        forall|x: i32, y: i32| call_ensures(doubling, (x,), y) ==> y == x * 2,
{
    let doubling = |x: i32| -> (y: i32)
        requires
            i32::MIN <= x * 2 <= i32::MAX,
        ensures
            y == x * 2,
        {
            x * 2
        };
    doubling
}

} // verus!
