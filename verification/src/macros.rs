//! Types that can introduce themselves by name.

use vstd::prelude::*;

verus! {

/// How a type of the given name introduces itself.
pub open spec fn greeting_of(name: Seq<char>) -> Seq<char> {
    "Hello, Macro! My name is "@ + name + "!"@
}

/// How a type of the given name introduces itself.
pub fn hello_macro_text(name: &str) -> (greeting: String)
    ensures
        greeting@ == greeting_of(name@),
{
    let mut greeting = String::from_str("Hello, Macro! My name is ");
    greeting.append(name);
    greeting.append("!");
    greeting
}

/// A type that can introduce itself.
pub trait HelloMacro {
    /// The introduction.
    fn hello_macro() -> String;
}

/// A stack of pancakes.
pub struct Pancakes;

impl HelloMacro for Pancakes {
    fn hello_macro() -> (greeting: String)
        ensures
            greeting@ == greeting_of("Pancakes"@),
    {
        hello_macro_text("Pancakes")
    }
}

} // verus!
