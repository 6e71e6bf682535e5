//! One name, several meanings: a method that a type has of its own and from
//! two traits, and a name that a type and its trait both give.

use vstd::prelude::*;

verus! {

/// Something that flies as a plane does.
pub trait Plane {
    /// What flying looks like.
    fn fly(&self) -> String;
}

/// Something that flies as a bird does.
pub trait Bird {
    /// What flying looks like.
    fn fly(&self) -> String;
}

/// A thing that can fly in more than one way.
pub struct Object;

impl Object {
    /// What the object does when it is simply told to fly.
    pub fn fly(&self) -> (report: String)
        ensures
            report@ == "Do nothing"@,
    {
        String::from_str("Do nothing")
    }
}

impl Plane for Object {
    fn fly(&self) -> (report: String)
        ensures
            report@ == "Flying as Plane"@,
    {
        String::from_str("Flying as Plane")
    }
}

impl Bird for Object {
    fn fly(&self) -> (report: String)
        ensures
            report@ == "Flying as Bird"@,
    {
        String::from_str("Flying as Bird")
    }
}

/// Something that has a name as a pizza.
pub trait Pizza {
    /// The name.
    fn pizza_name() -> String;
}

/// A pepperoni pizza.
pub struct Pepperoni;

impl Pepperoni {
    /// The name that the pizza gives itself.
    pub fn pizza_name() -> (name: String)
        ensures
            name@ == "Pepperoni"@,
    {
        String::from_str("Pepperoni")
    }
}

impl Pizza for Pepperoni {
    fn pizza_name() -> (name: String)
        ensures
            name@ == "Pizza"@,
    {
        String::from_str("Pizza")
    }
}

} // verus!
