//! A box of one's own, and a tracker that warns as a value nears its limit.

use vstd::prelude::*;

verus! {

/// A value behind a pointer-like wrapper.
pub struct MyBox<T>(pub T);

impl<T> MyBox<T> {
    /// Wraps `x`.
    pub fn new(x: T) -> (boxed: MyBox<T>)
        ensures
            boxed.0 == x,
    {
        MyBox(x)
    }
}

impl<T> core::ops::Deref for MyBox<T> {
    type Target = T;

    /// The wrapped value.
    fn deref(&self) -> (inner: &T)
        ensures
            *inner == self.0,
    {
        &self.0
    }
}

/// Something that can deliver a message.
pub trait Messenger {
    /// Delivers `msg`.
    fn send(&self, msg: &str);
}

/// Follows a value against its limit and has a messenger warn the user as
/// the value comes close to the limit or passes it.
pub struct LimitTracker<'a, T: Messenger> {
    messenger: &'a T,
    value: usize,
    max: usize,
}

/// The message to send once `value` of a quota of `max` is used: an error
/// from the whole quota on, an urgent warning from nine tenths on, a warning
/// from three quarters on, and nothing below that. Nothing used of a quota of
/// nothing is no reason for a message.
pub open spec fn notice_for(value: int, max: int) -> Option<Seq<char>> {
    if value == 0 && max == 0 {
        None
    } else if value >= max {
        Some("Error: You are over your quota!"@)
    } else if 10 * value >= 9 * max {
        Some("Urgent warning: You've used up over 90% of your quota!"@)
    } else if 4 * value >= 3 * max {
        Some("Warning: You've used up over 75% of your quota!"@)
    } else {
        None
    }
}

/// The message to send once `value` of a quota of `max` is used, if any.
pub fn notice(value: usize, max: usize) -> (message: Option<&'static str>)
    ensures
        match message {
            Some(text) => notice_for(value as int, max as int) == Some(text@),
            None => notice_for(value as int, max as int) is None,
        },
{
    let used = value as u128;
    let quota = max as u128;
    if value == 0 && max == 0 {
        None
    } else if used >= quota {
        Some("Error: You are over your quota!")
    } else if 10 * used >= 9 * quota {
        Some("Urgent warning: You've used up over 90% of your quota!")
    } else if 4 * used >= 3 * quota {
        Some("Warning: You've used up over 75% of your quota!")
    } else {
        None
    }
}

impl<'a, T: Messenger> LimitTracker<'a, T> {
    /// The value last set.
    pub closed spec fn value(&self) -> usize {
        self.value
    }

    /// The limit.
    pub closed spec fn max(&self) -> usize {
        self.max
    }

    /// The messenger that carries the warnings.
    pub closed spec fn messenger(&self) -> &'a T {
        self.messenger
    }

    /// A tracker with the limit `max` and the value zero.
    pub fn new(messenger: &'a T, max: usize) -> (tracker: LimitTracker<'a, T>)
        ensures
            tracker.value() == 0,
            tracker.max() == max,
            tracker.messenger() == messenger,
    {
        LimitTracker { messenger, value: 0, max }
    }

    /// Records `value` and sends the messenger the message that
    /// `notice(value, max)` gives, if it gives one.
    pub fn set_value(&mut self, value: usize)
        ensures
            final(self).value() == value,
            final(self).max() == old(self).max(),
            final(self).messenger() == old(self).messenger(),
    {
        self.value = value;
        match notice(self.value, self.max) {
            Some(text) => self.messenger.send(text),
            None => {},
        }
    }
}

} // verus!
