//! Code written once for many types: positions over any coordinate type, the
//! largest item of a list, summaries of anything that can be summed up, and
//! the longer of two borrowed texts.

use crate::numerals::decimal;
use crate::summary::{summed_up_as, Summary, Tweet};
use crate::text::byte_len;
use core::cmp::Ordering;
use vstd::prelude::*;
use vstd::std_specs::cmp::PartialOrdSpec;

verus! {

/// A position in the plane, over any coordinate type.
#[derive(Debug)]
pub struct Position<T> {
    pub x: T,
    pub y: T,
}

/// The comparisons of `T` behave as its specification says.
pub open spec fn comparable<T: PartialOrd>() -> bool {
    T::obeys_partial_cmp_spec()
}

/// `a` is greater than `b`.
pub open spec fn exceeds<T: PartialOrd>(a: &T, b: &T) -> bool {
    a.partial_cmp_spec(b) == Some(Ordering::Greater)
}

impl<T> Position<T> {
    /// The first coordinate.
    pub fn x(&self) -> (x: &T)
        ensures
            *x == self.x,
    {
        &self.x
    }
}

impl<T: PartialOrd> Position<T> {
    /// Whether this position lies beyond `other` in both coordinates. What
    /// "beyond" means is up to `T`: the result is stated for every type whose
    /// comparisons behave as specified.
    pub fn is_ahead(&self, other: &Position<T>) -> (ahead: bool)
        ensures
            comparable::<T>() ==> ahead == (exceeds(&self.x, &other.x) && exceeds(
                &self.y,
                &other.y,
            )),
    {
        *self.x() > *other.x() && self.y > other.y
    }
}

impl Position<i32> {
    /// The second coordinate of a position over signed numbers.
    pub fn y(&self) -> (y: &i32)
        ensures
            *y == self.y,
    {
        &self.y
    }
}

/// A position in space whose third coordinate may be of another type than
/// the first two.
#[derive(Debug)]
pub struct PositionDiff<T, U> {
    pub x: T,
    pub y: T,
    pub z: U,
}

impl<T, U> PositionDiff<T, U> {
    /// The third coordinate.
    pub fn z(&self) -> (z: &U)
        ensures
            *z == self.z,
    {
        &self.z
    }
}

/// The largest number of a list that is not empty.
pub fn find_largest_vector(list: &[i32]) -> (largest: &i32)
    requires
        list@.len() > 0,
    ensures
        list@.contains(*largest),
        forall|i: int| 0 <= i < list@.len() ==> list@[i] <= *largest,
{
    let mut largest = &list[0];
    let mut i: usize = 1;
    while i < list.len()
        invariant
            1 <= i <= list@.len(),
            list@.contains(*largest),
            forall|j: int| 0 <= j < i ==> list@[j] <= *largest,
        decreases list@.len() - i,
    {
        if list[i] > *largest {
            largest = &list[i];
        }
        i = i + 1;
    }
    largest
}

/// The largest character of a list that is not empty.
pub fn find_largest_char_vector(list: &[char]) -> (largest: &char)
    requires
        list@.len() > 0,
    ensures
        list@.contains(*largest),
        forall|i: int| 0 <= i < list@.len() ==> list@[i] <= *largest,
{
    let mut largest = &list[0];
    let mut i: usize = 1;
    while i < list.len()
        invariant
            1 <= i <= list@.len(),
            list@.contains(*largest),
            forall|j: int| 0 <= j < i ==> list@[j] <= *largest,
        decreases list@.len() - i,
    {
        if list[i] > *largest {
            largest = &list[i];
        }
        i = i + 1;
    }
    largest
}

/// Where the largest of the first `upto` items of `list` stands: the first
/// item to begin with, and then each item that is greater than the one held
/// so far. Among items that are not greater than one another, the earliest
/// stays.
pub open spec fn largest_index<T: PartialOrd>(list: Seq<T>, upto: int) -> int
    decreases upto,
{
    if upto <= 1 {
        0
    } else {
        let held = largest_index(list, upto - 1);
        if exceeds(&list[upto - 1], &list[held]) {
            upto - 1
        } else {
            held
        }
    }
}

/// The largest item of a list that is not empty, for any type whose items
/// can be compared. The result is always an item of the list; which one is
/// stated for every type whose comparisons behave as specified.
pub fn find_largest_generic_vector<T: PartialOrd>(list: &[T]) -> (largest: &T)
    requires
        list@.len() > 0,
    ensures
        exists|i: int| 0 <= i < list@.len() && *largest == list@[i],
        comparable::<T>() ==> {
            &&& 0 <= largest_index(list@, list@.len() as int) < list@.len()
            &&& *largest == list@[largest_index(list@, list@.len() as int)]
        },
{
    let mut largest = &list[0];
    let mut i: usize = 1;
    let ghost mut held: int = 0;
    while i < list.len()
        invariant
            1 <= i <= list@.len(),
            comparable::<T>() ==> held == largest_index(list@, i as int),
            0 <= held < i,
            *largest == list@[held],
        decreases list@.len() - i,
    {
        if list[i] > *largest {
            largest = &list[i];
            proof {
                held = i as int;
            }
        }
        i = i + 1;
    }
    largest
}

/// `line` presents a summary of `item`: the words `make_summary(): `, then
/// something that `item` may be summed up as.
pub open spec fn presents<T: Summary + ?Sized>(line: Seq<char>, item: &T) -> bool {
    exists|summary: String|
        #[trigger] summed_up_as(item, summary) && line == "make_summary(): "@ + summary@
}

/// The line that presents the summary of `item`.
pub fn make_summary(item: &impl Summary) -> (line: String)
    ensures
        presents(line@, item),
{
    make_summary_verbose(item)
}

/// The line that presents the summary of `item`, with the bound written out.
pub fn make_summary_verbose<T: Summary>(item: &T) -> (line: String)
    ensures
        presents(line@, item),
{
    let mut line = String::from_str("make_summary(): ");
    let summary = item.summarize();
    line.append(summary.as_str());
    assert(summed_up_as(item, summary));
    line
}

/// The line that presents the summary of `item`.
pub fn make_summary_multiple(item: &impl Summary) -> (line: String)
    ensures
        presents(line@, item),
{
    make_summary_multiple_where(item)
}

/// The line that presents the summary of `item`, with the bound in a
/// `where` clause.
pub fn make_summary_multiple_where<T>(item: &T) -> (line: String) where T: Summary
    ensures
        presents(line@, item),
{
    let mut line = String::from_str("make_summary(): ");
    let summary = item.summarize();
    line.append(summary.as_str());
    assert(summed_up_as(item, summary));
    line
}

/// Something that can be summed up, without saying what it is: a tweet by
/// `rust` of day 12.
pub fn returns_trait() -> (item: impl Summary)
    ensures
        forall|text: String| #[trigger]
            summed_up_as(&item, text) ==> text@ == "@"@ + "rust"@ + " on "@ + decimal(12) + ": \n"@
                + "i'm here"@,
{
    Tweet::new("rust", 12, "i'm here")
}

/// The longer of two texts, by their length in bytes; the second where
/// neither is longer.
pub fn longest<'a>(str_a: &'a str, str_b: &'a str) -> (longer: &'a str)
    ensures
        longer@ == (if byte_len(str_a@) > byte_len(str_b@) {
            str_a@
        } else {
            str_b@
        }),
{
    if str_a.len() > str_b.len() {
        str_a
    } else {
        str_b
    }
}

} // verus!
