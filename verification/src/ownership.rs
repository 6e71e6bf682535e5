//! Owned and borrowed text: handing a string over, lending it, changing it
//! in place, and taking a slice of it.

use crate::text::{byte_len, chars_of, find_from, first_position};
use vstd::prelude::*;

verus! {

/// Takes a string and gives it back unchanged.
pub fn takes_and_giveback(text: String) -> (back: String)
    ensures
        back == text,
{
    text
}

/// The length of the borrowed string: the number of bytes of its UTF-8
/// encoding.
pub fn knows_where_is(value: &String) -> (size: usize)
    ensures
        size == byte_len(value@),
{
    value.as_str().len()
}

/// Adds a remark to the end of the borrowed string.
pub fn by_reference_and_change(value: &mut String)
    ensures
        final(value)@ == old(value)@ + " Borrowed and changed rerere"@,
{
    value.append(" Borrowed and changed rerere");
}

/// A string that the caller comes to own.
pub fn not_a_dangling_reference() -> (text: String)
    ensures
        text@ == "Not a dangling reference"@,
{
    String::from_str("Not a dangling reference")
}

/// The first word of a text: what stands before its first space, or the
/// whole text where it holds no space.
pub open spec fn first_word_of(text: Seq<char>) -> Seq<char> {
    text.take(first_position(text, ' '))
}

/// The first word of the string.
pub fn first_word(text: &String) -> (word: &str)
    ensures
        word@ == first_word_of(text@),
{
    first_word_literal(text.as_str())
}

/// The first word of the string slice.
pub fn first_word_literal(text: &str) -> (word: &str)
    ensures
        word@ == first_word_of(text@),
{
    let chars = chars_of(text);
    let end = find_from(&chars, 0, ' ');
    proof {
        assert(chars@.skip(0) =~= chars@);
        assert(text@.subrange(0, end as int) =~= text@.take(end as int));
    }
    text.substring_char(0, end)
}

} // verus!
