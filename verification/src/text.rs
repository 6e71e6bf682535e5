//! Text as a sequence of characters: positions, lines, substrings, white
//! space and repetition.
//!
//! Every function here is specified over the `Seq<char>` view of a string, so
//! that callers can reason about text without thinking about its encoding.

use vstd::prelude::*;
use vstd::utf8::encode_utf8;

verus! {

/// The length of a text in bytes, as `str::len` counts it: the length of its
/// UTF-8 encoding. (No string in memory is too long for a `usize`.)
pub open spec fn byte_len(s: Seq<char>) -> usize {
    encode_utf8(s).len() as usize
}

/// The index of the first `c` in `s`, or `s.len()` where `s` holds no `c`.
pub open spec fn first_position(s: Seq<char>, c: char) -> int
    decreases s.len(),
{
    if s.len() == 0 || s[0] == c {
        0
    } else {
        1 + first_position(s.drop_first(), c)
    }
}

/// `first_position(s, c)` is the one index `k` with no `c` before it and
/// either a `c` at it or the end of `s`.
pub proof fn lemma_first_position(s: Seq<char>, c: char, k: int)
    requires
        0 <= k <= s.len(),
        forall|j: int| 0 <= j < k ==> s[j] != c,
        k < s.len() ==> s[k] == c,
    ensures
        first_position(s, c) == k,
    decreases k,
{
    if k > 0 {
        let rest = s.drop_first();
        assert(s[0] != c);
        assert forall|j: int| 0 <= j < k - 1 implies rest[j] != c by {
            assert(rest[j] == s[j + 1]);
        }
        lemma_first_position(rest, c, k - 1);
    }
}

/// A line without the carriage return that may close it.
pub open spec fn without_cr(line: Seq<char>) -> Seq<char> {
    if line.len() > 0 && line.last() == '\r' {
        line.drop_last()
    } else {
        line
    }
}

/// The lines of a text. A line ends at a line feed; the line feed, and a
/// carriage return directly before it, belong to no line. What follows the
/// last line feed is a line of its own unless it is empty.
pub open spec fn lines(s: Seq<char>) -> Seq<Seq<char>>
    decreases s.len(),
{
    let k = first_position(s, '\n');
    if s.len() == 0 {
        Seq::empty()
    } else if 0 <= k < s.len() {
        seq![without_cr(s.take(k))] + lines(s.skip(k + 1))
    } else {
        seq![s]
    }
}

/// `needle` stands in `hay` at index `i`.
pub open spec fn occurs_at(hay: Seq<char>, needle: Seq<char>, i: int) -> bool {
    &&& 0 <= i
    &&& i + needle.len() <= hay.len()
    &&& hay.subrange(i, i + needle.len()) == needle
}

/// `needle` stands somewhere in `hay`. The empty text stands in every text.
pub open spec fn contains_text(hay: Seq<char>, needle: Seq<char>) -> bool {
    exists|i: int| occurs_at(hay, needle, i)
}

/// `unit` written `times` times in a row.
pub open spec fn repeat(unit: Seq<char>, times: nat) -> Seq<char>
    decreases times,
{
    if times == 0 {
        Seq::empty()
    } else {
        repeat(unit, (times - 1) as nat) + unit
    }
}

/// Writing a unit `a` times and then `b` times is writing it `a + b` times.
pub proof fn lemma_repeat_adds(unit: Seq<char>, a: nat, b: nat)
    ensures
        repeat(unit, a) + repeat(unit, b) == repeat(unit, a + b),
    decreases b,
{
    if b == 0 {
        assert(repeat(unit, a) + repeat(unit, 0) =~= repeat(unit, a));
    } else {
        lemma_repeat_adds(unit, a, (b - 1) as nat);
        assert(repeat(unit, a) + (repeat(unit, (b - 1) as nat) + unit) =~= (repeat(unit, a)
            + repeat(unit, (b - 1) as nat)) + unit);
    }
}

/// Whether `c` is white space: a space, a tab, a line break or one of the
/// other characters that Unicode counts as white space.
pub open spec fn is_space(c: char) -> bool {
    ||| c == ' '
    ||| '\t' <= c <= '\r'
    ||| c == '\u{85}'
    ||| c == '\u{a0}'
    ||| c == '\u{1680}'
    ||| '\u{2000}' <= c <= '\u{200a}'
    ||| c == '\u{2028}'
    ||| c == '\u{2029}'
    ||| c == '\u{202f}'
    ||| c == '\u{205f}'
    ||| c == '\u{3000}'
}

/// A text without the white space that opens it.
pub open spec fn trim_start(s: Seq<char>) -> Seq<char>
    decreases s.len(),
{
    if s.len() > 0 && is_space(s[0]) {
        trim_start(s.drop_first())
    } else {
        s
    }
}

/// A text without the white space that closes it.
pub open spec fn trim_end(s: Seq<char>) -> Seq<char>
    decreases s.len(),
{
    if s.len() > 0 && is_space(s.last()) {
        trim_end(s.drop_last())
    } else {
        s
    }
}

/// A text without the white space at either end.
pub open spec fn trim(s: Seq<char>) -> Seq<char> {
    trim_end(trim_start(s))
}

/// The characters of `s`, in order.
pub fn chars_of(s: &str) -> (chars: Vec<char>)
    ensures
        chars@ == s@,
{
    let mut chars: Vec<char> = Vec::new();
    for c in it: s.chars()
        invariant
            chars@ == it.seq().take(it.index()),
            it.seq() == s@,
    {
        chars.push(c);
    }
    chars
}

/// The first index at or after `from` that holds `c`, or the length of
/// `chars` where there is none.
pub fn find_from(chars: &Vec<char>, from: usize, c: char) -> (at: usize)
    requires
        from <= chars@.len(),
    ensures
        from <= at <= chars@.len(),
        forall|j: int| from <= j < at ==> chars@[j] != c,
        at < chars@.len() ==> chars@[at as int] == c,
        at - from == first_position(chars@.skip(from as int), c),
{
    let mut at: usize = from;
    while at < chars.len() && chars[at] != c
        invariant
            from <= at <= chars@.len(),
            forall|j: int| from <= j < at ==> chars@[j] != c,
        decreases chars@.len() - at,
    {
        at = at + 1;
    }
    proof {
        lemma_first_position(chars@.skip(from as int), c, at - from);
    }
    at
}

/// Whether `needle` stands in the part of `chars` from `from` up to `to`.
pub fn contains_between(chars: &Vec<char>, from: usize, to: usize, needle: &Vec<char>) -> (found:
    bool)
    requires
        from <= to <= chars@.len(),
    ensures
        found == contains_text(chars@.subrange(from as int, to as int), needle@),
{
    let ghost hay = chars@.subrange(from as int, to as int);
    let m = needle.len();
    if m > to - from {
        assert forall|i: int| !occurs_at(hay, needle@, i) by {}
        return false;
    }
    let last = to - m;
    let mut i: usize = from;
    while i <= last
        invariant
            from <= i <= last + 1,
            last == to - m,
            m == needle@.len(),
            from <= to <= chars@.len(),
            m <= to - from,
            hay == chars@.subrange(from as int, to as int),
            forall|k: int| 0 <= k < i - from ==> !occurs_at(hay, needle@, k),
        decreases last + 1 - i,
    {
        let mut j: usize = 0;
        while j < m && chars[i + j] == needle[j]
            invariant
                j <= m,
                m == needle@.len(),
                from <= i <= last,
                last == to - m,
                from <= to <= chars@.len(),
                m <= to - from,
                forall|k: int| 0 <= k < j ==> chars@[i + k] == needle@[k],
            decreases m - j,
        {
            j = j + 1;
        }
        if j == m {
            proof {
                assert(hay.subrange(i - from, i - from + m) =~= needle@);
                assert(occurs_at(hay, needle@, i - from));
            }
            return true;
        }
        proof {
            let d = hay.subrange(i - from, i - from + m);
            assert(d[j as int] == chars@[i + j]);
            assert(!occurs_at(hay, needle@, i - from));
        }
        i = i + 1;
    }
    assert forall|k: int| !occurs_at(hay, needle@, k) by {}
    false
}

/// Where each line of `chars` starts and ends: the line is the part of
/// `chars` from the first index of its pair up to the second.
pub fn line_bounds(chars: &Vec<char>) -> (bounds: Vec<(usize, usize)>)
    ensures
        bounds@.len() == lines(chars@).len(),
        forall|i: int|
            0 <= i < bounds@.len() ==> {
                &&& (#[trigger] bounds@[i]).0 <= bounds@[i].1 <= chars@.len()
                &&& chars@.subrange(bounds@[i].0 as int, bounds@[i].1 as int) == lines(chars@)[i]
            },
{
    let n = chars.len();
    let mut bounds: Vec<(usize, usize)> = Vec::new();
    let mut start: usize = 0;
    let ghost mut done: Seq<Seq<char>> = Seq::empty();
    proof {
        assert(chars@.skip(0) =~= chars@);
    }
    while start < n
        invariant
            start <= n,
            n == chars@.len(),
            done.len() == bounds@.len(),
            lines(chars@) == done + lines(chars@.skip(start as int)),
            forall|i: int|
                0 <= i < bounds@.len() ==> {
                    &&& (#[trigger] bounds@[i]).0 <= bounds@[i].1 <= chars@.len()
                    &&& chars@.subrange(bounds@[i].0 as int, bounds@[i].1 as int) == done[i]
                },
        decreases n - start,
    {
        let at = find_from(chars, start, '\n');
        let ghost rest = chars@.skip(start as int);
        let ghost k = at - start;
        if at == n {
            bounds.push((start, n));
            proof {
                assert(chars@.subrange(start as int, n as int) =~= rest);
                assert(lines(rest) == seq![rest]);
                assert(lines(chars@.skip(n as int)) =~= Seq::<Seq<char>>::empty());
                assert(done + seq![rest] =~= done.push(rest) + Seq::<Seq<char>>::empty());
                done = done.push(rest);
            }
            start = n;
        } else {
            let end = if at > start && chars[at - 1] == '\r' {
                at - 1
            } else {
                at
            };
            bounds.push((start, end));
            proof {
                let line = rest.take(k);
                assert(line =~= chars@.subrange(start as int, at as int));
                assert(chars@.subrange(start as int, end as int) =~= without_cr(line));
                assert(rest.skip(k + 1) =~= chars@.skip(at + 1));
                assert(lines(rest) == seq![without_cr(line)] + lines(rest.skip(k + 1)));
                assert(done + (seq![without_cr(line)] + lines(chars@.skip(at + 1))) =~= done.push(
                    without_cr(line),
                ) + lines(chars@.skip(at + 1)));
                done = done.push(without_cr(line));
            }
            start = at + 1;
        }
    }
    proof {
        assert(lines(chars@.skip(start as int)) =~= Seq::<Seq<char>>::empty());
        assert(done + Seq::<Seq<char>>::empty() =~= done);
    }
    bounds
}

/// Whether `c` is white space.
pub fn is_whitespace(c: char) -> (space: bool)
    ensures
        space == is_space(c),
{
    c == ' ' || ('\t' <= c && c <= '\r') || c == '\u{85}' || c == '\u{a0}' || c == '\u{1680}' || (
    '\u{2000}' <= c && c <= '\u{200a}') || c == '\u{2028}' || c == '\u{2029}' || c == '\u{202f}'
        || c == '\u{205f}' || c == '\u{3000}'
}

/// Where `chars` without the white space at either end starts and ends.
pub fn trim_bounds(chars: &Vec<char>) -> (bounds: (usize, usize))
    ensures
        bounds.0 <= bounds.1 <= chars@.len(),
        chars@.subrange(bounds.0 as int, bounds.1 as int) == trim(chars@),
{
    let n = chars.len();
    let mut from: usize = 0;
    proof {
        assert(chars@.skip(0) =~= chars@);
    }
    while from < n && is_whitespace(chars[from])
        invariant
            from <= n,
            n == chars@.len(),
            trim_start(chars@) == trim_start(chars@.skip(from as int)),
        decreases n - from,
    {
        proof {
            assert(chars@.skip(from as int).drop_first() =~= chars@.skip(from + 1));
        }
        from = from + 1;
    }
    let ghost rest = chars@.skip(from as int);
    let mut to: usize = n;
    proof {
        assert(trim_start(chars@) == rest);
        assert(chars@.subrange(from as int, n as int) =~= rest);
    }
    while to > from && is_whitespace(chars[to - 1])
        invariant
            from <= to <= n,
            n == chars@.len(),
            trim_end(rest) == trim_end(chars@.subrange(from as int, to as int)),
        decreases to - from,
    {
        proof {
            assert(chars@.subrange(from as int, to as int).drop_last() =~= chars@.subrange(
                from as int,
                to - 1,
            ));
        }
        to = to - 1;
    }
    (from, to)
}

/// `unit` written `times` times in a row.
pub fn repeated(unit: &str, times: usize) -> (out: String)
    ensures
        out@ == repeat(unit@, times as nat),
{
    let mut out = String::new();
    let mut i: usize = 0;
    while i < times
        invariant
            i <= times,
            out@ == repeat(unit@, i as nat),
        decreases times - i,
    {
        out.append(unit);
        i = i + 1;
    }
    out
}

} // verus!
