//! A small line search: which lines of a text hold a query, and how the
//! command line names the file and the query.

use crate::text::{chars_of, contains_between, contains_text, line_bounds, lines};
use vstd::prelude::*;
use vstd::std_specs::iter::IteratorSpec;

verus! {

/// What to search for, and in which file.
#[derive(Debug)]
pub struct Config {
    pub file_path: String,
    pub query: String,
}

/// What `Config::build` makes of the arguments `args`, the program's own
/// name first: the second is the file path and the third the query.
pub open spec fn parsed_arguments(args: Seq<String>) -> Result<Config, &'static str> {
    if args.len() < 2 {
        Err("Didn't get a file path")
    } else if args.len() < 3 {
        Err("Didn't get a query")
    } else {
        Ok(Config { file_path: args[1], query: args[2] })
    }
}

impl Config {
    /// Reads the configuration from the program's arguments. The first
    /// argument, the program's name, is skipped; arguments after the third are
    /// ignored. The result is stated for every iterator that hands out a
    /// fixed sequence of items and then ends.
    pub fn build<I: Iterator<Item = String>>(mut args: I) -> (config: Result<Config, &'static str>)
        ensures
            args.obeys_prophetic_iter_laws() ==> config == parsed_arguments(args.remaining()),
    {
        args.next();
        let file_path = match args.next() {
            Some(value) => value,
            None => return Err("Didn't get a file path"),
        };
        let query = match args.next() {
            Some(value) => value,
            None => return Err("Didn't get a query"),
        };
        Ok(Config { file_path, query })
    }
}

/// The lines of `content` that hold `query`, in the order of the text.
pub open spec fn matching_lines(content: Seq<char>, query: Seq<char>) -> Seq<Seq<char>> {
    lines(content).filter(|line: Seq<char>| contains_text(line, query))
}

/// What is found is what was asked for: every matching line is a line of
/// the text and holds the query, and every line of the text that holds the
/// query is among the matching lines.
pub proof fn lemma_matching_lines_are_the_lines_that_hold(content: Seq<char>, query: Seq<char>)
    ensures
        forall|i: int|
            0 <= i < matching_lines(content, query).len() ==> {
                &&& contains_text(#[trigger] matching_lines(content, query)[i], query)
                &&& lines(content).contains(matching_lines(content, query)[i])
            },
        forall|j: int|
            0 <= j < lines(content).len() && contains_text(lines(content)[j], query)
                ==> matching_lines(content, query).contains(#[trigger] lines(content)[j]),
{
    let all = lines(content);
    let holds = |line: Seq<char>| contains_text(line, query);
    let found = all.filter(holds);
    assert forall|i: int| 0 <= i < found.len() implies contains_text(#[trigger] found[i], query)
        && all.contains(found[i]) by {
        all.lemma_filter_pred(holds, i);
        assert(found.contains(found[i]));
        all.lemma_filter_contains_rev(holds, found[i]);
    }
    assert forall|j: int| 0 <= j < all.len() && contains_text(all[j], query) implies found.contains(
        #[trigger] all[j],
    ) by {
        all.lemma_filter_contains(holds, j);
    }
}

/// The lines of `content` that hold `query`, in the order of the text.
pub fn search<'a>(content: &'a str, query: &'a str) -> (found: Vec<&'a str>)
    ensures
        found@.len() == matching_lines(content@, query@).len(),
        forall|i: int|
            0 <= i < found@.len() ==> (#[trigger] found@[i])@ == matching_lines(
                content@,
                query@,
            )[i],
{
    let chars = chars_of(content);
    let needle = chars_of(query);
    let bounds = line_bounds(&chars);
    let ghost all = lines(content@);
    let ghost holds = |line: Seq<char>| contains_text(line, query@);
    let mut found: Vec<&'a str> = Vec::new();
    let mut i: usize = 0;
    proof {
        assert(all.take(0) =~= Seq::<Seq<char>>::empty());
        reveal(Seq::filter);
    }
    while i < bounds.len()
        invariant
            i <= bounds@.len(),
            chars@ == content@,
            needle@ == query@,
            all == lines(content@),
            holds == (|line: Seq<char>| contains_text(line, query@)),
            bounds@.len() == all.len(),
            forall|k: int|
                0 <= k < bounds@.len() ==> {
                    &&& (#[trigger] bounds@[k]).0 <= bounds@[k].1 <= chars@.len()
                    &&& chars@.subrange(bounds@[k].0 as int, bounds@[k].1 as int) == all[k]
                },
            found@.len() == all.take(i as int).filter(holds).len(),
            forall|k: int|
                0 <= k < found@.len() ==> (#[trigger] found@[k])@ == all.take(i as int).filter(
                    holds,
                )[k],
        decreases bounds@.len() - i,
    {
        let (from, to) = bounds[i];
        proof {
            assert(bounds@[i as int].0 == from);
            assert(all.take(i + 1) =~= all.take(i as int).push(all[i as int]));
            all.take(i as int).lemma_filter_push(all[i as int], holds);
        }
        if contains_between(&chars, from, to, &needle) {
            let line = content.substring_char(from, to);
            found.push(line);
        }
        i = i + 1;
    }
    proof {
        assert(all.take(i as int) =~= all);
    }
    found
}

} // verus!
