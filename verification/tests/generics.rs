use primer::generics::{
    find_largest_char_vector, find_largest_generic_vector, find_largest_vector, longest,
    make_summary, make_summary_multiple, make_summary_multiple_where, make_summary_verbose,
    returns_trait, Position, PositionDiff,
};
use primer::summary::{NewsArticle, Summary, Tweet};
use std::cmp::Ordering;

#[derive(Debug, Clone, Copy)]
struct Tagged {
    key: u32,
    tag: char,
}

impl PartialEq for Tagged {
    fn eq(&self, other: &Tagged) -> bool {
        self.key == other.key
    }
}

impl PartialOrd for Tagged {
    fn partial_cmp(&self, other: &Tagged) -> Option<Ordering> {
        self.key.partial_cmp(&other.key)
    }
}

#[test]
fn the_largest_number_of_a_list() {
    assert_eq!(*find_largest_vector(&[34, 50, 25, 100, 65]), 100);
    assert_eq!(*find_largest_vector(&[102, 34, 6000, 89, 54, 2, 43, 8]), 6000);
    assert_eq!(*find_largest_vector(&[7]), 7);
    assert_eq!(*find_largest_vector(&[-5, -2, -9]), -2);
    assert_eq!(*find_largest_vector(&[i32::MIN, i32::MAX, 0]), i32::MAX);
    assert_eq!(*find_largest_vector(&[3, 3, 3]), 3);
}

#[test]
fn the_largest_character_of_a_list() {
    assert_eq!(*find_largest_char_vector(&['y', 'm', 'a', 'q']), 'y');
    assert_eq!(*find_largest_char_vector(&['a']), 'a');
    assert_eq!(*find_largest_char_vector(&['a', 'Z', '\u{e9}']), '\u{e9}');
}

#[test]
fn the_largest_item_of_any_list() {
    assert_eq!(*find_largest_generic_vector(&[34, 50, 25, 100, 65]), 100);
    assert_eq!(*find_largest_generic_vector(&['y', 'm', 'a', 'q']), 'y');
    assert_eq!(*find_largest_generic_vector(&["pear", "apple", "quince"]), "quince");
    assert_eq!(*find_largest_generic_vector(&[2.5, 9.75, -1.0]), 9.75);
    assert_eq!(*find_largest_generic_vector(&[1u8]), 1);
}

#[test]
fn among_equals_the_earliest_is_the_largest() {
    let list = [
        Tagged { key: 2, tag: 'a' },
        Tagged { key: 9, tag: 'b' },
        Tagged { key: 9, tag: 'c' },
        Tagged { key: 1, tag: 'd' },
    ];
    let largest = find_largest_generic_vector(&list);
    assert_eq!(largest.key, 9);
    assert_eq!(largest.tag, 'b');
}

#[test]
fn an_item_that_compares_with_nothing_is_never_picked_over_the_first() {
    assert_eq!(*find_largest_generic_vector(&[1.0, f64::NAN, 3.0]), 3.0);
    assert!(find_largest_generic_vector(&[f64::NAN, 1.0, 3.0]).is_nan());
}

#[test]
fn positions_give_their_coordinates() {
    let near = Position { x: 5, y: 10 };
    assert_eq!(*near.x(), 5);
    assert_eq!(*near.y(), 10);
    let precise = Position { x: 4.5, y: 9.99 };
    assert_eq!(*precise.x(), 4.5);
    let mixed = PositionDiff { x: 4.5, y: 9.99, z: "z coordinate" };
    assert_eq!(*mixed.z(), "z coordinate");
}

#[test]
fn ahead_means_beyond_in_both_coordinates() {
    let pos_a = Position { x: 8, y: 9 };
    let pos_b = Position { x: 2, y: 4 };
    let pos_c = Position { x: 1, y: 10 };
    assert!(pos_a.is_ahead(&pos_b));
    assert!(!pos_a.is_ahead(&pos_c));
    assert!(!pos_b.is_ahead(&pos_c));
    assert!(!pos_a.is_ahead(&pos_a));
    let pos_string_a = Position { x: "X1", y: "y1" };
    let pos_string_b = Position { x: "X2", y: "y2" };
    assert!(pos_string_b.is_ahead(&pos_string_a));
    assert!(!pos_string_a.is_ahead(&pos_string_b));
}

#[test]
fn the_longer_text_wins_and_the_second_on_a_tie() {
    assert_eq!(longest("tasi", "pasin"), "pasin");
    assert_eq!(longest("longer string", "i compile"), "longer string");
    assert_eq!(longest("same", "size"), "size");
    assert_eq!(longest("", ""), "");
    assert_eq!(longest("a", ""), "a");
}

#[test]
fn the_length_that_counts_is_the_length_in_bytes() {
    assert_eq!(longest("\u{e9}\u{e9}", "abc"), "\u{e9}\u{e9}");
    assert_eq!(longest("\u{1f63b}", "abcd"), "abcd");
}

#[test]
fn a_summary_is_presented_on_one_line() {
    let tweet = Tweet::new("tasi.pasin", 16, "so coool");
    let expected = "make_summary(): @tasi.pasin on 16: \nso coool";
    assert_eq!(make_summary(&tweet), expected);
    assert_eq!(make_summary_verbose(&tweet), expected);
    assert_eq!(make_summary_multiple(&tweet), expected);
    assert_eq!(make_summary_multiple_where(&tweet), expected);
    let article = NewsArticle::new("Head", "Body", "Me");
    assert_eq!(make_summary(&article), "make_summary(): Head\n by Me\nBody");
}

#[test]
fn the_unnamed_summary_is_a_tweet_by_rust() {
    let item = returns_trait();
    assert_eq!(item.summarize(), "@rust on 12: \ni'm here");
    assert_eq!(make_summary(&item), "make_summary(): @rust on 12: \ni'm here");
}
