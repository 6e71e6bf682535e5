//! Printing inside a box of asterisks, for anything that can be written as
//! text.

use crate::text::{byte_len, lemma_repeat_adds, repeat, repeated};
use vstd::prelude::*;

verus! {

/// The five lines that frame `text` in asterisks. The frame is as wide as
/// the text is long in bytes, plus a space and an asterisk on either side.
pub open spec fn outlined(text: Seq<char>) -> Seq<Seq<char>> {
    let len = byte_len(text) as nat;
    seq![
        repeat("*"@, len + 4),
        "*"@ + repeat(" "@, len + 2) + "*"@,
        "* "@ + text + " *"@,
        "*"@ + repeat(" "@, len + 2) + "*"@,
        repeat("*"@, len + 4),
    ]
}

/// `lines` are the five lines that frame `text`.
pub open spec fn frames(lines: Seq<String>, text: Seq<char>) -> bool {
    &&& lines.len() == 5
    &&& forall|i: int| 0 <= i < 5 ==> (#[trigger] lines[i])@ == outlined(text)[i]
}

/// Something that can be printed inside a box.
pub trait PrintBox {
    /// The value written as text.
    fn to_text(&self) -> String;

    /// The value as `to_text` writes it, inside a box of asterisks, line by
    /// line: the lines frame some text that the contract of `to_text` allows
    /// for this value.
    fn outline_print(&self) -> (lines: Vec<String>)
        ensures
            exists|text: String|
                #[trigger] call_ensures(Self::to_text, (self,), text) && frames(lines@, text@),
    {
        let output = self.to_text();
        let len = output.as_str().len();
        let ghost n = len as nat;
        proof {
            reveal_strlit("****");
            reveal_strlit("  ");
            reveal_strlit("*");
            reveal_strlit(" ");
            reveal_with_fuel(repeat, 5);
            assert("****"@ =~= repeat("*"@, 4));
            assert("  "@ =~= repeat(" "@, 2));
            lemma_repeat_adds("*"@, n, 4);
            lemma_repeat_adds(" "@, n, 2);
        }
        let mut border = repeated("*", len);
        border.append("****");
        assert(border@ == repeat("*"@, n + 4));
        let mut blank = String::from_str("*");
        let spaces = repeated(" ", len);
        blank.append(spaces.as_str());
        blank.append("  ");
        blank.append("*");
        assert(blank@ =~= "*"@ + (repeat(" "@, n) + repeat(" "@, 2)) + "*"@);
        let mut middle = String::from_str("* ");
        middle.append(output.as_str());
        middle.append(" *");
        let mut lines: Vec<String> = Vec::new();
        lines.push(border.clone());
        lines.push(blank.clone());
        lines.push(middle);
        lines.push(blank);
        lines.push(border);
        assert(call_ensures(Self::to_text, (self,), output) && frames(lines@, output@));
        lines
    }
}

/// A thing with a name and a rarity.
pub struct Item {
    name: String,
    rarity: String,
}

impl Item {
    /// The name of the item.
    pub closed spec fn name(&self) -> Seq<char> {
        self.name@
    }

    /// How rare the item is.
    pub closed spec fn rarity(&self) -> Seq<char> {
        self.rarity@
    }

    /// How the item is written: the name, then the rarity in round
    /// brackets.
    pub open spec fn written(&self) -> Seq<char> {
        self.name() + " ("@ + self.rarity() + ")"@
    }

    /// An item with the given name and rarity.
    pub fn new(name: &str, rarity: &str) -> (item: Item)
        ensures
            item.name() == name@,
            item.rarity() == rarity@,
    {
        Item { name: String::from_str(name), rarity: String::from_str(rarity) }
    }
}

impl PrintBox for Item {
    /// The name, then the rarity in round brackets.
    fn to_text(&self) -> (text: String)
        ensures
            text@ == self.written(),
    {
        let mut text = self.name.clone();
        text.append(" (");
        text.append(self.rarity.as_str());
        text.append(")");
        text
    }
}

} // verus!
