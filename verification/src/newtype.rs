//! A list of strings under a name of its own, so that it can say how it is
//! written.

use vstd::prelude::*;

verus! {

/// A list of strings.
pub struct Wrapper(pub Vec<String>);

/// The parts written one after another with `separator` between each two.
pub open spec fn joined(parts: Seq<String>, separator: Seq<char>) -> Seq<char>
    decreases parts.len(),
{
    if parts.len() == 0 {
        Seq::empty()
    } else if parts.len() == 1 {
        parts[0]@
    } else {
        joined(parts.drop_last(), separator) + separator + parts.last()@
    }
}

impl Wrapper {
    /// How the list is written: its strings with ` -- ` between them, in
    /// square brackets.
    pub open spec fn written(&self) -> Seq<char> {
        "["@ + joined(self.0@, " -- "@) + "]"@
    }

    /// The list written as text.
    pub fn to_text(&self) -> (text: String)
        ensures
            text@ == self.written(),
    {
        let mut text = String::from_str("[");
        let mut i: usize = 0;
        proof {
            assert(self.0@.take(0) =~= Seq::<String>::empty());
        }
        while i < self.0.len()
            invariant
                i <= self.0@.len(),
                text@ == "["@ + joined(self.0@.take(i as int), " -- "@),
            decreases self.0@.len() - i,
        {
            proof {
                let upto = self.0@.take(i + 1);
                assert(upto.drop_last() =~= self.0@.take(i as int));
                assert(upto.last() == self.0@[i as int]);
                if i == 0 {
                    assert(joined(self.0@.take(0), " -- "@) =~= Seq::<char>::empty());
                }
            }
            if i > 0 {
                text.append(" -- ");
            }
            text.append(self.0[i].as_str());
            proof {
                let before = joined(self.0@.take(i as int), " -- "@);
                if i > 0 {
                    assert("["@ + before + " -- "@ + self.0@[i as int]@ =~= "["@ + (before
                        + " -- "@ + self.0@[i as int]@));
                } else {
                    assert("["@ + before + self.0@[i as int]@ =~= "["@ + self.0@[i as int]@);
                }
            }
            i = i + 1;
        }
        proof {
            assert(self.0@.take(i as int) =~= self.0@);
        }
        text.append("]");
        text
    }
}

} // verus!
