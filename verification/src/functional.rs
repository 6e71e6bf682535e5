//! A shirt giveaway: hand out the colour asked for, or else the colour that
//! the store has most of. And two walks over a list of numbers: their sum,
//! and each of them doubled.

use vstd::prelude::*;

verus! {

/// The colour of a shirt.
#[derive(Debug, PartialEq, Eq, Copy, Clone, Structural)]
pub enum ShirtColor {
    Red,
    Blue,
}

/// The shirts that a store has in stock.
#[derive(Debug)]
pub struct Inventory {
    pub shirts: Vec<ShirtColor>,
}

/// How many shirts of `color` are among `shirts`.
pub open spec fn count_of(shirts: Seq<ShirtColor>, color: ShirtColor) -> nat
    decreases shirts.len(),
{
    if shirts.len() == 0 {
        0
    } else if shirts.last() == color {
        count_of(shirts.drop_last(), color) + 1
    } else {
        count_of(shirts.drop_last(), color)
    }
}

/// The colour that `shirts` holds most of: red where red shirts outnumber
/// the blue ones, blue otherwise (so also on a tie and for no shirts).
pub open spec fn most_stocked_of(shirts: Seq<ShirtColor>) -> ShirtColor {
    if count_of(shirts, ShirtColor::Red) > count_of(shirts, ShirtColor::Blue) {
        ShirtColor::Red
    } else {
        ShirtColor::Blue
    }
}

impl Inventory {
    /// The shirt that a user gets: the colour they prefer, or the most
    /// stocked colour where they state no preference.
    pub fn giveaway(&self, user_preference: Option<ShirtColor>) -> (shirt: ShirtColor)
        ensures
            shirt == match user_preference {
                Some(color) => color,
                None => most_stocked_of(self.shirts@),
            },
    {
        match user_preference {
            Some(color) => color,
            None => self.most_stocked(),
        }
    }

    /// The colour that the store has most of.
    pub fn most_stocked(&self) -> (color: ShirtColor)
        ensures
            color == most_stocked_of(self.shirts@),
    {
        let mut num_red: usize = 0;
        let mut num_blue: usize = 0;
        let mut i: usize = 0;
        while i < self.shirts.len()
            invariant
                i <= self.shirts@.len(),
                num_red == count_of(self.shirts@.take(i as int), ShirtColor::Red),
                num_blue == count_of(self.shirts@.take(i as int), ShirtColor::Blue),
                num_red + num_blue == i,
            decreases self.shirts@.len() - i,
        {
            proof {
                assert(self.shirts@.take(i + 1).drop_last() =~= self.shirts@.take(i as int));
            }
            match self.shirts[i] {
                ShirtColor::Red => num_red = num_red + 1,
                ShirtColor::Blue => num_blue = num_blue + 1,
            }
            i = i + 1;
        }
        proof {
            assert(self.shirts@.take(i as int) =~= self.shirts@);
        }
        if num_red > num_blue {
            ShirtColor::Red
        } else {
            ShirtColor::Blue
        }
    }
}

/// The sum of the numbers.
pub open spec fn sum_of(values: Seq<i32>) -> int
    decreases values.len(),
{
    if values.len() == 0 {
        0
    } else {
        sum_of(values.drop_last()) + values.last()
    }
}

/// The sum of the numbers, added up first to last.
pub fn sum(values: &Vec<i32>) -> (total: i32)
    requires
        forall|i: int|
            0 <= i <= values@.len() ==> i32::MIN <= #[trigger] sum_of(values@.take(i)) <= i32::MAX,
    ensures
        total == sum_of(values@),
{
    let mut total: i32 = 0;
    let mut i: usize = 0;
    proof {
        assert(values@.take(0) =~= Seq::<i32>::empty());
    }
    while i < values.len()
        invariant
            i <= values@.len(),
            total == sum_of(values@.take(i as int)),
            forall|k: int|
                0 <= k <= values@.len() ==> i32::MIN <= #[trigger] sum_of(values@.take(k))
                    <= i32::MAX,
        decreases values@.len() - i,
    {
        proof {
            assert(values@.take(i + 1).drop_last() =~= values@.take(i as int));
            assert(i32::MIN <= sum_of(values@.take(i + 1)) <= i32::MAX);
        }
        total = total + values[i];
        i = i + 1;
    }
    proof {
        assert(values@.take(i as int) =~= values@);
    }
    total
}

/// Each of the numbers doubled, in the same order.
pub fn doubled(values: &Vec<i32>) -> (twice: Vec<i32>)
    requires
        forall|i: int| 0 <= i < values@.len() ==> i32::MIN <= 2 * #[trigger] values@[i] <= i32::MAX,
    ensures
        twice@.len() == values@.len(),
        forall|i: int| 0 <= i < values@.len() ==> #[trigger] twice@[i] == 2 * values@[i],
{
    let mut twice: Vec<i32> = Vec::new();
    let mut i: usize = 0;
    while i < values.len()
        invariant
            i <= values@.len(),
            twice@.len() == i,
            forall|k: int| 0 <= k < i ==> #[trigger] twice@[k] == 2 * values@[k],
            forall|k: int|
                0 <= k < values@.len() ==> i32::MIN <= 2 * #[trigger] values@[k] <= i32::MAX,
        decreases values@.len() - i,
    {
        twice.push(values[i] * 2);
        i = i + 1;
    }
    twice
}

} // verus!
