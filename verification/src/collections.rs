//! Looking into a vector: what came back, put into words; and changing
//! every number of a vector in place.

use crate::numerals::{decimal, decimal_text};
use vstd::prelude::*;

verus! {

/// What to say about the result of looking up an index.
pub open spec fn returned_value_report(result: Option<&i32>) -> Seq<char> {
    match result {
        Some(value) => "Got a value: "@ + decimal(*value as int),
        None => "Got no value. Index not existent"@,
    }
}

/// What to say about the result of looking up an index.
pub fn returned_value_text(result: Option<&i32>) -> (report: String)
    ensures
        report@ == returned_value_report(result),
{
    match result {
        Some(value) => {
            let mut report = String::from_str("Got a value: ");
            let number = decimal_text(*value as i64);
            report.append(number.as_str());
            report
        },
        None => String::from_str("Got no value. Index not existent"),
    }
}

/// Adds one to every number of the vector.
pub fn raise_each(values: &mut Vec<i32>)
    requires
        forall|i: int| 0 <= i < old(values)@.len() ==> #[trigger] old(values)@[i] < i32::MAX,
    ensures
        final(values)@.len() == old(values)@.len(),
        forall|i: int|
            0 <= i < old(values)@.len() ==> #[trigger] final(values)@[i] == old(values)@[i] + 1,
{
    let mut i: usize = 0;
    while i < values.len()
        invariant
            i <= values@.len(),
            values@.len() == old(values)@.len(),
            forall|k: int| 0 <= k < i ==> #[trigger] values@[k] == old(values)@[k] + 1,
            forall|k: int| i <= k < values@.len() ==> #[trigger] values@[k] == old(values)@[k],
            forall|k: int| 0 <= k < old(values)@.len() ==> #[trigger] old(values)@[k] < i32::MAX,
        decreases values@.len() - i,
    {
        let raised = values[i] + 1;
        values.set(i, raised);
        i = i + 1;
    }
}

} // verus!
