//! Lists stored one row per item, each row holding the item's position in the list.

use vstd::prelude::*;

verus! {

/// One item of a stored list of texts, with its position in the list.
#[derive(Debug, Clone, PartialEq, Eq)]
pub struct PositionedText {
    pub position: i64,
    pub text: String,
}

/// The rows under which a list of texts is stored: each text with its index as position,
/// in list order.
pub fn positioned_texts(values: &Vec<String>) -> (rows: Vec<PositionedText>)
    ensures
        rows@.len() == values@.len(),
        forall|j: int|
            0 <= j < values@.len() ==> #[trigger] rows@[j].position == j as i64 && rows@[j].text
                == values@[j],
{
    let mut rows: Vec<PositionedText> = Vec::new();
    let mut j: usize = 0;
    while j < values.len()
        invariant
            0 <= j <= values@.len(),
            rows@.len() == j,
            forall|k: int|
                0 <= k < j ==> #[trigger] rows@[k].position == k as i64 && rows@[k].text == values@[k],
        decreases values@.len() - j,
    {
        rows.push(PositionedText { position: j as i64, text: values[j].clone() });
        j += 1;
    }
    rows
}

} // verus!
