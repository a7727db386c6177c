//! The bounded cleanup of previous messages: which identifiers one sweep
//! visits.

use vstd::prelude::*;

verus! {

/// The message identifiers a sweep of `number_of_deletes` previous
/// messages visits: from `last_message_id` down to
/// `last_message_id - number_of_deletes`, newest first.
pub fn messages_to_delete(last_message_id: i32, number_of_deletes: i32) -> (r: Vec<i32>)
    requires
        number_of_deletes >= 0,
        last_message_id - number_of_deletes >= i32::MIN,
    ensures
        r@.len() == number_of_deletes + 1,
        forall|i: int| 0 <= i < r@.len() ==> r@[i] == last_message_id - i,
{
    let mut r: Vec<i32> = Vec::new();
    let mut id = last_message_id;
    let stop = last_message_id - number_of_deletes;
    while id >= stop
        invariant
            stop == last_message_id - number_of_deletes,
            stop - 1 <= id <= last_message_id,
            r@.len() == last_message_id - id,
            forall|i: int| 0 <= i < r@.len() ==> r@[i] == last_message_id - i,
        decreases id - stop + 1,
    {
        r.push(id);
        if id == stop {
            proof {
                assert(r@.len() == number_of_deletes + 1);
            }
            return r;
        }
        id = id - 1;
    }
    r
}

} // verus!
