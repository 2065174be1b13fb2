//! What a batch of writes does to an array with a fixed limit.
//!
//! Writing a batch is writing its items one by one, in order, until the batch
//! ends or no free slot is left. The functions here say this over sequences;
//! the cursors state their results with them.

use vstd::prelude::*;

verus! {

/// No free slot was left for an item.
#[derive(Clone, Copy, Debug, PartialEq, Eq)]
pub struct CapacityExceeded;

impl CapacityExceeded {
    /// The words in which the condition is reported.
    pub fn message(&self) -> (message: &'static str)
        ensures
            message@ == "Insufficient capacity reserved to write all elements!"@,
    {
        "Insufficient capacity reserved to write all elements!"
    }
}

/// The longest prefix of `items` that fits into `room` free slots.
pub open spec fn fitting<T>(items: Seq<T>, room: nat) -> Seq<T> {
    if items.len() <= room {
        items
    } else {
        items.take(room as int)
    }
}

/// The array after a batch of `items` is written behind its elements: every
/// item that fits below `limit` is appended, in order, and none beyond.
pub open spec fn extended<T>(array: Seq<T>, limit: nat, items: Seq<T>) -> Seq<T> {
    array + fitting(items, (limit - array.len()) as nat)
}

/// Of a batch, as many items are written as there are items or free slots,
/// whichever is fewer, and they are the first of the batch.
pub proof fn lemma_fitting_is_a_prefix<T>(items: Seq<T>, room: nat)
    ensures
        fitting(items, room).len() == if items.len() <= room {
            items.len()
        } else {
            room
        },
        fitting(items, room).is_prefix_of(items),
{
}

/// A batch that fits is committed whole: the array grows by the number of
/// items, the new elements are the items in order, and the elements that were
/// there before are untouched.
pub proof fn lemma_commit_is_monotonic<T>(array: Seq<T>, limit: nat, items: Seq<T>)
    requires
        array.len() + items.len() <= limit,
    ensures
        extended(array, limit, items).len() == array.len() + items.len(),
        extended(array, limit, items).skip(array.len() as int) == items,
        extended(array, limit, items).take(array.len() as int) == array,
{
    let after = extended(array, limit, items);
    assert(after.skip(array.len() as int) =~= items);
    assert(after.take(array.len() as int) =~= array);
}

/// Writing a single item is a batch of one: with a free slot the item is
/// appended, without one the array stays as it is.
pub proof fn lemma_single_item<T>(array: Seq<T>, limit: nat, item: T)
    requires
        array.len() <= limit,
    ensures
        array.len() < limit ==> extended(array, limit, seq![item]) == array.push(item),
        array.len() == limit ==> extended(array, limit, seq![item]) == array,
{
    if array.len() < limit {
        assert(extended(array, limit, seq![item]) =~= array.push(item));
    } else {
        assert(extended(array, limit, seq![item]) =~= array);
    }
}

/// A batch is its items written one after the other: writing `items` and then
/// `item` gives what writing them as one batch gives, whether or not they fit.
pub proof fn lemma_batch_is_item_by_item<T>(array: Seq<T>, limit: nat, items: Seq<T>, item: T)
    requires
        array.len() <= limit,
    ensures
        extended(array, limit, items.push(item)) == extended(
            extended(array, limit, items),
            limit,
            seq![item],
        ),
{
    let whole = extended(array, limit, items.push(item));
    let stepwise = extended(extended(array, limit, items), limit, seq![item]);
    assert(whole =~= stepwise);
}

/// A batch that is too long by at least one item fills the array to its limit
/// and no further: exactly the items that fit are committed.
pub proof fn lemma_overflow_fills_to_limit<T>(array: Seq<T>, limit: nat, items: Seq<T>)
    requires
        array.len() <= limit,
        array.len() + items.len() > limit,
    ensures
        extended(array, limit, items).len() == limit,
        extended(array, limit, items) == array + items.take(limit - array.len()),
{
}

/// After room for `additional` items was reserved, a batch of exactly
/// `additional` items fits: all of it is committed and the limit is not
/// exceeded.
pub proof fn lemma_reserved_room_suffices<T>(
    array: Seq<T>,
    limit: nat,
    additional: nat,
    items: Seq<T>,
)
    requires
        limit - array.len() >= additional,
        items.len() == additional,
    ensures
        extended(array, limit, items) == array + items,
        extended(array, limit, items).len() == array.len() + additional,
        extended(array, limit, items).len() <= limit,
{
}

} // verus!
