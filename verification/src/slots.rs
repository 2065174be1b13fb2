//! A write cursor over the uninitialized slots of an array.
//!
//! The cursor is made from two parts of one array that do not overlap: the
//! slots between its length and its capacity, and its length word. It fills
//! the slots front to back and counts each filled slot in the length word, so
//! that the length never runs ahead of what was written.

use crate::batch::{fitting, CapacityExceeded};
use crate::set_len_on_drop::SetLenOnDrop;
use std::mem::MaybeUninit;
use vstd::prelude::*;

verus! {

/// [`MaybeUninit::write`] stores the value in the slot, whatever the slot
/// held, and hands back a reference to the stored value.
pub assume_specification<T>[ MaybeUninit::<T>::write ](
    slot: &mut MaybeUninit<T>,
    val: T,
) -> (contents: &mut T)
    ensures
        *contents == val,
        final(slot).as_option() == Some(*final(contents)),
;

/// The slots from `from` on hold `items`, in order.
pub open spec fn holds_from<T>(slots: Seq<MaybeUninit<T>>, from: nat, items: Seq<T>) -> bool {
    forall|i: int|
        from <= i < from + items.len() ==> (#[trigger] slots[i]).as_option() == Some(
            items[i - from],
        )
}

/// Two runs of slots are the same outside the range from `from` to `to`.
pub open spec fn same_outside<T>(
    a: Seq<MaybeUninit<T>>,
    b: Seq<MaybeUninit<T>>,
    from: nat,
    to: nat,
) -> bool {
    &&& a.len() == b.len()
    &&& forall|i: int| 0 <= i < a.len() && !(from <= i < to) ==> a[i] == b[i]
}

/// A cursor over uninitialized slots, with the length word that counts them.
pub struct SpareSlots<'a, T> {
    len_mut: &'a mut usize,
    slots: &'a mut [MaybeUninit<T>],
    next: usize,
}

impl<'a, T> SpareSlots<'a, T> {
    /// The length word that the cursor counts in.
    pub closed spec fn len_target(&self) -> &'a mut usize {
        self.len_mut
    }

    /// The run of slots that the cursor writes to.
    pub closed spec fn slots_target(&self) -> &'a mut [MaybeUninit<T>] {
        self.slots
    }

    /// The value of the length word.
    pub closed spec fn length(&self) -> nat {
        *self.len_mut as nat
    }

    /// All the slots, written and free.
    pub closed spec fn slots(&self) -> Seq<MaybeUninit<T>> {
        self.slots@
    }

    /// The number of slots written since the cursor was made; the next item
    /// goes to the slot with this index.
    pub closed spec fn position(&self) -> nat {
        self.next as nat
    }

    /// The number of free slots.
    pub open spec fn room(&self) -> nat {
        (self.slots().len() - self.position()) as nat
    }

    /// The cursor is inside its slots, and the length word can count every
    /// free slot.
    pub open spec fn wf(&self) -> bool {
        &&& self.position() <= self.slots().len()
        &&& self.length() + self.room() <= usize::MAX
    }

    /// Makes a cursor at the first of `slots`, counting in `len_mut`.
    pub fn new(len_mut: &'a mut usize, slots: &'a mut [MaybeUninit<T>]) -> (spare: Self)
        requires
            *old(len_mut) + old(slots)@.len() <= usize::MAX,
        ensures
            spare.wf(),
            spare.length() == *old(len_mut),
            spare.slots() == old(slots)@,
            spare.position() == 0,
            *final(spare.len_target()) == *final(len_mut),
            final(spare.slots_target())@ == final(slots)@,
    {
        SpareSlots { len_mut, slots, next: 0 }
    }

    /// Once the cursor is no longer used, the length word and the slots are
    /// what the cursor shows.
    pub proof fn lemma_resolved(self)
        requires
            has_resolved(self),
        ensures
            *final(self.len_target()) == self.length(),
            final(self.slots_target())@ == self.slots(),
    {
    }

    /// The value of the length word.
    pub fn len(&self) -> (len: usize)
        ensures
            len == self.length(),
    {
        *self.len_mut
    }

    /// The number of free slots.
    pub fn remaining(&self) -> (remaining: usize)
        requires
            self.wf(),
        ensures
            remaining == self.room(),
    {
        self.slots.len() - self.next
    }

    /// Writes `item` into the next free slot and counts it.
    pub fn push(&mut self, item: T)
        requires
            old(self).wf(),
            old(self).room() > 0,
        ensures
            final(self).wf(),
            final(self).length() == old(self).length() + 1,
            final(self).position() == old(self).position() + 1,
            holds_from(final(self).slots(), old(self).position(), seq![item]),
            same_outside(
                final(self).slots(),
                old(self).slots(),
                old(self).position(),
                old(self).position() + 1,
            ),
            *final(final(self).len_target()) == *final(old(self).len_target()),
            final(final(self).slots_target())@ == final(old(self).slots_target())@,
    {
        self.slots[self.next].write(item);
        self.next += 1;
        *self.len_mut += 1;
    }

    /// Writes `item` if a slot is free, and reports that the capacity is
    /// exceeded if none is. Nothing changes in that case.
    pub fn try_push(&mut self, item: T) -> (result: Result<(), CapacityExceeded>)
        requires
            old(self).wf(),
        ensures
            final(self).wf(),
            result is Ok <==> old(self).room() > 0,
            result is Ok ==> {
                &&& final(self).length() == old(self).length() + 1
                &&& final(self).position() == old(self).position() + 1
                &&& holds_from(final(self).slots(), old(self).position(), seq![item])
                &&& same_outside(
                    final(self).slots(),
                    old(self).slots(),
                    old(self).position(),
                    final(self).position(),
                )
            },
            result is Err ==> {
                &&& final(self).length() == old(self).length()
                &&& final(self).position() == old(self).position()
                &&& final(self).slots() == old(self).slots()
            },
            *final(final(self).len_target()) == *final(old(self).len_target()),
            final(final(self).slots_target())@ == final(old(self).slots_target())@,
    {
        if self.next < self.slots.len() {
            self.push(item);
            Ok(())
        } else {
            Err(CapacityExceeded)
        }
    }

    /// Writes a batch that fits: every item goes to a slot of its own, in
    /// order, and the length word takes the new count in a single update.
    pub fn extend(&mut self, items: Vec<T>)
        requires
            old(self).wf(),
            items@.len() <= old(self).room(),
        ensures
            final(self).wf(),
            final(self).length() == old(self).length() + items@.len(),
            final(self).position() == old(self).position() + items@.len(),
            holds_from(final(self).slots(), old(self).position(), items@),
            same_outside(
                final(self).slots(),
                old(self).slots(),
                old(self).position(),
                final(self).position(),
            ),
            *final(final(self).len_target()) == *final(old(self).len_target()),
            final(final(self).slots_target())@ == final(old(self).slots_target())@,
    {
        let written = write_batch(&mut *self.len_mut, &mut *self.slots, self.next, items);
        assert(self.slots@.len() == self.slots.len());
        self.next += written;
    }

    /// Writes a batch as far as it fits, and reports that the capacity is
    /// exceeded if an item is left over. The items that fit stay written and
    /// counted.
    pub fn try_extend(&mut self, items: Vec<T>) -> (result: Result<(), CapacityExceeded>)
        requires
            old(self).wf(),
        ensures
            final(self).wf(),
            result is Ok <==> items@.len() <= old(self).room(),
            final(self).length() == old(self).length() + fitting(items@, old(self).room()).len(),
            final(self).position() == old(self).position() + fitting(
                items@,
                old(self).room(),
            ).len(),
            holds_from(final(self).slots(), old(self).position(), fitting(items@, old(self).room())),
            same_outside(
                final(self).slots(),
                old(self).slots(),
                old(self).position(),
                final(self).position(),
            ),
            *final(final(self).len_target()) == *final(old(self).len_target()),
            final(final(self).slots_target())@ == final(old(self).slots_target())@,
    {
        let offered = items.len();
        let written = write_batch(&mut *self.len_mut, &mut *self.slots, self.next, items);
        assert(self.slots@.len() == self.slots.len());
        self.next += written;
        if written < offered {
            Err(CapacityExceeded)
        } else {
            Ok(())
        }
    }
}

/// Writes the items that fit into the slots from `start` on, one after the
/// other, and adds their number to the length word in a single update, which
/// is made whether the batch ends or the slots run out.
fn write_batch<T>(
    len_mut: &mut usize,
    slots: &mut [MaybeUninit<T>],
    start: usize,
    items: Vec<T>,
) -> (written: usize)
    requires
        start <= old(slots)@.len(),
        *old(len_mut) + (old(slots)@.len() - start) <= usize::MAX,
    ensures
        written == fitting(items@, (old(slots)@.len() - start) as nat).len(),
        *final(len_mut) == *old(len_mut) + written,
        holds_from(
            final(slots)@,
            start as nat,
            fitting(items@, (old(slots)@.len() - start) as nat),
        ),
        same_outside(final(slots)@, old(slots)@, start as nat, (start + written) as nat),
{
    let mut len = SetLenOnDrop::new(&mut *len_mut);
    let mut next = start;
    for item in it: items
        invariant
            it.seq() == items@,
            next == start + it.index(),
            next <= slots@.len(),
            slots@.len() == old(slots)@.len(),
            len.local_len() == *old(len_mut) + it.index(),
            *old(len_mut) + (old(slots)@.len() - start) <= usize::MAX,
            holds_from(slots@, start as nat, items@.take(it.index())),
            same_outside(slots@, old(slots)@, start as nat, next as nat),
            after_borrow(*len_mut) == *final(len.target()),
    {
        if next == slots.len() {
            len.commit();
            return next - start;
        }
        slots[next].write(item);
        next += 1;
        len.increment_len(1);
    }
    len.commit();
    next - start
}

} // verus!
