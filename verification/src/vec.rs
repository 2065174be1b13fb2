//! Splitting a `Vec` into its initialized elements and its spare capacity.

use crate::batch::{extended, CapacityExceeded};
use crate::SplitSpare;
use vstd::prelude::*;

verus! {

/// A `Vec` split at its length: the elements it held at the split, and a
/// write cursor over the capacity behind them.
///
/// The cursor appends below a fixed limit, the capacity at the split, so that
/// no write makes the array move. Each written item is part of the array, and
/// counted in its length, as soon as the write returns. The array itself is
/// out of reach for as long as the split lives.
pub struct Spare<'a, T> {
    vec: &'a mut Vec<T>,
    start: usize,
    limit: usize,
}

impl<'a, T> View for Spare<'a, T> {
    type V = Seq<T>;

    /// The whole array: the elements it held at the split, followed by what
    /// has been written since.
    closed spec fn view(&self) -> Seq<T> {
        self.vec@
    }
}

impl<'a, T> Spare<'a, T> {
    /// The array that was split.
    pub closed spec fn target(&self) -> &'a mut Vec<T> {
        self.vec
    }

    /// The length of the array at the split.
    pub closed spec fn split_len(&self) -> nat {
        self.start as nat
    }

    /// The limit below which the cursor writes: the capacity at the split.
    pub closed spec fn limit(&self) -> nat {
        self.limit as nat
    }

    /// The split lies inside the array, and the array inside its limit.
    pub open spec fn wf(&self) -> bool {
        self.split_len() <= self@.len() <= self.limit()
    }

    /// The elements that the array held at the split.
    pub open spec fn initialized_view(&self) -> Seq<T> {
        self@.take(self.split_len() as int)
    }

    /// The items written since the split, in the order they were written.
    pub open spec fn written(&self) -> Seq<T> {
        self@.skip(self.split_len() as int)
    }

    /// The number of free slots.
    pub open spec fn room(&self) -> nat {
        (self.limit() - self@.len()) as nat
    }

    /// Once the split is no longer used, the array is what the split shows.
    pub proof fn lemma_resolved(self)
        requires
            has_resolved(self),
        ensures
            final(self.target())@ == self@,
    {
    }

    /// The length of the array, written items included.
    pub fn len(&self) -> (len: usize)
        ensures
            len == self@.len(),
    {
        self.vec.len()
    }

    /// The limit below which the cursor writes.
    pub fn capacity(&self) -> (capacity: usize)
        ensures
            capacity == self.limit(),
    {
        self.limit
    }

    /// The number of free slots.
    pub fn remaining(&self) -> (remaining: usize)
        requires
            self.wf(),
        ensures
            remaining == self.room(),
    {
        self.limit - self.vec.len()
    }

    /// The elements that the array held at the split.
    pub fn initialized(&self) -> (view: &[T])
        requires
            self.wf(),
        ensures
            view@ == self.initialized_view(),
    {
        let (head, _) = self.vec.as_slice().split_at(self.start);
        head
    }

    /// The elements that the array held at the split, to be changed in place.
    /// What was written behind them stays as it is.
    pub fn initialized_mut(&mut self) -> (view: &mut [T])
        requires
            old(self).wf(),
        ensures
            view@ == old(self).initialized_view(),
            final(self)@ == final(view)@ + old(self).written(),
            final(view)@.len() == view@.len() ==> final(self).wf(),
            final(self).split_len() == old(self).split_len(),
            final(self).limit() == old(self).limit(),
            *final(final(self).target()) == *final(old(self).target()),
    {
        let (head, _) = self.vec.as_mut_slice().split_at_mut(self.start);
        head
    }

    /// Writes `item` into the next free slot; the length grows by one.
    pub fn push(&mut self, item: T)
        requires
            old(self).wf(),
            old(self).room() > 0,
        ensures
            final(self).wf(),
            final(self)@ == old(self)@.push(item),
            final(self).split_len() == old(self).split_len(),
            final(self).limit() == old(self).limit(),
            *final(final(self).target()) == *final(old(self).target()),
    {
        self.vec.push(item);
    }

    /// Writes `item` if a slot is free, and reports that the capacity is
    /// exceeded if none is. The array does not change in that case.
    pub fn try_push(&mut self, item: T) -> (result: Result<(), CapacityExceeded>)
        requires
            old(self).wf(),
        ensures
            final(self).wf(),
            result is Ok <==> old(self).room() > 0,
            result is Ok ==> final(self)@ == old(self)@.push(item),
            result is Err ==> final(self)@ == old(self)@,
            final(self).split_len() == old(self).split_len(),
            final(self).limit() == old(self).limit(),
            *final(final(self).target()) == *final(old(self).target()),
    {
        if self.vec.len() < self.limit {
            self.push(item);
            Ok(())
        } else {
            Err(CapacityExceeded)
        }
    }

    /// Writes a batch that fits, item by item.
    pub fn extend(&mut self, items: Vec<T>)
        requires
            old(self).wf(),
            items@.len() <= old(self).room(),
        ensures
            final(self).wf(),
            final(self)@ == old(self)@ + items@,
            final(self).split_len() == old(self).split_len(),
            final(self).limit() == old(self).limit(),
            *final(final(self).target()) == *final(old(self).target()),
    {
        for item in it: items
            invariant
                self.wf(),
                it.seq() == items@,
                self@ == old(self)@ + items@.take(it.index()),
                items@.len() <= old(self).room(),
                self.split_len() == old(self).split_len(),
                self.limit() == old(self).limit(),
                *final(self.target()) == *final(old(self).target()),
        {
            self.push(item);
        }
    }

    /// Writes a batch item by item as far as it fits, and reports that the
    /// capacity is exceeded at the first item that finds no free slot. The
    /// items written before it stay in the array.
    pub fn try_extend(&mut self, items: Vec<T>) -> (result: Result<(), CapacityExceeded>)
        requires
            old(self).wf(),
        ensures
            final(self).wf(),
            result is Ok <==> items@.len() <= old(self).room(),
            final(self)@ == extended(old(self)@, old(self).limit(), items@),
            final(self).split_len() == old(self).split_len(),
            final(self).limit() == old(self).limit(),
            *final(final(self).target()) == *final(old(self).target()),
    {
        for item in it: items
            invariant
                self.wf(),
                it.seq() == items@,
                it.index() <= old(self).room(),
                self@ == old(self)@ + items@.take(it.index()),
                self.split_len() == old(self).split_len(),
                self.limit() == old(self).limit(),
                *final(self.target()) == *final(old(self).target()),
        {
            if self.try_push(item).is_err() {
                return Err(CapacityExceeded);
            }
        }
        Ok(())
    }
}

/// Splits `vec` at its length, with `capacity` as the limit of the cursor.
///
/// Everything the array holds is in the initialized view, unchanged, and the
/// cursor has one free slot for each unit of capacity beyond the length.
pub fn split_at_capacity<'s, T>(vec: &'s mut Vec<T>, capacity: usize) -> (spare: Spare<'s, T>)
    requires
        old(vec)@.len() <= capacity,
    ensures
        spare.wf(),
        spare@ == old(vec)@,
        spare.initialized_view() == old(vec)@,
        spare.split_len() == old(vec)@.len(),
        spare.limit() == capacity,
        spare.room() == capacity - old(vec)@.len(),
        *final(spare.target()) == *final(vec),
{
    let start = vec.len();
    Spare { vec, start, limit: capacity }
}

/// [`Vec::capacity`]: the number of elements the vector can hold without
/// reallocating, which is never below the number it holds.
#[verifier::external_body]
fn capacity_of<T>(vec: &Vec<T>) -> (capacity: usize)
    ensures
        capacity >= vec@.len(),
{
    vec.capacity()
}

impl<'s, T: 's> SplitSpare<'s, T> for Vec<T> {
    type Spare = Spare<'s, T>;

    open spec fn elements(&self) -> Seq<T> {
        self@
    }

    open spec fn seen(spare: &Spare<'s, T>) -> Seq<T> {
        spare@
    }

    open spec fn room(spare: &Spare<'s, T>) -> nat {
        spare.room()
    }

    open spec fn origin(spare: &Spare<'s, T>) -> &'s mut Vec<T> {
        spare.target()
    }

    /// The limit of the cursor is the capacity that the vector reports.
    fn split_spare(&'s mut self) -> (spare: Spare<'s, T>)
        ensures
            spare.wf(),
            spare.split_len() == old(self)@.len(),
            spare.initialized_view() == old(self)@,
    {
        let capacity = capacity_of(self);
        split_at_capacity(self, capacity)
    }

    /// The limit of the cursor is the capacity that the vector reports after
    /// the reservation, and in no case less than what was asked for.
    fn reserve_split_spare(&'s mut self, additional: usize) -> (spare: Spare<'s, T>)
        ensures
            spare.wf(),
            spare.split_len() == old(self)@.len(),
            spare.initialized_view() == old(self)@,
    {
        self.reserve(additional);
        let reported = capacity_of(self);
        let needed = self.len() + additional;
        let capacity = if reported < needed {
            needed
        } else {
            reported
        };
        split_at_capacity(self, capacity)
    }
}

} // verus!
