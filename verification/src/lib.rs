//! Two views of one growable array, from one exclusive borrow: the elements
//! it holds, and a write cursor over the capacity it has left.

use vstd::prelude::*;

pub mod batch;
pub mod offset;
pub mod set_len_on_drop;
pub mod slots;
pub mod vec;

verus! {

/// A growable array that can be split into the elements it holds and a write
/// cursor over its spare capacity.
pub trait SplitSpare<'s, T>: Sized {
    /// What a split hands out.
    type Spare;

    /// The elements of the array, in order.
    spec fn elements(&self) -> Seq<T>;

    /// The array as seen through a split: the elements it held when it was
    /// split, followed by what has been written since.
    spec fn seen(spare: &Self::Spare) -> Seq<T>;

    /// The number of items that can still be written through a split.
    spec fn room(spare: &Self::Spare) -> nat;

    /// The array that a split was taken from.
    spec fn origin(spare: &Self::Spare) -> &'s mut Self;

    /// Splits the array at its length, as it is. Nothing is reserved, so the
    /// cursor may have no free slot at all.
    fn split_spare(&'s mut self) -> (spare: Self::Spare)
        ensures
            Self::seen(&spare) == old(self).elements(),
            *final(Self::origin(&spare)) == *final(self),
    ;

    /// Reserves room for `additional` more elements, then splits. The cursor
    /// has at least `additional` free slots.
    fn reserve_split_spare(&'s mut self, additional: usize) -> (spare: Self::Spare)
        requires
            old(self).elements().len() + additional <= usize::MAX,
        ensures
            Self::seen(&spare) == old(self).elements(),
            Self::room(&spare) >= additional,
            *final(Self::origin(&spare)) == *final(self),
    ;
}

} // verus!
