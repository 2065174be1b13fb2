//! Deferring the update of a length word to the end of a batch of writes.

use vstd::prelude::*;

verus! {

/// A running count beside a length word.
///
/// While a batch is written the count lives here, apart from the array's
/// header, and the length word keeps the value it had. [`commit`] writes the
/// count back, once. Whoever holds the guard commits it on every way out of
/// the batch, so that the length never counts a slot that was not written and
/// never misses one that was.
///
/// [`commit`]: SetLenOnDrop::commit
pub struct SetLenOnDrop<'a> {
    len: &'a mut usize,
    local_len: usize,
}

impl<'a> SetLenOnDrop<'a> {
    /// The length word that the guard will write to.
    pub closed spec fn target(&self) -> &'a mut usize {
        self.len
    }

    /// The running count.
    pub closed spec fn local_len(&self) -> nat {
        self.local_len as nat
    }

    /// A guard that is given up without a commit leaves the length word as
    /// it was.
    pub proof fn lemma_resolved(self)
        requires
            has_resolved(self),
        ensures
            *final(self.target()) == *self.target(),
    {
    }

    /// Starts a batch: the count begins at the value of the length word.
    pub fn new(len: &'a mut usize) -> (guard: Self)
        ensures
            guard.local_len() == *old(len),
            *guard.target() == *old(len),
            *final(guard.target()) == *final(len),
    {
        SetLenOnDrop { local_len: *len, len }
    }

    /// Adds `increment` to the count. The length word is not touched.
    pub fn increment_len(&mut self, increment: usize)
        requires
            old(self).local_len() + increment <= usize::MAX,
        ensures
            final(self).local_len() == old(self).local_len() + increment,
            *final(self).target() == *old(self).target(),
            *final(final(self).target()) == *final(old(self).target()),
    {
        self.local_len += increment;
    }

    /// Ends the batch: the length word takes the count.
    pub fn commit(self)
        ensures
            *final(self.target()) == self.local_len(),
    {
        let SetLenOnDrop { len, local_len } = self;
        *len = local_len;
    }
}

} // verus!
