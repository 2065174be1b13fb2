//! Locating the length word of an array header.
//!
//! The header of a growable array is three machine words: a data pointer, a
//! length and a capacity, in an order that nothing promises. Which of the
//! three is the length can be read off a header that was captured while the
//! length, and nothing else, was forced to a known value.

use vstd::prelude::*;

verus! {

/// The index, among the three words of an array header, of the word that
/// holds the length.
#[derive(Clone, Copy, Debug)]
pub struct LengthOffset {
    index: usize,
}

impl View for LengthOffset {
    type V = int;

    closed spec fn view(&self) -> int {
        self.index as int
    }
}

impl LengthOffset {
    #[verifier::type_invariant]
    spec fn in_header(&self) -> bool {
        self.index < 3
    }

    /// The word index: 0, 1 or 2.
    pub fn index(&self) -> (index: usize)
        ensures
            index == self@,
            index < 3,
    {
        proof {
            use_type_invariant(self);
        }
        self.index
    }
}

/// Exactly one of three marks is set, and it is mark `i`.
pub open spec fn sole_mark(marks: (bool, bool, bool), i: int) -> bool {
    ||| i == 0 && marks.0 && !marks.1 && !marks.2
    ||| i == 1 && !marks.0 && marks.1 && !marks.2
    ||| i == 2 && !marks.0 && !marks.1 && marks.2
}

/// Word `i` is the one word in which the two headers differ.
pub open spec fn sole_change(before: Seq<usize>, after: Seq<usize>, i: int) -> bool {
    sole_mark((before[0] != after[0], before[1] != after[1], before[2] != after[2]), i)
}

/// Word `i` is the one word of the header that is zero.
pub open spec fn sole_zero(words: Seq<usize>, i: int) -> bool {
    sole_mark((words[0] == 0, words[1] == 0, words[2] == 0), i)
}

/// Picks the one mark that is set, if exactly one is.
fn locate_mark(first: bool, second: bool, third: bool) -> (found: Option<LengthOffset>)
    ensures
        found matches Some(offset) ==> sole_mark((first, second, third), offset@),
        found is None ==> forall|i: int| !sole_mark((first, second, third), i),
{
    match (first, second, third) {
        (true, false, false) => Some(LengthOffset { index: 0 }),
        (false, true, false) => Some(LengthOffset { index: 1 }),
        (false, false, true) => Some(LengthOffset { index: 2 }),
        _ => None,
    }
}

/// Locates the length word of an array of zero-size elements.
///
/// `before` and `after` are the header of one array, captured before and after
/// its length alone was forced to another value. The length is the one word
/// that changed. Headers that differ in no word, or in more than one, do not
/// have the shape this rests on, and no offset is returned for them.
pub fn locate_changed_word(before: &[usize; 3], after: &[usize; 3]) -> (found: Option<
    LengthOffset,
>)
    ensures
        found matches Some(offset) ==> sole_change(before@, after@, offset@),
        found is None ==> forall|i: int| !sole_change(before@, after@, i),
{
    locate_mark(before[0] != after[0], before[1] != after[1], before[2] != after[2])
}

/// Locates the length word of an array whose elements have a size.
///
/// `words` is the header captured while the length was forced to zero, after
/// room for at least one element had been reserved, so that the pointer and
/// the capacity are both non-zero. The length is the one word that is zero.
/// A header with no zero word, or with more than one, does not have the shape
/// this rests on, and no offset is returned for it.
pub fn locate_zero_word(words: &[usize; 3]) -> (found: Option<LengthOffset>)
    ensures
        found matches Some(offset) ==> sole_zero(words@, offset@),
        found is None ==> forall|i: int| !sole_zero(words@, i),
{
    locate_mark(words[0] == 0, words[1] == 0, words[2] == 0)
}

} // verus!
