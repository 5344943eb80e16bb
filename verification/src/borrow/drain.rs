//! The draining iterator of a borrow: yields a removed index range from
//! either end, then compacts the surviving tail back onto the prefix.

use vstd::prelude::*;

use crate::borrow::ReusableMemoryBorrow;

verus! {

/// A draining iterator over a removed index range of a
/// [`ReusableMemoryBorrow`].
///
/// Created by [`ReusableMemoryBorrow::drain`], which immediately shrinks the
/// borrow's length to the start of the drained range.  The removed elements
/// can be consumed from the front with [`Self::next`] and from the back with
/// [`Self::next_back`].  Disposing of the iterator with [`Self::finish`]
/// drops whatever was never yielded and moves the surviving tail down so the
/// borrow is one contiguous live prefix again, order preserved on both sides
/// of the removal.
#[derive(Debug)]
pub struct BorrowDrainIter<T> {
    drained: Vec<T>,
    tail: Vec<T>,
}

impl<T> BorrowDrainIter<T> {
    /// The elements of the drained range that have not been yielded yet.
    pub closed spec fn remaining(&self) -> Seq<T> {
        self.drained@
    }

    /// The surviving tail of the borrow, beyond the drained range.
    pub closed spec fn tail(&self) -> Seq<T> {
        self.tail@
    }

    pub(crate) fn new(drained: Vec<T>, tail: Vec<T>) -> (r: Self)
        ensures
            r.remaining() == drained@,
            r.tail() == tail@,
    {
        BorrowDrainIter { drained, tail }
    }

    /// Number of drained elements still to be yielded.
    pub fn size(&self) -> (r: usize)
        ensures
            r == self.remaining().len(),
    {
        self.drained.len()
    }

    /// Reads and moves out the element at the front of the remaining range;
    /// yields `None` once the range is empty.
    pub fn next(&mut self) -> (r: Option<T>)
        ensures
            final(self).tail() == old(self).tail(),
            old(self).remaining().len() == 0 ==> r is None && final(self).remaining() == old(self).remaining(),
            old(self).remaining().len() > 0 ==> r == Some(old(self).remaining()[0]) && final(self).remaining() == old(self).remaining().skip(1),
    {
        if self.drained.len() == 0 {
            return None;
        }
        let v = self.drained.remove(0);
        proof {
            assert(old(self).remaining().remove(0) =~= old(self).remaining().skip(1));
        }
        Some(v)
    }

    /// Reads and moves out the element at the back of the remaining range;
    /// yields `None` once the range is empty.
    pub fn next_back(&mut self) -> (r: Option<T>)
        ensures
            final(self).tail() == old(self).tail(),
            old(self).remaining().len() == 0 ==> r is None && final(self).remaining() == old(self).remaining(),
            old(self).remaining().len() > 0 ==> r == Some(old(self).remaining().last()) && final(self).remaining() == old(self).remaining().drop_last(),
    {
        self.drained.pop()
    }

    /// Disposes of the iterator: drops the drained elements that were never
    /// yielded, then moves the surviving tail back onto the end of the
    /// borrow, restoring one contiguous live prefix.
    pub fn finish(self, borrow: &mut ReusableMemoryBorrow<'_, T>)
        requires
            old(borrow).wf(),
            old(borrow)@.len() + self.tail().len() <= old(borrow).spec_capacity(),
        ensures
            final(borrow).wf(),
            final(borrow).spec_capacity() == old(borrow).spec_capacity(),
            final(borrow)@ == old(borrow)@ + self.tail(),
    {
        let mut it = self;
        borrow.append_tail(&mut it.tail);
    }
}

} // verus!
