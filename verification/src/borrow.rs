//! Borrows of the reusable memory: fixed-capacity, bounds-checked mutable
//! sequences handed out by [`crate::ReusableMemory`].

use core::marker::PhantomData;

use vstd::prelude::*;

use crate::borrow::drain::BorrowDrainIter;

pub mod drain;

verus! {

/// Error returned by the push operations of a borrow.
#[derive(Debug, Copy, Clone, PartialEq, Eq, Structural)]
pub enum ReusableMemoryBorrowError {
    /// There was not enough capacity to push another element; carries the
    /// borrow's fixed capacity.
    NotEnoughCapacity(usize),
}

/// Borrow of the reusable memory.
///
/// A borrow is a temporary, exclusively-owned mutable sequence of `T` with a
/// fixed positive capacity.  Its length counts the live elements; pushing
/// beyond the capacity is refused, never reallocated.  When the borrow goes
/// out of scope its remaining live elements are destroyed.
#[derive(Debug)]
pub struct ReusableMemoryBorrow<'mem, T> {
    elements: Vec<T>,
    capacity: usize,
    // The borrow stands for an exclusive window into the arena's storage.
    boo: PhantomData<&'mem mut [T]>,
}

impl<'mem, T> View for ReusableMemoryBorrow<'mem, T> {
    type V = Seq<T>;

    closed spec fn view(&self) -> Seq<T> {
        self.elements@
    }
}

impl<'mem, T> ReusableMemoryBorrow<'mem, T> {
    /// Number of `T`s that can be stored; fixed when the borrow is created.
    pub closed spec fn spec_capacity(&self) -> usize {
        self.capacity
    }

    /// A well-formed borrow: a positive capacity bounds the live length.
    pub open spec fn wf(&self) -> bool {
        self@.len() <= self.spec_capacity() && self.spec_capacity() >= 1
    }

    pub(crate) fn new(capacity: usize) -> (r: Self)
        requires
            capacity >= 1,
        ensures
            r.wf(),
            r@ == Seq::<T>::empty(),
            r.spec_capacity() == capacity,
    {
        ReusableMemoryBorrow { elements: Vec::with_capacity(capacity), capacity, boo: PhantomData }
    }

    /// Returns the number of `T`s currently stored.
    pub fn len(&self) -> (r: usize)
        ensures
            r == self@.len(),
    {
        self.elements.len()
    }

    /// Returns the number of `T`s that can be stored.
    pub fn capacity(&self) -> (r: usize)
        ensures
            r == self.spec_capacity(),
    {
        self.capacity
    }

    /// Returns a slice view of the live elements.
    pub fn as_slice(&self) -> (r: &[T])
        ensures
            r@ == self@,
    {
        self.elements.as_slice()
    }

    /// Returns a mutable slice view of the live elements.
    pub fn as_mut_slice(&mut self) -> (r: &mut [T])
        ensures
            r@ == old(self)@,
            final(r)@ == final(self)@,
            final(self).spec_capacity() == old(self).spec_capacity(),
    {
        self.elements.as_mut_slice()
    }

    /// Drops all pushed values and sets the length to 0.
    pub fn clear(&mut self)
        ensures
            final(self)@ == Seq::<T>::empty(),
            final(self).spec_capacity() == old(self).spec_capacity(),
            old(self).wf() ==> final(self).wf(),
    {
        self.elements.clear();
    }

    /// Pushes a new value.
    ///
    /// Fails with `NotEnoughCapacity` and leaves the borrow unchanged when
    /// the capacity is already fully used.
    pub fn push(&mut self, value: T) -> (r: Result<(), ReusableMemoryBorrowError>)
        requires
            old(self).wf(),
        ensures
            final(self).wf(),
            final(self).spec_capacity() == old(self).spec_capacity(),
            old(self)@.len() < old(self).spec_capacity() ==> r == Ok::<
                (),
                ReusableMemoryBorrowError,
            >(()) && final(self)@ == old(self)@.push(value),
            old(self)@.len() == old(self).spec_capacity() ==> r == Err::<
                (),
                ReusableMemoryBorrowError,
            >(ReusableMemoryBorrowError::NotEnoughCapacity(old(self).spec_capacity()))
                && final(self)@ == old(self)@,
    {
        if self.elements.len() == self.capacity {
            return Err(ReusableMemoryBorrowError::NotEnoughCapacity(self.capacity));
        }
        self.elements.push(value);
        Ok(())
    }

    /// Pops from the end.
    ///
    /// Returns `None` if the borrow is empty.
    pub fn pop(&mut self) -> (r: Option<T>)
        ensures
            final(self).spec_capacity() == old(self).spec_capacity(),
            old(self).wf() ==> final(self).wf(),
            old(self)@.len() == 0 ==> r is None && final(self)@ == old(self)@,
            old(self)@.len() > 0 ==> r == Some(old(self)@.last()) && final(self)@ == old(self)@.drop_last(),
    {
        self.elements.pop()
    }

    /// Pushes all the given values at once, in order.
    ///
    /// Atomic: when the values do not fit into the remaining capacity,
    /// nothing is pushed and the untouched values are handed back.
    pub fn push_from_exact_iter(&mut self, values: Vec<T>) -> (r: Result<(), Vec<T>>)
        requires
            old(self).wf(),
        ensures
            final(self).wf(),
            final(self).spec_capacity() == old(self).spec_capacity(),
            old(self)@.len() + values@.len() <= old(self).spec_capacity() ==> r is Ok && final(self)@ == old(self)@ + values@,
            old(self)@.len() + values@.len() > old(self).spec_capacity() ==> {
                &&& final(self)@ == old(self)@
                &&& r matches Err(rest) && rest@ == values@
            },
    {
        let mut vals = values;
        if vals.len() > self.capacity - self.elements.len() {
            return Err(vals);
        }
        self.elements.append(&mut vals);
        Ok(())
    }

    /// Pushes the given values in order while capacity remains.
    ///
    /// When the capacity is reached first, hands back the values not yet
    /// pushed as the error.  Note that the handed-back vector may be empty,
    /// when the values ran out exactly as the capacity was reached; use
    /// [`Self::push_from_iter_peeking`] to report success in that case.
    pub fn push_from_iter(&mut self, values: Vec<T>) -> (r: Result<(), Vec<T>>)
        requires
            old(self).wf(),
        ensures
            final(self).wf(),
            final(self).spec_capacity() == old(self).spec_capacity(),
            values@.len() < old(self).spec_capacity() - old(self)@.len() ==> r is Ok && final(self)@ == old(self)@ + values@,
            values@.len() >= old(self).spec_capacity() - old(self)@.len() ==> {
                &&& final(self)@ == old(self)@ + values@.take(
                    old(self).spec_capacity() - old(self)@.len(),
                )
                &&& r matches Err(rest) && rest@ == values@.skip(
                    old(self).spec_capacity() - old(self)@.len(),
                )
            },
    {
        let ghost start = self@;
        let ghost all = values@;
        let mut vals = values;
        while self.elements.len() < self.capacity
            invariant
                self.wf(),
                self.spec_capacity() == old(self).spec_capacity(),
                start == old(self)@,
                all == values@,
                start.len() <= self@.len(),
                self@.len() - start.len() <= all.len(),
                self@ == start + all.take(self@.len() - start.len()),
                vals@ == all.skip(self@.len() - start.len()),
            decreases self.spec_capacity() - self@.len(),
        {
            let ghost k = self@.len() - start.len();
            if vals.len() == 0 {
                proof {
                    assert(k == all.len());
                    assert(all.take(k as int) =~= all);
                }
                return Ok(());
            }
            let v = vals.remove(0);
            proof {
                assert(v == all[k as int]);
                assert(all.skip(k as int).remove(0) =~= all.skip(k + 1 as int));
                assert(all.take(k + 1 as int) =~= all.take(k as int).push(v));
            }
            self.elements.push(v);
        }
        Err(vals)
    }

    /// Pushes the given values in order while capacity remains, and reports
    /// success when the values were exhausted, even if that happened exactly
    /// as the capacity was reached.
    ///
    /// Hands back the values not yet pushed only when at least one remains.
    pub fn push_from_iter_peeking(&mut self, values: Vec<T>) -> (r: Result<(), Vec<T>>)
        requires
            old(self).wf(),
        ensures
            final(self).wf(),
            final(self).spec_capacity() == old(self).spec_capacity(),
            values@.len() <= old(self).spec_capacity() - old(self)@.len() ==> r is Ok && final(self)@ == old(self)@ + values@,
            values@.len() > old(self).spec_capacity() - old(self)@.len() ==> {
                &&& final(self)@ == old(self)@ + values@.take(
                    old(self).spec_capacity() - old(self)@.len(),
                )
                &&& r matches Err(rest) && rest@ == values@.skip(
                    old(self).spec_capacity() - old(self)@.len(),
                )
            },
    {
        let ghost all = values@;
        let ghost room = old(self).spec_capacity() - old(self)@.len();
        match self.push_from_iter(values) {
            Ok(()) => Ok(()),
            Err(rest) => {
                if rest.len() == 0 {
                    proof {
                        assert(all.take(room) =~= all);
                    }
                    Ok(())
                } else {
                    Err(rest)
                }
            },
        }
    }

    /// Creates a draining iterator that removes the `start .. end` index
    /// range of the borrow and yields the removed elements.
    ///
    /// The borrow's length immediately shrinks to `start`, so the surviving
    /// tail cannot be touched while the iterator is alive; disposing of the
    /// iterator with [`BorrowDrainIter::finish`] moves the tail back so that
    /// it is contiguous with the surviving prefix.
    pub fn drain(&mut self, start: usize, end: usize) -> (r: BorrowDrainIter<T>)
        requires
            old(self).wf(),
            start <= end,
            end <= old(self)@.len(),
        ensures
            final(self).wf(),
            final(self).spec_capacity() == old(self).spec_capacity(),
            final(self)@ == old(self)@.take(start as int),
            r.remaining() == old(self)@.subrange(start as int, end as int),
            r.tail() == old(self)@.skip(end as int),
    {
        let tail = self.elements.split_off(end);
        let drained = self.elements.split_off(start);
        BorrowDrainIter::new(drained, tail)
    }

    /// The tail-compaction law of a drain: removing the index range
    /// `start .. end` from a sequence — keeping the prefix and moving the
    /// tail down to be contiguous with it — keeps every surviving element,
    /// in its original relative order, on both sides of the removal.
    pub proof fn lemma_drain_compaction(s: Seq<T>, start: int, end: int)
        requires
            0 <= start <= end <= s.len(),
        ensures
            (s.take(start) + s.skip(end)).len() == s.len() - (end - start),
            forall|i: int| 0 <= i < start ==> (s.take(start) + s.skip(end))[i] == s[i],
            forall|i: int|
                start <= i < s.len() - (end - start) ==> (s.take(start) + s.skip(end))[i] == s[i
                    + (end - start)],
    {
    }

    pub(crate) fn append_tail(&mut self, tail: &mut Vec<T>)
        requires
            old(self).wf(),
            old(self)@.len() + old(tail)@.len() <= old(self).spec_capacity(),
        ensures
            final(self).wf(),
            final(self).spec_capacity() == old(self).spec_capacity(),
            final(self)@ == old(self)@ + old(tail)@,
    {
        self.elements.append(tail);
    }
}

} // verus!
