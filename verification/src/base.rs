//! The arena: owns one growable buffer of base units and hands out typed,
//! properly-aligned, capacity-bounded borrows of it.

use vstd::prelude::*;

use crate::borrow::ReusableMemoryBorrow;
use crate::layout;

verus! {

/// Error returned when constructing the arena or requesting a borrow.
#[derive(Debug, Copy, Clone, PartialEq, Eq, Structural)]
pub enum ReusableMemoryError {
    /// The base unit type has no size, so it carries no layout information.
    ZeroSizedB,
    /// The borrowed element type has no size, so it carries no layout
    /// information.
    ZeroSizedT,
}

/// Base units needed for `count` elements of `T` inside a buffer of `B`s.
pub open spec fn spec_units_for<T, B>(count: int) -> int {
    layout::spec_needed_units(
        vstd::layout::size_of::<T>() as int,
        vstd::layout::align_of::<T>() as int,
        vstd::layout::size_of::<B>() as int,
        vstd::layout::align_of::<B>() as int,
        count,
    )
}

/// The request's byte arithmetic stays within `usize` — a machine limit,
/// not a rule of the layout.
pub open spec fn spec_request_fits<T, B>(count: int) -> bool {
    layout::spec_needed_bytes(
        vstd::layout::size_of::<T>() as int,
        vstd::layout::align_of::<T>() as int,
        vstd::layout::align_of::<B>() as int,
        count,
    ) + vstd::layout::size_of::<B>() as int - 1 <= usize::MAX as int
}

/// The region descriptor a multi-region borrow builds for element type `T`.
pub open spec fn spec_desc_for<T>(count: usize) -> layout::RegionDesc {
    layout::RegionDesc {
        size: vstd::layout::size_of::<T>() as usize,
        align: vstd::layout::align_of::<T>() as usize,
        count,
    }
}

/// Base units needed for a packed multi-region reservation in a buffer of
/// `B`s.
pub open spec fn spec_regions_units_for<B>(descs: Seq<layout::RegionDesc>) -> int {
    layout::spec_regions_units(
        descs,
        vstd::layout::size_of::<B>() as int,
        vstd::layout::align_of::<B>() as int,
    )
}

/// The packed reservation's byte arithmetic stays within `usize`.
pub open spec fn spec_regions_request_fits<B>(descs: Seq<layout::RegionDesc>) -> bool {
    layout::spec_regions_end(descs) + layout::spec_align_bump(
        descs[0].align as int,
        vstd::layout::align_of::<B>() as int,
    ) + vstd::layout::size_of::<B>() as int - 1 <= usize::MAX as int
}

/// The two descriptors of a two-region borrow.
pub open spec fn spec_two_descs<T, U>(capacity: [usize; 2]) -> Seq<layout::RegionDesc> {
    seq![spec_desc_for::<T>(capacity[0]), spec_desc_for::<U>(capacity[1])]
}

/// The three descriptors of a three-region borrow.
pub open spec fn spec_three_descs<T, U, V>(capacity: [usize; 3]) -> Seq<layout::RegionDesc> {
    seq![
        spec_desc_for::<T>(capacity[0]),
        spec_desc_for::<U>(capacity[1]),
        spec_desc_for::<V>(capacity[2]),
    ]
}

/// The four descriptors of a four-region borrow.
pub open spec fn spec_four_descs<T, U, V, W>(capacity: [usize; 4]) -> Seq<layout::RegionDesc> {
    seq![
        spec_desc_for::<T>(capacity[0]),
        spec_desc_for::<U>(capacity[1]),
        spec_desc_for::<V>(capacity[2]),
        spec_desc_for::<W>(capacity[3]),
    ]
}

/// The five descriptors of a five-region borrow.
pub open spec fn spec_five_descs<T, U, V, W, X>(capacity: [usize; 5]) -> Seq<layout::RegionDesc> {
    seq![
        spec_desc_for::<T>(capacity[0]),
        spec_desc_for::<U>(capacity[1]),
        spec_desc_for::<V>(capacity[2]),
        spec_desc_for::<W>(capacity[3]),
        spec_desc_for::<X>(capacity[4]),
    ]
}

/// The alignment law of a borrow: for every element type `T`, every base
/// unit type `B` and every capacity, a reservation of
/// `spec_units_for::<T, B>` base units, starting at any base-aligned
/// address, contains an address that is properly aligned for `T` and is
/// followed by room for all `count` elements.  So the start of a borrow
/// always satisfies `address % align_of::<T>() == 0`, and the alignment
/// resolution can never fail.
pub proof fn lemma_borrow_start_aligned<T, B>(addr: int, count: int)
    requires
        addr >= 0,
        count >= 0,
        vstd::layout::size_of::<B>() > 0,
        vstd::arithmetic::power2::is_pow2(vstd::layout::align_of::<T>() as int),
        vstd::arithmetic::power2::is_pow2(vstd::layout::align_of::<B>() as int),
        layout::aligned(addr, vstd::layout::align_of::<B>() as int),
    ensures
        layout::aligned(
            addr + layout::spec_align_pad(addr, vstd::layout::align_of::<T>() as int),
            vstd::layout::align_of::<T>() as int,
        ),
        layout::spec_align_pad(addr, vstd::layout::align_of::<T>() as int)
            + vstd::layout::size_of::<T>() * count <= spec_units_for::<T, B>(count)
            * vstd::layout::size_of::<B>(),
{
    layout::lemma_aligned_start_fits(
        addr,
        vstd::layout::size_of::<T>() as int,
        vstd::layout::align_of::<T>() as int,
        vstd::layout::size_of::<B>() as int,
        vstd::layout::align_of::<B>() as int,
        count,
    );
}

/// Reusable memory arena.
///
/// Keeps previously reserved base storage of unit type `B` and can hand it
/// out again, on demand, as a differently-typed borrow.  The reserved
/// storage only ever grows; a borrow never outgrows what was reserved for
/// it.  `B` controls the alignment and granularity of the base storage and
/// must not be zero-sized; the constructors refuse a zero-sized `B`.
#[derive(Debug, Clone)]
pub struct ReusableMemory<B = u8> {
    vec: Vec<B>,
    reserved: usize,
}

impl<B> ReusableMemory<B> {
    /// The arena carries real storage: its base unit type has a size.
    pub open spec fn wf(&self) -> bool {
        vstd::layout::size_of::<B>() != 0
    }

    /// High-water mark of base units reserved so far; grows, never shrinks.
    pub closed spec fn spec_reserved(&self) -> usize {
        self.reserved
    }

    /// Creates a new, empty arena.
    ///
    /// Fails with `ZeroSizedB` when the base unit type has no size.
    pub fn new() -> (r: Result<Self, ReusableMemoryError>)
        ensures
            vstd::layout::size_of::<B>() == 0 <==> r is Err,
            r matches Err(e) ==> e == ReusableMemoryError::ZeroSizedB,
            r matches Ok(m) ==> m.wf() && m.spec_reserved() == 0,
    {
        Self::with_capacity(0)
    }

    /// Creates a new arena whose buffer starts out with room for `len` base
    /// units.
    ///
    /// Fails with `ZeroSizedB` when the base unit type has no size.
    pub fn with_capacity(len: usize) -> (r: Result<Self, ReusableMemoryError>)
        ensures
            vstd::layout::size_of::<B>() == 0 <==> r is Err,
            r matches Err(e) ==> e == ReusableMemoryError::ZeroSizedB,
            r matches Ok(m) ==> m.wf() && m.spec_reserved() == len,
    {
        if core::mem::size_of::<B>() == 0 {
            return Err(ReusableMemoryError::ZeroSizedB);
        }
        Ok(ReusableMemory { vec: Vec::with_capacity(len), reserved: len })
    }

    /// How many base units must be reserved so that `count` elements of
    /// `T`, properly aligned, fit inside — counted in the capacity of `B`.
    ///
    /// Fails with `ZeroSizedT` when `T` has no size.
    pub fn needed_capacity_for<T>(&self, count: usize) -> (r: Result<usize, ReusableMemoryError>)
        requires
            self.wf(),
            count >= 1,
            spec_request_fits::<T, B>(count as int),
        ensures
            vstd::layout::size_of::<T>() == 0 <==> r is Err,
            r matches Err(e) ==> e == ReusableMemoryError::ZeroSizedT,
            r matches Ok(units) ==> units == spec_units_for::<T, B>(count as int),
    {
        if core::mem::size_of::<T>() == 0 {
            return Err(ReusableMemoryError::ZeroSizedT);
        }
        vstd::layout::layout_for_type_is_valid::<T>();
        vstd::layout::layout_for_type_is_valid::<B>();
        let units = layout::needed_units(
            core::mem::size_of::<T>(),
            core::mem::align_of::<T>(),
            core::mem::size_of::<B>(),
            core::mem::align_of::<B>(),
            count,
        );
        Ok(units)
    }

    /// Borrows the reusable memory as a different type.
    ///
    /// Grows the reserved base storage so that `capacity` elements of `T`
    /// fit at a properly aligned address — `layout::lemma_aligned_start_fits`
    /// shows a valid alignment point always exists inside the reservation —
    /// and returns an empty borrow with exactly the requested capacity.
    ///
    /// Fails with `ZeroSizedT` when `T` has no size.
    pub fn borrow_mut_as<'mem, T>(&'mem mut self, capacity: usize) -> (r: Result<
        ReusableMemoryBorrow<'mem, T>,
        ReusableMemoryError,
    >)
        requires
            old(self).wf(),
            capacity >= 1,
            spec_request_fits::<T, B>(capacity as int),
        ensures
            final(self).wf(),
            final(self).spec_reserved() >= old(self).spec_reserved(),
            vstd::layout::size_of::<T>() == 0 <==> r is Err,
            r matches Err(e) ==> e == ReusableMemoryError::ZeroSizedT && *final(self) == *old(self),
            r matches Ok(b) ==> {
                &&& b.wf()
                &&& b@ == Seq::<T>::empty()
                &&& b.spec_capacity() == capacity
                &&& final(self).spec_reserved() >= spec_units_for::<T, B>(capacity as int)
            },
    {
        let units = match self.needed_capacity_for::<T>(capacity) {
            Ok(u) => u,
            Err(e) => {
                return Err(e);
            },
        };
        self.vec.reserve(units);
        if units > self.reserved {
            self.reserved = units;
        }
        Ok(ReusableMemoryBorrow::new(capacity))
    }

    /// Base units needed for a packed reservation of several regions, one
    /// per descriptor, in listed order — the generalization of the
    /// fixed-arity queries to any number of regions.
    ///
    /// The caller lists the descriptors in non-increasing alignment order;
    /// alignment slack is computed once, against the first — and therefore
    /// strictest — alignment.
    pub fn needed_capacity_for_regions(&self, descs: &Vec<layout::RegionDesc>) -> (r: usize)
        requires
            self.wf(),
            descs@.len() > 0,
            layout::wf_regions(descs@),
            spec_regions_request_fits::<B>(descs@),
        ensures
            r == spec_regions_units_for::<B>(descs@),
    {
        vstd::layout::layout_for_type_is_valid::<B>();
        let plan = layout::plan_regions(
            descs,
            core::mem::size_of::<B>(),
            core::mem::align_of::<B>(),
        );
        plan.1
    }

    /// Base units needed to pack a region of `T`s and a region of `U`s,
    /// with the given capacities, into one reservation.
    ///
    /// The type parameters must be listed in non-increasing alignment
    /// order.  Fails with `ZeroSizedT` when either type has no size.
    pub fn needed_capacity_for_two<T, U>(&self, capacity: [usize; 2]) -> (r: Result<
        usize,
        ReusableMemoryError,
    >)
        requires
            self.wf(),
            capacity[0] >= 1,
            capacity[1] >= 1,
            vstd::layout::align_of::<U>() <= vstd::layout::align_of::<T>(),
            spec_regions_request_fits::<B>(spec_two_descs::<T, U>(capacity)),
        ensures
            (vstd::layout::size_of::<T>() == 0 || vstd::layout::size_of::<U>() == 0) <==> r is Err,
            r matches Err(e) ==> e == ReusableMemoryError::ZeroSizedT,
            r matches Ok(units) ==> units == spec_regions_units_for::<B>(
                spec_two_descs::<T, U>(capacity),
            ),
    {
        let descs = match Self::two_descs::<T, U>(capacity) {
            Ok(d) => d,
            Err(e) => {
                return Err(e);
            },
        };
        Ok(self.needed_capacity_for_regions(&descs))
    }

    /// Base units needed to pack a region of `T`s, a region of `U`s and a
    /// region of `V`s, with the given capacities, into one reservation.
    ///
    /// The type parameters must be listed in non-increasing alignment
    /// order.  Fails with `ZeroSizedT` when any of the types has no size.
    pub fn needed_capacity_for_three<T, U, V>(&self, capacity: [usize; 3]) -> (r: Result<
        usize,
        ReusableMemoryError,
    >)
        requires
            self.wf(),
            capacity[0] >= 1,
            capacity[1] >= 1,
            capacity[2] >= 1,
            vstd::layout::align_of::<V>() <= vstd::layout::align_of::<U>(),
            vstd::layout::align_of::<U>() <= vstd::layout::align_of::<T>(),
            spec_regions_request_fits::<B>(spec_three_descs::<T, U, V>(capacity)),
        ensures
            (vstd::layout::size_of::<T>() == 0 || vstd::layout::size_of::<U>() == 0
                || vstd::layout::size_of::<V>() == 0) <==> r is Err,
            r matches Err(e) ==> e == ReusableMemoryError::ZeroSizedT,
            r matches Ok(units) ==> units == spec_regions_units_for::<B>(
                spec_three_descs::<T, U, V>(capacity),
            ),
    {
        let descs = match Self::three_descs::<T, U, V>(capacity) {
            Ok(d) => d,
            Err(e) => {
                return Err(e);
            },
        };
        Ok(self.needed_capacity_for_regions(&descs))
    }

    /// Borrows the reusable memory as two independently-typed regions
    /// packed into one reservation.
    ///
    /// Grows the reserved base storage so that both regions fit, properly
    /// aligned and disjoint — `layout::lemma_regions_disjoint` and
    /// `layout::lemma_region_start_aligned` show the packed offsets never
    /// overlap and respect each region's alignment — and returns one empty
    /// borrow per region, each with exactly its requested capacity.
    ///
    /// The type parameters must be listed in non-increasing alignment
    /// order.  Fails with `ZeroSizedT` when either type has no size.
    pub fn borrow_mut_two_as<'mem, T, U>(&'mem mut self, capacity: [usize; 2]) -> (r: Result<
        (ReusableMemoryBorrow<'mem, T>, ReusableMemoryBorrow<'mem, U>),
        ReusableMemoryError,
    >)
        requires
            old(self).wf(),
            capacity[0] >= 1,
            capacity[1] >= 1,
            vstd::layout::align_of::<U>() <= vstd::layout::align_of::<T>(),
            spec_regions_request_fits::<B>(spec_two_descs::<T, U>(capacity)),
        ensures
            final(self).wf(),
            final(self).spec_reserved() >= old(self).spec_reserved(),
            (vstd::layout::size_of::<T>() == 0 || vstd::layout::size_of::<U>() == 0) <==> r is Err,
            r matches Err(e) ==> e == ReusableMemoryError::ZeroSizedT && *final(self) == *old(self),
            r matches Ok(bs) ==> {
                &&& bs.0.wf()
                &&& bs.0@ == Seq::<T>::empty()
                &&& bs.0.spec_capacity() == capacity[0]
                &&& bs.1.wf()
                &&& bs.1@ == Seq::<U>::empty()
                &&& bs.1.spec_capacity() == capacity[1]
                &&& final(self).spec_reserved() >= spec_regions_units_for::<B>(
                    spec_two_descs::<T, U>(capacity),
                )
            },
    {
        let descs = match Self::two_descs::<T, U>(capacity) {
            Ok(d) => d,
            Err(e) => {
                return Err(e);
            },
        };
        let units = self.needed_capacity_for_regions(&descs);
        self.vec.reserve(units);
        if units > self.reserved {
            self.reserved = units;
        }
        Ok((ReusableMemoryBorrow::new(capacity[0]), ReusableMemoryBorrow::new(capacity[1])))
    }

    /// Borrows the reusable memory as three independently-typed regions
    /// packed into one reservation.
    ///
    /// As [`Self::borrow_mut_two_as`], for three regions.
    pub fn borrow_mut_three_as<'mem, T, U, V>(&'mem mut self, capacity: [usize; 3]) -> (r: Result<
        (ReusableMemoryBorrow<'mem, T>, ReusableMemoryBorrow<'mem, U>, ReusableMemoryBorrow<'mem, V>),
        ReusableMemoryError,
    >)
        requires
            old(self).wf(),
            capacity[0] >= 1,
            capacity[1] >= 1,
            capacity[2] >= 1,
            vstd::layout::align_of::<V>() <= vstd::layout::align_of::<U>(),
            vstd::layout::align_of::<U>() <= vstd::layout::align_of::<T>(),
            spec_regions_request_fits::<B>(spec_three_descs::<T, U, V>(capacity)),
        ensures
            final(self).wf(),
            final(self).spec_reserved() >= old(self).spec_reserved(),
            (vstd::layout::size_of::<T>() == 0 || vstd::layout::size_of::<U>() == 0
                || vstd::layout::size_of::<V>() == 0) <==> r is Err,
            r matches Err(e) ==> e == ReusableMemoryError::ZeroSizedT && *final(self) == *old(self),
            r matches Ok(bs) ==> {
                &&& bs.0.wf()
                &&& bs.0@ == Seq::<T>::empty()
                &&& bs.0.spec_capacity() == capacity[0]
                &&& bs.1.wf()
                &&& bs.1@ == Seq::<U>::empty()
                &&& bs.1.spec_capacity() == capacity[1]
                &&& bs.2.wf()
                &&& bs.2@ == Seq::<V>::empty()
                &&& bs.2.spec_capacity() == capacity[2]
                &&& final(self).spec_reserved() >= spec_regions_units_for::<B>(
                    spec_three_descs::<T, U, V>(capacity),
                )
            },
    {
        let descs = match Self::three_descs::<T, U, V>(capacity) {
            Ok(d) => d,
            Err(e) => {
                return Err(e);
            },
        };
        let units = self.needed_capacity_for_regions(&descs);
        self.vec.reserve(units);
        if units > self.reserved {
            self.reserved = units;
        }
        Ok(
            (
                ReusableMemoryBorrow::new(capacity[0]),
                ReusableMemoryBorrow::new(capacity[1]),
                ReusableMemoryBorrow::new(capacity[2]),
            ),
        )
    }

    /// Base units needed to pack four typed regions, with the given
    /// capacities, into one reservation.
    ///
    /// The type parameters must be listed in non-increasing alignment
    /// order.  Fails with `ZeroSizedT` when any of the types has no size.
    pub fn needed_capacity_for_four<T, U, V, W>(&self, capacity: [usize; 4]) -> (r: Result<
        usize,
        ReusableMemoryError,
    >)
        requires
            self.wf(),
            capacity[0] >= 1,
            capacity[1] >= 1,
            capacity[2] >= 1,
            capacity[3] >= 1,
            vstd::layout::align_of::<W>() <= vstd::layout::align_of::<V>(),
            vstd::layout::align_of::<V>() <= vstd::layout::align_of::<U>(),
            vstd::layout::align_of::<U>() <= vstd::layout::align_of::<T>(),
            spec_regions_request_fits::<B>(spec_four_descs::<T, U, V, W>(capacity)),
        ensures
            (vstd::layout::size_of::<T>() == 0 || vstd::layout::size_of::<U>() == 0
                || vstd::layout::size_of::<V>() == 0 || vstd::layout::size_of::<W>() == 0) <==> r
                is Err,
            r matches Err(e) ==> e == ReusableMemoryError::ZeroSizedT,
            r matches Ok(units) ==> units == spec_regions_units_for::<B>(
                spec_four_descs::<T, U, V, W>(capacity),
            ),
    {
        let descs = match Self::four_descs::<T, U, V, W>(capacity) {
            Ok(d) => d,
            Err(e) => {
                return Err(e);
            },
        };
        Ok(self.needed_capacity_for_regions(&descs))
    }

    /// Base units needed to pack five typed regions, with the given
    /// capacities, into one reservation.
    ///
    /// The type parameters must be listed in non-increasing alignment
    /// order.  Fails with `ZeroSizedT` when any of the types has no size.
    pub fn needed_capacity_for_five<T, U, V, W, X>(&self, capacity: [usize; 5]) -> (r: Result<
        usize,
        ReusableMemoryError,
    >)
        requires
            self.wf(),
            capacity[0] >= 1,
            capacity[1] >= 1,
            capacity[2] >= 1,
            capacity[3] >= 1,
            capacity[4] >= 1,
            vstd::layout::align_of::<X>() <= vstd::layout::align_of::<W>(),
            vstd::layout::align_of::<W>() <= vstd::layout::align_of::<V>(),
            vstd::layout::align_of::<V>() <= vstd::layout::align_of::<U>(),
            vstd::layout::align_of::<U>() <= vstd::layout::align_of::<T>(),
            spec_regions_request_fits::<B>(spec_five_descs::<T, U, V, W, X>(capacity)),
        ensures
            (vstd::layout::size_of::<T>() == 0 || vstd::layout::size_of::<U>() == 0
                || vstd::layout::size_of::<V>() == 0 || vstd::layout::size_of::<W>() == 0
                || vstd::layout::size_of::<X>() == 0) <==> r is Err,
            r matches Err(e) ==> e == ReusableMemoryError::ZeroSizedT,
            r matches Ok(units) ==> units == spec_regions_units_for::<B>(
                spec_five_descs::<T, U, V, W, X>(capacity),
            ),
    {
        let descs = match Self::five_descs::<T, U, V, W, X>(capacity) {
            Ok(d) => d,
            Err(e) => {
                return Err(e);
            },
        };
        Ok(self.needed_capacity_for_regions(&descs))
    }

    /// Borrows the reusable memory as four independently-typed regions
    /// packed into one reservation.
    ///
    /// As [`Self::borrow_mut_two_as`], for four regions.
    pub fn borrow_mut_four_as<'mem, T, U, V, W>(&'mem mut self, capacity: [usize; 4]) -> (r: Result<
        (
            ReusableMemoryBorrow<'mem, T>,
            ReusableMemoryBorrow<'mem, U>,
            ReusableMemoryBorrow<'mem, V>,
            ReusableMemoryBorrow<'mem, W>,
        ),
        ReusableMemoryError,
    >)
        requires
            old(self).wf(),
            capacity[0] >= 1,
            capacity[1] >= 1,
            capacity[2] >= 1,
            capacity[3] >= 1,
            vstd::layout::align_of::<W>() <= vstd::layout::align_of::<V>(),
            vstd::layout::align_of::<V>() <= vstd::layout::align_of::<U>(),
            vstd::layout::align_of::<U>() <= vstd::layout::align_of::<T>(),
            spec_regions_request_fits::<B>(spec_four_descs::<T, U, V, W>(capacity)),
        ensures
            final(self).wf(),
            final(self).spec_reserved() >= old(self).spec_reserved(),
            (vstd::layout::size_of::<T>() == 0 || vstd::layout::size_of::<U>() == 0
                || vstd::layout::size_of::<V>() == 0 || vstd::layout::size_of::<W>() == 0) <==> r
                is Err,
            r matches Err(e) ==> e == ReusableMemoryError::ZeroSizedT && *final(self) == *old(self),
            r matches Ok(bs) ==> {
                &&& bs.0.wf() && bs.0@ == Seq::<T>::empty() && bs.0.spec_capacity() == capacity[0]
                &&& bs.1.wf() && bs.1@ == Seq::<U>::empty() && bs.1.spec_capacity() == capacity[1]
                &&& bs.2.wf() && bs.2@ == Seq::<V>::empty() && bs.2.spec_capacity() == capacity[2]
                &&& bs.3.wf() && bs.3@ == Seq::<W>::empty() && bs.3.spec_capacity() == capacity[3]
                &&& final(self).spec_reserved() >= spec_regions_units_for::<B>(
                    spec_four_descs::<T, U, V, W>(capacity),
                )
            },
    {
        let descs = match Self::four_descs::<T, U, V, W>(capacity) {
            Ok(d) => d,
            Err(e) => {
                return Err(e);
            },
        };
        let units = self.needed_capacity_for_regions(&descs);
        self.vec.reserve(units);
        if units > self.reserved {
            self.reserved = units;
        }
        Ok(
            (
                ReusableMemoryBorrow::new(capacity[0]),
                ReusableMemoryBorrow::new(capacity[1]),
                ReusableMemoryBorrow::new(capacity[2]),
                ReusableMemoryBorrow::new(capacity[3]),
            ),
        )
    }

    /// Borrows the reusable memory as five independently-typed regions
    /// packed into one reservation.
    ///
    /// As [`Self::borrow_mut_two_as`], for five regions.
    pub fn borrow_mut_five_as<'mem, T, U, V, W, X>(&'mem mut self, capacity: [usize; 5]) -> (r: Result<
        (
            ReusableMemoryBorrow<'mem, T>,
            ReusableMemoryBorrow<'mem, U>,
            ReusableMemoryBorrow<'mem, V>,
            ReusableMemoryBorrow<'mem, W>,
            ReusableMemoryBorrow<'mem, X>,
        ),
        ReusableMemoryError,
    >)
        requires
            old(self).wf(),
            capacity[0] >= 1,
            capacity[1] >= 1,
            capacity[2] >= 1,
            capacity[3] >= 1,
            capacity[4] >= 1,
            vstd::layout::align_of::<X>() <= vstd::layout::align_of::<W>(),
            vstd::layout::align_of::<W>() <= vstd::layout::align_of::<V>(),
            vstd::layout::align_of::<V>() <= vstd::layout::align_of::<U>(),
            vstd::layout::align_of::<U>() <= vstd::layout::align_of::<T>(),
            spec_regions_request_fits::<B>(spec_five_descs::<T, U, V, W, X>(capacity)),
        ensures
            final(self).wf(),
            final(self).spec_reserved() >= old(self).spec_reserved(),
            (vstd::layout::size_of::<T>() == 0 || vstd::layout::size_of::<U>() == 0
                || vstd::layout::size_of::<V>() == 0 || vstd::layout::size_of::<W>() == 0
                || vstd::layout::size_of::<X>() == 0) <==> r is Err,
            r matches Err(e) ==> e == ReusableMemoryError::ZeroSizedT && *final(self) == *old(self),
            r matches Ok(bs) ==> {
                &&& bs.0.wf() && bs.0@ == Seq::<T>::empty() && bs.0.spec_capacity() == capacity[0]
                &&& bs.1.wf() && bs.1@ == Seq::<U>::empty() && bs.1.spec_capacity() == capacity[1]
                &&& bs.2.wf() && bs.2@ == Seq::<V>::empty() && bs.2.spec_capacity() == capacity[2]
                &&& bs.3.wf() && bs.3@ == Seq::<W>::empty() && bs.3.spec_capacity() == capacity[3]
                &&& bs.4.wf() && bs.4@ == Seq::<X>::empty() && bs.4.spec_capacity() == capacity[4]
                &&& final(self).spec_reserved() >= spec_regions_units_for::<B>(
                    spec_five_descs::<T, U, V, W, X>(capacity),
                )
            },
    {
        let descs = match Self::five_descs::<T, U, V, W, X>(capacity) {
            Ok(d) => d,
            Err(e) => {
                return Err(e);
            },
        };
        let units = self.needed_capacity_for_regions(&descs);
        self.vec.reserve(units);
        if units > self.reserved {
            self.reserved = units;
        }
        Ok(
            (
                ReusableMemoryBorrow::new(capacity[0]),
                ReusableMemoryBorrow::new(capacity[1]),
                ReusableMemoryBorrow::new(capacity[2]),
                ReusableMemoryBorrow::new(capacity[3]),
                ReusableMemoryBorrow::new(capacity[4]),
            ),
        )
    }

    /// Builds the descriptor list of a two-region borrow, refusing
    /// zero-sized element types.
    fn two_descs<T, U>(capacity: [usize; 2]) -> (r: Result<
        Vec<layout::RegionDesc>,
        ReusableMemoryError,
    >)
        requires
            capacity[0] >= 1,
            capacity[1] >= 1,
        ensures
            (vstd::layout::size_of::<T>() == 0 || vstd::layout::size_of::<U>() == 0) <==> r is Err,
            r matches Err(e) ==> e == ReusableMemoryError::ZeroSizedT,
            r matches Ok(d) ==> d@ == spec_two_descs::<T, U>(capacity) && layout::wf_regions(d@),
    {
        if core::mem::size_of::<T>() == 0 || core::mem::size_of::<U>() == 0 {
            return Err(ReusableMemoryError::ZeroSizedT);
        }
        vstd::layout::layout_for_type_is_valid::<T>();
        vstd::layout::layout_for_type_is_valid::<U>();
        let mut descs: Vec<layout::RegionDesc> = Vec::new();
        descs.push(
            layout::RegionDesc {
                size: core::mem::size_of::<T>(),
                align: core::mem::align_of::<T>(),
                count: capacity[0],
            },
        );
        descs.push(
            layout::RegionDesc {
                size: core::mem::size_of::<U>(),
                align: core::mem::align_of::<U>(),
                count: capacity[1],
            },
        );
        proof {
            assert(descs@ =~= spec_two_descs::<T, U>(capacity));
            assert forall|i: int| 0 <= i < descs@.len() implies layout::wf_region(
                #[trigger] descs@[i],
            ) by {
                assert(descs@[0].size > 0 && descs@[1].size > 0);
            }
        }
        Ok(descs)
    }

    /// Builds the descriptor list of a three-region borrow, refusing
    /// zero-sized element types.
    fn three_descs<T, U, V>(capacity: [usize; 3]) -> (r: Result<
        Vec<layout::RegionDesc>,
        ReusableMemoryError,
    >)
        requires
            capacity[0] >= 1,
            capacity[1] >= 1,
            capacity[2] >= 1,
        ensures
            (vstd::layout::size_of::<T>() == 0 || vstd::layout::size_of::<U>() == 0
                || vstd::layout::size_of::<V>() == 0) <==> r is Err,
            r matches Err(e) ==> e == ReusableMemoryError::ZeroSizedT,
            r matches Ok(d) ==> d@ == spec_three_descs::<T, U, V>(capacity) && layout::wf_regions(
                d@,
            ),
    {
        if core::mem::size_of::<T>() == 0 || core::mem::size_of::<U>() == 0
            || core::mem::size_of::<V>() == 0 {
            return Err(ReusableMemoryError::ZeroSizedT);
        }
        vstd::layout::layout_for_type_is_valid::<T>();
        vstd::layout::layout_for_type_is_valid::<U>();
        vstd::layout::layout_for_type_is_valid::<V>();
        let mut descs: Vec<layout::RegionDesc> = Vec::new();
        descs.push(
            layout::RegionDesc {
                size: core::mem::size_of::<T>(),
                align: core::mem::align_of::<T>(),
                count: capacity[0],
            },
        );
        descs.push(
            layout::RegionDesc {
                size: core::mem::size_of::<U>(),
                align: core::mem::align_of::<U>(),
                count: capacity[1],
            },
        );
        descs.push(
            layout::RegionDesc {
                size: core::mem::size_of::<V>(),
                align: core::mem::align_of::<V>(),
                count: capacity[2],
            },
        );
        proof {
            assert(descs@ =~= spec_three_descs::<T, U, V>(capacity));
            assert forall|i: int| 0 <= i < descs@.len() implies layout::wf_region(
                #[trigger] descs@[i],
            ) by {
                assert(descs@[0].size > 0 && descs@[1].size > 0 && descs@[2].size > 0);
            }
        }
        Ok(descs)
    }

    /// Builds the descriptor list of a four-region borrow, refusing
    /// zero-sized element types.
    fn four_descs<T, U, V, W>(capacity: [usize; 4]) -> (r: Result<
        Vec<layout::RegionDesc>,
        ReusableMemoryError,
    >)
        requires
            capacity[0] >= 1,
            capacity[1] >= 1,
            capacity[2] >= 1,
            capacity[3] >= 1,
        ensures
            (vstd::layout::size_of::<T>() == 0 || vstd::layout::size_of::<U>() == 0
                || vstd::layout::size_of::<V>() == 0 || vstd::layout::size_of::<W>() == 0) <==> r
                is Err,
            r matches Err(e) ==> e == ReusableMemoryError::ZeroSizedT,
            r matches Ok(d) ==> d@ == spec_four_descs::<T, U, V, W>(capacity)
                && layout::wf_regions(d@),
    {
        if core::mem::size_of::<T>() == 0 || core::mem::size_of::<U>() == 0
            || core::mem::size_of::<V>() == 0 || core::mem::size_of::<W>() == 0 {
            return Err(ReusableMemoryError::ZeroSizedT);
        }
        vstd::layout::layout_for_type_is_valid::<T>();
        vstd::layout::layout_for_type_is_valid::<U>();
        vstd::layout::layout_for_type_is_valid::<V>();
        vstd::layout::layout_for_type_is_valid::<W>();
        let mut descs: Vec<layout::RegionDesc> = Vec::new();
        descs.push(
            layout::RegionDesc {
                size: core::mem::size_of::<T>(),
                align: core::mem::align_of::<T>(),
                count: capacity[0],
            },
        );
        descs.push(
            layout::RegionDesc {
                size: core::mem::size_of::<U>(),
                align: core::mem::align_of::<U>(),
                count: capacity[1],
            },
        );
        descs.push(
            layout::RegionDesc {
                size: core::mem::size_of::<V>(),
                align: core::mem::align_of::<V>(),
                count: capacity[2],
            },
        );
        descs.push(
            layout::RegionDesc {
                size: core::mem::size_of::<W>(),
                align: core::mem::align_of::<W>(),
                count: capacity[3],
            },
        );
        proof {
            assert(descs@ =~= spec_four_descs::<T, U, V, W>(capacity));
            assert forall|i: int| 0 <= i < descs@.len() implies layout::wf_region(
                #[trigger] descs@[i],
            ) by {
                assert(descs@[0].size > 0 && descs@[1].size > 0 && descs@[2].size > 0
                    && descs@[3].size > 0);
            }
        }
        Ok(descs)
    }

    /// Builds the descriptor list of a five-region borrow, refusing
    /// zero-sized element types.
    fn five_descs<T, U, V, W, X>(capacity: [usize; 5]) -> (r: Result<
        Vec<layout::RegionDesc>,
        ReusableMemoryError,
    >)
        requires
            capacity[0] >= 1,
            capacity[1] >= 1,
            capacity[2] >= 1,
            capacity[3] >= 1,
            capacity[4] >= 1,
        ensures
            (vstd::layout::size_of::<T>() == 0 || vstd::layout::size_of::<U>() == 0
                || vstd::layout::size_of::<V>() == 0 || vstd::layout::size_of::<W>() == 0
                || vstd::layout::size_of::<X>() == 0) <==> r is Err,
            r matches Err(e) ==> e == ReusableMemoryError::ZeroSizedT,
            r matches Ok(d) ==> d@ == spec_five_descs::<T, U, V, W, X>(capacity)
                && layout::wf_regions(d@),
    {
        if core::mem::size_of::<T>() == 0 || core::mem::size_of::<U>() == 0
            || core::mem::size_of::<V>() == 0 || core::mem::size_of::<W>() == 0
            || core::mem::size_of::<X>() == 0 {
            return Err(ReusableMemoryError::ZeroSizedT);
        }
        vstd::layout::layout_for_type_is_valid::<T>();
        vstd::layout::layout_for_type_is_valid::<U>();
        vstd::layout::layout_for_type_is_valid::<V>();
        vstd::layout::layout_for_type_is_valid::<W>();
        vstd::layout::layout_for_type_is_valid::<X>();
        let mut descs: Vec<layout::RegionDesc> = Vec::new();
        descs.push(
            layout::RegionDesc {
                size: core::mem::size_of::<T>(),
                align: core::mem::align_of::<T>(),
                count: capacity[0],
            },
        );
        descs.push(
            layout::RegionDesc {
                size: core::mem::size_of::<U>(),
                align: core::mem::align_of::<U>(),
                count: capacity[1],
            },
        );
        descs.push(
            layout::RegionDesc {
                size: core::mem::size_of::<V>(),
                align: core::mem::align_of::<V>(),
                count: capacity[2],
            },
        );
        descs.push(
            layout::RegionDesc {
                size: core::mem::size_of::<W>(),
                align: core::mem::align_of::<W>(),
                count: capacity[3],
            },
        );
        descs.push(
            layout::RegionDesc {
                size: core::mem::size_of::<X>(),
                align: core::mem::align_of::<X>(),
                count: capacity[4],
            },
        );
        proof {
            assert(descs@ =~= spec_five_descs::<T, U, V, W, X>(capacity));
            assert forall|i: int| 0 <= i < descs@.len() implies layout::wf_region(
                #[trigger] descs@[i],
            ) by {
                assert(descs@[0].size > 0 && descs@[1].size > 0 && descs@[2].size > 0
                    && descs@[3].size > 0 && descs@[4].size > 0);
            }
        }
        Ok(descs)
    }
}

} // verus!
