use reusable_memory::ReusableMemory;
use reusable_memory::ReusableMemoryError;

/// Borrow of `u16` from a base of `u16`: one base unit per element, no
/// alignment slack.
#[test]
fn same_type() {
    let mut rm: ReusableMemory<u16> = ReusableMemory::new().unwrap();
    {
        assert_eq!(rm.needed_capacity_for::<u16>(3), Ok(3));
        let mut borrow = rm.borrow_mut_as::<u16>(3).unwrap();
        borrow.push(1).unwrap();
        borrow.push(u16::MAX).unwrap();

        assert_eq!(borrow.len(), 2);
    }
}

/// Borrow of `i16` from a base of `u16`: same size and alignment, so the
/// unit count equals the element count.
#[test]
fn same_align_type() {
    let mut rm: ReusableMemory<u16> = ReusableMemory::new().unwrap();
    {
        assert_eq!(rm.needed_capacity_for::<i16>(3), Ok(3));
        let mut borrow = rm.borrow_mut_as::<i16>(3).unwrap();
        borrow.push(1).unwrap();
        borrow.push(i16::MAX).unwrap();

        assert_eq!(borrow.len(), 2);
    }
}

/// Borrow of `usize` from a base of `u8`: the reservation carries
/// `align_of::<usize>() - 1` bytes of alignment slack.
#[test]
fn different_align() {
    let mut rm: ReusableMemory<u8> = ReusableMemory::new().unwrap();
    {
        let expected = 3 * core::mem::size_of::<usize>() + core::mem::align_of::<usize>() - 1;
        assert_eq!(rm.needed_capacity_for::<usize>(3), Ok(expected));
        let mut borrow = rm.borrow_mut_as::<usize>(3).unwrap();
        borrow.push(1).unwrap();
        borrow.push(usize::MAX).unwrap();

        assert_eq!(borrow.len(), 2);
    }
}

#[test]
fn borrow_two_same_type() {
    let mut rm: ReusableMemory<u16> = ReusableMemory::new().unwrap();
    {
        // Regions of 6 and 3 two-byte elements pack back to back: 18 bytes,
        // 9 base units of two bytes, no slack.
        assert_eq!(rm.needed_capacity_for_two::<u16, i16>([6, 3]), Ok(9));

        let (mut borrow_a, mut borrow_b) = rm.borrow_mut_two_as::<u16, i16>([6, 3]).unwrap();

        borrow_a.push(1).unwrap();
        borrow_a.push(2).unwrap();
        borrow_a.push(u16::MAX).unwrap();

        borrow_b.push(-1).unwrap();
        borrow_b.push(-2).unwrap();
        borrow_b.push(i16::MIN).unwrap();

        assert_eq!(borrow_a.as_slice(), &[1, 2, u16::MAX]);
        assert_eq!(borrow_b.as_slice(), &[-1, -2, i16::MIN]);
    }
}

/// Borrow of `u64`, `u32` and `u16` regions from a base of `u8`.
#[test]
fn borrow_three_different_align() {
    let mut rm: ReusableMemory<u8> = ReusableMemory::new().unwrap();
    {
        // 8 + 8 + 8 packed bytes plus the first region's alignment slack.
        let expected = 8 * 1 + 4 * 2 + 2 * 4 + core::mem::align_of::<u64>() - 1;
        assert_eq!(rm.needed_capacity_for_three::<u64, u32, u16>([1, 2, 4]), Ok(expected));

        let (mut borrow_u64, mut borrow_u32, mut borrow_u16) =
            rm.borrow_mut_three_as::<u64, u32, u16>([1, 2, 4]).unwrap();

        borrow_u64.push(1).unwrap();

        borrow_u32.push(1).unwrap();
        borrow_u32.push(2).unwrap();

        borrow_u16.push(1).unwrap();
        borrow_u16.push(2).unwrap();
        borrow_u16.push(3).unwrap();
        borrow_u16.push(4).unwrap();

        assert_eq!(borrow_u64.as_slice(), &[1u64]);
        assert_eq!(borrow_u32.as_slice(), &[1u32, 2u32]);
        assert_eq!(borrow_u16.as_slice(), &[1u16, 2u16, 3u16, 4u16]);
    }
}

/// Borrow of four and five regions from a base of `u8`.
#[test]
fn borrow_four_and_five_regions() {
    let mut rm: ReusableMemory<u8> = ReusableMemory::new().unwrap();
    {
        let (mut a, mut b, mut c, mut d) =
            rm.borrow_mut_four_as::<u64, u32, u16, u8>([1, 1, 1, 1]).unwrap();
        a.push(1u64).unwrap();
        b.push(2u32).unwrap();
        c.push(3u16).unwrap();
        d.push(4u8).unwrap();
        assert_eq!(a.as_slice(), &[1u64]);
        assert_eq!(b.as_slice(), &[2u32]);
        assert_eq!(c.as_slice(), &[3u16]);
        assert_eq!(d.as_slice(), &[4u8]);
    }
    {
        // 8 + 4 + 2 + 1 + 1 packed bytes plus 7 bytes of slack.
        assert_eq!(
            rm.needed_capacity_for_five::<u64, u32, u16, u8, i8>([1, 1, 1, 1, 1]),
            Ok(16 + core::mem::align_of::<u64>() - 1)
        );
        let (mut a, _b, _c, _d, mut e) =
            rm.borrow_mut_five_as::<u64, u32, u16, u8, i8>([1, 1, 1, 1, 1]).unwrap();
        a.push(9u64).unwrap();
        e.push(-1i8).unwrap();
        assert_eq!(a.pop(), Some(9u64));
        assert_eq!(e.as_slice(), &[-1i8]);
    }
}

/// A zero-sized base unit type is refused at construction.
#[test]
fn zero_sized_base_is_refused() {
    assert_eq!(ReusableMemory::<()>::new().unwrap_err(), ReusableMemoryError::ZeroSizedB);
    assert_eq!(
        ReusableMemory::<()>::with_capacity(4).unwrap_err(),
        ReusableMemoryError::ZeroSizedB
    );
}

/// A zero-sized element type is refused by sizing and borrowing alike.
#[test]
fn zero_sized_element_is_refused() {
    let mut rm: ReusableMemory<u8> = ReusableMemory::new().unwrap();
    assert_eq!(rm.needed_capacity_for::<()>(1).unwrap_err(), ReusableMemoryError::ZeroSizedT);
    assert_eq!(rm.borrow_mut_as::<()>(1).unwrap_err(), ReusableMemoryError::ZeroSizedT);
    assert_eq!(
        rm.needed_capacity_for_two::<u32, ()>([1, 1]).unwrap_err(),
        ReusableMemoryError::ZeroSizedT
    );
    assert_eq!(
        rm.borrow_mut_three_as::<u32, (), u8>([1, 1, 1]).unwrap_err(),
        ReusableMemoryError::ZeroSizedT
    );
}

/// A weaker-aligned element type from a stronger-aligned base needs no
/// slack, and byte counts round up to whole base units.
#[test]
fn needed_capacity_rounds_up() {
    let rm: ReusableMemory<u32> = ReusableMemory::with_capacity(2).unwrap();
    // Five single-byte elements fit into two four-byte units.
    assert_eq!(rm.needed_capacity_for::<u8>(5), Ok(2));
    // Two eight-byte elements over four-byte units: alignment slack of
    // seven bytes is rounded into whole units.
    let expected = (2 * core::mem::size_of::<u64>() + core::mem::align_of::<u64>() - 1 + 3) / 4;
    assert_eq!(rm.needed_capacity_for::<u64>(2), Ok(expected));
}

/// Arena of base unit size 1: borrow three `usize`s, push two values, read
/// them back in reverse order, then find the borrow empty.
#[test]
fn end_to_end_scenario() {
    let mut rm: ReusableMemory<u8> = ReusableMemory::new().unwrap();
    let mut borrow = rm.borrow_mut_as::<usize>(3).unwrap();
    borrow.push(1).unwrap();
    borrow.push(usize::MAX).unwrap();
    assert_eq!(borrow.len(), 2);
    assert_eq!(borrow.pop(), Some(usize::MAX));
    assert_eq!(borrow.pop(), Some(1));
    assert_eq!(borrow.pop(), None);
}
