use std::cell::Cell;
use std::rc::Rc;

use reusable_memory::borrow::ReusableMemoryBorrowError;
use reusable_memory::ReusableMemory;

/// An element type with an observable destructor: a shared counter holds
/// the number of currently live values.
struct DropCounter {
    _value: u8,
    live: Rc<Cell<usize>>,
}

impl DropCounter {
    fn new(value: u8, live: &Rc<Cell<usize>>) -> Self {
        live.set(live.get() + 1);
        DropCounter { _value: value, live: Rc::clone(live) }
    }
}

impl Drop for DropCounter {
    fn drop(&mut self) {
        self.live.set(self.live.get() - 1);
    }
}

#[test]
fn push_iter() {
    let mut rm: ReusableMemory<u8> = ReusableMemory::new().unwrap();
    {
        let mut borrow = rm.borrow_mut_as::<u8>(6).unwrap();
        let values = vec![0, 1, 2, 3, 4];

        borrow.push_from_iter(values).unwrap();
        assert_eq!(borrow.as_slice(), &[0, 1, 2, 3, 4]);
    }
}

#[test]
fn push_iter_fill_up() {
    let mut rm: ReusableMemory<u8> = ReusableMemory::new().unwrap();
    {
        let mut borrow = rm.borrow_mut_as::<u8>(5).unwrap();
        let values = vec![0, 1, 2, 3, 4];

        let rest = borrow.push_from_iter(values).unwrap_err();
        assert_eq!(borrow.as_slice(), &[0, 1, 2, 3, 4]);
        assert_eq!(rest.first(), None);
    }
}

#[test]
fn push_iter_fill_up_peekable() {
    let mut rm: ReusableMemory<u8> = ReusableMemory::new().unwrap();
    {
        let mut borrow = rm.borrow_mut_as::<u8>(5).unwrap();
        let values = vec![0, 1, 2, 3, 4];

        borrow.push_from_iter_peeking(values).unwrap();
        assert_eq!(borrow.as_slice(), &[0, 1, 2, 3, 4]);
    }
}

#[test]
fn push_iter_over_capacity() {
    let mut rm: ReusableMemory<u8> = ReusableMemory::new().unwrap();
    {
        let mut borrow = rm.borrow_mut_as::<u8>(4).unwrap();
        let values = vec![0, 1, 2, 3, 4];

        let rest = borrow.push_from_iter(values).unwrap_err();
        assert_eq!(borrow.as_slice(), &[0, 1, 2, 3]);
        assert_eq!(rest.first(), Some(&4));
    }
}

/// The peeking variant still hands back the rest when values remain.
#[test]
fn push_iter_peeking_over_capacity() {
    let mut rm: ReusableMemory<u8> = ReusableMemory::new().unwrap();
    {
        let mut borrow = rm.borrow_mut_as::<u8>(2).unwrap();
        let values = vec![7, 8, 9, 10];

        let rest = borrow.push_from_iter_peeking(values).unwrap_err();
        assert_eq!(borrow.as_slice(), &[7, 8]);
        assert_eq!(rest, vec![9, 10]);
    }
}

/// Tests that a borrow can push all values of a known-size batch at once.
#[test]
fn push_exact_iter() {
    let mut rm: ReusableMemory<u8> = ReusableMemory::new().unwrap();
    {
        let mut borrow = rm.borrow_mut_as::<u8>(3).unwrap();
        let values = vec![1, u8::MAX];

        borrow.push_from_exact_iter(values).unwrap();
        assert_eq!(borrow.len(), 2);
        assert_eq!(borrow.as_slice(), &[1, u8::MAX]);
    }
}

/// Tests that pushing a batch beyond capacity returns an error.
#[test]
fn push_exact_iter_over_capacity() {
    let mut rm: ReusableMemory<u8> = ReusableMemory::new().unwrap();
    {
        let mut borrow = rm.borrow_mut_as::<u8>(1).unwrap();
        let values = vec![1, u8::MAX];

        match borrow.push_from_exact_iter(values.clone()) {
            Err(err_values) if err_values == values => (),
            _ => panic!("Expected Err(iter)"),
        }
    }
}

/// The batch push is atomic: too large a batch leaves the borrow untouched,
/// and a fitting one lands whole.
#[test]
fn push_exact_iter_is_atomic() {
    let mut rm: ReusableMemory<u8> = ReusableMemory::new().unwrap();
    {
        let mut borrow = rm.borrow_mut_as::<u8>(4).unwrap();
        borrow.push(1).unwrap();
        borrow.push(2).unwrap();

        let rest = borrow.push_from_exact_iter(vec![9, 8, 7]).unwrap_err();
        assert_eq!(rest, vec![9, 8, 7]);
        assert_eq!(borrow.as_slice(), &[1, 2]);

        borrow.push_from_exact_iter(vec![9, 8]).unwrap();
        assert_eq!(borrow.as_slice(), &[1, 2, 9, 8]);
    }
}

/// The mutable slice view reaches exactly the live prefix.
#[test]
fn as_mut_slice_writes_through() {
    let mut rm: ReusableMemory<u8> = ReusableMemory::new().unwrap();
    let mut borrow = rm.borrow_mut_as::<u32>(3).unwrap();
    borrow.push(1).unwrap();
    borrow.push(2).unwrap();

    let slice = borrow.as_mut_slice();
    assert_eq!(slice.len(), 2);
    slice[0] = 100;

    assert_eq!(borrow.as_slice(), &[100, 2]);
    assert_eq!(borrow.capacity(), 3);
}

#[test]
fn pop() {
    let mut rm: ReusableMemory<u8> = ReusableMemory::new().unwrap();
    {
        let mut borrow = rm.borrow_mut_as::<u8>(1).unwrap();

        borrow.push(1).unwrap();

        assert_eq!(borrow.pop(), Some(1));
        assert_eq!(borrow.pop(), None);
    }
}

/// Tests that values are dropped on clear.
#[test]
fn clear() {
    let live: Rc<Cell<usize>> = Rc::new(Cell::new(0));

    let mut rm: ReusableMemory<u8> = ReusableMemory::new().unwrap();
    {
        let mut borrow = rm.borrow_mut_as::<DropCounter>(2).unwrap();

        borrow.push(DropCounter::new(1, &live)).unwrap();
        borrow.push(DropCounter::new(u8::MAX, &live)).unwrap();

        assert_eq!(live.get(), 2);

        borrow.clear();

        assert_eq!(live.get(), 0);
    }
}

/// Tests that values are dropped when the borrow goes out of scope.
#[test]
fn drop() {
    let live: Rc<Cell<usize>> = Rc::new(Cell::new(0));

    let mut rm: ReusableMemory<u8> = ReusableMemory::new().unwrap();
    {
        let mut borrow = rm.borrow_mut_as::<DropCounter>(2).unwrap();

        borrow.push(DropCounter::new(1, &live)).unwrap();
        borrow.push(DropCounter::new(u8::MAX, &live)).unwrap();

        assert_eq!(live.get(), 2);
    }

    assert_eq!(live.get(), 0);
}

/// Tests that pushing beyond capacity returns an error.
#[test]
fn not_enough_capacity() {
    let mut rm: ReusableMemory<u8> = ReusableMemory::new().unwrap();
    {
        let capacity = 1;
        let mut borrow = rm.borrow_mut_as::<u8>(capacity).unwrap();
        borrow.push(1).unwrap();

        match borrow.push(1) {
            Err(ReusableMemoryBorrowError::NotEnoughCapacity(c)) if c == capacity => (),
            _ => panic!("Expected Err(ReusableMemoryBorrowError::NotEnoughCapacity)"),
        }
    }
}

/// Pushing exactly `capacity` elements succeeds; the next push fails with
/// the capacity in the error and changes nothing.
#[test]
fn capacity_bound() {
    let mut rm: ReusableMemory<u8> = ReusableMemory::new().unwrap();
    let mut borrow = rm.borrow_mut_as::<u32>(3).unwrap();
    assert_eq!(borrow.capacity(), 3);

    borrow.push(10).unwrap();
    borrow.push(20).unwrap();
    borrow.push(30).unwrap();
    assert_eq!(borrow.len(), 3);

    assert_eq!(borrow.push(40), Err(ReusableMemoryBorrowError::NotEnoughCapacity(3)));
    assert_eq!(borrow.len(), 3);
    assert_eq!(borrow.as_slice(), &[10, 20, 30]);
}
