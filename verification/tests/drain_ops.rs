use std::cell::Cell;
use std::rc::Rc;

use reusable_memory::ReusableMemory;

/// An element type with an observable destructor: a shared counter holds
/// the number of currently live values.
struct DropProbe {
    _value: u8,
    live: Rc<Cell<usize>>,
}

impl DropProbe {
    fn new(value: u8, live: &Rc<Cell<usize>>) -> Self {
        live.set(live.get() + 1);
        DropProbe { _value: value, live: Rc::clone(live) }
    }
}

impl Drop for DropProbe {
    fn drop(&mut self) {
        self.live.set(self.live.get() - 1);
    }
}

#[test]
fn drain() {
    let mut rm: ReusableMemory<u8> = ReusableMemory::new().unwrap();
    {
        let mut borrow = rm.borrow_mut_as::<u8>(5).unwrap();
        borrow.push_from_exact_iter(vec![0, 1, 2, 3, 4]).unwrap();

        let mut drain = borrow.drain(1, 4);
        assert_eq!(drain.next(), Some(1));
        assert_eq!(drain.next_back(), Some(3));
        drain.finish(&mut borrow);

        assert_eq!(borrow.as_slice(), &[0, 4]);
    }
}

/// Draining the whole range yields every element in order from the front,
/// then `None`.
#[test]
fn drain_all_from_front() {
    let mut rm: ReusableMemory<u8> = ReusableMemory::new().unwrap();
    let mut borrow = rm.borrow_mut_as::<u8>(4).unwrap();
    borrow.push_from_exact_iter(vec![10, 11, 12, 13]).unwrap();

    let mut drain = borrow.drain(0, 4);
    assert_eq!(drain.size(), 4);
    assert_eq!(drain.next(), Some(10));
    assert_eq!(drain.next(), Some(11));
    assert_eq!(drain.next(), Some(12));
    assert_eq!(drain.next(), Some(13));
    assert_eq!(drain.next(), None);
    assert_eq!(drain.next_back(), None);
    drain.finish(&mut borrow);

    assert_eq!(borrow.as_slice(), &[] as &[u8]);
    assert_eq!(borrow.capacity(), 4);
}

/// An empty drained range removes nothing and keeps the order.
#[test]
fn drain_empty_range() {
    let mut rm: ReusableMemory<u8> = ReusableMemory::new().unwrap();
    let mut borrow = rm.borrow_mut_as::<u8>(3).unwrap();
    borrow.push_from_exact_iter(vec![1, 2, 3]).unwrap();

    let mut drain = borrow.drain(2, 2);
    assert_eq!(drain.next(), None);
    drain.finish(&mut borrow);

    assert_eq!(borrow.as_slice(), &[1, 2, 3]);
}

/// Elements of the drained range that were never yielded are destroyed by
/// `finish`; the surviving tail moves back and is destroyed only when the
/// borrow itself is cleared.
#[test]
fn drain_drops_unyielded() {
    let live: Rc<Cell<usize>> = Rc::new(Cell::new(0));
    let mut rm: ReusableMemory<u8> = ReusableMemory::new().unwrap();
    {
        let mut borrow = rm.borrow_mut_as::<DropProbe>(5).unwrap();
        for i in 0..5 {
            borrow.push(DropProbe::new(i, &live)).unwrap();
        }
        assert_eq!(live.get(), 5);

        let mut drain = borrow.drain(1, 4);
        let yielded = drain.next();
        assert_eq!(live.get(), 5);
        std::mem::drop(yielded);
        assert_eq!(live.get(), 4);

        drain.finish(&mut borrow);
        assert_eq!(live.get(), 2);
        assert_eq!(borrow.len(), 2);
    }
    assert_eq!(live.get(), 0);
}
