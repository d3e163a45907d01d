use oneringbuf::{get_page_size_mul, LocalHeapRB, LocalHeapRBMut};
use std::cell::Cell;
use std::rc::Rc;

#[test]
fn push_pop_identity() {
    let mut buf = LocalHeapRB::from(vec![0u32; 4]);
    let (mut prod, mut cons) = buf.split();

    assert!(prod.push(&mut buf, 10).is_ok());
    assert!(prod.push(&mut buf, 20).is_ok());
    assert!(prod.push(&mut buf, 30).is_ok());

    assert_eq!(prod.available(&buf), 0);
    assert_eq!(cons.available(&buf), 3);

    assert_eq!(cons.pop(&mut buf), Some(10));
    assert_eq!(cons.pop(&mut buf), Some(20));
    assert_eq!(cons.pop(&mut buf), Some(30));

    assert_eq!(prod.available(&buf), 3);
    assert_eq!(cons.available(&buf), 0);
}

#[test]
fn wrap_around() {
    let mut buf = LocalHeapRB::from(vec![0u32; 4]);
    let (mut prod, mut cons) = buf.split();

    assert!(prod.push(&mut buf, 1).is_ok());
    assert!(prod.push(&mut buf, 2).is_ok());
    assert!(prod.push(&mut buf, 3).is_ok());
    assert_eq!(buf.prod_index(), 3);

    assert_eq!(cons.pop(&mut buf), Some(1));
    assert_eq!(cons.pop(&mut buf), Some(2));
    assert_eq!(buf.cons_index(), 2);

    assert!(prod.push(&mut buf, 4).is_ok());
    assert_eq!(buf.prod_index(), 0);
    assert!(prod.push(&mut buf, 5).is_ok());
    assert_eq!(buf.prod_index(), 1);

    assert_eq!(cons.pop(&mut buf), Some(3));
    assert_eq!(buf.cons_index(), 3);
    assert_eq!(cons.pop(&mut buf), Some(4));
    assert_eq!(buf.cons_index(), 0);
    assert_eq!(cons.pop(&mut buf), Some(5));
    assert_eq!(buf.cons_index(), 1);
}

#[test]
fn worker_transformation() {
    let mut buf = LocalHeapRBMut::from(vec![0u32; 5]);
    let (mut prod, mut work, mut cons) = buf.split_mut();

    for i in 1..=4 {
        assert!(prod.push(&mut buf, i).is_ok());
    }

    for _ in 0..4 {
        let v = work.get_mut(&buf).unwrap();
        work.set_item(&mut buf, v * 10).unwrap();
        work.advance(&mut buf, 1);
    }

    assert_eq!(cons.pop(&mut buf), Some(10));
    assert_eq!(cons.pop(&mut buf), Some(20));
    assert_eq!(cons.pop(&mut buf), Some(30));
    assert_eq!(cons.pop(&mut buf), Some(40));
}

#[test]
fn detached_scan_and_back() {
    let mut buf = LocalHeapRBMut::from(vec![0u32; 8]);
    let (mut prod, work, mut cons) = buf.split_mut();

    for i in 1..=7 {
        assert!(prod.push(&mut buf, i).is_ok());
    }

    let mut work = work.detach(&buf);

    work.advance(&buf, 3);
    work.go_back(&buf, 2);

    assert_eq!(work.index(), buf.prod_index() - 6);
    assert_eq!(work.index(), 1);

    let mut work = work.attach(&mut buf);
    work.advance(&mut buf, 6);

    for i in 1..=7 {
        assert_eq!(cons.pop(&mut buf), Some(i));
    }
}

#[test]
fn uninit_protocol() {
    let mut buf = LocalHeapRB::<i32>::new_zeroed(5);
    let (mut prod, mut cons) = buf.split();

    assert!(prod.push_init(&mut buf, 11).is_ok());
    assert!(prod.push_init(&mut buf, 12).is_ok());
    assert!(prod.push_init(&mut buf, 13).is_ok());
    assert!(prod.push_init(&mut buf, 14).is_ok());

    assert_eq!(cons.pop_move(&mut buf), Some(11));

    assert!(prod.push_init(&mut buf, 15).is_ok());

    assert_eq!(cons.pop(&mut buf), Some(12));
    assert_eq!(cons.pop(&mut buf), Some(13));

    // The freed, already re-initialised slots now take plain pushes.
    assert!(prod.push(&mut buf, 16).is_ok());
    assert!(prod.push(&mut buf, 17).is_ok());

    assert_eq!(cons.pop(&mut buf), Some(14));
    assert_eq!(cons.pop(&mut buf), Some(15));
    assert_eq!(cons.pop(&mut buf), Some(16));
    assert_eq!(cons.pop(&mut buf), Some(17));
    assert_eq!(cons.pop(&mut buf), None);
}

#[derive(Clone)]
struct Noisy {
    drops: Rc<Cell<usize>>,
}

impl Drop for Noisy {
    fn drop(&mut self) {
        self.drops.set(self.drops.get() + 1);
    }
}

#[test]
fn drops_on_overwrite_and_teardown() {
    let drops: Rc<Cell<usize>> = Rc::new(Cell::new(0));
    let make = || Noisy { drops: drops.clone() };

    let mut buf = LocalHeapRB::from(vec![make(), make(), make(), make()]);
    let (mut prod, mut cons) = buf.split();

    // Refill a slot: the overwrite drops the stale value it held.
    assert!(prod.push(&mut buf, make()).is_ok());
    assert_eq!(drops.get(), 1);

    assert!(prod.push(&mut buf, make()).is_ok());
    assert_eq!(drops.get(), 2);

    // A clone handed out by the consumer is dropped by the caller.
    let out = cons.pop_clone(&mut buf).unwrap();
    drop(out);
    assert_eq!(drops.get(), 3);

    // Releasing the storage drops every element still held by the ring.
    drop(buf);
    assert_eq!(drops.get(), 7);
}

#[test]
fn alive_count_protocol() {
    let mut buf = LocalHeapRBMut::from(vec![0u8; 3]);
    let (_prod, _work, _cons) = buf.split_mut();

    assert_eq!(buf.alive_iters(), 3);
    assert_eq!(buf.drop_iter(), 3);
    assert_eq!(buf.drop_iter(), 2);
    assert_eq!(buf.alive_iters(), 1);
    // The holder that sees the count reach one releases the storage.
    assert_eq!(buf.drop_iter(), 1);
    assert_eq!(buf.alive_iters(), 0);

    let nbuf = LocalHeapRB::from(vec![0u8; 3]);
    let (_p, _c) = nbuf.split();
    assert_eq!(nbuf.alive_iters(), 2);
}

#[test]
fn page_size_rounding() {
    assert_eq!(get_page_size_mul(0, 4096), 0);
    assert_eq!(get_page_size_mul(1, 4096), 4096);
    assert_eq!(get_page_size_mul(4096, 4096), 4096);
    assert_eq!(get_page_size_mul(4097, 4096), 8192);
    assert_eq!(get_page_size_mul(10, 3), 12);
}

#[test]
fn full_and_empty_errors() {
    let mut buf = LocalHeapRB::from(vec![0u8; 2]);
    let (mut prod, mut cons) = buf.split();

    assert_eq!(cons.pop(&mut buf), None);
    assert!(prod.push(&mut buf, 1).is_ok());
    assert_eq!(prod.push(&mut buf, 2), Err(2));
    assert!(prod.push_slice(&mut buf, &[3]).is_none());
    assert!(prod.push_slice_clone(&mut buf, &[3]).is_none());
    assert_eq!(cons.pop(&mut buf), Some(1));
    assert_eq!(cons.pop(&mut buf), None);
    assert!(cons.pop_clone(&mut buf).is_none());
    assert!(cons.pop_move(&mut buf).is_none());
    assert!(cons.peek_ref(&buf).is_none());
    assert!(cons.peek_available(&buf).is_none());
}
