use futures_util::task::{waker, ArcWake};
use oneringbuf::LocalHeapRB;
use std::sync::atomic::{AtomicUsize, Ordering};
use std::sync::Arc;

struct CountingWake {
    wakes: AtomicUsize,
}

impl ArcWake for CountingWake {
    fn wake_by_ref(arc_self: &Arc<Self>) {
        arc_self.wakes.fetch_add(1, Ordering::SeqCst);
    }
}

#[test]
fn async_full_empty() {
    let prod_wake = Arc::new(CountingWake { wakes: AtomicUsize::new(0) });
    let cons_wake = Arc::new(CountingWake { wakes: AtomicUsize::new(0) });
    let pw = waker(prod_wake.clone());
    let cw = waker(cons_wake.clone());

    let mut buf = LocalHeapRB::from(vec![0u32; 2]);
    let (prod, cons) = buf.split();
    let mut prod = prod.into_async();
    let mut cons = cons.into_async();

    let mut seen: Vec<u32> = Vec::new();

    // One usable slot: the first push completes at once.
    assert!(prod.push(&mut buf, 1, &pw).is_ok());

    // The ring is full: the second push pends and registers its waker.
    assert_eq!(prod.push(&mut buf, 2, &pw), Err(2));
    assert_eq!(prod_wake.wakes.load(Ordering::SeqCst), 0);

    // The consumer's pop frees a slot and signals the registered waker.
    seen.push(cons.pop(&mut buf, &cw).unwrap());
    assert_eq!(prod_wake.wakes.load(Ordering::SeqCst), 1);

    // The woken push is re-polled and now completes.
    assert!(prod.push(&mut buf, 2, &pw).is_ok());

    seen.push(cons.pop(&mut buf, &cw).unwrap());
    assert!(prod.push(&mut buf, 3, &pw).is_ok());
    seen.push(cons.pop(&mut buf, &cw).unwrap());

    assert_eq!(seen, vec![1, 2, 3]);
}

#[test]
fn async_empty_pop_wakes_consumer() {
    let prod_wake = Arc::new(CountingWake { wakes: AtomicUsize::new(0) });
    let cons_wake = Arc::new(CountingWake { wakes: AtomicUsize::new(0) });
    let pw = waker(prod_wake.clone());
    let cw = waker(cons_wake.clone());

    let mut buf = LocalHeapRB::from(vec![0u32; 3]);
    let (prod, cons) = buf.split();
    let mut prod = prod.into_async();
    let mut cons = cons.into_async();

    // Empty ring: the pop pends and registers the consumer's waker.
    assert_eq!(cons.pop(&mut buf, &cw), None);
    assert_eq!(cons_wake.wakes.load(Ordering::SeqCst), 0);

    // On a buffer without a worker the push signals the consumer directly.
    assert!(prod.push(&mut buf, 7, &pw).is_ok());
    assert_eq!(cons_wake.wakes.load(Ordering::SeqCst), 1);

    // The woken pop is re-polled and completes.
    assert_eq!(cons.pop(&mut buf, &cw), Some(7));
}

#[test]
fn async_slice_round_trip() {
    let noop = futures_util::task::noop_waker();

    let mut buf = LocalHeapRB::from(vec![0u8; 5]);
    let (prod, cons) = buf.split();
    let mut prod = prod.into_async();
    let mut cons = cons.into_async();

    assert!(prod.push_slice(&mut buf, &[1, 2, 3, 4], &noop).is_some());
    assert!(prod.push_slice(&mut buf, &[5], &noop).is_none());

    let mut dst = vec![0u8; 4];
    assert!(cons.copy_slice(&mut buf, &mut dst, &noop).is_some());
    assert_eq!(dst, vec![1, 2, 3, 4]);

    assert!(cons.copy_slice(&mut buf, &mut dst, &noop).is_none());
}

#[test]
fn async_worker_round_trip() {
    let noop = futures_util::task::noop_waker();
    let work_wake = Arc::new(CountingWake { wakes: AtomicUsize::new(0) });
    let ww = waker(work_wake.clone());

    let mut buf = oneringbuf::LocalHeapRBMut::from(vec![0u32; 4]);
    let (prod, work, cons) = buf.split_mut();
    let mut prod = prod.into_async();
    let mut work = work.into_async();
    let mut cons = cons.into_async();

    // Idle worker registers; the producer's push signals it.
    assert_eq!(work.get_mut(&mut buf, &ww), None);
    assert!(prod.push(&mut buf, 5, &noop).is_ok());
    assert_eq!(work_wake.wakes.load(Ordering::SeqCst), 1);

    let v = work.get_mut(&mut buf, &ww).unwrap();
    work.set_item(&mut buf, v + 1).unwrap();
    work.advance(&mut buf, 1);

    assert_eq!(cons.pop(&mut buf, &noop), Some(6));
}

#[test]
fn async_detached_round_trip() {
    let noop = futures_util::task::noop_waker();

    let mut buf = oneringbuf::LocalHeapRBMut::from(vec![0u32; 6]);
    let (mut prod, work, mut cons) = buf.split_mut();
    let work = work.into_async();
    let mut cons = cons.into_async();

    let mut det = work.detach(&buf);

    // Nothing pushed yet: nothing is in hand at the local index.
    assert_eq!(det.get_mut(&buf), None);
    assert!(det.set_item(&mut buf, 99).is_none());

    for i in 1..=5 {
        assert!(prod.push(&mut buf, i).is_ok());
    }

    for _ in 0..5 {
        let v = det.get_mut(&buf).unwrap();
        det.set_item(&mut buf, v + 100).unwrap();
        det.advance(&buf, 1);
    }
    det.go_back(&buf, 5);
    det.advance(&buf, 5);

    let _work = det.attach(&mut buf);

    for i in 1..=5 {
        assert_eq!(cons.pop(&mut buf, &noop), Some(i + 100));
    }
}
