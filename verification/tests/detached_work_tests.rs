use oneringbuf::iterators::{ConsIter, Detached, ProdIter, WorkIter};
use oneringbuf::LocalHeapRBMut;

const BUFFER_SIZE: usize = 400;

fn fill_buf(prod: &mut ProdIter, buf: &mut LocalHeapRBMut<usize>) {
    let slice = (0..BUFFER_SIZE - 1).collect::<Vec<usize>>();
    prod.push_slice(buf, &slice);
}

fn prepare(
    mut prod: ProdIter,
    mut work: WorkIter,
    mut cons: ConsIter,
    buf: &mut LocalHeapRBMut<usize>,
) -> (ProdIter, Detached, ConsIter) {
    assert_eq!(prod.available(buf), BUFFER_SIZE - 1);
    assert_eq!(work.available(buf), 0);
    assert_eq!(cons.available(buf), 0);

    fill_buf(&mut prod, buf);

    assert_eq!(prod.available(buf), 0);
    assert_eq!(work.available(buf), BUFFER_SIZE - 1);
    assert_eq!(cons.available(buf), 0);

    let mut work = work.detach(buf);

    for _ in 0..BUFFER_SIZE - 1 {
        if let Some(data) = work.get_mut(buf) {
            work.set_item(buf, data + 1);
            work.advance(buf, 1);
        }
    }
    assert_eq!(prod.available(buf), 0);
    assert_eq!(work.available(buf), 0);
    assert_eq!(cons.available(buf), 0);

    (prod, work, cons)
}

#[test]
fn test_work_detached_sync_index() {
    let mut buf = LocalHeapRBMut::from(vec![0usize; BUFFER_SIZE]);
    let (prod, work, cons) = buf.split_mut();

    let (mut prod, mut work, mut cons) = prepare(prod, work, cons, &mut buf);

    work.sync_index(&mut buf);

    assert_eq!(prod.available(&buf), 0);
    assert_eq!(work.available(&buf), 0);
    assert_eq!(cons.available(&buf), BUFFER_SIZE - 1);

    for i in 0..BUFFER_SIZE - 1 {
        assert_eq!(cons.pop(&mut buf).unwrap(), i + 1);
    }

    assert_eq!(prod.available(&buf), BUFFER_SIZE - 1);
    assert_eq!(work.available(&buf), 0);
    assert_eq!(cons.available(&buf), 0);
}

#[test]
fn test_work_detached() {
    let mut buf = LocalHeapRBMut::from(vec![0usize; BUFFER_SIZE]);
    let (prod, work, cons) = buf.split_mut();

    let (mut prod, work, mut cons) = prepare(prod, work, cons, &mut buf);

    let mut work = work.attach(&mut buf);

    assert_eq!(prod.available(&buf), 0);
    assert_eq!(work.available(&buf), 0);
    assert_eq!(cons.available(&buf), BUFFER_SIZE - 1);

    for i in 0..BUFFER_SIZE - 1 {
        assert_eq!(cons.pop(&mut buf).unwrap(), i + 1);
    }

    assert_eq!(prod.available(&buf), BUFFER_SIZE - 1);
    assert_eq!(work.available(&buf), 0);
    assert_eq!(cons.available(&buf), 0);
}

#[test]
fn test_work_detached_set_index() {
    let mut buf = LocalHeapRBMut::from(vec![0usize; BUFFER_SIZE]);
    let (prod, work, cons) = buf.split_mut();

    let (mut prod, mut work, mut cons) = prepare(prod, work, cons, &mut buf);

    let back_one = work.index() - 1;
    work.set_index(&buf, back_one);

    assert_eq!(prod.available(&buf), 0);
    assert_eq!(work.available(&buf), 1);
    assert_eq!(cons.available(&buf), 0);

    let mut work = work.attach(&mut buf);

    assert_eq!(prod.available(&buf), 0);
    assert_eq!(work.available(&buf), 1);
    assert_eq!(cons.available(&buf), BUFFER_SIZE - 2);

    for i in 0..BUFFER_SIZE - 2 {
        assert_eq!(cons.pop(&mut buf).unwrap(), i + 1);
    }

    assert_eq!(prod.available(&buf), BUFFER_SIZE - 2);
    assert_eq!(work.available(&buf), 1);
    assert_eq!(cons.available(&buf), 0);
}

#[test]
fn test_work_go_back() {
    let mut buf = LocalHeapRBMut::from(vec![0usize; BUFFER_SIZE]);
    let (_, work, _) = buf.split_mut();

    let mut work = work.detach(&buf);

    assert_eq!(work.index(), 0);

    work.go_back(&buf, 1);

    assert_eq!(work.index(), BUFFER_SIZE - 1);

    work.advance(&buf, 2);

    assert_eq!(work.index(), 1);

    work.go_back(&buf, 1);

    assert_eq!(work.index(), 0);
}
