use oneringbuf::iterators::ProdIter;
use oneringbuf::LocalHeapRB;

const BUFFER_SIZE: usize = 400;

fn fill_buf(prod: &mut ProdIter, buf: &mut LocalHeapRB<usize>, count: usize) {
    for i in 0..count {
        let _ = prod.push(buf, i);
    }
}

#[test]
fn test_pop_exact() {
    let mut buf = LocalHeapRB::from(vec![0usize; BUFFER_SIZE]);
    let (mut prod, mut cons) = buf.split();

    assert!(cons.pop(&mut buf).is_none());

    fill_buf(&mut prod, &mut buf, BUFFER_SIZE - 1);

    for i in 0..BUFFER_SIZE - 1 {
        assert_eq!(*cons.peek_ref(&buf).unwrap(), i);
        cons.advance(&mut buf, 1);
    }

    assert!(cons.peek_ref(&buf).is_none());
    cons.advance(&mut buf, 1);

    fill_buf(&mut prod, &mut buf, BUFFER_SIZE - 1);

    for i in 0..BUFFER_SIZE - 1 {
        assert_eq!(*cons.peek_ref(&buf).unwrap(), i);
        cons.advance(&mut buf, 1);
    }

    assert!(cons.pop(&mut buf).is_none());
}

#[test]
fn test_pop_ref_exact() {
    let mut buf = LocalHeapRB::from(vec![0usize; BUFFER_SIZE]);
    let (mut prod, mut cons) = buf.split();

    fill_buf(&mut prod, &mut buf, BUFFER_SIZE - 1);

    for i in 0..BUFFER_SIZE - 1 {
        assert_eq!(cons.peek_ref(&buf).unwrap(), &i);
        cons.advance(&mut buf, 1);
    }

    assert!(cons.pop(&mut buf).is_none());
}

#[test]
fn test_pop_slice_exact() {
    let mut buf = LocalHeapRB::from(vec![0usize; BUFFER_SIZE]);
    let (mut prod, mut cons) = buf.split();

    fill_buf(&mut prod, &mut buf, BUFFER_SIZE - 1);

    let (head, tail) = cons.peek_slice(&buf, BUFFER_SIZE - 1).unwrap();
    assert!(!head.is_empty() || !tail.is_empty());

    for (p, i) in [head, tail].concat().iter().zip(0..BUFFER_SIZE - 1) {
        assert_eq!(p, &i);
    }
    cons.advance(&mut buf, BUFFER_SIZE - 1);

    assert!(cons.pop(&mut buf).is_none());
}

#[test]
fn test_pop_avail_nw_exact() {
    let mut buf = LocalHeapRB::from(vec![0usize; BUFFER_SIZE]);
    let (mut prod, mut cons) = buf.split();

    fill_buf(&mut prod, &mut buf, BUFFER_SIZE - 1);

    let (head, tail) = cons.peek_available(&buf).unwrap();
    assert_eq!(head.len() + tail.len(), BUFFER_SIZE - 1);

    for (p, i) in [head, tail].concat().iter().zip(0..BUFFER_SIZE - 1) {
        assert_eq!(p, &i);
    }
    cons.advance(&mut buf, BUFFER_SIZE - 1);

    assert!(cons.pop(&mut buf).is_none());
}

#[test]
fn test_pop_slice_seam() {
    let mut buf = LocalHeapRB::from(vec![0usize; BUFFER_SIZE]);
    let (mut prod, mut cons) = buf.split();

    fill_buf(&mut prod, &mut buf, BUFFER_SIZE / 2);

    let (head, tail) = cons.peek_available(&buf).unwrap();
    assert_eq!(head.len(), BUFFER_SIZE / 2);
    assert!(tail.is_empty());
    cons.advance(&mut buf, BUFFER_SIZE / 2);

    fill_buf(&mut prod, &mut buf, BUFFER_SIZE);

    let (head, tail) = cons.peek_available(&buf).unwrap();
    assert_eq!(head.len(), BUFFER_SIZE.div_ceil(2));
    assert_eq!(tail.len(), BUFFER_SIZE / 2 - 1);

    for (p, i) in [head, tail].concat().iter().zip(0..BUFFER_SIZE - 1) {
        assert_eq!(p, &i);
    }
    cons.advance(&mut buf, BUFFER_SIZE - 1);

    assert!(cons.pop(&mut buf).is_none());
}

#[test]
fn test_pop_slice_copy() {
    let mut buf = LocalHeapRB::from(vec![0usize; BUFFER_SIZE]);
    let (mut prod, mut cons) = buf.split();

    fill_buf(&mut prod, &mut buf, BUFFER_SIZE / 2);

    let mut vec = vec![0; BUFFER_SIZE / 2];

    assert!(cons.copy_slice(&mut buf, &mut vec).is_some());
    assert!(cons.copy_slice(&mut buf, &mut vec).is_none());

    fill_buf(&mut prod, &mut buf, BUFFER_SIZE / 2);

    assert!(cons.clone_slice(&mut buf, &mut vec).is_some());
    assert!(cons.clone_slice(&mut buf, &mut vec).is_none());

    let _ = prod.push(&mut buf, 1);

    let mut dst = 0;

    assert!(cons.copy_item(&mut buf, &mut dst).is_some());
    assert!(cons.copy_item(&mut buf, &mut dst).is_none());

    let _ = prod.push(&mut buf, 1);

    assert!(cons.clone_item(&mut buf, &mut dst).is_some());
    assert!(cons.clone_item(&mut buf, &mut dst).is_none());
}
