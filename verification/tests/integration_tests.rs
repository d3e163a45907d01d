use oneringbuf::LocalHeapRBMut;

const BUFFER_SIZE: usize = 400;

#[test]
fn test_push_work_pop_single() {
    let mut buf = LocalHeapRBMut::from(vec![0usize; BUFFER_SIZE]);
    let (mut prod, mut work, mut cons) = buf.split_mut();

    assert_eq!(prod.available(&buf), BUFFER_SIZE - 1);
    assert_eq!(work.available(&buf), 0);
    assert_eq!(cons.available(&buf), 0);

    for i in 0..BUFFER_SIZE - 1 {
        let _ = prod.push(&mut buf, i);
    }
    assert_eq!(prod.available(&buf), 0);
    assert_eq!(work.available(&buf), BUFFER_SIZE - 1);
    assert_eq!(cons.available(&buf), 0);

    for _ in 0..BUFFER_SIZE - 1 {
        if let Some(data) = work.get_mut(&buf) {
            work.set_item(&mut buf, data + 1);
            work.advance(&mut buf, 1);
        }
    }
    assert_eq!(prod.available(&buf), 0);
    assert_eq!(work.available(&buf), 0);
    assert_eq!(cons.available(&buf), BUFFER_SIZE - 1);

    for i in 0..BUFFER_SIZE - 1 {
        assert_eq!(cons.pop(&mut buf).unwrap(), i + 1);
    }

    assert_eq!(prod.available(&buf), BUFFER_SIZE - 1);
    assert_eq!(work.available(&buf), 0);
    assert_eq!(cons.available(&buf), 0);
}

#[test]
fn test_push_work_pop_slice() {
    let mut buf = LocalHeapRBMut::from(vec![0usize; BUFFER_SIZE]);
    let (mut prod, mut work, mut cons) = buf.split_mut();

    let slice = (0..BUFFER_SIZE - 1).collect::<Vec<usize>>();

    assert_eq!(prod.available(&buf), BUFFER_SIZE - 1);
    assert_eq!(work.available(&buf), 0);
    assert_eq!(cons.available(&buf), 0);

    prod.push_slice(&mut buf, &slice);

    assert_eq!(prod.available(&buf), 0);
    assert_eq!(work.available(&buf), BUFFER_SIZE - 1);
    assert_eq!(cons.available(&buf), 0);

    if let Some(mut s) = work.get_mut_slice_exact(&buf, BUFFER_SIZE - 1) {
        for i in s.iter_mut() {
            *i += 1;
        }
        work.write_slice(&mut buf, &s);
        work.advance(&mut buf, BUFFER_SIZE - 1);
    }

    assert_eq!(prod.available(&buf), 0);
    assert_eq!(work.available(&buf), 0);
    assert_eq!(cons.available(&buf), BUFFER_SIZE - 1);

    if let Some((h, t)) = cons.peek_slice(&buf, BUFFER_SIZE - 1) {
        for (consumed, i) in [h, t].concat().iter().zip(slice) {
            assert_eq!(*consumed, i + 1);
        }
    }

    cons.advance(&mut buf, BUFFER_SIZE - 1);

    assert_eq!(prod.available(&buf), BUFFER_SIZE - 1);
    assert_eq!(work.available(&buf), 0);
    assert_eq!(cons.available(&buf), 0);
}

#[test]
fn test_reset() {
    let mut buf = LocalHeapRBMut::from(vec![0usize; BUFFER_SIZE]);
    let (mut prod, mut work, mut cons) = buf.split_mut();

    let two_thirds_slice = (0..BUFFER_SIZE / 3 * 2).collect::<Vec<usize>>();
    let slice = (0..BUFFER_SIZE - 1).collect::<Vec<usize>>();

    assert_eq!(prod.available(&buf), BUFFER_SIZE - 1);
    assert_eq!(work.available(&buf), 0);
    assert_eq!(cons.available(&buf), 0);

    prod.push_slice(&mut buf, &two_thirds_slice);

    assert_eq!(prod.available(&buf), BUFFER_SIZE / 3);
    assert_eq!(work.available(&buf), BUFFER_SIZE / 3 * 2);
    assert_eq!(cons.available(&buf), 0);

    work.advance(&mut buf, BUFFER_SIZE / 3);

    assert_eq!(prod.available(&buf), BUFFER_SIZE / 3);
    assert_eq!(work.available(&buf), BUFFER_SIZE / 3);
    assert_eq!(cons.available(&buf), BUFFER_SIZE / 3);

    work.reset_index(&mut buf);

    assert_eq!(prod.available(&buf), BUFFER_SIZE / 3);
    assert_eq!(work.available(&buf), 0);
    assert_eq!(cons.available(&buf), BUFFER_SIZE / 3 * 2);

    cons.reset_index(&mut buf);

    assert_eq!(prod.available(&buf), BUFFER_SIZE - 1);
    assert_eq!(work.available(&buf), 0);
    assert_eq!(cons.available(&buf), 0);

    prod.push_slice(&mut buf, &slice);

    assert_eq!(prod.available(&buf), 0);
    assert_eq!(work.available(&buf), BUFFER_SIZE - 1);
    assert_eq!(cons.available(&buf), 0);

    work.reset_index(&mut buf);

    assert_eq!(prod.available(&buf), 0);
    assert_eq!(work.available(&buf), 0);
    assert_eq!(cons.available(&buf), BUFFER_SIZE - 1);
}
