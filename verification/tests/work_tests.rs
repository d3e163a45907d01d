use oneringbuf::iterators::ProdIter;
use oneringbuf::LocalHeapRBMut;

const BUFFER_SIZE: usize = 400;

const MULTIPLE: usize = 42;

fn fill_buf(prod: &mut ProdIter, buf: &mut LocalHeapRBMut<usize>) {
    let slice = (0..BUFFER_SIZE - 1).collect::<Vec<usize>>();
    prod.push_slice(buf, &slice);
}

#[test]
fn test_work_single() {
    let mut buf = LocalHeapRBMut::from(vec![0usize; BUFFER_SIZE]);
    let (mut prod, mut work, mut cons) = buf.split_mut();

    assert_eq!(prod.available(&buf), BUFFER_SIZE - 1);
    assert_eq!(work.available(&buf), 0);
    assert_eq!(cons.available(&buf), 0);

    fill_buf(&mut prod, &mut buf);

    assert_eq!(prod.available(&buf), 0);
    assert_eq!(work.available(&buf), BUFFER_SIZE - 1);
    assert_eq!(cons.available(&buf), 0);

    for _ in 0..BUFFER_SIZE - 1 {
        if let Some(data) = work.get_mut(&buf) {
            work.set_item(&mut buf, data + 1);
            work.advance(&mut buf, 1);
        }
    }
    assert_eq!(prod.available(&buf), 0);
    assert_eq!(work.available(&buf), 0);
    assert_eq!(cons.available(&buf), BUFFER_SIZE - 1);

    for i in 0..BUFFER_SIZE - 1 {
        assert_eq!(cons.pop(&mut buf).unwrap(), i + 1);
    }

    assert_eq!(prod.available(&buf), BUFFER_SIZE - 1);
    assert_eq!(work.available(&buf), 0);
    assert_eq!(cons.available(&buf), 0);
}

#[test]
fn test_work_mul() {
    let mut buf = LocalHeapRBMut::from(vec![0usize; BUFFER_SIZE]);
    let (mut prod, mut work, mut cons) = buf.split_mut();

    assert_eq!(prod.available(&buf), BUFFER_SIZE - 1);
    assert_eq!(work.available(&buf), 0);
    assert_eq!(cons.available(&buf), 0);

    fill_buf(&mut prod, &mut buf);

    assert_eq!(prod.available(&buf), 0);
    assert_eq!(work.available(&buf), BUFFER_SIZE - 1);
    assert_eq!(cons.available(&buf), 0);

    if let Some(mut s) = work.get_mut_slice_multiple_of(&buf, MULTIPLE) {
        let len = s.len();

        s.iter_mut().for_each(|v| *v += 1);
        work.write_slice(&mut buf, &s);

        work.advance(&mut buf, len);
    }

    let rem = BUFFER_SIZE % MULTIPLE;
    assert_eq!(prod.available(&buf), 0);
    assert_eq!(work.available(&buf), rem - 1);
    assert_eq!(cons.available(&buf), BUFFER_SIZE - rem);

    for i in 0..BUFFER_SIZE - rem {
        assert_eq!(*cons.peek_ref(&buf).unwrap(), i + 1);
        cons.advance(&mut buf, 1);
    }

    assert_eq!(prod.available(&buf), BUFFER_SIZE - rem);
    assert_eq!(work.available(&buf), rem - 1);
    assert_eq!(cons.available(&buf), 0);

    if let Some(mut s) = work.get_mut_slice_avail(&buf) {
        let len = s.len();

        s.iter_mut().for_each(|v| *v += 1);
        work.write_slice(&mut buf, &s);

        work.advance(&mut buf, len);
    }

    assert_eq!(prod.available(&buf), BUFFER_SIZE - rem);
    assert_eq!(work.available(&buf), 0);
    assert_eq!(cons.available(&buf), rem - 1);

    for i in BUFFER_SIZE - rem..BUFFER_SIZE - 1 {
        assert_eq!(cons.pop(&mut buf).unwrap(), i + 1);
    }

    assert_eq!(prod.available(&buf), BUFFER_SIZE - 1);
    assert_eq!(work.available(&buf), 0);
    assert_eq!(cons.available(&buf), 0);
}

#[test]
fn test_work_exact() {
    let mut buf = LocalHeapRBMut::from(vec![0usize; BUFFER_SIZE]);
    let (mut prod, mut work, mut cons) = buf.split_mut();

    assert_eq!(prod.available(&buf), BUFFER_SIZE - 1);
    assert_eq!(work.available(&buf), 0);
    assert_eq!(cons.available(&buf), 0);

    fill_buf(&mut prod, &mut buf);

    assert_eq!(prod.available(&buf), 0);
    assert_eq!(work.available(&buf), BUFFER_SIZE - 1);
    assert_eq!(cons.available(&buf), 0);

    let step = 10;
    let max = 30;
    for _ in 0..max {
        if let Some(mut s) = work.get_mut_slice_exact(&buf, step) {
            let len = s.len();

            s.iter_mut().for_each(|v| *v += 1);
            work.write_slice(&mut buf, &s);

            work.advance(&mut buf, len);
        }
    }

    assert_eq!(prod.available(&buf), 0);
    assert_eq!(work.available(&buf), BUFFER_SIZE - 1 - max * step);
    assert_eq!(cons.available(&buf), max * step);

    for i in 0..cons.available(&buf) {
        assert_eq!(cons.pop(&mut buf).unwrap(), i + 1);
    }

    assert_eq!(prod.available(&buf), max * step);
    assert_eq!(work.available(&buf), BUFFER_SIZE - 1 - max * step);
    assert_eq!(cons.available(&buf), 0);
}
