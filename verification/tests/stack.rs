use oneringbuf::{LocalCompMut, OneRingBuf};

const BUFFER_SIZE: usize = 400;

#[test]
fn test_local_stack() {
    let mut buf = OneRingBuf::<usize, LocalCompMut>::from_array([0usize; BUFFER_SIZE]);
    let (mut prod, mut work, mut cons) = buf.split_mut();

    assert_eq!(prod.available(&buf), BUFFER_SIZE - 1);
    assert_eq!(work.available(&buf), 0);
    assert_eq!(cons.available(&buf), 0);

    for i in 0..BUFFER_SIZE - 1 {
        let _ = prod.push(&mut buf, i);
    }
    assert_eq!(prod.available(&buf), 0);
    assert_eq!(work.available(&buf), BUFFER_SIZE - 1);
    assert_eq!(cons.available(&buf), 0);

    for _ in 0..BUFFER_SIZE - 1 {
        if let Some(data) = work.get_mut(&buf) {
            work.set_item(&mut buf, data + 1);
            work.advance(&mut buf, 1);
        }
    }
    assert_eq!(prod.available(&buf), 0);
    assert_eq!(work.available(&buf), 0);
    assert_eq!(cons.available(&buf), BUFFER_SIZE - 1);

    for i in 0..BUFFER_SIZE - 1 {
        assert_eq!(cons.pop(&mut buf).unwrap(), i + 1);
    }

    assert_eq!(prod.available(&buf), BUFFER_SIZE - 1);
    assert_eq!(work.available(&buf), 0);
    assert_eq!(cons.available(&buf), 0);
}
