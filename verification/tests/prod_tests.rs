use oneringbuf::LocalHeapRB;

const BUFFER_SIZE: usize = 400;

#[test]
fn test_push_one_by_one() {
    let mut buf = LocalHeapRB::from(vec![0usize; BUFFER_SIZE]);
    let (mut prod, mut _cons) = buf.split();

    assert_eq!(prod.available(&buf), BUFFER_SIZE - 1);
    for i in 0..BUFFER_SIZE - 1 {
        assert!(prod.push(&mut buf, i).is_ok());
    }
    assert_eq!(prod.available(&buf), 0);
    assert!(prod.push(&mut buf, 1).is_err());
}

#[test]
fn test_push_slice() {
    let mut buf = LocalHeapRB::from(vec![0usize; BUFFER_SIZE]);
    let (mut prod, mut _cons) = buf.split();

    let half_slice = (0..BUFFER_SIZE / 2 - 1).collect::<Vec<usize>>();
    let slice = (0..BUFFER_SIZE).collect::<Vec<usize>>();

    assert_eq!(prod.available(&buf), BUFFER_SIZE - 1);

    assert!(prod.push_slice(&mut buf, &half_slice).is_some());

    assert_eq!(prod.available(&buf), BUFFER_SIZE / 2);

    assert!(prod.push_slice(&mut buf, &slice).is_none());

    assert!(prod.push_slice(&mut buf, &half_slice).is_some());

    assert_eq!(prod.available(&buf), 1);
}

#[test]
fn test_push_mut_ref_init() {
    let mut buf = LocalHeapRB::from(vec![0usize; BUFFER_SIZE]);
    let (mut prod, mut cons) = buf.split();

    assert_eq!(prod.available(&buf), BUFFER_SIZE - 1);
    for i in 0..BUFFER_SIZE - 1 {
        assert!(prod.get_next_item_mut_init(&mut buf, i).is_some());
        prod.advance(&mut buf, 1);
    }
    assert_eq!(prod.available(&buf), 0);
    assert!(prod.push(&mut buf, 1).is_err());

    for i in 0..BUFFER_SIZE - 1 {
        assert_eq!(cons.pop(&mut buf), Some(i));
    }
}
