use oneringbuf::LocalHeapRB;

#[test]
fn prod_iter_cached_avail() {
    const BUFFER_SIZE: usize = 4095;

    let mut buf = LocalHeapRB::<u32>::new_default(BUFFER_SIZE + 1);

    let (mut prod, mut cons) = buf.split();

    assert_eq!(prod.cached_avail(), 0);

    prod.check(&buf, 1);

    assert_eq!(prod.cached_avail(), BUFFER_SIZE);

    prod.advance(&mut buf, 2);

    assert_eq!(prod.cached_avail(), BUFFER_SIZE - 2);

    cons.advance(&mut buf, 1);

    assert_eq!(prod.cached_avail(), BUFFER_SIZE - 2);

    prod.check(&buf, 10);

    assert_eq!(prod.cached_avail(), BUFFER_SIZE - 2);
}

#[test]
fn cons_iter_cached_avail() {
    const BUFFER_SIZE: usize = 100;

    let mut buf = LocalHeapRB::<u32>::new_default(BUFFER_SIZE + 1);

    let (mut prod, mut cons) = buf.split();

    assert_eq!(cons.cached_avail(), 0);

    prod.advance(&mut buf, 10);

    assert_eq!(cons.cached_avail(), 0);

    cons.check(&buf, 1);

    assert_eq!(cons.cached_avail(), 10);

    cons.advance(&mut buf, 9);

    assert_eq!(cons.cached_avail(), 1);
}
