use oneringbuf::LocalHeapRB;
use std::rc::Rc;

const BUFFER_SIZE: usize = 400;

#[test]
fn test_uninit() {
    // Indices from 0 to BUFFER_SIZE-1 are uninitialised placeholders.
    let mut buf = LocalHeapRB::<Rc<usize>>::new_zeroed(BUFFER_SIZE);
    let (mut prod, mut cons) = buf.split();

    let slice = (0..BUFFER_SIZE - 1)
        .map(Rc::new)
        .collect::<Vec<Rc<usize>>>();

    for x in &slice {
        prod.push_init(&mut buf, x.clone()).unwrap();
    }

    cons.advance(&mut buf, BUFFER_SIZE - 1);

    for x in &slice {
        prod.push_init(&mut buf, x.clone()).unwrap();
    }

    for _ in &slice {
        cons.pop_move(&mut buf).unwrap();
    }

    for x in &slice {
        prod.push_init(&mut buf, x.clone()).unwrap();
    }

    cons.advance(&mut buf, BUFFER_SIZE - 1);

    prod.push_slice_clone_init(&mut buf, &slice).unwrap();

    cons.advance(&mut buf, BUFFER_SIZE - 1);

    prod.push_slice_clone(&mut buf, &slice).unwrap();

    for _ in &slice {
        cons.pop_move(&mut buf).unwrap();
    }

    drop(prod);
    drop(cons);
}
