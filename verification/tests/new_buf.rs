use oneringbuf::LocalHeapRB;

const BUFFER_SIZE: usize = 400;

#[test]
fn test_new_buf() {
    let v: [usize; BUFFER_SIZE] = (0..BUFFER_SIZE).collect::<Vec<usize>>().try_into().unwrap();

    {
        let mut buf = LocalHeapRB::from(v.to_vec());
        let (mut prod, _) = buf.split();
        let b = prod.get_mut_slice_avail(&buf).unwrap();
        for (be, ve) in b.iter().zip(v.iter()) {
            assert_eq!(*ve, *be);
        }
    }

    {
        let mut buf = LocalHeapRB::from_array(v);
        let (mut prod, _) = buf.split();
        let b = prod.get_mut_slice_avail(&buf).unwrap();
        for (be, ve) in b.iter().zip(v.iter()) {
            assert_eq!(*ve, *be);
        }
    }
}
