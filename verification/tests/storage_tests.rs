use oneringbuf::{HeapStorage, StackStorage};

const BUF_LEN: usize = 100;

#[test]
fn from_tests() {
    let _ = HeapStorage::from(vec![0; BUF_LEN]);
    let _: HeapStorage<i32> = HeapStorage::from(vec![0i32; BUF_LEN]);
}

#[test]
fn mod_from_tests() {
    let _ = StackStorage::from([0; 100]);
    let _: StackStorage<i32, 100> = StackStorage::from([0i32; 100]);
}

#[test]
fn stack_storage_reads_back() {
    let s = StackStorage::from([1u32, 2, 3, 4]);
    assert_eq!(s.len(), 4);
    assert_eq!(*s.index(2), 3);
    assert!(s.is_init(0));
    let (head, tail) = s.next_chunk(3, 2);
    assert_eq!(head, &[4]);
    assert_eq!(tail, &[1]);
}

#[test]
fn heap_storage_reads_back() {
    let s = HeapStorage::from(vec![7u8, 8, 9]);
    assert_eq!(s.len(), 3);
    assert_eq!(*s.index(0), 7);
    let (head, tail) = s.next_chunk(1, 2);
    assert_eq!(head, &[8, 9]);
    assert!(tail.is_empty());
}
