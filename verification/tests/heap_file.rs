use pagedisk::{DiskError, HeapFile};

#[test]
fn new_heap_file_is_empty() {
    let file = HeapFile::new();
    assert_eq!(file.len(), 0);
    assert_eq!(file.to_bytes(), Vec::<u8>::new());
    assert_eq!(file.durable_bytes(), Vec::<u8>::new());
}

#[test]
fn from_bytes_holds_the_bytes_durably() {
    let file = HeapFile::from_bytes(vec![1, 2, 3]);
    assert_eq!(file.len(), 3);
    assert_eq!(file.to_bytes(), vec![1, 2, 3]);
    assert_eq!(file.durable_bytes(), vec![1, 2, 3]);
}

#[test]
fn write_inside_the_file_overwrites_in_place() {
    let mut file = HeapFile::from_bytes(vec![1, 2, 3, 4, 5]);
    assert_eq!(file.write_all_at(1, &[8, 9]), Ok(()));
    assert_eq!(file.to_bytes(), vec![1, 8, 9, 4, 5]);
    assert_eq!(file.durable_bytes(), vec![1, 2, 3, 4, 5]);
}

#[test]
fn write_across_the_end_grows_the_file() {
    let mut file = HeapFile::from_bytes(vec![1, 2, 3]);
    assert_eq!(file.write_all_at(2, &[7, 8, 9]), Ok(()));
    assert_eq!(file.to_bytes(), vec![1, 2, 7, 8, 9]);
}

#[test]
fn write_at_the_end_appends() {
    let mut file = HeapFile::from_bytes(vec![1, 2, 3]);
    assert_eq!(file.write_all_at(3, &[4]), Ok(()));
    assert_eq!(file.to_bytes(), vec![1, 2, 3, 4]);
}

#[test]
fn write_past_the_end_fills_the_gap_with_zeros() {
    let mut file = HeapFile::from_bytes(vec![1, 2]);
    assert_eq!(file.write_all_at(5, &[6, 7]), Ok(()));
    assert_eq!(file.to_bytes(), vec![1, 2, 0, 0, 0, 6, 7]);
}

#[test]
fn write_of_nothing_changes_nothing() {
    let mut file = HeapFile::from_bytes(vec![1, 2]);
    assert_eq!(file.write_all_at(0, &[]), Ok(()));
    assert_eq!(file.write_all_at(100, &[]), Ok(()));
    assert_eq!(file.write_all_at(usize::MAX, &[]), Ok(()));
    assert_eq!(file.to_bytes(), vec![1, 2]);
}

#[test]
fn write_that_cannot_be_addressed_is_rejected() {
    let mut file = HeapFile::from_bytes(vec![1, 2]);
    assert_eq!(file.write_all_at(usize::MAX, &[1]), Err(DiskError::OffsetOutOfRange));
    assert_eq!(file.write_all_at(usize::MAX - 1, &[1, 2]), Err(DiskError::OffsetOutOfRange));
    assert_eq!(file.to_bytes(), vec![1, 2]);
}

#[test]
fn read_exact_fills_the_buffer() {
    let file = HeapFile::from_bytes(vec![10, 20, 30, 40]);
    let mut out = [0u8; 2];
    assert_eq!(file.read_exact_at(1, &mut out), Ok(()));
    assert_eq!(out, [20, 30]);
    assert_eq!(file.read_exact_at(2, &mut out), Ok(()));
    assert_eq!(out, [30, 40]);
    let mut all = [0u8; 4];
    assert_eq!(file.read_exact_at(0, &mut all), Ok(()));
    assert_eq!(all, [10, 20, 30, 40]);
}

#[test]
fn short_read_fails_and_keeps_the_buffer() {
    let file = HeapFile::from_bytes(vec![10, 20, 30, 40]);
    let mut out = [5u8; 2];
    assert_eq!(file.read_exact_at(3, &mut out), Err(DiskError::UnexpectedEof));
    assert_eq!(file.read_exact_at(4, &mut out), Err(DiskError::UnexpectedEof));
    assert_eq!(file.read_exact_at(usize::MAX, &mut out), Err(DiskError::UnexpectedEof));
    assert_eq!(out, [5, 5]);
    let mut large = [5u8; 5];
    assert_eq!(file.read_exact_at(0, &mut large), Err(DiskError::UnexpectedEof));
    assert_eq!(large, [5u8; 5]);
}

#[test]
fn read_of_nothing_succeeds_anywhere() {
    let file = HeapFile::from_bytes(vec![10, 20]);
    let mut out: [u8; 0] = [];
    assert_eq!(file.read_exact_at(0, &mut out), Ok(()));
    assert_eq!(file.read_exact_at(2, &mut out), Ok(()));
    assert_eq!(file.read_exact_at(1000, &mut out), Ok(()));
}

#[test]
fn sync_makes_writes_durable() {
    let mut file = HeapFile::new();
    assert_eq!(file.write_all_at(0, &[1, 2, 3]), Ok(()));
    assert_eq!(file.durable_bytes(), Vec::<u8>::new());
    file.sync();
    assert_eq!(file.durable_bytes(), vec![1, 2, 3]);
    assert_eq!(file.to_bytes(), vec![1, 2, 3]);
}

#[test]
fn recover_drops_what_was_not_synced() {
    let mut file = HeapFile::from_bytes(vec![1, 2, 3]);
    assert_eq!(file.write_all_at(1, &[9, 9, 9, 9]), Ok(()));
    let recovered = file.recover();
    assert_eq!(recovered.to_bytes(), vec![1, 2, 3]);
    assert_eq!(recovered.durable_bytes(), vec![1, 2, 3]);
}
