use drbug::address::VirtAddr;
use drbug::breakpoints::BreakpointStore;
use drbug::memio::{hide_traps, merge_tail_word, page_chunks};

#[test]
fn read_within_one_page_is_one_chunk() {
    let chunks = page_chunks(VirtAddr(0x1000), 32);
    assert_eq!(chunks, vec![(0x1000, 32)]);
}

#[test]
fn read_across_a_page_boundary_splits_at_it() {
    let chunks = page_chunks(VirtAddr(0xfff), 8);
    assert_eq!(chunks, vec![(0xfff, 1), (0x1000, 7)]);
}

#[test]
fn read_spanning_pages_splits_per_page() {
    let chunks = page_chunks(VirtAddr(0x1ffe), 0x2004);
    assert_eq!(
        chunks,
        vec![(0x1ffe, 2), (0x2000, 0x1000), (0x3000, 0x1000), (0x4000, 2)]
    );
}

#[test]
fn empty_read_has_no_chunks() {
    assert_eq!(page_chunks(VirtAddr(0x1234), 0), vec![]);
}

#[test]
fn trailing_write_fragment_merges_with_old_bytes() {
    // writing "Hello, drb!" leaves a 3-byte tail after one full word
    let data: Vec<u8> = b"Hello, drb!".to_vec();
    let old_word: Vec<u8> = vec![0xa0, 0xa1, 0xa2, 0xa3, 0xa4, 0xa5, 0xa6, 0xa7];
    let word = merge_tail_word(&data, 8, &old_word);
    let merged = word.to_le_bytes();
    assert_eq!(&merged[..3], b"rb!");
    assert_eq!(&merged[3..], &[0xa3, 0xa4, 0xa5, 0xa6, 0xa7]);
}

#[test]
fn hidden_read_shows_saved_bytes_at_enabled_sites_only() {
    let mut store = BreakpointStore::new();
    let s1 = store.create(VirtAddr(0x1002)).unwrap();
    let s2 = store.create(VirtAddr(0x1004)).unwrap();
    store.create(VirtAddr(0x1050)).unwrap(); // outside the buffer
    store.set_enabled(s1.id, 0x55);
    // s2 stays disabled: its byte must come through unchanged

    let buf = vec![0xcc, 0xcc, 0xcc, 0xcc, 0xcc, 0xcc];
    let out = hide_traps(buf, VirtAddr(0x1000), &store);
    assert_eq!(out, vec![0xcc, 0xcc, 0x55, 0xcc, 0xcc, 0xcc]);
    let _ = s2;
}

#[test]
fn hidden_read_without_sites_is_the_raw_read() {
    let store = BreakpointStore::new();
    let buf = vec![1, 2, 3, 4];
    assert_eq!(hide_traps(buf.clone(), VirtAddr(0x2000), &store), buf);
}
