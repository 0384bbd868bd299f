use drbug::address::VirtAddr;
use drbug::breakpoints::{disable_patch, enable_patch, BreakpointStore};
use drbug::error::DrbugError;

#[test]
fn create_breakpoint_site_records_the_address() {
    let mut store = BreakpointStore::new();
    let site = store.create(VirtAddr(42)).unwrap();
    assert_eq!(site.addr, VirtAddr(42));
    assert!(!site.enabled);
}

#[test]
fn breakpoint_site_ids_increase() {
    let mut store = BreakpointStore::new();
    let s1 = store.create(VirtAddr(42)).unwrap();
    let s2 = store.create(VirtAddr(43)).unwrap();
    let s3 = store.create(VirtAddr(44)).unwrap();
    assert_eq!(s1.id, 1);
    assert_eq!(s2.id, 2);
    assert_eq!(s3.id, 3);
}

#[test]
fn ids_keep_increasing_after_removal() {
    let mut store = BreakpointStore::new();
    let s1 = store.create(VirtAddr(42)).unwrap();
    store.remove(&s1.id);
    let s2 = store.create(VirtAddr(42)).unwrap();
    assert!(s2.id > s1.id);
}

#[test]
fn duplicate_breakpoint_reports_the_existing_site() {
    let mut store = BreakpointStore::new();
    store.create(VirtAddr(0x2a)).unwrap();
    match store.create(VirtAddr(0x2a)) {
        Err(DrbugError::BreakpointSiteExists(id, addr)) => {
            assert_eq!(id, 1);
            assert_eq!(addr, VirtAddr(0x2a));
        },
        other => panic!("expected BreakpointSiteExists, got {other:?}"),
    }
}

#[test]
fn get_site_by_id_and_address() {
    let mut store = BreakpointStore::new();
    let expected = store.create(VirtAddr(42)).unwrap();
    assert_eq!(store.get(&1), Some(expected));
    assert_eq!(store.get_by_addr(&VirtAddr(42)), Some(expected));
    assert_eq!(store.get(&1234), None);
    assert_eq!(store.get_by_addr(&VirtAddr(1234)), None);
}

#[test]
fn remove_site_empties_the_store() {
    let mut store = BreakpointStore::new();
    store.create(VirtAddr(42)).unwrap();
    let removed = store.remove(&1).unwrap();
    assert_eq!(removed.addr, VirtAddr(42));
    assert!(store.is_empty());
    // removing an unknown id is a no-op
    assert!(store.remove(&7).is_none());
}

#[test]
fn store_len_counts_live_sites() {
    let mut store = BreakpointStore::new();
    let s1 = store.create(VirtAddr(42)).unwrap();
    store.create(VirtAddr(43)).unwrap();
    assert_eq!(store.len(), 2);
    store.remove(&s1.id);
    assert_eq!(store.len(), 1);
}

#[test]
fn enabled_state_is_tracked_per_site() {
    let mut store = BreakpointStore::new();
    let s1 = store.create(VirtAddr(42)).unwrap();
    store.create(VirtAddr(43)).unwrap();
    assert!(!store.breakable_enabled_at(&VirtAddr(42)));
    store.set_enabled(s1.id, 0x90);
    assert!(store.breakable_enabled_at(&VirtAddr(42)));
    assert!(!store.breakable_enabled_at(&VirtAddr(43)));
    assert_eq!(store.get(&s1.id).unwrap().saved_byte, 0x90);
    store.set_disabled(s1.id);
    assert!(!store.breakable_enabled_at(&VirtAddr(42)));
}

#[test]
fn int3_patch_and_restore_round_trip() {
    let word: u64 = 0x1122334455667788;
    let (patched, saved) = enable_patch(word);
    assert_eq!(patched, 0x11223344556677cc);
    assert_eq!(saved, 0x88);
    // everything above the low byte is untouched while enabled
    assert_eq!(patched >> 8, word >> 8);
    // restoring the saved byte gives back the original word
    assert_eq!(disable_patch(patched, saved), word);
}

#[test]
fn both_indices_agree_after_churn() {
    let mut store = BreakpointStore::new();
    let a = store.create(VirtAddr(0x10)).unwrap();
    let b = store.create(VirtAddr(0x20)).unwrap();
    let c = store.create(VirtAddr(0x30)).unwrap();
    store.remove(&b.id);
    let d = store.create(VirtAddr(0x40)).unwrap();

    // every site found by id is found again by its address, and back
    for site in [a, c, d] {
        let by_id = store.get(&site.id).unwrap();
        let by_addr = store.get_by_addr(&by_id.addr).unwrap();
        assert_eq!(by_addr.id, site.id);
        assert_eq!(by_addr.addr, site.addr);
    }
    assert!(store.get(&b.id).is_none());
    assert!(store.get_by_addr(&VirtAddr(0x20)).is_none());
}
