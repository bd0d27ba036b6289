use std::sync::Arc;
use fault_boundary::handler::HandlerData;
use fault_boundary::region::ExecutableRegion;
use fault_boundary::trap::{TrapIndex, TrapReason, TrapRecord};

#[test]
fn contains_is_the_half_open_range() {
    let r = ExecutableRegion::new(0x1000, 0x200);
    assert!(!r.contains(0xfff));
    assert!(r.contains(0x1000)); // base itself is inside
    assert!(r.contains(0x10ff));
    assert!(r.contains(0x11ff));
    assert!(!r.contains(0x1200)); // one past the end is outside
    assert!(!r.contains(usize::MAX));
    assert!(!r.contains(0));
}

#[test]
fn empty_region_contains_nothing() {
    let r = ExecutableRegion::new(0x4000, 0);
    assert!(!r.contains(0x4000));
    assert!(!r.contains(0x3fff));
    assert!(!r.contains(0x4001));
}

#[test]
fn region_at_the_top_of_the_address_space() {
    let r = ExecutableRegion::new(usize::MAX - 4, 4);
    assert!(r.contains(usize::MAX - 4));
    assert!(r.contains(usize::MAX - 1));
    assert!(!r.contains(usize::MAX));
}

#[test]
fn handler_data_translates_addresses_to_offsets() {
    let records = vec![TrapRecord {
        code_offset: 0x10,
        source_location: 77,
        reason: TrapReason::IntegerDivisionByZero,
    }];
    let idx = Arc::new(TrapIndex::build(records));
    let h = HandlerData::new(idx, 0x7f00, 0x100);

    assert!(h.contains(0x7f00));
    assert!(!h.contains(0x8000));

    // the faulting address maps to the in-region offset before the index is consulted
    let hit = h.lookup(0x7f10).expect("offset 0x10 carries a record");
    assert_eq!(hit.reason, TrapReason::IntegerDivisionByZero);
    assert_eq!(hit.source_location, 77);
    assert_eq!(hit.code_offset, 0x10);

    // inside the region, offset without metadata
    assert_eq!(h.lookup(0x7f11), None);
    // outside the region entirely, even though 0x10 is a known offset elsewhere
    assert_eq!(h.lookup(0x10), None);
}
