use fault_boundary::trap::{TrapIndex, TrapReason, TrapRecord};

fn rec(code_offset: usize, source_location: u32, reason: TrapReason) -> TrapRecord {
    TrapRecord { code_offset, source_location, reason }
}

#[test]
fn lookup_finds_every_inserted_offset() {
    let records = vec![
        rec(0, 100, TrapReason::OutOfBoundsMemory),
        rec(8, 101, TrapReason::IntegerDivisionByZero),
        rec(24, 102, TrapReason::Unreachable),
        rec(25, 103, TrapReason::IntegerOverflow),
        rec(4096, 104, TrapReason::StackOverflow),
    ];
    let idx = TrapIndex::build(records.clone());
    for r in &records {
        let found = idx.lookup(r.code_offset);
        assert_eq!(found, Some(*r));
    }
}

#[test]
fn lookup_misses_every_absent_offset() {
    let records = vec![
        rec(3, 1, TrapReason::IndirectCallTypeMismatch),
        rec(9, 2, TrapReason::IndirectCallNullTarget),
        rec(27, 3, TrapReason::Uninitialized),
    ];
    let idx = TrapIndex::build(records);
    for off in [0usize, 1, 2, 4, 8, 10, 26, 28, 1000, usize::MAX] {
        assert_eq!(idx.lookup(off), None);
    }
}

#[test]
fn empty_index_finds_nothing() {
    let idx = TrapIndex::build(Vec::new());
    assert_eq!(idx.len(), 0);
    assert_eq!(idx.lookup(0), None);
    assert_eq!(idx.lookup(usize::MAX), None);
}

#[test]
fn single_record_index() {
    let r = rec(usize::MAX, 9, TrapReason::OutOfBoundsMemory);
    let idx = TrapIndex::build(vec![r]);
    assert_eq!(idx.lookup(usize::MAX), Some(r));
    assert_eq!(idx.lookup(usize::MAX - 1), None);
    assert_eq!(idx.lookup(0), None);
}
