use fault_boundary::unwind::{check_frame_table, FrameTableWalk, UnwindInfo, UnwindRegistry};

/// A synthetic frame table of length-prefixed entries: a leading common
/// information entry followed by two frame descriptors.
fn frame_table() -> Vec<u8> {
    let mut t = Vec::new();
    // entry at 0 (the CIE): length 4, then 4 body bytes
    t.extend_from_slice(&[4, 0, 0, 0, 0xaa, 0xaa, 0xaa, 0xaa]);
    // entry at 8: length 8, then 8 body bytes
    t.extend_from_slice(&[8, 0, 0, 0, 0xbb, 0xbb, 0xbb, 0xbb, 0xbb, 0xbb, 0xbb, 0xbb]);
    // entry at 20: length 4, then 4 body bytes
    t.extend_from_slice(&[4, 0, 0, 0, 0xcc, 0xcc, 0xcc, 0xcc]);
    t
}

#[test]
fn register_accepts_only_the_supported_encoding() {
    let mut reg = UnwindRegistry::new();
    assert!(reg.register(0x1000, 0, 0x20, &UnwindInfo::Dwarf).is_ok());
    let err = reg
        .register(0x1000, 0x20, 0x10, &UnwindInfo::WindowsX64(vec![1, 2, 3]))
        .expect_err("only the cross-platform encoding is supported");
    assert_eq!(err, "unsupported unwind information");
}

#[test]
fn publishing_twice_fails() {
    let mut reg = UnwindRegistry::new();
    assert!(reg.publish(None, 0, FrameTableWalk::WholeTable).is_ok());
    let err = reg
        .publish(None, 0, FrameTableWalk::WholeTable)
        .expect_err("a registry publishes exactly once");
    assert_eq!(err, "unwind registry has already been published");
}

#[test]
fn registering_after_publish_fails() {
    let mut reg = UnwindRegistry::new();
    assert!(reg.register(0x1000, 0, 0x20, &UnwindInfo::Dwarf).is_ok());
    assert!(reg.publish(None, 0, FrameTableWalk::WholeTable).is_ok());
    let err = reg
        .register(0x1000, 0x20, 0x10, &UnwindInfo::Dwarf)
        .expect_err("registration is valid only pre-publish");
    assert_eq!(err, "unwind registry has already been published");
}

#[test]
fn entry_walk_registers_every_descriptor_after_the_leading_entry() {
    let table = frame_table();
    let base = 0x9000usize;
    let mut reg = UnwindRegistry::new();
    let regs = reg
        .publish(Some(table.as_slice()), base, FrameTableWalk::EntryPerFde)
        .expect("first publication succeeds");
    // descriptors at table offsets 8 and 20; the entry at 0 is skipped
    assert_eq!(regs, vec![base + 8, base + 20]);
    let order = reg.discard();
    assert_eq!(order, vec![base + 20, base + 8]);
}

#[test]
fn whole_table_walk_registers_the_table_start_once() {
    let table = frame_table();
    let base = 0x9000usize;
    let mut reg = UnwindRegistry::new();
    let regs = reg
        .publish(Some(table.as_slice()), base, FrameTableWalk::WholeTable)
        .expect("first publication succeeds");
    assert_eq!(regs, vec![base]);
    let order = reg.discard();
    assert_eq!(order, vec![base]);
}

#[test]
fn teardown_order_is_the_exact_reverse_of_registration_order() {
    // a table of five descriptors after the leading entry, each 4 bytes long
    let mut table = Vec::new();
    for _ in 0..6 {
        table.extend_from_slice(&[4, 0, 0, 0, 0, 0, 0, 0]);
    }
    let base = 0x2_0000usize;
    let mut reg = UnwindRegistry::new();
    let registered = reg
        .publish(Some(table.as_slice()), base, FrameTableWalk::EntryPerFde)
        .expect("first publication succeeds");
    assert_eq!(registered, (1..6).map(|k| base + 8 * k).collect::<Vec<usize>>());
    let order = reg.discard();
    let reversed: Vec<usize> = registered.iter().rev().copied().collect();
    assert_eq!(order, reversed);
}

#[test]
fn unpublished_registry_deregisters_nothing() {
    let reg = UnwindRegistry::new();
    assert_eq!(reg.discard(), Vec::<usize>::new());
}

#[test]
fn empty_frame_table_registers_nothing_under_entry_walk() {
    let empty: Vec<u8> = Vec::new();
    let mut reg = UnwindRegistry::new();
    reg.publish(Some(empty.as_slice()), 0x1000, FrameTableWalk::EntryPerFde)
        .expect("an empty table publishes");
    assert_eq!(reg.discard(), Vec::<usize>::new());
}

#[test]
fn malformed_frame_tables_are_rejected() {
    // too short for a length prefix
    assert!(!check_frame_table(&[1, 2, 3]));
    // a prefix that runs past the end of the table
    assert!(!check_frame_table(&[8, 0, 0, 0, 1, 2]));
    // a walk landing exactly on the end is accepted
    assert!(check_frame_table(&[2, 0, 0, 0, 9, 9]));
    // an empty table is well formed
    assert!(check_frame_table(&[]));
}
