use std::sync::Arc;
use fault_boundary::fault::{FaultDecision, FaultHandler};
use fault_boundary::handler::HandlerData;
use fault_boundary::trap::{TrapIndex, TrapReason, TrapRecord};

fn module_context(base: usize, size: usize, records: Vec<TrapRecord>) -> HandlerData {
    HandlerData::new(Arc::new(TrapIndex::build(records)), base, size)
}

#[test]
fn unclaimed_fault_is_forwarded() {
    let mut fh = FaultHandler::new();
    fh.register(module_context(0x1000, 0x100, Vec::new()));
    fh.register(module_context(0x3000, 0x100, Vec::new()));

    // a fault outside every registered region is never converted to a trap
    assert_eq!(fh.decide(0x0), FaultDecision::Forward);
    assert_eq!(fh.decide(0x0fff), FaultDecision::Forward);
    assert_eq!(fh.decide(0x1100), FaultDecision::Forward);
    assert_eq!(fh.decide(0x2000), FaultDecision::Forward);
    assert_eq!(fh.decide(usize::MAX), FaultDecision::Forward);
}

#[test]
fn claimed_fault_with_metadata_is_a_typed_trap() {
    let records = vec![
        TrapRecord { code_offset: 0x8, source_location: 1, reason: TrapReason::OutOfBoundsMemory },
        TrapRecord { code_offset: 0x20, source_location: 2, reason: TrapReason::Unreachable },
    ];
    let mut fh = FaultHandler::new();
    fh.register(module_context(0x5000, 0x100, records));

    assert_eq!(
        fh.decide(0x5008),
        FaultDecision::Trap { reason: TrapReason::OutOfBoundsMemory, source_location: 1 }
    );
    assert_eq!(
        fh.decide(0x5020),
        FaultDecision::Trap { reason: TrapReason::Unreachable, source_location: 2 }
    );
}

#[test]
fn claimed_fault_without_metadata_is_unknown_not_swallowed() {
    let records = vec![TrapRecord {
        code_offset: 0x8,
        source_location: 1,
        reason: TrapReason::OutOfBoundsMemory,
    }];
    let mut fh = FaultHandler::new();
    fh.register(module_context(0x5000, 0x100, records));

    assert_eq!(fh.decide(0x5009), FaultDecision::Unknown);
    assert_eq!(fh.decide(0x50ff), FaultDecision::Unknown);
}

#[test]
fn teardown_removes_a_module_from_triage() {
    let records = vec![TrapRecord {
        code_offset: 0x0,
        source_location: 5,
        reason: TrapReason::StackOverflow,
    }];
    let mut fh = FaultHandler::new();
    fh.register(module_context(0x9000, 0x40, records));
    assert_eq!(
        fh.decide(0x9000),
        FaultDecision::Trap { reason: TrapReason::StackOverflow, source_location: 5 }
    );

    assert!(fh.unregister(0x9000));
    assert_eq!(fh.decide(0x9000), FaultDecision::Forward);
    assert!(!fh.unregister(0x9000));
}
