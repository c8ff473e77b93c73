use tricore_probe::backtrace::{AddressInfo, BackTraceInfo, TrapInfo, TrapMetadata};
use tricore_probe::csa::{LowerContext, SavedContext, UpperContext};
use tricore_probe::stacktrace::Stacktrace;

#[test]
fn empty_metadata_never_classifies() {
    let meta = TrapMetadata::empty();
    assert_eq!(meta.trap_class(0), None);
    assert_eq!(meta.trap_class(0x8000_0000), None);
}

#[test]
fn trap_class_is_the_offset_in_32_byte_steps() {
    let meta = TrapMetadata::new(Some(0x8000_1000));
    assert_eq!(meta.trap_class(0x8000_1000), Some(0));
    assert_eq!(meta.trap_class(0x8000_1000 + 31), Some(0));
    assert_eq!(meta.trap_class(0x8000_1000 + 32), Some(1));
    assert_eq!(meta.trap_class(0x8000_1000 + 255), Some(7));
    // The window is 256 bytes: everything at or past its end is no trap.
    assert_eq!(meta.trap_class(0x8000_1000 + 256), None);
    // Addresses below the table base are no traps either.
    assert_eq!(meta.trap_class(0x8000_0FFF), None);
}

fn info(function: &str, module: &str) -> AddressInfo {
    AddressInfo::new(function.to_string(), module.to_string())
}

#[test]
fn assemble_tags_traps_and_keeps_order() {
    let mut upper = UpperContext::default();
    upper.a11 = 0x100; // call site of the halt frame
    upper.d15 = 0x42; // trap identifier
    let mut saved_upper = UpperContext::default();
    saved_upper.a11 = 0x8000_1040; // lands in trap class 2
    saved_upper.d15 = 7;
    let mut saved_lower = LowerContext::default();
    saved_lower.a11 = 0x8000_1040; // same address, but lower contexts are never tagged
    let trace = Stacktrace::new(
        0x8000_1020, // program counter in trap class 1
        upper,
        vec![SavedContext::Upper(saved_upper), SavedContext::Lower(saved_lower)],
    );
    let meta = TrapMetadata::new(Some(0x8000_1000));
    let infos = vec![info("halt", "m0"), info("caller", "m1"), info("f2", "m2"), info("f3", "m3")];
    let report = BackTraceInfo::assemble(&trace, &meta, &infos);

    assert_eq!(report.stack_frames.len(), 4);
    assert_eq!(report.stack_frames[0].address, 0x8000_1020);
    assert_eq!(report.stack_frames[0].is_trap, Some(TrapInfo { class: 1, trap_id: 0x42 }));
    assert_eq!(report.stack_frames[0].info.function, "halt");

    // The current call site is listed but never tagged.
    assert_eq!(report.stack_frames[1].address, 0x100);
    assert_eq!(report.stack_frames[1].is_trap, None);

    assert_eq!(report.stack_frames[2].address, 0x8000_1040);
    assert_eq!(report.stack_frames[2].is_trap, Some(TrapInfo { class: 2, trap_id: 7 }));

    assert_eq!(report.stack_frames[3].address, 0x8000_1040);
    assert_eq!(report.stack_frames[3].is_trap, None);
    assert_eq!(report.stack_frames[3].info.module, "m3");
}

#[test]
fn assemble_without_trap_table_tags_nothing() {
    let upper = UpperContext::default();
    let trace = Stacktrace::new(0x8000_1020, upper, Vec::new());
    let report = BackTraceInfo::assemble(
        &trace,
        &TrapMetadata::empty(),
        &vec![info("a", "b"), info("c", "d")],
    );
    assert_eq!(report.stack_frames.len(), 2);
    assert!(report.stack_frames.iter().all(|f| f.is_trap.is_none()));
}
