use aarch32::trampoline::{
    exception_return, fpu_context_bytes, interrupted_thumb, return_address, svc_instruction_address,
    svc_number, ExceptionKind, ExceptionReturn, FpuContext, Frame, ModeStack, SavedContext,
    TrampolineVariant,
};

fn ctx(r0: u32, r1: u32, return_address: u32) -> SavedContext {
    SavedContext {
        spsr: 0x1F,
        return_address,
        r0,
        r1,
        r2: 3,
        r3: 4,
        r4: 5,
        r5: 6,
        r6: 7,
        r12: 0xC,
    }
}

#[test]
fn return_address_offsets() {
    let v7 = TrampolineVariant::Armv7;
    assert_eq!(return_address(ExceptionKind::DataAbort, v7, 0x1008, false), 0x1000);
    assert_eq!(return_address(ExceptionKind::PrefetchAbort, v7, 0x1004, false), 0x1000);
    assert_eq!(return_address(ExceptionKind::Undefined, v7, 0x1004, false), 0x1000);
    assert_eq!(return_address(ExceptionKind::Undefined, v7, 0x1002, true), 0x1000);
    assert_eq!(return_address(ExceptionKind::Interrupt, TrampolineVariant::Legacy, 0x2004, false), 0x2000);
    assert_eq!(return_address(ExceptionKind::SupervisorCall, v7, 0x3000, false), 0x3000);
    assert_eq!(return_address(ExceptionKind::DataAbort, TrampolineVariant::Armv8Hyp, 0x1000, false), 0x1000);
    assert_eq!(return_address(ExceptionKind::DataAbort, v7, 4, false), 0xFFFF_FFFC);
}

#[test]
fn svc_immediates() {
    assert!(interrupted_thumb(0x3F));
    assert!(!interrupted_thumb(0x1F));
    // `svc #0x12` in Arm (0xEF000012) and Thumb (0xDF12) encodings
    assert_eq!(svc_number(0xEF00_0012, false), 0x12);
    assert_eq!(svc_number(0xDF12, true), 0x12);
    assert_eq!(svc_number(0xEF12_3456, false), 0x12_3456);
    assert_eq!(svc_instruction_address(0x8004, false), 0x8000);
    assert_eq!(svc_instruction_address(0x8002, true), 0x8000);
}

#[test]
fn fpu_context_sizes() {
    assert_eq!(fpu_context_bytes(FpuContext::NoFpu), 0);
    assert_eq!(fpu_context_bytes(FpuContext::D16), 72);
    assert_eq!(fpu_context_bytes(FpuContext::D32), 200);
}

#[test]
fn handler_runs_on_an_aligned_stack() {
    for high_end in [0x8000u32, 0x8004] {
        let mut stack = ModeStack::new(high_end);
        let pad = stack.save_context(ctx(1, 2, 0x100));
        assert_eq!(stack.sp() % 8, 0);
        assert!(pad == 0 || pad == 4);
        assert_eq!(stack.restore_context(), Some(ctx(1, 2, 0x100)));
        assert_eq!(stack.sp(), high_end);
        assert!(stack.words().is_empty());
    }
}

#[test]
fn nested_supervisor_calls_keep_the_outer_frame() {
    // Outer call: `svc 0x12` with r0=1, r1=2.
    let mut stack = ModeStack::new(0x2000);
    let outer = ctx(1, 2, 0x4004);
    stack.save_context(outer);
    let outer_number = svc_number(0xEF00_0012, false);
    assert_eq!(outer_number, 0x12);
    assert_eq!(stack.frame(), Frame { r0: 1, r1: 2, r2: 3, r3: 4, r4: 5, r5: 6 });
    // The handler sees 0x12 and issues `svc 0x34` itself.
    let words_after_outer = stack.words().clone();
    let inner = ctx(0xAA, 0xBB, 0x5002);
    stack.save_context(inner);
    assert_eq!(svc_number(0xDF34, true), 0x34);
    assert_eq!(stack.frame().r0, 0xAA);
    let inner_back = stack.restore_context().unwrap();
    assert_eq!(inner_back, inner);
    assert_eq!(
        exception_return(ExceptionKind::SupervisorCall, &inner_back, 0x99),
        ExceptionReturn { pc: 0x5002, r0: 0x99 }
    );
    // The outer frame is untouched by the nested call.
    assert_eq!(stack.words(), &words_after_outer);
    assert_eq!(stack.frame(), Frame { r0: 1, r1: 2, r2: 3, r3: 4, r4: 5, r5: 6 });
    let outer_back = stack.restore_context().unwrap();
    assert_eq!(outer_back, outer);
    assert_eq!(
        exception_return(ExceptionKind::SupervisorCall, &outer_back, 7),
        ExceptionReturn { pc: 0x4004, r0: 7 }
    );
}

#[test]
fn data_abort_retries_or_skips() {
    let lr = 0x1_0008u32;
    let faulting = return_address(ExceptionKind::DataAbort, TrampolineVariant::Armv7, lr, false);
    assert_eq!(faulting, 0x1_0000);
    let saved = ctx(0, 0, faulting);
    // A handler returning the same address re-executes the faulting
    // instruction; count the retries it causes.
    let mut retries = 0;
    let mut pc = faulting;
    while retries < 3 {
        let r = exception_return(ExceptionKind::DataAbort, &saved, faulting);
        assert_eq!(r.pc, pc);
        pc = r.pc;
        retries += 1;
    }
    assert_eq!(retries, 3);
    // Returning past the 4-byte instruction resumes after it.
    let r = exception_return(ExceptionKind::DataAbort, &saved, faulting + 4);
    assert_eq!(r.pc, 0x1_0004);
    assert_eq!(r.r0, saved.r0);
}

#[test]
fn interrupts_resume_where_they_struck() {
    let saved = ctx(9, 8, 0x7000);
    assert_eq!(
        exception_return(ExceptionKind::Interrupt, &saved, 0xFFFF),
        ExceptionReturn { pc: 0x7000, r0: 9 }
    );
}

#[test]
fn malformed_stack_top_is_not_restored() {
    let mut stack = ModeStack::new(0x1000);
    assert_eq!(stack.restore_context(), None);
    assert_eq!(stack.sp(), 0x1000);
}
