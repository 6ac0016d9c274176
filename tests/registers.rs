use aarch32::dacr::{Dacr, DomainAccess};
use aarch32::hcptr::Hcptr;
use aarch32::hcr::{Bsu, Hcr};
use aarch32::hsr::{ExceptionClass, Hsr, InstructionLength, Iss, IssCall, IssUnknown};
use aarch32::ttbr0::{Region, Ttbr0};

#[test]
fn every_domain_access_pattern_decodes() {
    let expected = [
        DomainAccess::NoAccess,
        DomainAccess::Client,
        DomainAccess::Reserved,
        DomainAccess::Manager,
    ];
    for v in 0u8..4 {
        let d = DomainAccess::new_with_raw_value(v);
        assert_eq!(d, expected[v as usize]);
        assert_eq!(d.raw_value(), v);
    }
    for v in 0u8..4 {
        assert_eq!(Bsu::new_with_raw_value(v).raw_value(), v);
        assert_eq!(Region::new_with_raw_value(v).raw_value(), v);
    }
    assert_eq!(InstructionLength::new_with_raw_value(1), InstructionLength::ThirtyTwoBit);
}

#[test]
fn reserved_exception_class_is_reported_with_its_pattern() {
    for v in [0b000010u8, 0b001001, 0b010000, 0b011111, 0b111111] {
        assert_eq!(ExceptionClass::new_with_raw_value(v), Err(v));
    }
    assert_eq!(ExceptionClass::new_with_raw_value(0b010001), Ok(ExceptionClass::Svc));
    assert_eq!(ExceptionClass::new_with_raw_value(0b100100), Ok(ExceptionClass::DataAbortFromLower));
    let hsr = Hsr::new_with_raw_value(0b111111 << 26);
    assert_eq!(hsr.ec(), Err(0b111111));
    assert!(hsr.get_iss().is_none());
}

#[test]
fn hsr_decodes_a_hypervisor_call() {
    // EC = HVC, IL = 32-bit, ISS = imm16 0x1234
    let hsr = Hsr::new_with_raw_value((0b010010 << 26) | (1 << 25) | 0x1234);
    assert_eq!(hsr.ec(), Ok(ExceptionClass::Hvc));
    assert_eq!(hsr.il(), InstructionLength::ThirtyTwoBit);
    assert_eq!(hsr.iss(), 0x1234);
    match hsr.get_iss() {
        Some(Iss::Hvc(call)) => assert_eq!(call.imm16(), 0x1234),
        other => panic!("unexpected {:?}", other),
    }
}

#[test]
fn hsr_decodes_a_data_abort() {
    // ISV, SAS = 2, SRT = 5, WnR, DFSC = 0b100001
    let iss = (1 << 24) | (2 << 22) | (5 << 16) | (1 << 6) | 0b100001;
    let hsr = Hsr::new_with_raw_value((0b100101 << 26) | iss);
    match hsr.get_iss() {
        Some(Iss::DataAbortFromCurrent(abort)) => {
            assert!(abort.isv());
            assert_eq!(abort.sas(), 2);
            assert!(!abort.sae());
            assert_eq!(abort.srt(), 5);
            assert!(abort.wnr());
            assert!(!abort.cm());
            assert_eq!(abort.dfsc(), 0b100001);
        }
        other => panic!("unexpected {:?}", other),
    }
    match ExceptionClass::Unknown.decode_iss(0x1AB_CDEF) {
        Iss::Unknown(IssUnknown(v)) => assert_eq!(v, 0x1AB_CDEF),
        other => panic!("unexpected {:?}", other),
    }
    assert!(matches!(ExceptionClass::PcAlignment.decode_iss(7), Iss::PcAlignment));
    assert_eq!(IssCall::new_with_raw_value(0x1_5678).imm16(), 0x5678);
}

#[test]
fn dacr_fields_keep_their_neighbours() {
    let d = Dacr::new_with_raw_value(0xFFFF_FFFF).with_d3(DomainAccess::NoAccess);
    assert_eq!(d.raw_value(), 0xFFFF_FF3F);
    assert_eq!(d.d3(), DomainAccess::NoAccess);
    assert_eq!(d.d2(), DomainAccess::Manager);
    assert_eq!(d.d4(), DomainAccess::Manager);
    let d = Dacr::new_with_raw_value(0).with_d15(DomainAccess::Client).with_d0(DomainAccess::Reserved);
    assert_eq!(d.raw_value(), 0x4000_0002);
}

#[test]
fn register_modify_applies_the_closure() {
    let before = Hcptr::new_with_raw_value(0x0000_0400);
    let after = Hcptr::modify(before, |v| v.with_tcp(false).with_tcpac(true));
    assert_eq!(after.raw_value(), 0x8000_0000);
    assert!(after.tcpac());
    assert!(!after.tcp());
    let d = Dacr::modify(Dacr::new_with_raw_value(0), |v| v.with_d1(DomainAccess::Manager));
    assert_eq!(d.raw_value(), 0b1100);
}

#[test]
fn hcr_fields() {
    let h = Hcr::new_with_raw_value(0).with_vm(true).with_bsu(Bsu::OuterShareable).with_tge(true);
    assert_eq!(h.raw_value(), (1 << 27) | (0b10 << 10) | 1);
    assert_eq!(h.bsu(), Bsu::OuterShareable);
    assert!(h.vm());
    assert!(!h.imo());
}

#[test]
fn ttbr0_address() {
    let mut t = Ttbr0::new_with_raw_value(0x0000_007F);
    t.set_address(0x8000_4000);
    assert_eq!(t.get_address(), 0x8000_4000);
    assert_eq!(t.raw_value(), 0x8000_407F);
    let t = t.with_address(0x1234_56FF);
    assert_eq!(t.get_address(), 0x1234_5680);
    assert_eq!(t.rgn(), Region::WriteBackNoWriteAllocateCacheable);
    assert!(t.c());
    assert!(t.irgn());
}
