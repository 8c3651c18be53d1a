use hvboot::syndrome::{hvc_immediate, DataAccess, ExceptionClass, MsrAccess, MsrISS};

fn with_class(code: u64) -> u64 {
    code << 26
}

#[test]
fn exception_class_table() {
    assert_eq!(ExceptionClass::from_syndrome(with_class(22)), ExceptionClass::HvcRequested);
    assert_eq!(ExceptionClass::from_syndrome(with_class(23)), ExceptionClass::SmcRequested);
    assert_eq!(ExceptionClass::from_syndrome(with_class(24)), ExceptionClass::MsrMrsTrap);
    assert_eq!(
        ExceptionClass::from_syndrome(with_class(32)),
        ExceptionClass::InstructionAbortMmuFault
    );
    assert_eq!(ExceptionClass::from_syndrome(with_class(36)), ExceptionClass::DataAbortMmuFault);
    assert_eq!(ExceptionClass::from_syndrome(with_class(60)), ExceptionClass::BrkInstruction);
    assert_eq!(ExceptionClass::from_syndrome(with_class(0x15)), ExceptionClass::Unknown(0x15));
    assert_eq!(ExceptionClass::from_syndrome(0), ExceptionClass::Unknown(0));
}

#[test]
fn exception_class_ignores_other_bits() {
    let s = with_class(36) | 0x1ff_ffff | (0xffff_ffff << 32);
    assert_eq!(ExceptionClass::from_syndrome(s), ExceptionClass::DataAbortMmuFault);
    assert_eq!(ExceptionClass::from_syndrome(with_class(63) | 0x7), ExceptionClass::Unknown(63));
}

#[test]
fn exception_class_from_trait() {
    let c: ExceptionClass = ExceptionClass::from(with_class(22) | 0xff);
    assert_eq!(c, ExceptionClass::HvcRequested);
}

#[test]
fn exception_class_names() {
    assert_eq!(ExceptionClass::HvcRequested.name(), "HVC requested");
    assert_eq!(ExceptionClass::DataAbortMmuFault.name(), "Data Abort MMU fault");
    assert_eq!(ExceptionClass::Unknown(7).name(), "Unknown");
}

#[test]
fn hvc_immediate_is_low_sixteen_bits() {
    assert_eq!(hvc_immediate(with_class(22) | 0xff), 0xff);
    assert_eq!(hvc_immediate(0xdead_beef_1234_5678), 0x5678);
}

#[test]
fn data_access_fields() {
    let a = DataAccess::new(with_class(36) | (5 << 16) | (1 << 6));
    assert_eq!(a, DataAccess { reg: 5, write: true });
    let b = DataAccess::new(with_class(36) | (31 << 16));
    assert_eq!(b, DataAccess { reg: 31, write: false });
}

#[test]
fn msr_descriptor_of_mdscr_el1() {
    let s = with_class(24) | (2 << 20) | (2 << 17) | (2 << 1) | (3 << 5);
    assert_eq!(MsrISS::new(s), MsrISS::mdscr_el1());
    assert_eq!(MsrAccess::new(s), MsrAccess { reg: 3, write: true });
    assert_eq!(MsrAccess::new(s | 1), MsrAccess { reg: 3, write: false });
    let other = MsrISS::new(s | (1 << 10));
    assert_eq!(other.crn, 1);
    assert_ne!(other, MsrISS::mdscr_el1());
}
