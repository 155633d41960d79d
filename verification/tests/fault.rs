use confuse::fault::{
    classify, is_reportable, Architecture, ClassificationError, Fault, FaultPolicy, X86_64Fault,
};

const TABLE: [(i64, X86_64Fault); 21] = [
    (-1, X86_64Fault::Triple),
    (0, X86_64Fault::Division),
    (1, X86_64Fault::Debug),
    (2, X86_64Fault::NonMaskableInterrupt),
    (3, X86_64Fault::Breakpoint),
    (4, X86_64Fault::Overflow),
    (5, X86_64Fault::BoundRangeExceeded),
    (6, X86_64Fault::InvalidOpcode),
    (7, X86_64Fault::DeviceNotAvailable),
    (8, X86_64Fault::Double),
    (10, X86_64Fault::InvalidTss),
    (11, X86_64Fault::SegmentNotPresent),
    (12, X86_64Fault::StackSegment),
    (13, X86_64Fault::GeneralProtection),
    (14, X86_64Fault::Page),
    (16, X86_64Fault::X86Fpe),
    (17, X86_64Fault::AlignmentCheck),
    (18, X86_64Fault::MachineCheck),
    (19, X86_64Fault::SimdFpen),
    (20, X86_64Fault::VirtualizationException),
    (21, X86_64Fault::ControlProtectionException),
];

#[test]
fn minus_one_is_the_triple_fault() {
    assert_eq!(
        classify(Architecture::X86_64, -1),
        Ok(Fault::X86_64(X86_64Fault::Triple))
    );
}

#[test]
fn code_9999_is_unknown() {
    assert_eq!(
        classify(Architecture::X86_64, 9999),
        Err(ClassificationError::UnknownFaultCode {
            architecture: Architecture::X86_64,
            code: 9999
        })
    );
}

#[test]
fn every_code_of_the_table_names_its_fault() {
    for (code, fault) in TABLE {
        assert_eq!(classify(Architecture::X86_64, code), Ok(Fault::X86_64(fault)));
        assert_eq!(fault.code(), code);
        assert_eq!(Fault::X86_64(fault).code(), code);
        assert_eq!(Fault::X86_64(fault).architecture(), Architecture::X86_64);
        assert_eq!(X86_64Fault::from_code(code), Some(fault));
        assert_eq!(X86_64Fault::try_from(code), Ok(fault));
    }
}

#[test]
fn every_other_code_is_refused() {
    for code in -300i64..300 {
        if TABLE.iter().any(|(known, _)| *known == code) {
            continue;
        }
        assert_eq!(
            classify(Architecture::X86_64, code),
            Err(ClassificationError::UnknownFaultCode {
                architecture: Architecture::X86_64,
                code
            })
        );
        assert_eq!(X86_64Fault::from_code(code), None);
    }
}

#[test]
fn gaps_in_the_table_are_refused() {
    for code in [9i64, 15, 22, -2, i64::MIN, i64::MAX] {
        assert!(classify(Architecture::X86_64, code).is_err());
        assert_eq!(
            X86_64Fault::try_from(code),
            Err(ClassificationError::UnknownFaultCode {
                architecture: Architecture::X86_64,
                code
            })
        );
    }
}

#[test]
fn only_the_triple_fault_is_negative() {
    for (code, fault) in TABLE {
        assert_eq!(code < 0, fault == X86_64Fault::Triple);
    }
}

#[test]
fn empty_policy_reports_nothing() {
    let policy = FaultPolicy::new();
    for (_, fault) in TABLE {
        assert!(!is_reportable(Fault::X86_64(fault), &policy));
    }
}

#[test]
fn policy_reports_exactly_its_faults() {
    let mut policy = FaultPolicy::from_faults(vec![
        Fault::X86_64(X86_64Fault::Page),
        Fault::X86_64(X86_64Fault::Triple),
    ]);
    assert!(is_reportable(Fault::X86_64(X86_64Fault::Page), &policy));
    assert!(is_reportable(Fault::X86_64(X86_64Fault::Triple), &policy));
    assert!(!is_reportable(Fault::X86_64(X86_64Fault::Breakpoint), &policy));
    assert!(policy.contains(Fault::X86_64(X86_64Fault::Page)));
    policy.insert(Fault::X86_64(X86_64Fault::Breakpoint));
    policy.insert(Fault::X86_64(X86_64Fault::Page));
    assert!(is_reportable(Fault::X86_64(X86_64Fault::Breakpoint), &policy));
    assert!(is_reportable(Fault::X86_64(X86_64Fault::Page), &policy));
    assert!(!is_reportable(Fault::X86_64(X86_64Fault::Division), &policy));
}
