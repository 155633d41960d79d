//! The taxonomy of processor faults, one closed table per architecture.
//!
//! A raw code that the simulator reports either names exactly one fault of the
//! architecture it came from, or it is refused. It is never taken for "no
//! fault".

use vstd::prelude::*;

verus! {

/// The architectures whose faults are known.
#[derive(Debug, Hash, PartialEq, Eq, Structural, Copy, Clone)]
pub enum Architecture {
    X86_64,
}

/// A fault of a 64-bit x86 processor, as the simulator's exception
/// notification reports it.
#[allow(non_camel_case_types)]
#[derive(Debug, Hash, PartialEq, Eq, Structural, Copy, Clone)]
pub enum X86_64Fault {
    /// The processor has no number for a triple fault; it is given one that no
    /// exception can have.
    Triple,
    Division,
    Debug,
    NonMaskableInterrupt,
    Breakpoint,
    Overflow,
    BoundRangeExceeded,
    InvalidOpcode,
    DeviceNotAvailable,
    Double,
    InvalidTss,
    SegmentNotPresent,
    StackSegment,
    GeneralProtection,
    Page,
    X86Fpe,
    AlignmentCheck,
    MachineCheck,
    SimdFpen,
    VirtualizationException,
    ControlProtectionException,
}

/// A fault, tagged with the architecture that defines it.
#[derive(Debug, Hash, PartialEq, Eq, Structural, Copy, Clone)]
pub enum Fault {
    X86_64(X86_64Fault),
}

/// Why a raw code could not be classified.
#[derive(Debug, Hash, PartialEq, Eq, Structural, Copy, Clone)]
pub enum ClassificationError {
    /// The architecture has no fault with this code.
    UnknownFaultCode { architecture: Architecture, code: i64 },
}

impl X86_64Fault {
    /// The number of the fault: the exception vector, or -1 for a triple fault.
    pub open spec fn spec_code(self) -> int {
        match self {
            X86_64Fault::Triple => -1,
            X86_64Fault::Division => 0,
            X86_64Fault::Debug => 1,
            X86_64Fault::NonMaskableInterrupt => 2,
            X86_64Fault::Breakpoint => 3,
            X86_64Fault::Overflow => 4,
            X86_64Fault::BoundRangeExceeded => 5,
            X86_64Fault::InvalidOpcode => 6,
            X86_64Fault::DeviceNotAvailable => 7,
            X86_64Fault::Double => 8,
            X86_64Fault::InvalidTss => 10,
            X86_64Fault::SegmentNotPresent => 11,
            X86_64Fault::StackSegment => 12,
            X86_64Fault::GeneralProtection => 13,
            X86_64Fault::Page => 14,
            X86_64Fault::X86Fpe => 16,
            X86_64Fault::AlignmentCheck => 17,
            X86_64Fault::MachineCheck => 18,
            X86_64Fault::SimdFpen => 19,
            X86_64Fault::VirtualizationException => 20,
            X86_64Fault::ControlProtectionException => 21,
        }
    }

    /// The fault with the number `code`, if there is one.
    pub open spec fn spec_from_code(code: int) -> Option<X86_64Fault> {
        if code == -1 {
            Some(X86_64Fault::Triple)
        } else if code == 0 {
            Some(X86_64Fault::Division)
        } else if code == 1 {
            Some(X86_64Fault::Debug)
        } else if code == 2 {
            Some(X86_64Fault::NonMaskableInterrupt)
        } else if code == 3 {
            Some(X86_64Fault::Breakpoint)
        } else if code == 4 {
            Some(X86_64Fault::Overflow)
        } else if code == 5 {
            Some(X86_64Fault::BoundRangeExceeded)
        } else if code == 6 {
            Some(X86_64Fault::InvalidOpcode)
        } else if code == 7 {
            Some(X86_64Fault::DeviceNotAvailable)
        } else if code == 8 {
            Some(X86_64Fault::Double)
        } else if code == 10 {
            Some(X86_64Fault::InvalidTss)
        } else if code == 11 {
            Some(X86_64Fault::SegmentNotPresent)
        } else if code == 12 {
            Some(X86_64Fault::StackSegment)
        } else if code == 13 {
            Some(X86_64Fault::GeneralProtection)
        } else if code == 14 {
            Some(X86_64Fault::Page)
        } else if code == 16 {
            Some(X86_64Fault::X86Fpe)
        } else if code == 17 {
            Some(X86_64Fault::AlignmentCheck)
        } else if code == 18 {
            Some(X86_64Fault::MachineCheck)
        } else if code == 19 {
            Some(X86_64Fault::SimdFpen)
        } else if code == 20 {
            Some(X86_64Fault::VirtualizationException)
        } else if code == 21 {
            Some(X86_64Fault::ControlProtectionException)
        } else {
            None
        }
    }

    /// The number of the fault: the exception vector, or -1 for a triple fault.
    pub fn code(self) -> (c: i64)
        ensures
            c == self.spec_code(),
    {
        match self {
            X86_64Fault::Triple => -1,
            X86_64Fault::Division => 0,
            X86_64Fault::Debug => 1,
            X86_64Fault::NonMaskableInterrupt => 2,
            X86_64Fault::Breakpoint => 3,
            X86_64Fault::Overflow => 4,
            X86_64Fault::BoundRangeExceeded => 5,
            X86_64Fault::InvalidOpcode => 6,
            X86_64Fault::DeviceNotAvailable => 7,
            X86_64Fault::Double => 8,
            X86_64Fault::InvalidTss => 10,
            X86_64Fault::SegmentNotPresent => 11,
            X86_64Fault::StackSegment => 12,
            X86_64Fault::GeneralProtection => 13,
            X86_64Fault::Page => 14,
            X86_64Fault::X86Fpe => 16,
            X86_64Fault::AlignmentCheck => 17,
            X86_64Fault::MachineCheck => 18,
            X86_64Fault::SimdFpen => 19,
            X86_64Fault::VirtualizationException => 20,
            X86_64Fault::ControlProtectionException => 21,
        }
    }

    /// The fault with the number `value`, if there is one.
    pub fn from_code(value: i64) -> (r: Option<X86_64Fault>)
        ensures
            r == X86_64Fault::spec_from_code(value as int),
    {
        let r = match value {
            -1 => Some(X86_64Fault::Triple),
            0 => Some(X86_64Fault::Division),
            1 => Some(X86_64Fault::Debug),
            2 => Some(X86_64Fault::NonMaskableInterrupt),
            3 => Some(X86_64Fault::Breakpoint),
            4 => Some(X86_64Fault::Overflow),
            5 => Some(X86_64Fault::BoundRangeExceeded),
            6 => Some(X86_64Fault::InvalidOpcode),
            7 => Some(X86_64Fault::DeviceNotAvailable),
            8 => Some(X86_64Fault::Double),
            10 => Some(X86_64Fault::InvalidTss),
            11 => Some(X86_64Fault::SegmentNotPresent),
            12 => Some(X86_64Fault::StackSegment),
            13 => Some(X86_64Fault::GeneralProtection),
            14 => Some(X86_64Fault::Page),
            16 => Some(X86_64Fault::X86Fpe),
            17 => Some(X86_64Fault::AlignmentCheck),
            18 => Some(X86_64Fault::MachineCheck),
            19 => Some(X86_64Fault::SimdFpen),
            20 => Some(X86_64Fault::VirtualizationException),
            21 => Some(X86_64Fault::ControlProtectionException),
            _ => None,
        };
        r
    }
}

impl TryFrom<i64> for X86_64Fault {
    type Error = ClassificationError;

    /// The fault with the number `value`; a number that names no fault is
    /// refused.
    fn try_from(value: i64) -> (r: Result<Self, ClassificationError>) {
        match X86_64Fault::from_code(value) {
            Some(fault) => Ok(fault),
            None => Err(
                ClassificationError::UnknownFaultCode {
                    architecture: Architecture::X86_64,
                    code: value,
                },
            ),
        }
    }
}

impl vstd::std_specs::convert::TryFromSpecImpl<i64> for X86_64Fault {
    open spec fn obeys_try_from_spec() -> bool {
        true
    }

    open spec fn try_from_spec(value: i64) -> Result<Self, ClassificationError> {
        match X86_64Fault::spec_from_code(value as int) {
            Some(fault) => Ok(fault),
            None => Err(
                ClassificationError::UnknownFaultCode {
                    architecture: Architecture::X86_64,
                    code: value,
                },
            ),
        }
    }
}

impl Fault {
    /// The architecture that defines the fault.
    pub open spec fn spec_architecture(self) -> Architecture {
        match self {
            Fault::X86_64(_) => Architecture::X86_64,
        }
    }

    /// The number of the fault within its architecture.
    pub open spec fn spec_code(self) -> int {
        match self {
            Fault::X86_64(fault) => fault.spec_code(),
        }
    }

    /// The architecture that defines the fault.
    pub fn architecture(self) -> (a: Architecture)
        ensures
            a == self.spec_architecture(),
    {
        match self {
            Fault::X86_64(_) => Architecture::X86_64,
        }
    }

    /// The number of the fault within its architecture.
    pub fn code(self) -> (c: i64)
        ensures
            c == self.spec_code(),
    {
        match self {
            Fault::X86_64(fault) => fault.code(),
        }
    }
}

/// Whether `architecture` has a fault with the number `code`.
pub open spec fn is_known(architecture: Architecture, code: int) -> bool {
    exists|fault: Fault| fault.spec_architecture() == architecture && fault.spec_code() == code
}

/// What a raw code stands for on an architecture: the fault of that
/// architecture with that number, or a refusal that carries both.
pub open spec fn classified(architecture: Architecture, raw_code: i64) -> Result<
    Fault,
    ClassificationError,
> {
    match architecture {
        Architecture::X86_64 => match X86_64Fault::spec_from_code(raw_code as int) {
            Some(fault) => Ok(Fault::X86_64(fault)),
            None => Err(ClassificationError::UnknownFaultCode { architecture, code: raw_code }),
        },
    }
}

/// Names the fault that a raw code stands for on the given architecture.
///
/// A code that the architecture does not define is refused with
/// [`ClassificationError::UnknownFaultCode`], which carries the architecture
/// and the code.
pub fn classify(architecture: Architecture, raw_code: i64) -> (r: Result<
    Fault,
    ClassificationError,
>)
    ensures
        r == classified(architecture, raw_code),
        r matches Ok(fault) ==> fault.spec_architecture() == architecture && fault.spec_code()
            == raw_code,
        r is Err <==> !is_known(architecture, raw_code as int),
{
    proof {
        lemma_classified_is_the_code_table(architecture, raw_code);
    }
    match architecture {
        Architecture::X86_64 => match X86_64Fault::from_code(raw_code) {
            Some(fault) => Ok(Fault::X86_64(fault)),
            None => Err(ClassificationError::UnknownFaultCode { architecture, code: raw_code }),
        },
    }
}

/// The fault that a code is classified as has that code and that
/// architecture, and a code is refused exactly when no fault of the
/// architecture has it.
pub proof fn lemma_classified_is_the_code_table(architecture: Architecture, raw_code: i64)
    ensures
        classified(architecture, raw_code) matches Ok(fault) ==> fault.spec_architecture()
            == architecture && fault.spec_code() == raw_code,
        classified(architecture, raw_code) is Err <==> !is_known(architecture, raw_code as int),
        classified(architecture, raw_code) is Err ==> classified(architecture, raw_code) == Err::<
            Fault,
            ClassificationError,
        >(ClassificationError::UnknownFaultCode { architecture, code: raw_code }),
{
    match classified(architecture, raw_code) {
        Ok(fault) => {
            assert(fault.spec_architecture() == architecture && fault.spec_code() == raw_code);
        },
        Err(_) => {
            assert forall|fault: Fault|
                fault.spec_architecture() == architecture implies fault.spec_code()
                != raw_code by {
                let Fault::X86_64(inner) = fault;
                assert(inner.spec_code() == fault.spec_code());
            }
        },
    }
}

/// Every fault is what its own code is classified as.
pub proof fn lemma_every_fault_is_classified(fault: Fault)
    ensures
        -1 <= fault.spec_code() <= 21,
        classified(fault.spec_architecture(), fault.spec_code() as i64) == Ok::<
            Fault,
            ClassificationError,
        >(fault),
{
    let Fault::X86_64(inner) = fault;
    assert(inner.spec_code() == fault.spec_code());
}

/// The faults that a campaign counts as crashes. A fault that is not among
/// them is tolerated: it is noted and nothing is kept of it.
#[derive(Debug)]
pub struct FaultPolicy {
    crashes: Vec<Fault>,
}

impl View for FaultPolicy {
    type V = Set<Fault>;

    closed spec fn view(&self) -> Set<Fault> {
        self.crashes@.to_set()
    }
}

impl FaultPolicy {
    /// The policy under which no fault is a crash.
    pub fn new() -> (policy: FaultPolicy)
        ensures
            policy@ == Set::<Fault>::empty(),
    {
        let policy = FaultPolicy { crashes: Vec::new() };
        assert(policy.crashes@.to_set() =~= Set::<Fault>::empty());
        policy
    }

    /// The policy under which exactly the given faults are crashes.
    pub fn from_faults(faults: Vec<Fault>) -> (policy: FaultPolicy)
        ensures
            policy@ == faults@.to_set(),
    {
        FaultPolicy { crashes: faults }
    }

    /// Counts one more fault as a crash.
    pub fn insert(&mut self, fault: Fault)
        ensures
            final(self)@ == old(self)@.insert(fault),
    {
        self.crashes.push(fault);
        proof {
            let before = old(self).crashes@;
            let after = self.crashes@;
            assert(after =~= before.push(fault));
            assert forall|f: Fault| after.to_set().contains(f) <==> before.to_set().insert(
                fault,
            ).contains(f) by {
                if after.to_set().contains(f) {
                    let i = choose|i: int| 0 <= i < after.len() && after[i] == f;
                    if i < before.len() {
                        assert(before[i] == f);
                    }
                }
                if before.to_set().contains(f) {
                    let i = choose|i: int| 0 <= i < before.len() && before[i] == f;
                    assert(after[i] == f);
                }
                if f == fault {
                    assert(after[before.len() as int] == f);
                }
            }
            assert(after.to_set() =~= before.to_set().insert(fault));
        }
    }

    /// Whether the policy counts the fault as a crash.
    pub fn contains(&self, fault: Fault) -> (b: bool)
        ensures
            b == self@.contains(fault),
    {
        let mut i: usize = 0;
        while i < self.crashes.len()
            invariant
                i <= self.crashes.len(),
                forall|j: int| 0 <= j < i ==> self.crashes@[j] != fault,
            decreases self.crashes.len() - i,
        {
            if self.crashes[i] == fault {
                assert(self.crashes@.to_set().contains(fault));
                return true;
            }
            i += 1;
        }
        assert(!self.crashes@.to_set().contains(fault)) by {
            if self.crashes@.to_set().contains(fault) {
                let k = choose|k: int| 0 <= k < self.crashes@.len() && self.crashes@[k] == fault;
                assert(self.crashes@[k] != fault);
            }
        }
        false
    }
}

/// Whether an observed fault is a crash worth keeping under the policy of the
/// campaign.
pub fn is_reportable(fault: Fault, policy: &FaultPolicy) -> (b: bool)
    ensures
        b == policy@.contains(fault),
{
    policy.contains(fault)
}

/// No two faults of an architecture share a number: a code names at most one
/// fault.
pub proof fn lemma_code_names_one_fault(a: Fault, b: Fault)
    requires
        a.spec_architecture() == b.spec_architecture(),
        a.spec_code() == b.spec_code(),
    ensures
        a == b,
{
}

/// The number of a triple fault is negative, and it is the only one that is:
/// no exception that the hardware numbers can be taken for it.
pub proof fn lemma_triple_fault_is_apart(fault: X86_64Fault)
    ensures
        X86_64Fault::Triple.spec_code() < 0,
        fault != X86_64Fault::Triple ==> 0 <= fault.spec_code() <= 21,
{
}

} // verus!
