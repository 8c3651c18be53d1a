//! Decoding of the exception syndrome register (ESR_EL2) reported on a guest exit.
use vstd::prelude::*;

verus! {

/// The exception-class field: bits 26 to 31 of the syndrome.
pub open spec fn ec_field(syndrome: u64) -> u64 {
    (syndrome >> 26u64) & 0x3fu64
}

/// The exception classes the monitor distinguishes.
#[derive(Clone, Copy, Debug, PartialEq, Eq, Structural)]
pub enum ExceptionClass {
    HvcRequested,
    SmcRequested,
    MsrMrsTrap,
    BrkInstruction,
    InstructionAbortMmuFault,
    DataAbortMmuFault,
    Unknown(u64),
}

/// The class that an exception-class code stands for.
pub open spec fn class_of_code(code: u64) -> ExceptionClass {
    if code == 22 {
        ExceptionClass::HvcRequested
    } else if code == 23 {
        ExceptionClass::SmcRequested
    } else if code == 24 {
        ExceptionClass::MsrMrsTrap
    } else if code == 32 {
        ExceptionClass::InstructionAbortMmuFault
    } else if code == 36 {
        ExceptionClass::DataAbortMmuFault
    } else if code == 60 {
        ExceptionClass::BrkInstruction
    } else {
        ExceptionClass::Unknown(code)
    }
}

/// The class of the exception that a syndrome describes.
pub open spec fn class_of_syndrome(syndrome: u64) -> ExceptionClass {
    class_of_code(ec_field(syndrome))
}

impl ExceptionClass {
    /// Decodes the exception class of a syndrome.
    pub fn from_syndrome(value: u64) -> (r: ExceptionClass)
        ensures
            r == class_of_syndrome(value),
    {
        match (value >> 26) & 0b111111 {
            22 => ExceptionClass::HvcRequested,
            24 => ExceptionClass::MsrMrsTrap,
            23 => ExceptionClass::SmcRequested,
            60 => ExceptionClass::BrkInstruction,
            32 => ExceptionClass::InstructionAbortMmuFault,
            36 => ExceptionClass::DataAbortMmuFault,
            c => ExceptionClass::Unknown(c),
        }
    }

    /// A short human-readable description of the class.
    pub fn name(&self) -> (r: &'static str)
        ensures
            r@ == self.spec_name(),
    {
        match self {
            ExceptionClass::HvcRequested => "HVC requested",
            ExceptionClass::SmcRequested => "SMC requested",
            ExceptionClass::BrkInstruction => "Explicit BRK instruction",
            ExceptionClass::InstructionAbortMmuFault => "Instruction Abort MMU fault",
            ExceptionClass::DataAbortMmuFault => "Data Abort MMU fault",
            ExceptionClass::MsrMrsTrap => "MSR/MRS trap",
            ExceptionClass::Unknown(_) => "Unknown",
        }
    }

    pub open spec fn spec_name(&self) -> Seq<char> {
        match self {
            ExceptionClass::HvcRequested => "HVC requested"@,
            ExceptionClass::SmcRequested => "SMC requested"@,
            ExceptionClass::BrkInstruction => "Explicit BRK instruction"@,
            ExceptionClass::InstructionAbortMmuFault => "Instruction Abort MMU fault"@,
            ExceptionClass::DataAbortMmuFault => "Data Abort MMU fault"@,
            ExceptionClass::MsrMrsTrap => "MSR/MRS trap"@,
            ExceptionClass::Unknown(_) => "Unknown"@,
        }
    }
}

impl From<u64> for ExceptionClass {
    fn from(value: u64) -> (r: ExceptionClass) {
        ExceptionClass::from_syndrome(value)
    }
}

impl vstd::std_specs::convert::FromSpecImpl<u64> for ExceptionClass {
    open spec fn obeys_from_spec() -> bool {
        true
    }

    open spec fn from_spec(v: u64) -> ExceptionClass {
        class_of_syndrome(v)
    }
}

/// Decoding depends on the exception-class bits (26 to 31) of the syndrome
/// alone, and an unknown class carries the six-bit code it was read from.
pub proof fn lemma_class_depends_on_class_bits(s1: u64, s2: u64)
    requires
        (s1 ^ s2) & 0xfc00_0000u64 == 0,
    ensures
        class_of_syndrome(s1) == class_of_syndrome(s2),
        class_of_syndrome(s1) matches ExceptionClass::Unknown(c) ==> c < 64 && c == ec_field(s1),
{
    assert(((s1 >> 26u64) & 0x3fu64) < 64) by (bit_vector);
    assert((s1 ^ s2) & 0xfc00_0000u64 == 0 ==> ((s1 >> 26u64) & 0x3fu64) == ((s2 >> 26u64)
        & 0x3fu64)) by (bit_vector);
}

/// The immediate of a hypervisor call: the low 16 bits of the syndrome.
pub open spec fn spec_hvc_immediate(syndrome: u64) -> u64 {
    syndrome & 0xffffu64
}

pub fn hvc_immediate(syndrome: u64) -> (r: u64)
    ensures
        r == spec_hvc_immediate(syndrome),
        r <= 0xffff,
{
    let r = syndrome & 0xFFFF;
    assert(r <= 0xffff) by (bit_vector)
        requires
            r == syndrome & 0xffffu64,
    ;
    r
}

/// The operand register and direction of a trapped data access, taken from the
/// instruction-specific syndrome: the register number at bits 16 to 20, the
/// write flag at bit 6.
#[derive(Clone, Copy, Debug, PartialEq, Eq, Structural)]
pub struct DataAccess {
    pub reg: u64,
    pub write: bool,
}

pub open spec fn spec_data_access(syndrome: u64) -> DataAccess {
    DataAccess {
        reg: ((syndrome & 0x1ff_ffffu64) >> 16u64) & 0x1fu64,
        write: ((syndrome & 0x1ff_ffffu64) >> 6u64) & 1u64 == 1,
    }
}

impl DataAccess {
    pub fn new(syndrome: u64) -> (r: DataAccess)
        ensures
            r == spec_data_access(syndrome),
            r.reg < 32,
    {
        let iss = syndrome & 0x1FFFFFF;
        let reg = (iss >> 16) & 0b11111;
        let write = (iss >> 6) & 1;
        assert(reg < 32) by (bit_vector)
            requires
                reg == (iss >> 16u64) & 0x1fu64,
        ;
        DataAccess { reg, write: write == 1 }
    }
}

/// The system register that a trapped MSR or MRS instruction names.
#[derive(Clone, Copy, Debug, PartialEq, Eq, Structural)]
pub struct MsrISS {
    pub crm: u64,
    pub crn: u64,
    pub op1: u64,
    pub op2: u64,
    pub op0: u64,
}

pub open spec fn spec_msr_iss(syndrome: u64) -> MsrISS {
    MsrISS {
        crm: (syndrome >> 1u64) & 0xfu64,
        crn: (syndrome >> 10u64) & 0xfu64,
        op1: (syndrome >> 14u64) & 0x7u64,
        op2: (syndrome >> 17u64) & 0x7u64,
        op0: (syndrome >> 20u64) & 0x3u64,
    }
}

/// The descriptor of MDSCR_EL1, the debug control register.
pub open spec fn spec_mdscr_el1() -> MsrISS {
    MsrISS { crm: 0b0010, crn: 0b0000, op1: 0b000, op2: 0b010, op0: 0b10 }
}

impl MsrISS {
    pub fn new(syndrome: u64) -> (r: MsrISS)
        ensures
            r == spec_msr_iss(syndrome),
    {
        MsrISS {
            crm: (syndrome >> 1) & 0b1111,
            crn: (syndrome >> 10) & 0b1111,
            op1: (syndrome >> 14) & 0b111,
            op2: (syndrome >> 17) & 0b111,
            op0: (syndrome >> 20) & 0b11,
        }
    }

    pub fn mdscr_el1() -> (r: MsrISS)
        ensures
            r == spec_mdscr_el1(),
    {
        MsrISS { crm: 0b0010, crn: 0b0000, op1: 0b000, op2: 0b010, op0: 0b10 }
    }
}

/// Operand register and direction of a trapped MSR or MRS instruction: the
/// register number at bits 5 to 9; bit 0 clear for a write (MSR).
#[derive(Clone, Copy, Debug, PartialEq, Eq, Structural)]
pub struct MsrAccess {
    pub reg: u64,
    pub write: bool,
}

pub open spec fn spec_msr_access(syndrome: u64) -> MsrAccess {
    MsrAccess { reg: (syndrome >> 5u64) & 0x1fu64, write: syndrome & 1u64 == 0 }
}

impl MsrAccess {
    pub fn new(syndrome: u64) -> (r: MsrAccess)
        ensures
            r == spec_msr_access(syndrome),
            r.reg < 32,
    {
        let reg = (syndrome >> 5) & 0b11111;
        assert(reg < 32) by (bit_vector)
            requires
                reg == (syndrome >> 5u64) & 0x1fu64,
        ;
        MsrAccess { reg, write: syndrome & 0b1 == 0 }
    }
}

} // verus!
