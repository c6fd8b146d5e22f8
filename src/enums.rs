use vstd::prelude::*;

verus! {

/// List of instruction mnemonics shared by both instruction formats.
#[derive(Debug, PartialEq, Eq, Structural, Clone, Copy)]
pub enum MnemonicARM {
    ILL,
    ADC,
    ADD,
    ADDPC,
    ADDSP,
    ADDI,
    ADDHI,
    AND,
    ASRALU,
    B,
    BCond,
    BKPT,
    BIC,
    BL,
    BX,
    CMN,
    CMP,
    CMPI,
    CMPHI,
    EOR,
    LDM,
    LDMIA,
    LDR,
    LDRB,
    LDRPC,
    LDRH,
    LDRSB,
    LDRSH,
    LDRSPREL,
    LDSB,
    LDSH,
    LSLALU,
    LSRALU,
    MLA,
    MOV,
    MOVHI,
    MOVI,
    MRS,
    MSR,
    MUL,
    MVN,
    NEG,
    ORR,
    POP,
    POPPC,
    PUSH,
    PUSHLR,
    ROR,
    RORALU,
    RSB,
    RSC,
    SBC,
    SHIFT,
    SMLAL,
    SMULL,
    STM,
    STMIA,
    STR,
    STRB,
    STRH,
    STRSPREL,
    SUB,
    SUBI,
    SWI,
    SWP,
    TEQ,
    TST,
    UMLAL,
    UMULL,
    OffsetADD,
    OffsetSUB,
    Undefined,
}

impl Default for MnemonicARM {
    fn default() -> (r: Self)
        ensures
            r == MnemonicARM::ILL,
    {
        MnemonicARM::ILL
    }
}

/// The eight groups selected by the three leading bits of a compressed instruction.
#[derive(Debug, PartialEq, Eq, Structural, Clone, Copy)]
pub enum ThumbFirst3Bits {
    ShiftAddSub,
    Immediate,
    AluHighRegOps,
    LoadStoreImmediateOffset,
    LoadStoreHalfwordSP,
    RelativeAddrStackOps,
    MultiLoadStoreCondBranchSWI,
    UncondBranch,
}

/// The four barrel-shifter operations.
#[derive(Debug, PartialEq, Eq, Structural, Clone, Copy)]
pub enum ShiftType {
    LSL,
    LSR,
    ASR,
    ROR,
}

impl Default for ShiftType {
    fn default() -> (r: Self)
        ensures
            r == ShiftType::LSL,
    {
        ShiftType::LSL
    }
}

/// Processor privilege modes.
#[derive(Debug, PartialEq, Eq, Structural, Clone, Copy)]
pub enum ProcessorMode {
    User,
    FIQ,
    IRQ,
    Supervisor,
    Abort,
    Undefined,
    System,
}

impl Default for ProcessorMode {
    fn default() -> (r: Self)
        ensures
            r == ProcessorMode::User,
    {
        ProcessorMode::User
    }
}

/// Shift kind named by a two-bit field; wider values fall back to `LSL`.
pub open spec fn shift_type_of(t: u32) -> ShiftType {
    if t == 0 {
        ShiftType::LSL
    } else if t == 1 {
        ShiftType::LSR
    } else if t == 2 {
        ShiftType::ASR
    } else if t == 3 {
        ShiftType::ROR
    } else {
        ShiftType::LSL
    }
}

/// Transforms a number into its equivalent `ShiftType` variant.
pub fn get_shift_type(shift_type: u32) -> (r: ShiftType)
    ensures
        r == shift_type_of(shift_type),
{
    match shift_type {
        0 => ShiftType::LSL,
        1 => ShiftType::LSR,
        2 => ShiftType::ASR,
        3 => ShiftType::ROR,
        _ => ShiftType::LSL,
    }
}

/// The group of a compressed instruction, from its three leading bits.
pub open spec fn thumb_group_of(instr: u16) -> ThumbFirst3Bits {
    let g = instr >> 13u16;
    if g == 0 {
        ThumbFirst3Bits::ShiftAddSub
    } else if g == 1 {
        ThumbFirst3Bits::Immediate
    } else if g == 2 {
        ThumbFirst3Bits::AluHighRegOps
    } else if g == 3 {
        ThumbFirst3Bits::LoadStoreImmediateOffset
    } else if g == 4 {
        ThumbFirst3Bits::LoadStoreHalfwordSP
    } else if g == 5 {
        ThumbFirst3Bits::RelativeAddrStackOps
    } else if g == 6 {
        ThumbFirst3Bits::MultiLoadStoreCondBranchSWI
    } else {
        ThumbFirst3Bits::UncondBranch
    }
}

impl ThumbFirst3Bits {
    /// Group of a compressed instruction word.
    pub fn from_instruction(instr: u16) -> (r: ThumbFirst3Bits)
        ensures
            r == thumb_group_of(instr),
    {
        let g = instr >> 13u16;
        if g == 0 {
            ThumbFirst3Bits::ShiftAddSub
        } else if g == 1 {
            ThumbFirst3Bits::Immediate
        } else if g == 2 {
            ThumbFirst3Bits::AluHighRegOps
        } else if g == 3 {
            ThumbFirst3Bits::LoadStoreImmediateOffset
        } else if g == 4 {
            ThumbFirst3Bits::LoadStoreHalfwordSP
        } else if g == 5 {
            ThumbFirst3Bits::RelativeAddrStackOps
        } else if g == 6 {
            ThumbFirst3Bits::MultiLoadStoreCondBranchSWI
        } else {
            ThumbFirst3Bits::UncondBranch
        }
    }
}

} // verus!
