use vstd::prelude::*;
use crate::enums::{MnemonicARM, ShiftType};

verus! {

/// A decoded instruction: a family-agnostic record filled by either decoder.
/// Which optional fields are present, and what the generic values mean, is
/// fixed by the mnemonic (see the decoders).
#[derive(Debug, PartialEq, Eq, Clone, Copy)]
pub struct DecodedInstruction {
    pub cond: u8,
    pub instr: MnemonicARM,
    /// index register
    pub rn: Option<u8>,
    /// second index register
    pub rm: Option<u8>,
    /// destination register
    pub rd: Option<u8>,
    /// source register
    pub rs: Option<u8>,
    /// multi-purpose values (a shift to apply, a flag bundle, an immediate)
    pub val1: Option<u8>,
    pub val2: Option<u8>,
    pub val3: Option<u8>,
    /// offset for branches and transfers
    pub offset: Option<i32>,
    pub shift_type: Option<ShiftType>,
    /// whether the condition codes are set
    pub set_cond: Option<bool>,
    /// whether the operand is an immediate value
    pub imm: Option<bool>,
    /// whether the result accumulates
    pub acc: Option<bool>,
}

/// A record with the given condition, the `ILL` mnemonic and no field present.
pub open spec fn blank(cond: u8) -> DecodedInstruction {
    DecodedInstruction {
        cond,
        instr: MnemonicARM::ILL,
        rn: None,
        rm: None,
        rd: None,
        rs: None,
        val1: None,
        val2: None,
        val3: None,
        offset: None,
        shift_type: None,
        set_cond: None,
        imm: None,
        acc: None,
    }
}

impl DecodedInstruction {
    /// A record with the given condition, the `ILL` mnemonic and no field present.
    pub fn blank(cond: u8) -> (r: DecodedInstruction)
        ensures
            r == blank(cond),
    {
        DecodedInstruction {
            cond,
            instr: MnemonicARM::ILL,
            rn: None,
            rm: None,
            rd: None,
            rs: None,
            val1: None,
            val2: None,
            val3: None,
            offset: None,
            shift_type: None,
            set_cond: None,
            imm: None,
            acc: None,
        }
    }
}

impl Default for DecodedInstruction {
    fn default() -> (r: Self)
        ensures
            r == blank(0),
    {
        DecodedInstruction::blank(0)
    }
}

/// An instruction in the pipeline: the fetched word, the decoded record, or both.
#[derive(Debug, PartialEq, Eq, Clone, Copy)]
pub struct ARMInstruction {
    pub fetched_instruction: Option<u32>,
    pub decoded_instruction: Option<DecodedInstruction>,
}

impl ARMInstruction {
    pub fn new_decoded(decoded_instr: DecodedInstruction) -> (r: Self)
        ensures
            r.fetched_instruction.is_none(),
            r.decoded_instruction == Some(decoded_instr),
    {
        ARMInstruction { fetched_instruction: None, decoded_instruction: Some(decoded_instr) }
    }

    pub fn new_fetched(fetched_instr: u32) -> (r: Self)
        ensures
            r.fetched_instruction == Some(fetched_instr),
            r.decoded_instruction.is_none(),
    {
        ARMInstruction { fetched_instruction: Some(fetched_instr), decoded_instruction: None }
    }
}

/// A fetched instruction of either width.
#[derive(Debug, PartialEq, Eq, Clone, Copy)]
pub enum InstructionType {
    Thumb(u16),
    ARM(ARMInstruction),
}

} // verus!
