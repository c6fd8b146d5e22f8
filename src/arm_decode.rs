use vstd::prelude::*;
use crate::bits::{bit_of, get_bit_at, get_last_bits, low_bits};
use crate::enums::{get_shift_type, shift_type_of, MnemonicARM};
use crate::instruction::{blank, DecodedInstruction};

verus! {

/// Mnemonic of a data-processing opcode (bits 24..21).
pub open spec fn dp_opcode(op: u32) -> MnemonicARM {
    if op == 0 {
        MnemonicARM::AND
    } else if op == 1 {
        MnemonicARM::EOR
    } else if op == 2 {
        MnemonicARM::SUB
    } else if op == 3 {
        MnemonicARM::RSB
    } else if op == 4 {
        MnemonicARM::ADD
    } else if op == 5 {
        MnemonicARM::ADC
    } else if op == 6 {
        MnemonicARM::SBC
    } else if op == 7 {
        MnemonicARM::RSC
    } else if op == 8 {
        MnemonicARM::TST
    } else if op == 9 {
        MnemonicARM::TEQ
    } else if op == 10 {
        MnemonicARM::CMP
    } else if op == 11 {
        MnemonicARM::CMN
    } else if op == 12 {
        MnemonicARM::ORR
    } else if op == 13 {
        MnemonicARM::MOV
    } else if op == 14 {
        MnemonicARM::BIC
    } else {
        MnemonicARM::MVN
    }
}

fn dp_mnemonic(op: u32) -> (r: MnemonicARM)
    ensures
        r == dp_opcode(op),
{
    if op == 0 {
        MnemonicARM::AND
    } else if op == 1 {
        MnemonicARM::EOR
    } else if op == 2 {
        MnemonicARM::SUB
    } else if op == 3 {
        MnemonicARM::RSB
    } else if op == 4 {
        MnemonicARM::ADD
    } else if op == 5 {
        MnemonicARM::ADC
    } else if op == 6 {
        MnemonicARM::SBC
    } else if op == 7 {
        MnemonicARM::RSC
    } else if op == 8 {
        MnemonicARM::TST
    } else if op == 9 {
        MnemonicARM::TEQ
    } else if op == 10 {
        MnemonicARM::CMP
    } else if op == 11 {
        MnemonicARM::CMN
    } else if op == 12 {
        MnemonicARM::ORR
    } else if op == 13 {
        MnemonicARM::MOV
    } else if op == 14 {
        MnemonicARM::BIC
    } else {
        MnemonicARM::MVN
    }
}

/// The 4-bit register field whose lowest bit is at `lo`.
pub open spec fn reg_field(w: u32, lo: u32) -> u8 {
    low_bits(w >> lo, 4) as u8
}

/// Data-processing layout: opcode 24..21, S bit 20, Rn 19..16, Rd 15..12, and either
/// an 8-bit immediate with a 4-bit rotation (bit 25 set), or Rm 3..0 with shift
/// type 6..5 shifted by Rs 11..8 (bit 4 set) or by a 5-bit amount 11..7.
pub open spec fn spec_data_processing(w: u32, cond: u8) -> DecodedInstruction {
    let instr = dp_opcode(low_bits(w >> 21u32, 4));
    let rn = Some(reg_field(w, 16));
    let rd = Some(reg_field(w, 12));
    let set_cond = Some(bit_of(w, 20));
    if bit_of(w, 25) {
        DecodedInstruction {
            instr,
            rn,
            rd,
            val1: Some(reg_field(w, 8)),
            val2: Some(low_bits(w, 8) as u8),
            imm: Some(true),
            set_cond,
            ..blank(cond)
        }
    } else if bit_of(w, 4) {
        DecodedInstruction {
            instr,
            rn,
            rm: Some(reg_field(w, 0)),
            rd,
            rs: Some(reg_field(w, 8)),
            shift_type: Some(shift_type_of(low_bits(w >> 5u32, 2))),
            set_cond,
            imm: Some(false),
            ..blank(cond)
        }
    } else {
        DecodedInstruction {
            instr,
            rn,
            rm: Some(reg_field(w, 0)),
            rd,
            val1: Some(low_bits(w >> 7u32, 5) as u8),
            shift_type: Some(shift_type_of(low_bits(w >> 5u32, 2))),
            set_cond,
            imm: Some(false),
            ..blank(cond)
        }
    }
}

/// Decodes a data-processing (ALU) instruction.
pub fn data_processing(instruction: u32, cond: u8) -> (r: DecodedInstruction)
    ensures
        r == spec_data_processing(instruction, cond),
{
    let imm = get_bit_at(instruction, 25);
    let set_cond = Some(get_bit_at(instruction, 20));
    let instr = dp_mnemonic(get_last_bits(instruction >> 21u32, 4));
    let rn = Some(get_last_bits(instruction >> 16u32, 4) as u8);
    let rd = Some(get_last_bits(instruction >> 12u32, 4) as u8);
    if imm {
        let val1 = Some(get_last_bits(instruction >> 8u32, 4) as u8);
        let val2 = Some(get_last_bits(instruction, 8) as u8);
        return DecodedInstruction {
            instr,
            rn,
            rd,
            val1,
            val2,
            imm: Some(true),
            set_cond,
            ..DecodedInstruction::blank(cond)
        };
    }
    let rm = Some(get_last_bits(instruction >> 0u32, 4) as u8);
    let shift_type = Some(get_shift_type(get_last_bits(instruction >> 5u32, 2)));
    if get_bit_at(instruction, 4) {
        let rs = Some(get_last_bits(instruction >> 8u32, 4) as u8);
        DecodedInstruction {
            instr,
            rn,
            rm,
            rd,
            rs,
            shift_type,
            set_cond,
            imm: Some(false),
            ..DecodedInstruction::blank(cond)
        }
    } else {
        let val1 = Some(get_last_bits(instruction >> 7u32, 5) as u8);
        DecodedInstruction {
            instr,
            rn,
            rm,
            rd,
            val1,
            shift_type,
            set_cond,
            imm: Some(false),
            ..DecodedInstruction::blank(cond)
        }
    }
}

/// Branch-and-exchange layout: target register in 3..0.
pub open spec fn spec_branch_exchange(w: u32, cond: u8) -> DecodedInstruction {
    DecodedInstruction { rn: Some(reg_field(w, 0)), instr: MnemonicARM::BX, ..blank(cond) }
}

/// Decodes BX.
pub fn branch_exchange(instruction: u32, cond: u8) -> (r: DecodedInstruction)
    ensures
        r == spec_branch_exchange(instruction, cond),
{
    let rn = Some(get_last_bits(instruction >> 0u32, 4) as u8);
    DecodedInstruction { rn, instr: MnemonicARM::BX, ..DecodedInstruction::blank(cond) }
}

/// Two's-complement value of a 24-bit field.
pub open spec fn sign_extend_24(x: u32) -> i32 {
    if x < 0x80_0000 {
        x as i32
    } else {
        (x as int - 0x100_0000) as i32
    }
}

/// Branch layout: link flag in bit 24 and a signed 24-bit word offset in 23..0.
/// A linked branch carries the `BX` mnemonic with `val1 == 1` and an offset
/// (never a register); a plain branch carries `B` with `val1 == 0`.
pub open spec fn spec_branch(w: u32, cond: u8) -> DecodedInstruction {
    let link = bit_of(w, 24);
    DecodedInstruction {
        instr: if link {
            MnemonicARM::BX
        } else {
            MnemonicARM::B
        },
        val1: Some(if link {
            1u8
        } else {
            0u8
        }),
        offset: Some(sign_extend_24(w & 0x00FF_FFFF)),
        ..blank(cond)
    }
}

/// Decodes B and BL.
pub fn branch(instruction: u32, cond: u8) -> (r: DecodedInstruction)
    ensures
        r == spec_branch(instruction, cond),
{
    let link = get_bit_at(instruction, 24);
    let instr = if link {
        MnemonicARM::BX
    } else {
        MnemonicARM::B
    };
    let x = instruction & 0x00FF_FFFF;
    proof {
        assert(instruction & 0x00FF_FFFF <= 0x00FF_FFFF) by (bit_vector);
    }
    let offset = if x < 0x80_0000 {
        x as i32
    } else {
        x as i32 - 0x100_0000
    };
    DecodedInstruction {
        instr,
        val1: Some(
            if link {
                1u8
            } else {
                0u8
            },
        ),
        offset: Some(offset),
        ..DecodedInstruction::blank(cond)
    }
}

/// 1 when the bit is set, else 0.
pub open spec fn bit_value(w: u32, n: u32) -> u8 {
    if bit_of(w, n) {
        1
    } else {
        0
    }
}

/// Status-transfer layout: the register chosen by bit 22 (0: CPSR, 1: SPSR) in
/// `val1`. MRS (low 11 bits and bit 21 clear) names Rd in 15..12; MSR carries the
/// field mask 19..16 in `offset` and either Rm (bit 16 set, or bit 25 clear) or an
/// 8-bit immediate in `val2` with its 4-bit rotation in `val3`.
pub open spec fn spec_psr_transfer(w: u32, cond: u8) -> DecodedInstruction {
    let psr = Some(bit_value(w, 22));
    let offset = Some(low_bits(w >> 16u32, 4) as i32);
    if low_bits(w, 11) == 0 && !bit_of(w, 21) {
        DecodedInstruction {
            instr: MnemonicARM::MRS,
            rd: Some(reg_field(w, 12)),
            val1: psr,
            imm: Some(false),
            ..blank(cond)
        }
    } else if bit_of(w, 16) || !bit_of(w, 25) {
        DecodedInstruction {
            instr: MnemonicARM::MSR,
            rm: Some(reg_field(w, 0)),
            val1: psr,
            imm: Some(false),
            offset,
            ..blank(cond)
        }
    } else {
        DecodedInstruction {
            instr: MnemonicARM::MSR,
            imm: Some(true),
            val1: psr,
            val2: Some(low_bits(w, 8) as u8),
            val3: Some(reg_field(w, 8)),
            offset,
            ..blank(cond)
        }
    }
}

/// Decodes MRS and MSR.
pub fn psr_transfer(instruction: u32, cond: u8) -> (r: DecodedInstruction)
    ensures
        r == spec_psr_transfer(instruction, cond),
{
    let psr = Some(
        if get_bit_at(instruction, 22) {
            1u8
        } else {
            0u8
        },
    );
    let imm = get_bit_at(instruction, 25);
    if get_last_bits(instruction, 11) == 0 && !get_bit_at(instruction, 21) {
        let rd = Some(get_last_bits(instruction >> 12u32, 4) as u8);
        return DecodedInstruction {
            instr: MnemonicARM::MRS,
            rd,
            val1: psr,
            imm: Some(false),
            ..DecodedInstruction::blank(cond)
        };
    }
    let instr = MnemonicARM::MSR;
    let offset = Some(get_last_bits(instruction >> 16u32, 4) as i32);
    if get_bit_at(instruction, 16) || !imm {
        let rm = Some(get_last_bits(instruction >> 0u32, 4) as u8);
        return DecodedInstruction {
            instr,
            rm,
            val1: psr,
            imm: Some(false),
            offset,
            ..DecodedInstruction::blank(cond)
        };
    }
    let value = Some(get_last_bits(instruction, 8) as u8);
    let shift = Some(get_last_bits(instruction >> 8u32, 4) as u8);
    DecodedInstruction {
        instr,
        imm: Some(true),
        val1: psr,
        val2: value,
        val3: shift,
        offset,
        ..DecodedInstruction::blank(cond)
    }
}

/// Addressing flag bundle of a transfer: pre-index (bit 24) as 8, up (23) as 4,
/// byte or PSR-force (22) as 2 and write-back (21) as 1.
pub open spec fn transfer_flags(w: u32) -> u8 {
    (8 * bit_value(w, 24) + 4 * bit_value(w, 23) + 2 * bit_value(w, 22) + bit_value(w, 21)) as u8
}

fn transfer_flags_of(instruction: u32) -> (r: u8)
    ensures
        r == transfer_flags(instruction),
{
    let pre: u8 = if get_bit_at(instruction, 24) { 8 } else { 0 };
    let up: u8 = if get_bit_at(instruction, 23) { 4 } else { 0 };
    let byte: u8 = if get_bit_at(instruction, 22) { 2 } else { 0 };
    let writeback: u8 = if get_bit_at(instruction, 21) { 1 } else { 0 };
    pre + up + byte + writeback
}

/// Swap layout: byte flag (bit 22) in `val1`, Rn 19..16, Rd 15..12, Rm 3..0.
pub open spec fn spec_swap(w: u32, cond: u8) -> DecodedInstruction {
    DecodedInstruction {
        instr: MnemonicARM::SWP,
        rn: Some(reg_field(w, 16)),
        rd: Some(reg_field(w, 12)),
        rm: Some(reg_field(w, 0)),
        val1: Some(bit_value(w, 22)),
        ..blank(cond)
    }
}

/// Decodes SWP.
pub fn swap(instruction: u32, cond: u8) -> (r: DecodedInstruction)
    ensures
        r == spec_swap(instruction, cond),
{
    let is_byte = Some(
        if get_bit_at(instruction, 22) {
            1u8
        } else {
            0u8
        },
    );
    let rn = Some(get_last_bits(instruction >> 16u32, 4) as u8);
    let rd = Some(get_last_bits(instruction >> 12u32, 4) as u8);
    let rm = Some(get_last_bits(instruction >> 0u32, 4) as u8);
    DecodedInstruction {
        instr: MnemonicARM::SWP,
        rn,
        rd,
        rm,
        val1: is_byte,
        ..DecodedInstruction::blank(cond)
    }
}

/// Data-transfer layout. Every form carries Rn 19..16 and the flag bundle in
/// `val1`. Block transfers (bit 27) carry the register list 15..0 in `offset`.
/// Single transfers (bit 26) carry Rd and either a 12-bit immediate offset (bit 25
/// clear) or Rm shifted by a 5-bit amount (`val2`). Otherwise bits 6..5 choose a
/// half-word or signed transfer (a swap when both are clear), with Rm (bit 22
/// clear) or an 8-bit immediate split over 11..8 and 3..0.
pub open spec fn spec_data_transfer(w: u32, cond: u8) -> DecodedInstruction {
    let load = bit_of(w, 20);
    let rn = Some(reg_field(w, 16));
    let val1 = Some(transfer_flags(w));
    let rd = Some(reg_field(w, 12));
    let signed = bit_of(w, 6);
    let halfword = bit_of(w, 5);
    if bit_of(w, 27) {
        DecodedInstruction {
            instr: if load {
                MnemonicARM::LDM
            } else {
                MnemonicARM::STM
            },
            rn,
            val1,
            offset: Some(low_bits(w, 16) as i32),
            ..blank(cond)
        }
    } else if bit_of(w, 26) {
        let instr = if load {
            MnemonicARM::LDR
        } else {
            MnemonicARM::STR
        };
        if !bit_of(w, 25) {
            DecodedInstruction {
                instr,
                rn,
                rd,
                val1,
                offset: Some(low_bits(w, 12) as i32),
                imm: Some(true),
                ..blank(cond)
            }
        } else {
            DecodedInstruction {
                instr,
                rn,
                rd,
                rm: Some(reg_field(w, 0)),
                val1,
                val2: Some(low_bits(w >> 7u32, 5) as u8),
                shift_type: Some(shift_type_of(low_bits(w >> 5u32, 2))),
                imm: Some(false),
                ..blank(cond)
            }
        }
    } else if !signed && !halfword {
        spec_swap(w, cond)
    } else {
        let instr = if !load {
            MnemonicARM::STRH
        } else if signed && halfword {
            MnemonicARM::LDRSH
        } else if signed {
            MnemonicARM::LDRSB
        } else {
            MnemonicARM::LDRH
        };
        if !bit_of(w, 22) {
            DecodedInstruction {
                instr,
                rn,
                rd,
                rm: Some(reg_field(w, 0)),
                val1,
                imm: Some(false),
                ..blank(cond)
            }
        } else {
            DecodedInstruction {
                instr,
                rn,
                rd,
                val1,
                offset: Some((((w >> 4u32) & 0xF0u32) | (w & 0xFu32)) as i32),
                imm: Some(true),
                ..blank(cond)
            }
        }
    }
}

/// Decodes single, half-word, signed and block data transfers (and swaps).
pub fn data_transfer(instruction: u32, cond: u8) -> (r: DecodedInstruction)
    ensures
        r == spec_data_transfer(instruction, cond),
{
    let load = get_bit_at(instruction, 20);
    let rn = Some(get_last_bits(instruction >> 16u32, 4) as u8);
    let val1 = Some(transfer_flags_of(instruction));
    if get_bit_at(instruction, 27) {
        let instr = if load {
            MnemonicARM::LDM
        } else {
            MnemonicARM::STM
        };
        let offset = Some(get_last_bits(instruction, 16) as i32);
        return DecodedInstruction { instr, rn, val1, offset, ..DecodedInstruction::blank(cond) };
    }
    let rd = Some(get_last_bits(instruction >> 12u32, 4) as u8);
    if get_bit_at(instruction, 26) {
        let instr = if load {
            MnemonicARM::LDR
        } else {
            MnemonicARM::STR
        };
        if !get_bit_at(instruction, 25) {
            let offset = Some(get_last_bits(instruction, 12) as i32);
            return DecodedInstruction {
                instr,
                rn,
                rd,
                val1,
                offset,
                imm: Some(true),
                ..DecodedInstruction::blank(cond)
            };
        }
        let rm = Some(get_last_bits(instruction >> 0u32, 4) as u8);
        let val2 = Some(get_last_bits(instruction >> 7u32, 5) as u8);
        let shift_type = Some(get_shift_type(get_last_bits(instruction >> 5u32, 2)));
        return DecodedInstruction {
            instr,
            rn,
            rd,
            rm,
            val1,
            val2,
            shift_type,
            imm: Some(false),
            ..DecodedInstruction::blank(cond)
        };
    }
    let signed = get_bit_at(instruction, 6);
    let halfword = get_bit_at(instruction, 5);
    if !signed && !halfword {
        return swap(instruction, cond);
    }
    let instr = if !load {
        MnemonicARM::STRH
    } else if signed && halfword {
        MnemonicARM::LDRSH
    } else if signed {
        MnemonicARM::LDRSB
    } else {
        MnemonicARM::LDRH
    };
    if !get_bit_at(instruction, 22) {
        let rm = Some(get_last_bits(instruction >> 0u32, 4) as u8);
        return DecodedInstruction {
            instr,
            rn,
            rd,
            rm,
            val1,
            imm: Some(false),
            ..DecodedInstruction::blank(cond)
        };
    }
    let offset = ((instruction >> 4u32) & 0xF0u32) | (instruction & 0xFu32);
    DecodedInstruction {
        instr,
        rn,
        rd,
        val1,
        offset: Some(offset as i32),
        imm: Some(true),
        ..DecodedInstruction::blank(cond)
    }
}

/// Multiply layout: Rd 19..16, Rn 15..12, Rs 11..8, Rm 3..0; long (bit 23),
/// unsigned (22), accumulate (21) and set-flags (20) choose the mnemonic.
pub open spec fn spec_multiply(w: u32, cond: u8) -> DecodedInstruction {
    let long = bit_of(w, 23);
    let unsigned = bit_of(w, 22);
    let acc = bit_of(w, 21);
    DecodedInstruction {
        instr: if long {
            if acc {
                if unsigned {
                    MnemonicARM::UMLAL
                } else {
                    MnemonicARM::SMLAL
                }
            } else if unsigned {
                MnemonicARM::UMULL
            } else {
                MnemonicARM::SMULL
            }
        } else if acc {
            MnemonicARM::MLA
        } else {
            MnemonicARM::MUL
        },
        rd: Some(reg_field(w, 16)),
        rn: Some(reg_field(w, 12)),
        rs: Some(reg_field(w, 8)),
        rm: Some(reg_field(w, 0)),
        set_cond: Some(bit_of(w, 20)),
        ..blank(cond)
    }
}

/// Decodes the multiply and multiply-long instructions.
pub fn multiply(instruction: u32, cond: u8) -> (r: DecodedInstruction)
    ensures
        r == spec_multiply(instruction, cond),
{
    let rd = Some(get_last_bits(instruction >> 16u32, 4) as u8);
    let rn = Some(get_last_bits(instruction >> 12u32, 4) as u8);
    let rs = Some(get_last_bits(instruction >> 8u32, 4) as u8);
    let rm = Some(get_last_bits(instruction >> 0u32, 4) as u8);
    let long = get_bit_at(instruction, 23);
    let unsigned = get_bit_at(instruction, 22);
    let acc = get_bit_at(instruction, 21);
    let set_cond = Some(get_bit_at(instruction, 20));
    let instr = if long {
        if acc {
            if unsigned {
                MnemonicARM::UMLAL
            } else {
                MnemonicARM::SMLAL
            }
        } else if unsigned {
            MnemonicARM::UMULL
        } else {
            MnemonicARM::SMULL
        }
    } else if acc {
        MnemonicARM::MLA
    } else {
        MnemonicARM::MUL
    };
    DecodedInstruction { instr, rd, rn, rs, rm, set_cond, ..DecodedInstruction::blank(cond) }
}

/// Software-interrupt layout: the 24-bit comment field as three bytes.
pub open spec fn spec_interrupt(w: u32, cond: u8) -> DecodedInstruction {
    DecodedInstruction {
        instr: MnemonicARM::SWI,
        val1: Some(low_bits(w >> 16u32, 8) as u8),
        val2: Some(low_bits(w >> 8u32, 8) as u8),
        val3: Some(low_bits(w >> 0u32, 8) as u8),
        ..blank(cond)
    }
}

/// Decodes SWI.
pub fn interrupt(instruction: u32, cond: u8) -> (r: DecodedInstruction)
    ensures
        r == spec_interrupt(instruction, cond),
{
    let val1 = Some(get_last_bits(instruction >> 16u32, 8) as u8);
    let val2 = Some(get_last_bits(instruction >> 8u32, 8) as u8);
    let val3 = Some(get_last_bits(instruction >> 0u32, 8) as u8);
    DecodedInstruction {
        instr: MnemonicARM::SWI,
        val1,
        val2,
        val3,
        ..DecodedInstruction::blank(cond)
    }
}

/// Record of an instruction that matches no family.
pub fn undefined(_instruction: u32, cond: u8) -> (r: DecodedInstruction)
    ensures
        r == (DecodedInstruction { instr: MnemonicARM::Undefined, ..blank(cond) }),
{
    DecodedInstruction { instr: MnemonicARM::Undefined, ..DecodedInstruction::blank(cond) }
}

/// The eight families of wide instructions.
#[derive(Debug, PartialEq, Eq, Structural, Clone, Copy)]
pub enum BaseInstruction {
    BranchAndExchange,
    Interrupt,
    Branch,
    DataTransfer,
    Multiply,
    DataProcessing,
    PSR,
    Undefined,
}

/// Family of a wide instruction word; the condition field (31..28) is ignored.
/// The tests run in this order and the first match wins.
pub open spec fn arm_family(w: u32) -> BaseInstruction {
    let op = low_bits(w >> 25u32, 3);
    let b24 = bit_of(w, 24);
    let b23 = bit_of(w, 23);
    let b21 = bit_of(w, 21);
    let b20 = bit_of(w, 20);
    let b7 = bit_of(w, 7);
    let b4 = bit_of(w, 4);
    let n11_8 = low_bits(w >> 8u32, 4);
    let n7_4 = low_bits(w >> 4u32, 4);
    if low_bits(w >> 4u32, 24) == 0x12_FFF1 {
        BaseInstruction::BranchAndExchange
    } else if op == 7 && b24 {
        BaseInstruction::Interrupt
    } else if op == 5 {
        BaseInstruction::Branch
    } else if (op == 3 && !b4) || op == 2 || op == 4 {
        BaseInstruction::DataTransfer
    } else if op == 0 && b7 && b4 && (low_bits(w >> 5u32, 2) != 0 || (b24 && !b23 && !b21 && !b20
        && n11_8 == 0 && n7_4 == 9)) {
        BaseInstruction::DataTransfer
    } else if op == 0 && !b24 && n7_4 == 9 {
        BaseInstruction::Multiply
    } else if op == 0 && b24 && !b23 && !b20 && b7 && !b4 {
        BaseInstruction::Multiply
    } else if (op == 1 && b24 && !b23 && b21 && !b20) || (op == 0 && b24 && !b23 && !b20 && n11_8
        == 0 && n7_4 == 0) {
        BaseInstruction::PSR
    } else if (op == 0 && (!b4 || !b7)) || op == 1 {
        BaseInstruction::DataProcessing
    } else {
        BaseInstruction::Undefined
    }
}

/// The record that the family's decoder makes of `w`.
pub open spec fn spec_family_decode(f: BaseInstruction, w: u32, cond: u8) -> DecodedInstruction {
    match f {
        BaseInstruction::BranchAndExchange => spec_branch_exchange(w, cond),
        BaseInstruction::Interrupt => spec_interrupt(w, cond),
        BaseInstruction::Branch => spec_branch(w, cond),
        BaseInstruction::DataTransfer => spec_data_transfer(w, cond),
        BaseInstruction::Multiply => spec_multiply(w, cond),
        BaseInstruction::PSR => spec_psr_transfer(w, cond),
        BaseInstruction::DataProcessing => spec_data_processing(w, cond),
        BaseInstruction::Undefined => DecodedInstruction {
            instr: MnemonicARM::Undefined,
            ..blank(cond)
        },
    }
}

/// Condition field (31..28) of a wide instruction.
pub open spec fn cond_of(w: u32) -> u8 {
    (w >> 28u32) as u8
}

/// Decoded record of a wide instruction word.
pub open spec fn spec_decode_arm(w: u32) -> DecodedInstruction {
    spec_family_decode(arm_family(w), w, cond_of(w))
}

/// Mnemonics that a family's records may carry.
pub open spec fn family_tags(f: BaseInstruction, t: MnemonicARM) -> bool {
    match f {
        BaseInstruction::BranchAndExchange => t == MnemonicARM::BX,
        BaseInstruction::Interrupt => t == MnemonicARM::SWI,
        BaseInstruction::Branch => t == MnemonicARM::B || t == MnemonicARM::BX,
        BaseInstruction::DataTransfer => t == MnemonicARM::LDM || t == MnemonicARM::STM || t
            == MnemonicARM::LDR || t == MnemonicARM::STR || t == MnemonicARM::STRH || t
            == MnemonicARM::LDRH || t == MnemonicARM::LDRSB || t == MnemonicARM::LDRSH || t
            == MnemonicARM::SWP,
        BaseInstruction::Multiply => t == MnemonicARM::MUL || t == MnemonicARM::MLA || t
            == MnemonicARM::UMULL || t == MnemonicARM::UMLAL || t == MnemonicARM::SMULL || t
            == MnemonicARM::SMLAL,
        BaseInstruction::PSR => t == MnemonicARM::MRS || t == MnemonicARM::MSR,
        BaseInstruction::DataProcessing => t == dp_opcode(0) || t == dp_opcode(1) || t
            == dp_opcode(2) || t == dp_opcode(3) || t == dp_opcode(4) || t == dp_opcode(5) || t
            == dp_opcode(6) || t == dp_opcode(7) || t == dp_opcode(8) || t == dp_opcode(9) || t
            == dp_opcode(10) || t == dp_opcode(11) || t == dp_opcode(12) || t == dp_opcode(13)
            || t == dp_opcode(14) || t == dp_opcode(15),
        BaseInstruction::Undefined => t == MnemonicARM::Undefined,
    }
}

impl BaseInstruction {
    /// Classifies a wide instruction word into its family. Total: a word that
    /// matches no family is `Undefined`.
    pub fn get_instr(instruction: u32) -> (r: BaseInstruction)
        ensures
            r == arm_family(instruction),
    {
        let op = get_last_bits(instruction >> 25u32, 3);
        let b24 = get_bit_at(instruction, 24);
        let b23 = get_bit_at(instruction, 23);
        let b21 = get_bit_at(instruction, 21);
        let b20 = get_bit_at(instruction, 20);
        let b7 = get_bit_at(instruction, 7);
        let b4 = get_bit_at(instruction, 4);
        let n11_8 = get_last_bits(instruction >> 8u32, 4);
        let n7_4 = get_last_bits(instruction >> 4u32, 4);
        if get_last_bits(instruction >> 4u32, 24) == 0x12_FFF1 {
            BaseInstruction::BranchAndExchange
        } else if op == 7 && b24 {
            BaseInstruction::Interrupt
        } else if op == 5 {
            BaseInstruction::Branch
        } else if (op == 3 && !b4) || op == 2 || op == 4 {
            BaseInstruction::DataTransfer
        } else if op == 0 && b7 && b4 && (get_last_bits(instruction >> 5u32, 2) != 0 || (b24
            && !b23 && !b21 && !b20 && n11_8 == 0 && n7_4 == 9)) {
            BaseInstruction::DataTransfer
        } else if op == 0 && !b24 && n7_4 == 9 {
            BaseInstruction::Multiply
        } else if op == 0 && b24 && !b23 && !b20 && b7 && !b4 {
            BaseInstruction::Multiply
        } else if (op == 1 && b24 && !b23 && b21 && !b20) || (op == 0 && b24 && !b23 && !b20
            && n11_8 == 0 && n7_4 == 0) {
            BaseInstruction::PSR
        } else if (op == 0 && (!b4 || !b7)) || op == 1 {
            BaseInstruction::DataProcessing
        } else {
            BaseInstruction::Undefined
        }
    }

    /// Decodes a wide instruction word: classifies it, then extracts the
    /// family's fields. Never fails; unknown words give an `Undefined` record.
    pub fn base_to_decoded(instr: u32) -> (r: DecodedInstruction)
        ensures
            r == spec_decode_arm(instr),
            family_tags(arm_family(instr), r.instr),
    {
        let cond = (instr >> 28u32) as u8;
        let family = BaseInstruction::get_instr(instr);
        let r = match family {
            BaseInstruction::BranchAndExchange => branch_exchange(instr, cond),
            BaseInstruction::Interrupt => interrupt(instr, cond),
            BaseInstruction::Branch => branch(instr, cond),
            BaseInstruction::DataTransfer => data_transfer(instr, cond),
            BaseInstruction::Multiply => multiply(instr, cond),
            BaseInstruction::PSR => psr_transfer(instr, cond),
            BaseInstruction::DataProcessing => data_processing(instr, cond),
            BaseInstruction::Undefined => undefined(instr, cond),
        };
        proof {
            lemma_family_tag(instr);
        }
        r
    }
}

/// Decodes a wide instruction word (see `BaseInstruction::base_to_decoded`).
pub fn base_to_decoded(instruction: u32) -> (r: DecodedInstruction)
    ensures
        r == spec_decode_arm(instruction),
{
    BaseInstruction::base_to_decoded(instruction)
}

/// Every wide word decodes: the decoder picks exactly one family (the first
/// whose pattern matches, `Undefined` when none does), and the record it makes
/// carries a mnemonic of that family.
pub proof fn lemma_family_tag(w: u32)
    ensures
        family_tags(arm_family(w), spec_decode_arm(w).instr),
{
    let f = arm_family(w);
    let d = spec_decode_arm(w);
    let op = low_bits(w >> 21u32, 4);
    if f == BaseInstruction::DataProcessing {
        assert(d.instr == dp_opcode(op));
        assert(op == 0 || op == 1 || op == 2 || op == 3 || op == 4 || op == 5 || op == 6 || op == 7
            || op == 8 || op == 9 || op == 10 || op == 11 || op == 12 || op == 13 || op == 14
            || op == 15 || d.instr == dp_opcode(15));
    }
}

} // verus!
