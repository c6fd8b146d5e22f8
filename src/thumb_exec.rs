use vstd::prelude::*;
use crate::enums::{MnemonicARM, ShiftType};
use crate::instruction::{blank, DecodedInstruction};

verus! {

/// The value of a present field, 0 for an absent one.
pub open spec fn fv(o: Option<u8>) -> u8 {
    match o {
        Some(x) => x,
        None => 0,
    }
}

fn fx(o: Option<u8>) -> (r: u8)
    ensures
        r == fv(o),
{
    match o {
        Some(x) => x,
        None => 0,
    }
}

/// Condition field "always" given to expanded records.
pub const ALWAYS: u8 = 0xE;

/// Data-processing record with a register operand shifted by an immediate.
pub open spec fn dp_reg(t: MnemonicARM, rn: u8, rd: u8, rm: u8, st: ShiftType, amount: u8, s: bool) -> DecodedInstruction {
    DecodedInstruction {
        instr: t,
        rn: Some(rn),
        rd: Some(rd),
        rm: Some(rm),
        val1: Some(amount),
        shift_type: Some(st),
        set_cond: Some(s),
        imm: Some(false),
        ..blank(ALWAYS)
    }
}

/// Data-processing record with an immediate operand (8 bits, rotation field).
pub open spec fn dp_imm(t: MnemonicARM, rn: u8, rd: u8, value: u8, rot: u8, s: bool) -> DecodedInstruction {
    DecodedInstruction {
        instr: t,
        rn: Some(rn),
        rd: Some(rd),
        val1: Some(rot),
        val2: Some(value),
        set_cond: Some(s),
        imm: Some(true),
        ..blank(ALWAYS)
    }
}

/// Transfer record with an immediate byte offset and the given flag bundle.
pub open spec fn xfer_imm(t: MnemonicARM, rn: u8, rd: u8, offset: int, flags: u8) -> DecodedInstruction {
    DecodedInstruction {
        instr: t,
        rn: Some(rn),
        rd: Some(rd),
        offset: Some(offset as i32),
        val1: Some(flags),
        imm: Some(true),
        ..blank(ALWAYS)
    }
}

/// Transfer record with a register offset and the given flag bundle.
pub open spec fn xfer_reg(t: MnemonicARM, rn: u8, rd: u8, rm: u8, flags: u8) -> DecodedInstruction {
    DecodedInstruction {
        instr: t,
        rn: Some(rn),
        rd: Some(rd),
        rm: Some(rm),
        val1: Some(flags),
        val2: Some(0),
        shift_type: Some(ShiftType::LSL),
        imm: Some(false),
        ..blank(ALWAYS)
    }
}

/// Block-transfer record.
pub open spec fn block_rec(t: MnemonicARM, rn: u8, flags: u8, list: int) -> DecodedInstruction {
    DecodedInstruction { instr: t, rn: Some(rn), val1: Some(flags), offset: Some(list as i32), ..blank(ALWAYS) }
}

/// The wide record that carries out a compressed record. Compressed
/// branches (`B`, `BCond`, `BL`) keep their own records, which the
/// compressed-branch micro-operations run; breakpoints trap as undefined
/// instructions.
#[verifier::opaque]
pub open spec fn wide_of_thumb(d: DecodedInstruction) -> DecodedInstruction {
    let t = d.instr;
    let rd = fv(d.rd);
    let rs = fv(d.rs);
    let rn = fv(d.rn);
    let rm = fv(d.rm);
    let v = fv(d.val1);
    if t == MnemonicARM::SHIFT {
        dp_reg(MnemonicARM::MOV, 0, rd, rs, d.shift_type.unwrap_or(ShiftType::LSL), (match d.offset {
            Some(o) => o,
            None => 0,
        }) as u8, true)
    } else if (t == MnemonicARM::ADD || t == MnemonicARM::SUB) && d.rs.is_some() && d.imm.is_some() {
        if d.imm.unwrap() {
            dp_imm(t, rs, rd, v, 0, true)
        } else {
            dp_reg(t, rs, rd, rn, ShiftType::LSL, 0, true)
        }
    } else if t == MnemonicARM::MOVI {
        dp_imm(MnemonicARM::MOV, 0, rd, v, 0, true)
    } else if t == MnemonicARM::CMPI {
        dp_imm(MnemonicARM::CMP, rd, rd, v, 0, true)
    } else if t == MnemonicARM::ADDI {
        dp_imm(MnemonicARM::ADD, rd, rd, v, 0, true)
    } else if t == MnemonicARM::SUBI {
        dp_imm(MnemonicARM::SUB, rd, rd, v, 0, true)
    } else if t == MnemonicARM::AND || t == MnemonicARM::EOR || t == MnemonicARM::ADC || t
        == MnemonicARM::SBC || t == MnemonicARM::TST || t == MnemonicARM::CMP || t
        == MnemonicARM::CMN || t == MnemonicARM::ORR || t == MnemonicARM::BIC || t
        == MnemonicARM::MVN {
        dp_reg(t, rd, rd, rs, ShiftType::LSL, 0, true)
    } else if t == MnemonicARM::LSLALU || t == MnemonicARM::LSRALU || t == MnemonicARM::ASRALU || t
        == MnemonicARM::ROR {
        DecodedInstruction {
            rs: Some(rs),
            ..dp_reg(MnemonicARM::MOV, 0, rd, rd, if t == MnemonicARM::LSLALU {
                ShiftType::LSL
            } else if t == MnemonicARM::LSRALU {
                ShiftType::LSR
            } else if t == MnemonicARM::ASRALU {
                ShiftType::ASR
            } else {
                ShiftType::ROR
            }, 0, true)
        }
    } else if t == MnemonicARM::NEG {
        dp_imm(MnemonicARM::RSB, rs, rd, 0, 0, true)
    } else if t == MnemonicARM::MUL {
        DecodedInstruction {
            instr: MnemonicARM::MUL,
            rd: Some(rd),
            rm: Some(rs),
            rs: Some(rd),
            set_cond: Some(true),
            ..blank(ALWAYS)
        }
    } else if t == MnemonicARM::ADDHI {
        dp_reg(MnemonicARM::ADD, (rd + 8 * v) as u8, (rd + 8 * v) as u8, rs, ShiftType::LSL, 0, false)
    } else if t == MnemonicARM::CMPHI {
        dp_reg(MnemonicARM::CMP, (rd + 8 * v) as u8, (rd + 8 * v) as u8, rs, ShiftType::LSL, 0, true)
    } else if t == MnemonicARM::MOVHI {
        dp_reg(MnemonicARM::MOV, 0, (rd + 8 * v) as u8, rs, ShiftType::LSL, 0, false)
    } else if t == MnemonicARM::BX && d.rs.is_some() {
        DecodedInstruction { instr: MnemonicARM::BX, rn: Some(rs), ..blank(ALWAYS) }
    } else if t == MnemonicARM::LDRPC {
        xfer_imm(MnemonicARM::LDR, 15, rd, 4 * v, 12)
    } else if (t == MnemonicARM::STR || t == MnemonicARM::STRB || t == MnemonicARM::LDR || t
        == MnemonicARM::LDRB) && d.imm == Some(false) {
        xfer_reg(
            if t == MnemonicARM::STR || t == MnemonicARM::STRB { MnemonicARM::STR } else { MnemonicARM::LDR },
            rm,
            rd,
            rn,
            if t == MnemonicARM::STRB || t == MnemonicARM::LDRB { 14u8 } else { 12u8 },
        )
    } else if (t == MnemonicARM::STR || t == MnemonicARM::STRB || t == MnemonicARM::LDR || t
        == MnemonicARM::LDRB) && d.imm == Some(true) {
        if t == MnemonicARM::STRB || t == MnemonicARM::LDRB {
            xfer_imm(if t == MnemonicARM::STRB { MnemonicARM::STR } else { MnemonicARM::LDR }, rn, rd, v as int, 14)
        } else {
            xfer_imm(t, rn, rd, 4 * v, 12)
        }
    } else if (t == MnemonicARM::STRH || t == MnemonicARM::LDRH) && d.rm.is_some() {
        xfer_reg(t, rm, rd, rn, 12)
    } else if t == MnemonicARM::LDSB || t == MnemonicARM::LDSH {
        xfer_reg(if t == MnemonicARM::LDSB { MnemonicARM::LDRSB } else { MnemonicARM::LDRSH }, rm, rd, rn, 12)
    } else if t == MnemonicARM::STRH || t == MnemonicARM::LDRH {
        xfer_imm(t, rn, rd, 2 * v, 12)
    } else if t == MnemonicARM::STRSPREL || t == MnemonicARM::LDRSPREL {
        xfer_imm(if t == MnemonicARM::STRSPREL { MnemonicARM::STR } else { MnemonicARM::LDR }, 13, rd, 4 * v, 12)
    } else if t == MnemonicARM::ADDPC || t == MnemonicARM::ADDSP {
        dp_imm(MnemonicARM::ADD, if t == MnemonicARM::ADDPC { 15u8 } else { 13u8 }, rd, v, 15, false)
    } else if t == MnemonicARM::OffsetADD || t == MnemonicARM::OffsetSUB {
        dp_imm(if t == MnemonicARM::OffsetADD { MnemonicARM::ADD } else { MnemonicARM::SUB }, 13, 13, v, 15, false)
    } else if t == MnemonicARM::PUSH || t == MnemonicARM::PUSHLR {
        block_rec(MnemonicARM::STM, 13, 9, v as int + if t == MnemonicARM::PUSHLR { 0x4000int } else { 0 })
    } else if t == MnemonicARM::POP || t == MnemonicARM::POPPC {
        block_rec(MnemonicARM::LDM, 13, 5, v as int + if t == MnemonicARM::POPPC { 0x8000int } else { 0 })
    } else if t == MnemonicARM::STMIA || t == MnemonicARM::LDMIA {
        block_rec(if t == MnemonicARM::STMIA { MnemonicARM::STM } else { MnemonicARM::LDM }, rn, 5, v as int)
    } else if t == MnemonicARM::SWI {
        DecodedInstruction { instr: MnemonicARM::SWI, val1: d.val1, ..blank(ALWAYS) }
    } else if t == MnemonicARM::BKPT || t == MnemonicARM::Undefined {
        DecodedInstruction { instr: MnemonicARM::Undefined, ..blank(ALWAYS) }
    } else {
        d
    }
}

fn mk_dp_reg(t: MnemonicARM, rn: u8, rd: u8, rm: u8, st: ShiftType, amount: u8, s: bool) -> (r: DecodedInstruction)
    ensures
        r == dp_reg(t, rn, rd, rm, st, amount, s),
{
    DecodedInstruction {
        instr: t,
        rn: Some(rn),
        rd: Some(rd),
        rm: Some(rm),
        val1: Some(amount),
        shift_type: Some(st),
        set_cond: Some(s),
        imm: Some(false),
        ..DecodedInstruction::blank(ALWAYS)
    }
}

fn mk_dp_imm(t: MnemonicARM, rn: u8, rd: u8, value: u8, rot: u8, s: bool) -> (r: DecodedInstruction)
    ensures
        r == dp_imm(t, rn, rd, value, rot, s),
{
    DecodedInstruction {
        instr: t,
        rn: Some(rn),
        rd: Some(rd),
        val1: Some(rot),
        val2: Some(value),
        set_cond: Some(s),
        imm: Some(true),
        ..DecodedInstruction::blank(ALWAYS)
    }
}

fn mk_xfer_imm(t: MnemonicARM, rn: u8, rd: u8, offset: u32, flags: u8) -> (r: DecodedInstruction)
    requires
        offset < 0x1000,
    ensures
        r == xfer_imm(t, rn, rd, offset as int, flags),
{
    DecodedInstruction {
        instr: t,
        rn: Some(rn),
        rd: Some(rd),
        offset: Some(offset as i32),
        val1: Some(flags),
        imm: Some(true),
        ..DecodedInstruction::blank(ALWAYS)
    }
}

fn mk_xfer_reg(t: MnemonicARM, rn: u8, rd: u8, rm: u8, flags: u8) -> (r: DecodedInstruction)
    ensures
        r == xfer_reg(t, rn, rd, rm, flags),
{
    DecodedInstruction {
        instr: t,
        rn: Some(rn),
        rd: Some(rd),
        rm: Some(rm),
        val1: Some(flags),
        val2: Some(0),
        shift_type: Some(ShiftType::LSL),
        imm: Some(false),
        ..DecodedInstruction::blank(ALWAYS)
    }
}

fn mk_block(t: MnemonicARM, rn: u8, flags: u8, list: u32) -> (r: DecodedInstruction)
    requires
        list < 0x1_0000,
    ensures
        r == block_rec(t, rn, flags, list as int),
{
    DecodedInstruction {
        instr: t,
        rn: Some(rn),
        val1: Some(flags),
        offset: Some(list as i32),
        ..DecodedInstruction::blank(ALWAYS)
    }
}

/// Expands a compressed record into the wide record that carries it out.
pub fn to_wide(d: DecodedInstruction) -> (r: DecodedInstruction)
    ensures
        r == wide_of_thumb(d),
{
    reveal(wide_of_thumb);
    let t = d.instr;
    let rd = fx(d.rd);
    let rs = fx(d.rs);
    let rn = fx(d.rn);
    let rm = fx(d.rm);
    let v = fx(d.val1);
    let hi = (rd as u32 + 8 * v as u32) as u8;
    if t == MnemonicARM::SHIFT {
        let amount = match d.offset {
            Some(o) => o,
            None => 0,
        };
        mk_dp_reg(MnemonicARM::MOV, 0, rd, rs, d.shift_type.unwrap_or(ShiftType::LSL), amount as u8, true)
    } else if (t == MnemonicARM::ADD || t == MnemonicARM::SUB) && d.rs.is_some() && d.imm.is_some() {
        if d.imm.unwrap() {
            mk_dp_imm(t, rs, rd, v, 0, true)
        } else {
            mk_dp_reg(t, rs, rd, rn, ShiftType::LSL, 0, true)
        }
    } else if t == MnemonicARM::MOVI {
        mk_dp_imm(MnemonicARM::MOV, 0, rd, v, 0, true)
    } else if t == MnemonicARM::CMPI {
        mk_dp_imm(MnemonicARM::CMP, rd, rd, v, 0, true)
    } else if t == MnemonicARM::ADDI {
        mk_dp_imm(MnemonicARM::ADD, rd, rd, v, 0, true)
    } else if t == MnemonicARM::SUBI {
        mk_dp_imm(MnemonicARM::SUB, rd, rd, v, 0, true)
    } else if t == MnemonicARM::AND || t == MnemonicARM::EOR || t == MnemonicARM::ADC || t
        == MnemonicARM::SBC || t == MnemonicARM::TST || t == MnemonicARM::CMP || t
        == MnemonicARM::CMN || t == MnemonicARM::ORR || t == MnemonicARM::BIC || t
        == MnemonicARM::MVN {
        mk_dp_reg(t, rd, rd, rs, ShiftType::LSL, 0, true)
    } else if t == MnemonicARM::LSLALU || t == MnemonicARM::LSRALU || t == MnemonicARM::ASRALU || t
        == MnemonicARM::ROR {
        let st = if t == MnemonicARM::LSLALU {
            ShiftType::LSL
        } else if t == MnemonicARM::LSRALU {
            ShiftType::LSR
        } else if t == MnemonicARM::ASRALU {
            ShiftType::ASR
        } else {
            ShiftType::ROR
        };
        DecodedInstruction { rs: Some(rs), ..mk_dp_reg(MnemonicARM::MOV, 0, rd, rd, st, 0, true) }
    } else if t == MnemonicARM::NEG {
        mk_dp_imm(MnemonicARM::RSB, rs, rd, 0, 0, true)
    } else if t == MnemonicARM::MUL {
        DecodedInstruction {
            instr: MnemonicARM::MUL,
            rd: Some(rd),
            rm: Some(rs),
            rs: Some(rd),
            set_cond: Some(true),
            ..DecodedInstruction::blank(ALWAYS)
        }
    } else if t == MnemonicARM::ADDHI {
        mk_dp_reg(MnemonicARM::ADD, hi, hi, rs, ShiftType::LSL, 0, false)
    } else if t == MnemonicARM::CMPHI {
        mk_dp_reg(MnemonicARM::CMP, hi, hi, rs, ShiftType::LSL, 0, true)
    } else if t == MnemonicARM::MOVHI {
        mk_dp_reg(MnemonicARM::MOV, 0, hi, rs, ShiftType::LSL, 0, false)
    } else if t == MnemonicARM::BX && d.rs.is_some() {
        DecodedInstruction { instr: MnemonicARM::BX, rn: Some(rs), ..DecodedInstruction::blank(ALWAYS) }
    } else if t == MnemonicARM::LDRPC {
        mk_xfer_imm(MnemonicARM::LDR, 15, rd, 4 * v as u32, 12)
    } else if (t == MnemonicARM::STR || t == MnemonicARM::STRB || t == MnemonicARM::LDR || t
        == MnemonicARM::LDRB) && d.imm == Some(false) {
        mk_xfer_reg(
            if t == MnemonicARM::STR || t == MnemonicARM::STRB { MnemonicARM::STR } else { MnemonicARM::LDR },
            rm,
            rd,
            rn,
            if t == MnemonicARM::STRB || t == MnemonicARM::LDRB { 14u8 } else { 12u8 },
        )
    } else if (t == MnemonicARM::STR || t == MnemonicARM::STRB || t == MnemonicARM::LDR || t
        == MnemonicARM::LDRB) && d.imm == Some(true) {
        if t == MnemonicARM::STRB || t == MnemonicARM::LDRB {
            mk_xfer_imm(if t == MnemonicARM::STRB { MnemonicARM::STR } else { MnemonicARM::LDR }, rn, rd, v as u32, 14)
        } else {
            mk_xfer_imm(t, rn, rd, 4 * v as u32, 12)
        }
    } else if (t == MnemonicARM::STRH || t == MnemonicARM::LDRH) && d.rm.is_some() {
        mk_xfer_reg(t, rm, rd, rn, 12)
    } else if t == MnemonicARM::LDSB || t == MnemonicARM::LDSH {
        mk_xfer_reg(if t == MnemonicARM::LDSB { MnemonicARM::LDRSB } else { MnemonicARM::LDRSH }, rm, rd, rn, 12)
    } else if t == MnemonicARM::STRH || t == MnemonicARM::LDRH {
        mk_xfer_imm(t, rn, rd, 2 * v as u32, 12)
    } else if t == MnemonicARM::STRSPREL || t == MnemonicARM::LDRSPREL {
        mk_xfer_imm(if t == MnemonicARM::STRSPREL { MnemonicARM::STR } else { MnemonicARM::LDR }, 13, rd, 4 * v as u32, 12)
    } else if t == MnemonicARM::ADDPC || t == MnemonicARM::ADDSP {
        mk_dp_imm(MnemonicARM::ADD, if t == MnemonicARM::ADDPC { 15u8 } else { 13u8 }, rd, v, 15, false)
    } else if t == MnemonicARM::OffsetADD || t == MnemonicARM::OffsetSUB {
        mk_dp_imm(if t == MnemonicARM::OffsetADD { MnemonicARM::ADD } else { MnemonicARM::SUB }, 13, 13, v, 15, false)
    } else if t == MnemonicARM::PUSH || t == MnemonicARM::PUSHLR {
        mk_block(MnemonicARM::STM, 13, 9, v as u32 + if t == MnemonicARM::PUSHLR { 0x4000u32 } else { 0 })
    } else if t == MnemonicARM::POP || t == MnemonicARM::POPPC {
        mk_block(MnemonicARM::LDM, 13, 5, v as u32 + if t == MnemonicARM::POPPC { 0x8000u32 } else { 0 })
    } else if t == MnemonicARM::STMIA || t == MnemonicARM::LDMIA {
        mk_block(if t == MnemonicARM::STMIA { MnemonicARM::STM } else { MnemonicARM::LDM }, rn, 5, v as u32)
    } else if t == MnemonicARM::SWI {
        DecodedInstruction { instr: MnemonicARM::SWI, val1: d.val1, ..DecodedInstruction::blank(ALWAYS) }
    } else if t == MnemonicARM::BKPT || t == MnemonicARM::Undefined {
        DecodedInstruction { instr: MnemonicARM::Undefined, ..DecodedInstruction::blank(ALWAYS) }
    } else {
        d
    }
}

} // verus!
