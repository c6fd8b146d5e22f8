use vstd::prelude::*;
use crate::bits::{bit_of, get_bit_at, get_last_bits, low_bits};
use crate::enums::{MnemonicARM, ShiftType};
use crate::instruction::{blank, DecodedInstruction};

verus! {

/// Records of compressed instructions share the wide decoder's shape.
pub type ThumbDecodedInstruction = DecodedInstruction;

/// The `n`-bit field of a compressed word whose lowest bit is at `lo`.
pub open spec fn tf(instr: u16, lo: u32, n: u32) -> u8 {
    low_bits((instr as u32) >> lo, n) as u8
}

/// Bit `n` of a compressed word.
pub open spec fn tb(instr: u16, n: u32) -> bool {
    bit_of(instr as u32, n)
}

fn field(instr: u16, lo: u32, n: u8) -> (r: u8)
    requires
        lo < 32,
        n <= 8,
    ensures
        r == tf(instr, lo, n as u32),
{
    get_last_bits((instr as u32) >> lo, n) as u8
}

fn flag(instr: u16, n: u8) -> (r: bool)
    ensures
        r == tb(instr, n as u32),
{
    get_bit_at(instr as u32, n)
}

/// Add/subtract: ADD or SUB (bit 9) of Rs (5..3) and Rn or a 3-bit immediate
/// (8..6, immediate when bit 10 is set) into Rd (2..0).
pub open spec fn spec_add_subtract(instr: u16) -> DecodedInstruction {
    let instr_m = if tb(instr, 9) {
        MnemonicARM::SUB
    } else {
        MnemonicARM::ADD
    };
    let v = Some(tf(instr, 6, 3));
    if tb(instr, 10) {
        DecodedInstruction { instr: instr_m, imm: Some(true), val1: v, rs: Some(tf(instr, 3, 3)), rd: Some(tf(instr, 0, 3)), ..blank(0) }
    } else {
        DecodedInstruction { instr: instr_m, imm: Some(false), rn: v, rs: Some(tf(instr, 3, 3)), rd: Some(tf(instr, 0, 3)), ..blank(0) }
    }
}

pub fn add_subtract(instr: u16) -> (r: DecodedInstruction)
    ensures
        r == spec_add_subtract(instr),
{
    let m = if flag(instr, 9) {
        MnemonicARM::SUB
    } else {
        MnemonicARM::ADD
    };
    let v = Some(field(instr, 6, 3));
    let rs = Some(field(instr, 3, 3));
    let rd = Some(field(instr, 0, 3));
    if flag(instr, 10) {
        DecodedInstruction { instr: m, imm: Some(true), val1: v, rs, rd, ..DecodedInstruction::blank(0) }
    } else {
        DecodedInstruction { instr: m, imm: Some(false), rn: v, rs, rd, ..DecodedInstruction::blank(0) }
    }
}

/// Shift kind of a move-shifted-register instruction (bits 12..11).
pub open spec fn thumb_shift(op: u8) -> ShiftType {
    if op == 0 {
        ShiftType::LSL
    } else if op == 1 {
        ShiftType::LSR
    } else {
        ShiftType::ASR
    }
}

/// Move shifted register: Rs (5..3) shifted by a 5-bit amount (10..6) into Rd.
pub open spec fn spec_shifted(instr: u16) -> DecodedInstruction {
    DecodedInstruction {
        instr: MnemonicARM::SHIFT,
        shift_type: Some(thumb_shift(tf(instr, 11, 2))),
        rs: Some(tf(instr, 3, 3)),
        rd: Some(tf(instr, 0, 3)),
        offset: Some(tf(instr, 6, 5) as i32),
        ..blank(0)
    }
}

pub fn shifted(instr: u16) -> (r: DecodedInstruction)
    ensures
        r == spec_shifted(instr),
{
    let op = field(instr, 11, 2);
    let st = if op == 0 {
        ShiftType::LSL
    } else if op == 1 {
        ShiftType::LSR
    } else {
        ShiftType::ASR
    };
    DecodedInstruction {
        instr: MnemonicARM::SHIFT,
        shift_type: Some(st),
        rs: Some(field(instr, 3, 3)),
        rd: Some(field(instr, 0, 3)),
        offset: Some(field(instr, 6, 5) as i32),
        ..DecodedInstruction::blank(0)
    }
}

/// Picks one of four mnemonics by a 2-bit value.
pub open spec fn pick4(v: u8, a: MnemonicARM, b: MnemonicARM, c: MnemonicARM, d: MnemonicARM) -> MnemonicARM {
    if v == 0 {
        a
    } else if v == 1 {
        b
    } else if v == 2 {
        c
    } else {
        d
    }
}

fn choose4(v: u8, a: MnemonicARM, b: MnemonicARM, c: MnemonicARM, d: MnemonicARM) -> (r: MnemonicARM)
    ensures
        r == pick4(v, a, b, c, d),
{
    if v == 0 {
        a
    } else if v == 1 {
        b
    } else if v == 2 {
        c
    } else {
        d
    }
}

/// Move/compare/add/subtract immediate: opcode 12..11, Rd 10..8, 8-bit value.
pub open spec fn spec_immediate_compare(instr: u16) -> DecodedInstruction {
    DecodedInstruction {
        instr: pick4(tf(instr, 11, 2), MnemonicARM::MOVI, MnemonicARM::CMPI, MnemonicARM::ADDI, MnemonicARM::SUBI),
        rd: Some(tf(instr, 8, 3)),
        val1: Some(tf(instr, 0, 8)),
        ..blank(0)
    }
}

pub fn immediate_compare(instr: u16) -> (r: DecodedInstruction)
    ensures
        r == spec_immediate_compare(instr),
{
    DecodedInstruction {
        instr: choose4(field(instr, 11, 2), MnemonicARM::MOVI, MnemonicARM::CMPI, MnemonicARM::ADDI, MnemonicARM::SUBI),
        rd: Some(field(instr, 8, 3)),
        val1: Some(field(instr, 0, 8)),
        ..DecodedInstruction::blank(0)
    }
}

/// Mnemonic of a compressed ALU opcode (bits 9..6).
pub open spec fn thumb_alu_op(op: u8) -> MnemonicARM {
    if op < 4 {
        pick4(op, MnemonicARM::AND, MnemonicARM::EOR, MnemonicARM::LSLALU, MnemonicARM::LSRALU)
    } else if op < 8 {
        pick4((op - 4) as u8, MnemonicARM::ASRALU, MnemonicARM::ADC, MnemonicARM::SBC, MnemonicARM::ROR)
    } else if op < 12 {
        pick4((op - 8) as u8, MnemonicARM::TST, MnemonicARM::NEG, MnemonicARM::CMP, MnemonicARM::CMN)
    } else {
        pick4((op - 12) as u8, MnemonicARM::ORR, MnemonicARM::MUL, MnemonicARM::BIC, MnemonicARM::MVN)
    }
}

/// ALU operation: opcode 9..6 on Rs (5..3) and Rd (2..0).
pub open spec fn spec_alu_decode(instr: u16) -> DecodedInstruction {
    DecodedInstruction { instr: thumb_alu_op(tf(instr, 6, 4)), rd: Some(tf(instr, 0, 3)), rs: Some(tf(instr, 3, 3)), ..blank(0) }
}

pub fn alu_decode(instr: u16) -> (r: DecodedInstruction)
    ensures
        r == spec_alu_decode(instr),
{
    let op = field(instr, 6, 4);
    let m = if op < 4 {
        choose4(op, MnemonicARM::AND, MnemonicARM::EOR, MnemonicARM::LSLALU, MnemonicARM::LSRALU)
    } else if op < 8 {
        choose4(op - 4, MnemonicARM::ASRALU, MnemonicARM::ADC, MnemonicARM::SBC, MnemonicARM::ROR)
    } else if op < 12 {
        choose4(op - 8, MnemonicARM::TST, MnemonicARM::NEG, MnemonicARM::CMP, MnemonicARM::CMN)
    } else {
        choose4(op - 12, MnemonicARM::ORR, MnemonicARM::MUL, MnemonicARM::BIC, MnemonicARM::MVN)
    };
    DecodedInstruction { instr: m, rd: Some(field(instr, 0, 3)), rs: Some(field(instr, 3, 3)), ..DecodedInstruction::blank(0) }
}

/// High-register operation or branch-exchange: opcode 9..8, H1 (bit 7) in
/// `val1`, Rs with H2 (bit 6) as its top bit, Rd 2..0.
pub open spec fn spec_hireg_ops(instr: u16) -> DecodedInstruction {
    DecodedInstruction {
        instr: pick4(tf(instr, 8, 2), MnemonicARM::ADDHI, MnemonicARM::CMPHI, MnemonicARM::MOVHI, MnemonicARM::BX),
        val1: Some(if tb(instr, 7) { 1u8 } else { 0u8 }),
        rs: Some((tf(instr, 3, 3) + if tb(instr, 6) { 8u8 } else { 0u8 }) as u8),
        rd: Some(tf(instr, 0, 3)),
        ..blank(0)
    }
}

pub fn hireg_ops(instr: u16) -> (r: DecodedInstruction)
    ensures
        r == spec_hireg_ops(instr),
{
    let low = field(instr, 3, 3);
    proof {
        let w = instr as u32;
        assert(low_bits(w >> 3u32, 3) < 8) by (bit_vector);
    }
    let hs: u8 = if flag(instr, 6) { 8 } else { 0 };
    DecodedInstruction {
        instr: choose4(field(instr, 8, 2), MnemonicARM::ADDHI, MnemonicARM::CMPHI, MnemonicARM::MOVHI, MnemonicARM::BX),
        val1: Some(if flag(instr, 7) { 1u8 } else { 0u8 }),
        rs: Some(low + hs),
        rd: Some(field(instr, 0, 3)),
        ..DecodedInstruction::blank(0)
    }
}

/// A record carrying a mnemonic, Rd from bits 10..8 and an 8-bit value.
pub open spec fn rd_word8(m: MnemonicARM, instr: u16) -> DecodedInstruction {
    DecodedInstruction { instr: m, rd: Some(tf(instr, 8, 3)), val1: Some(tf(instr, 0, 8)), ..blank(0) }
}

fn make_rd_word8(m: MnemonicARM, instr: u16) -> (r: DecodedInstruction)
    ensures
        r == rd_word8(m, instr),
{
    DecodedInstruction { instr: m, rd: Some(field(instr, 8, 3)), val1: Some(field(instr, 0, 8)), ..DecodedInstruction::blank(0) }
}

/// PC-relative load: Rd 10..8, word offset 7..0.
pub fn load_pc(instr: u16) -> (r: DecodedInstruction)
    ensures
        r == rd_word8(MnemonicARM::LDRPC, instr),
{
    make_rd_word8(MnemonicARM::LDRPC, instr)
}

/// A record with a mnemonic, Ro (8..6) in `rn`, Rb (5..3) in `rm` and Rd (2..0).
pub open spec fn reg_offset_record(m: MnemonicARM, instr: u16) -> DecodedInstruction {
    DecodedInstruction { instr: m, rn: Some(tf(instr, 6, 3)), rm: Some(tf(instr, 3, 3)), rd: Some(tf(instr, 0, 3)), ..blank(0) }
}

fn make_reg_offset(m: MnemonicARM, instr: u16) -> (r: DecodedInstruction)
    ensures
        r == reg_offset_record(m, instr),
{
    DecodedInstruction {
        instr: m,
        rn: Some(field(instr, 6, 3)),
        rm: Some(field(instr, 3, 3)),
        rd: Some(field(instr, 0, 3)),
        ..DecodedInstruction::blank(0)
    }
}

/// Load/store with register offset: L and B (bits 11..10) pick STR, STRB, LDR, LDRB.
pub open spec fn spec_load_store_reg(instr: u16) -> DecodedInstruction {
    DecodedInstruction {
        imm: Some(false),
        ..reg_offset_record(pick4(tf(instr, 10, 2), MnemonicARM::STR, MnemonicARM::STRB, MnemonicARM::LDR, MnemonicARM::LDRB), instr)
    }
}

pub fn load_store_reg(instr: u16) -> (r: DecodedInstruction)
    ensures
        r == spec_load_store_reg(instr),
{
    let m = choose4(field(instr, 10, 2), MnemonicARM::STR, MnemonicARM::STRB, MnemonicARM::LDR, MnemonicARM::LDRB);
    DecodedInstruction { imm: Some(false), ..make_reg_offset(m, instr) }
}

/// Load/store sign-extended byte or half-word: H and S (bits 11..10) pick
/// STRH, LDSB, LDRH, LDSH.
pub open spec fn spec_load_store_sign_extended(instr: u16) -> DecodedInstruction {
    reg_offset_record(pick4(tf(instr, 10, 2), MnemonicARM::STRH, MnemonicARM::LDSB, MnemonicARM::LDRH, MnemonicARM::LDSH), instr)
}

pub fn load_store_sign_extended(instr: u16) -> (r: DecodedInstruction)
    ensures
        r == spec_load_store_sign_extended(instr),
{
    make_reg_offset(
        choose4(field(instr, 10, 2), MnemonicARM::STRH, MnemonicARM::LDSB, MnemonicARM::LDRH, MnemonicARM::LDSH),
        instr,
    )
}

/// A record with a mnemonic, a 5-bit offset (10..6), Rb (5..3) in `rn` and Rd.
pub open spec fn imm5_record(m: MnemonicARM, instr: u16) -> DecodedInstruction {
    DecodedInstruction { instr: m, rn: Some(tf(instr, 3, 3)), rd: Some(tf(instr, 0, 3)), val1: Some(tf(instr, 6, 5)), ..blank(0) }
}

fn make_imm5(m: MnemonicARM, instr: u16) -> (r: DecodedInstruction)
    ensures
        r == imm5_record(m, instr),
{
    DecodedInstruction {
        instr: m,
        rn: Some(field(instr, 3, 3)),
        rd: Some(field(instr, 0, 3)),
        val1: Some(field(instr, 6, 5)),
        ..DecodedInstruction::blank(0)
    }
}

/// Load/store with immediate offset: B (bit 12) and L (bit 11) pick STR, LDR,
/// STRB, LDRB.
pub open spec fn spec_load_store_imm(instr: u16) -> DecodedInstruction {
    DecodedInstruction {
        imm: Some(true),
        ..imm5_record(pick4(tf(instr, 11, 2), MnemonicARM::STR, MnemonicARM::LDR, MnemonicARM::STRB, MnemonicARM::LDRB), instr)
    }
}

pub fn load_store_imm(instr: u16) -> (r: DecodedInstruction)
    ensures
        r == spec_load_store_imm(instr),
{
    let m = choose4(field(instr, 11, 2), MnemonicARM::STR, MnemonicARM::LDR, MnemonicARM::STRB, MnemonicARM::LDRB);
    DecodedInstruction { imm: Some(true), ..make_imm5(m, instr) }
}

/// Load/store half-word: STRH or LDRH (bit 11) with a 5-bit offset.
pub open spec fn spec_load_store_half(instr: u16) -> DecodedInstruction {
    imm5_record(if tb(instr, 11) { MnemonicARM::LDRH } else { MnemonicARM::STRH }, instr)
}

pub fn load_store_half(instr: u16) -> (r: DecodedInstruction)
    ensures
        r == spec_load_store_half(instr),
{
    make_imm5(if flag(instr, 11) { MnemonicARM::LDRH } else { MnemonicARM::STRH }, instr)
}

/// SP-relative load/store: STRSPREL or LDRSPREL (bit 11), Rd, word offset.
pub fn load_store_sp_relative(instr: u16) -> (r: DecodedInstruction)
    ensures
        r == rd_word8(if tb(instr, 11) { MnemonicARM::LDRSPREL } else { MnemonicARM::STRSPREL }, instr),
{
    make_rd_word8(if flag(instr, 11) { MnemonicARM::LDRSPREL } else { MnemonicARM::STRSPREL }, instr)
}

/// Load address: ADDPC or ADDSP (bit 11), Rd, word offset.
pub fn get_relative_address(instr: u16) -> (r: DecodedInstruction)
    ensures
        r == rd_word8(if tb(instr, 11) { MnemonicARM::ADDSP } else { MnemonicARM::ADDPC }, instr),
{
    make_rd_word8(if flag(instr, 11) { MnemonicARM::ADDSP } else { MnemonicARM::ADDPC }, instr)
}

/// Add offset to stack pointer: sign (bit 7) and a 7-bit word offset.
pub open spec fn spec_add_offset(instr: u16) -> DecodedInstruction {
    DecodedInstruction {
        instr: if tb(instr, 7) { MnemonicARM::OffsetSUB } else { MnemonicARM::OffsetADD },
        val1: Some(tf(instr, 0, 7)),
        ..blank(0)
    }
}

pub fn add_offset(instr: u16) -> (r: DecodedInstruction)
    ensures
        r == spec_add_offset(instr),
{
    DecodedInstruction {
        instr: if flag(instr, 7) { MnemonicARM::OffsetSUB } else { MnemonicARM::OffsetADD },
        val1: Some(field(instr, 0, 7)),
        ..DecodedInstruction::blank(0)
    }
}

/// Push/pop: L (bit 11) and R (bit 8, LR or PC too) pick the mnemonic; the
/// register list is in `val1`.
pub open spec fn spec_push_pop(instr: u16) -> DecodedInstruction {
    DecodedInstruction {
        instr: if tb(instr, 11) {
            if tb(instr, 8) { MnemonicARM::POPPC } else { MnemonicARM::POP }
        } else if tb(instr, 8) {
            MnemonicARM::PUSHLR
        } else {
            MnemonicARM::PUSH
        },
        val1: Some(tf(instr, 0, 8)),
        ..blank(0)
    }
}

pub fn push_pop(instr: u16) -> (r: DecodedInstruction)
    ensures
        r == spec_push_pop(instr),
{
    let m = if flag(instr, 11) {
        if flag(instr, 8) { MnemonicARM::POPPC } else { MnemonicARM::POP }
    } else if flag(instr, 8) {
        MnemonicARM::PUSHLR
    } else {
        MnemonicARM::PUSH
    };
    DecodedInstruction { instr: m, val1: Some(field(instr, 0, 8)), ..DecodedInstruction::blank(0) }
}

/// Multiple load/store: STMIA or LDMIA (bit 11), Rb (10..8), register list.
pub open spec fn spec_stm_ldm(instr: u16) -> DecodedInstruction {
    DecodedInstruction {
        instr: if tb(instr, 11) { MnemonicARM::LDMIA } else { MnemonicARM::STMIA },
        rn: Some(tf(instr, 8, 3)),
        val1: Some(tf(instr, 0, 8)),
        ..blank(0)
    }
}

pub fn stm_ldm(instr: u16) -> (r: DecodedInstruction)
    ensures
        r == spec_stm_ldm(instr),
{
    DecodedInstruction {
        instr: if flag(instr, 11) { MnemonicARM::LDMIA } else { MnemonicARM::STMIA },
        rn: Some(field(instr, 8, 3)),
        val1: Some(field(instr, 0, 8)),
        ..DecodedInstruction::blank(0)
    }
}

/// Breakpoint.
pub fn breakpoint(_instr: u16) -> (r: DecodedInstruction)
    ensures
        r == (DecodedInstruction { instr: MnemonicARM::BKPT, ..blank(0) }),
{
    DecodedInstruction { instr: MnemonicARM::BKPT, ..DecodedInstruction::blank(0) }
}

/// Software interrupt with its 8-bit comment in `val1`.
pub fn interrupt(instr: u16) -> (r: DecodedInstruction)
    ensures
        r == (DecodedInstruction { instr: MnemonicARM::SWI, val1: Some(tf(instr, 0, 8)), ..blank(0) }),
{
    DecodedInstruction { instr: MnemonicARM::SWI, val1: Some(field(instr, 0, 8)), ..DecodedInstruction::blank(0) }
}

/// Conditional branch: 8-bit offset in `val1`, condition (11..8) in `val2`.
pub open spec fn spec_branch_cond(instr: u16) -> DecodedInstruction {
    DecodedInstruction { instr: MnemonicARM::BCond, val1: Some(tf(instr, 0, 8)), val2: Some(tf(instr, 8, 4)), ..blank(0) }
}

pub fn branch_cond(instr: u16) -> (r: DecodedInstruction)
    ensures
        r == spec_branch_cond(instr),
{
    DecodedInstruction {
        instr: MnemonicARM::BCond,
        val1: Some(field(instr, 0, 8)),
        val2: Some(field(instr, 8, 4)),
        ..DecodedInstruction::blank(0)
    }
}

/// Unconditional branch: the 11-bit offset, low byte in `val1`, top three bits in `val2`.
pub open spec fn spec_branch_uncond(instr: u16) -> DecodedInstruction {
    DecodedInstruction { instr: MnemonicARM::B, val1: Some(tf(instr, 0, 8)), val2: Some(tf(instr, 8, 3)), ..blank(0) }
}

pub fn branch_uncond(instr: u16) -> (r: DecodedInstruction)
    ensures
        r == spec_branch_uncond(instr),
{
    DecodedInstruction {
        instr: MnemonicARM::B,
        val1: Some(field(instr, 0, 8)),
        val2: Some(field(instr, 8, 3)),
        ..DecodedInstruction::blank(0)
    }
}

/// One half of a long branch with link: H (bit 11) in `val1`, 11-bit offset.
pub open spec fn spec_long_branch(instr: u16) -> DecodedInstruction {
    DecodedInstruction {
        instr: MnemonicARM::BL,
        val1: Some(if tb(instr, 11) { 1u8 } else { 0u8 }),
        offset: Some(low_bits(instr as u32, 11) as i32),
        ..blank(0)
    }
}

pub fn long_branch(instr: u16) -> (r: DecodedInstruction)
    ensures
        r == spec_long_branch(instr),
{
    DecodedInstruction {
        instr: MnemonicARM::BL,
        val1: Some(if flag(instr, 11) { 1u8 } else { 0u8 }),
        offset: Some(get_last_bits(instr as u32, 11) as i32),
        ..DecodedInstruction::blank(0)
    }
}

/// Decoded record of a compressed instruction: the three leading bits and the
/// sub-fields below them select one of the formats; words of no format give
/// an `Undefined` record.
pub open spec fn spec_decode_thumb(instr: u16) -> DecodedInstruction {
    let top = tf(instr, 13, 3);
    let b12 = tb(instr, 12);
    let b11 = tb(instr, 11);
    let b10 = tb(instr, 10);
    let b9 = tb(instr, 9);
    let n11_8 = tf(instr, 8, 4);
    if top == 0 {
        if b12 && b11 { spec_add_subtract(instr) } else { spec_shifted(instr) }
    } else if top == 1 {
        spec_immediate_compare(instr)
    } else if top == 2 {
        if !b12 && !b11 && !b10 {
            spec_alu_decode(instr)
        } else if !b12 && !b11 {
            spec_hireg_ops(instr)
        } else if !b12 {
            rd_word8(MnemonicARM::LDRPC, instr)
        } else if !b9 {
            spec_load_store_reg(instr)
        } else {
            spec_load_store_sign_extended(instr)
        }
    } else if top == 3 {
        spec_load_store_imm(instr)
    } else if top == 4 {
        if !b12 {
            spec_load_store_half(instr)
        } else {
            rd_word8(if b11 { MnemonicARM::LDRSPREL } else { MnemonicARM::STRSPREL }, instr)
        }
    } else if top == 5 {
        if !b12 {
            rd_word8(if b11 { MnemonicARM::ADDSP } else { MnemonicARM::ADDPC }, instr)
        } else if n11_8 == 0 {
            spec_add_offset(instr)
        } else if b10 && !b9 {
            spec_push_pop(instr)
        } else if n11_8 == 14 {
            DecodedInstruction { instr: MnemonicARM::BKPT, ..blank(0) }
        } else {
            DecodedInstruction { instr: MnemonicARM::Undefined, ..blank(0) }
        }
    } else if top == 6 {
        if !b12 {
            spec_stm_ldm(instr)
        } else if n11_8 == 15 {
            DecodedInstruction { instr: MnemonicARM::SWI, val1: Some(tf(instr, 0, 8)), ..blank(0) }
        } else if n11_8 == 14 {
            DecodedInstruction { instr: MnemonicARM::Undefined, ..blank(0) }
        } else {
            spec_branch_cond(instr)
        }
    } else if !b12 && !b11 {
        spec_branch_uncond(instr)
    } else if b12 {
        spec_long_branch(instr)
    } else {
        DecodedInstruction { instr: MnemonicARM::Undefined, ..blank(0) }
    }
}

/// Decodes a compressed instruction word. Never fails.
pub fn base_to_decoded(instr: u16) -> (r: DecodedInstruction)
    ensures
        r == spec_decode_thumb(instr),
{
    let top = field(instr, 13, 3);
    let b12 = flag(instr, 12);
    let b11 = flag(instr, 11);
    let b10 = flag(instr, 10);
    let b9 = flag(instr, 9);
    let n11_8 = field(instr, 8, 4);
    if top == 0 {
        if b12 && b11 { add_subtract(instr) } else { shifted(instr) }
    } else if top == 1 {
        immediate_compare(instr)
    } else if top == 2 {
        if !b12 && !b11 && !b10 {
            alu_decode(instr)
        } else if !b12 && !b11 {
            hireg_ops(instr)
        } else if !b12 {
            load_pc(instr)
        } else if !b9 {
            load_store_reg(instr)
        } else {
            load_store_sign_extended(instr)
        }
    } else if top == 3 {
        load_store_imm(instr)
    } else if top == 4 {
        if !b12 { load_store_half(instr) } else { load_store_sp_relative(instr) }
    } else if top == 5 {
        if !b12 {
            get_relative_address(instr)
        } else if n11_8 == 0 {
            add_offset(instr)
        } else if b10 && !b9 {
            push_pop(instr)
        } else if n11_8 == 14 {
            breakpoint(instr)
        } else {
            DecodedInstruction { instr: MnemonicARM::Undefined, ..DecodedInstruction::blank(0) }
        }
    } else if top == 6 {
        if !b12 {
            stm_ldm(instr)
        } else if n11_8 == 15 {
            interrupt(instr)
        } else if n11_8 == 14 {
            DecodedInstruction { instr: MnemonicARM::Undefined, ..DecodedInstruction::blank(0) }
        } else {
            branch_cond(instr)
        }
    } else if !b12 && !b11 {
        branch_uncond(instr)
    } else if b12 {
        long_branch(instr)
    } else {
        DecodedInstruction { instr: MnemonicARM::Undefined, ..DecodedInstruction::blank(0) }
    }
}

} // verus!
