use vstd::prelude::*;
use crate::alu::{
    add_carry, add_overflow, add_value, add_with_carry, barrel_shift, bit, rotated_immediate,
    spec_rotated_immediate, spec_shift,
};
use crate::cpu::{reg_ok, CPU};
use crate::enums::MnemonicARM;
use crate::psr::PSR;

verus! {

/// Mnemonics of the data-processing family.
pub open spec fn is_alu_tag(t: MnemonicARM) -> bool {
    t == MnemonicARM::AND || t == MnemonicARM::EOR || t == MnemonicARM::SUB || t == MnemonicARM::RSB
        || t == MnemonicARM::ADD || t == MnemonicARM::ADC || t == MnemonicARM::SBC || t
        == MnemonicARM::RSC || t == MnemonicARM::TST || t == MnemonicARM::TEQ || t
        == MnemonicARM::CMP || t == MnemonicARM::CMN || t == MnemonicARM::ORR || t
        == MnemonicARM::MOV || t == MnemonicARM::BIC || t == MnemonicARM::MVN
}

/// Logical operations: their carry comes from the shifter, overflow is kept.
pub open spec fn is_logical(t: MnemonicARM) -> bool {
    t == MnemonicARM::AND || t == MnemonicARM::EOR || t == MnemonicARM::TST || t == MnemonicARM::TEQ
        || t == MnemonicARM::ORR || t == MnemonicARM::MOV || t == MnemonicARM::BIC || t
        == MnemonicARM::MVN
}

/// Comparisons: flags only, no register written.
pub open spec fn is_test(t: MnemonicARM) -> bool {
    t == MnemonicARM::TST || t == MnemonicARM::TEQ || t == MnemonicARM::CMP || t == MnemonicARM::CMN
}

/// Result of a logical operation on `a` and `b`.
pub open spec fn logical_value(t: MnemonicARM, a: u32, b: u32) -> u32 {
    if t == MnemonicARM::AND || t == MnemonicARM::TST {
        a & b
    } else if t == MnemonicARM::EOR || t == MnemonicARM::TEQ {
        a ^ b
    } else if t == MnemonicARM::ORR {
        a | b
    } else if t == MnemonicARM::MOV {
        b
    } else if t == MnemonicARM::BIC {
        a & !b
    } else {
        !b
    }
}

/// Operands fed to the adder: subtraction adds the complement plus one (or
/// plus the carry for the with-carry forms).
pub open spec fn arith_operands(t: MnemonicARM, a: u32, b: u32, c: bool) -> (u32, u32, bool) {
    if t == MnemonicARM::ADD || t == MnemonicARM::CMN {
        (a, b, false)
    } else if t == MnemonicARM::ADC {
        (a, b, c)
    } else if t == MnemonicARM::SUB || t == MnemonicARM::CMP {
        (a, !b, true)
    } else if t == MnemonicARM::SBC {
        (a, !b, c)
    } else if t == MnemonicARM::RSB {
        (b, !a, true)
    } else {
        (b, !a, c)
    }
}

/// Fields that the data-processing micro-operation reads.
pub open spec fn alu_shape(cpu: &CPU) -> bool {
    let d = cpu.current;
    is_alu_tag(d.instr) && reg_ok(d.rn) && reg_ok(d.rd) && d.set_cond.is_some() && d.imm.is_some()
        && if d.imm.unwrap() {
        d.val1.is_some() && d.val1.unwrap() < 16 && d.val2.is_some()
    } else {
        reg_ok(d.rm) && d.shift_type.is_some() && (d.rs.is_some() ==> reg_ok(d.rs)) && (
        d.rs.is_none() ==> d.val1.is_some())
    }
}

/// Second operand and shifter carry: a rotated immediate, or a register run
/// through the barrel shifter by an immediate amount or by the low byte of Rs.
pub open spec fn operand2(cpu: &CPU) -> (u32, bool) {
    let d = cpu.current;
    let c = cpu.arm.cpsr.carry;
    if d.imm.unwrap() {
        let v = spec_rotated_immediate(d.val2.unwrap() as u32, d.val1.unwrap() as u32);
        (v, if d.val1.unwrap() == 0 {
            c
        } else {
            bit(v, 31)
        })
    } else if d.rs.is_some() {
        spec_shift(d.shift_type.unwrap(), cpu.reg(d.rm.unwrap()), cpu.reg(d.rs.unwrap()) & 0xFF, c, true)
    } else {
        spec_shift(d.shift_type.unwrap(), cpu.reg(d.rm.unwrap()), d.val1.unwrap() as u32, c, false)
    }
}

/// `(result, carry, overflow)` of the data-processing operation.
#[verifier::opaque]
pub open spec fn alu_outcome(cpu: &CPU) -> (u32, bool, bool) {
    let d = cpu.current;
    let a = cpu.reg(d.rn.unwrap());
    let (b, sc) = operand2(cpu);
    if is_logical(d.instr) {
        (logical_value(d.instr, a, b), sc, cpu.arm.cpsr.overflow)
    } else {
        let (x, y, ci) = arith_operands(d.instr, a, b, cpu.arm.cpsr.carry);
        (add_value(x, y, ci), add_carry(x, y, ci), add_overflow(x, y, ci))
    }
}

/// `p` with N and Z from `v`, and the given carry and overflow.
pub open spec fn with_flags(p: PSR, v: u32, carry: bool, overflow: bool) -> PSR {
    PSR { negative: bit(v, 31), zero: v == 0, carry, overflow, ..p }
}

/// Every part of the processor but the registers and the status register is unchanged.
pub open spec fn same_but_regs_cpsr(a: &CPU, b: &CPU) -> bool {
    a.mmu == b.mmu && a.current == b.current && a.execution_queue == b.execution_queue
        && a.should_exit == b.should_exit && a.arm.spsr_fiq == b.arm.spsr_fiq && a.arm.spsr_irq
        == b.arm.spsr_irq && a.arm.spsr_svc == b.arm.spsr_svc && a.arm.spsr_abt == b.arm.spsr_abt
        && a.arm.spsr_und == b.arm.spsr_und && a.arm.shifter_carry == b.arm.shifter_carry
}

fn second_operand(cpu: &CPU) -> (r: (u32, bool))
    requires
        cpu.wf(),
        alu_shape(cpu),
    ensures
        r == operand2(cpu),
{
    let d = cpu.current;
    let c = cpu.arm.cpsr.carry;
    if d.imm.unwrap() {
        let rot = d.val1.unwrap();
        let v = rotated_immediate(d.val2.unwrap(), rot);
        let carry = if rot == 0 {
            c
        } else {
            (v >> 31u32) & 1 == 1
        };
        (v, carry)
    } else {
        let value = cpu.read(d.rm.unwrap());
        match d.rs {
            Some(rs) => {
                let amount = cpu.read(rs) & 0xFF;
                barrel_shift(d.shift_type.unwrap(), value, amount, c, true)
            },
            None => barrel_shift(d.shift_type.unwrap(), value, d.val1.unwrap() as u32, c, false),
        }
    }
}

fn logical(t: MnemonicARM, a: u32, b: u32) -> (r: u32)
    ensures
        r == logical_value(t, a, b),
{
    if t == MnemonicARM::AND || t == MnemonicARM::TST {
        a & b
    } else if t == MnemonicARM::EOR || t == MnemonicARM::TEQ {
        a ^ b
    } else if t == MnemonicARM::ORR {
        a | b
    } else if t == MnemonicARM::MOV {
        b
    } else if t == MnemonicARM::BIC {
        a & !b
    } else {
        !b
    }
}

fn alu_compute(cpu: &CPU) -> (r: (u32, bool, bool))
    requires
        cpu.wf(),
        alu_shape(cpu),
    ensures
        r == alu_outcome(cpu),
{
    reveal(alu_outcome);
    let d = cpu.current;
    let t = d.instr;
    let a = cpu.read(d.rn.unwrap());
    let (b, sc) = second_operand(cpu);
    let c_in = cpu.arm.cpsr.carry;
    if t == MnemonicARM::AND || t == MnemonicARM::EOR || t == MnemonicARM::TST || t
        == MnemonicARM::TEQ || t == MnemonicARM::ORR || t == MnemonicARM::MOV || t
        == MnemonicARM::BIC || t == MnemonicARM::MVN {
        (logical(t, a, b), sc, cpu.arm.cpsr.overflow)
    } else if t == MnemonicARM::ADD || t == MnemonicARM::CMN {
        add_with_carry(a, b, false)
    } else if t == MnemonicARM::ADC {
        add_with_carry(a, b, c_in)
    } else if t == MnemonicARM::SUB || t == MnemonicARM::CMP {
        add_with_carry(a, !b, true)
    } else if t == MnemonicARM::SBC {
        add_with_carry(a, !b, c_in)
    } else if t == MnemonicARM::RSB {
        add_with_carry(b, !a, true)
    } else {
        add_with_carry(b, !a, c_in)
    }
}

/// Effect of the data-processing micro-operation.
pub open spec fn alu_post(a: &CPU, b: &CPU) -> bool {
    &&& b.mmu == a.mmu
    &&& b.current == a.current
    &&& b.execution_queue == a.execution_queue
    &&& b.should_exit == a.should_exit
    &&& b.arm.spsr_fiq == a.arm.spsr_fiq
    &&& b.arm.spsr_irq == a.arm.spsr_irq
    &&& b.arm.spsr_svc == a.arm.spsr_svc
    &&& b.arm.spsr_abt == a.arm.spsr_abt
    &&& b.arm.spsr_und == a.arm.spsr_und
    &&& b.arm.shifter_carry == a.arm.shifter_carry
    &&& b.arm.phys() == if is_test(a.current.instr) {
        a.arm.phys()
    } else {
        a.with_reg(a.current.rd.unwrap(), alu_outcome(a).0)
    }
    &&& b.arm.cpsr == if a.current.set_cond.unwrap() || is_test(a.current.instr) {
        with_flags(
            a.arm.cpsr,
            alu_outcome(a).0,
            alu_outcome(a).1,
            alu_outcome(a).2,
        )
    } else {
        a.arm.cpsr
    }
}

/// Runs a data-processing instruction: computes the result from Rn and the
/// second operand, writes it to Rd (not for comparisons), and updates N, Z, C
/// and V when the instruction sets condition codes (comparisons always do).
pub fn alu_master(cpu: &mut CPU)
    requires
        old(cpu).wf(),
        alu_shape(old(cpu)),
    ensures
        final(cpu).wf(),
        alu_post(old(cpu), final(cpu)),
{
    let (v, c, o) = alu_compute(cpu);
    alu_apply(cpu, v, c, o);
}

/// Writes the result to Rd unless the operation is a comparison, and the
/// flags when they are to be set.
fn alu_apply(cpu: &mut CPU, v: u32, c: bool, o: bool)
    requires
        old(cpu).wf(),
        alu_shape(old(cpu)),
    ensures
        final(cpu).wf(),
        same_but_regs_cpsr(final(cpu), old(cpu)),
        final(cpu).arm.phys() == if is_test(old(cpu).current.instr) {
            old(cpu).arm.phys()
        } else {
            old(cpu).with_reg(old(cpu).current.rd.unwrap(), v)
        },
        final(cpu).arm.cpsr == if old(cpu).current.set_cond.unwrap() || is_test(old(cpu).current.instr) {
            with_flags(old(cpu).arm.cpsr, v, c, o)
        } else {
            old(cpu).arm.cpsr
        },
{
    let d = cpu.current;
    let t = d.instr;
    let test = t == MnemonicARM::TST || t == MnemonicARM::TEQ || t == MnemonicARM::CMP || t
        == MnemonicARM::CMN;
    if !test {
        cpu.write(d.rd.unwrap(), v);
    }
    if d.set_cond.unwrap() || test {
        cpu.arm.cpsr = PSR {
            negative: (v >> 31u32) & 1 == 1,
            zero: v == 0,
            carry: c,
            overflow: o,
            ..cpu.arm.cpsr
        };
    }
}

/// Fields that the multiply micro-operation reads.
pub open spec fn mul_shape(cpu: &CPU) -> bool {
    let d = cpu.current;
    (d.instr == MnemonicARM::MUL || d.instr == MnemonicARM::MLA) && reg_ok(d.rd) && reg_ok(d.rm)
        && reg_ok(d.rs) && d.set_cond.is_some() && (d.instr == MnemonicARM::MLA ==> reg_ok(d.rn))
}

/// `Rm * Rs` (plus `Rn` for MLA), truncated to 32 bits.
pub open spec fn mul_value(cpu: &CPU) -> u32 {
    let d = cpu.current;
    let p = cpu.reg(d.rm.unwrap()).wrapping_mul(cpu.reg(d.rs.unwrap()));
    if d.instr == MnemonicARM::MLA {
        p.wrapping_add(cpu.reg(d.rn.unwrap()))
    } else {
        p
    }
}

/// Effect of the multiply micro-operation.
pub open spec fn mul_post(a: &CPU, b: &CPU) -> bool {
    &&& same_but_regs_cpsr(b, a)
    &&& b.arm.phys() == a.with_reg(a.current.rd.unwrap(), mul_value(a))
    &&& b.arm.cpsr == if a.current.set_cond.unwrap() {
        with_flags(a.arm.cpsr, mul_value(a), false, a.arm.cpsr.overflow)
    } else {
        a.arm.cpsr
    }
}

/// MUL and MLA: Rd gets the truncated product (plus Rn); with the S bit, N and
/// Z follow the result and C is cleared.
pub fn multiply(cpu: &mut CPU)
    requires
        old(cpu).wf(),
        mul_shape(old(cpu)),
    ensures
        final(cpu).wf(),
        mul_post(old(cpu), final(cpu)),
{
    let d = cpu.current;
    let p = cpu.read(d.rm.unwrap()).wrapping_mul(cpu.read(d.rs.unwrap()));
    let v = if d.instr == MnemonicARM::MLA {
        p.wrapping_add(cpu.read(d.rn.unwrap()))
    } else {
        p
    };
    cpu.write(d.rd.unwrap(), v);
    if d.set_cond.unwrap() {
        cpu.arm.cpsr = PSR { negative: (v >> 31u32) & 1 == 1, zero: v == 0, carry: false, ..cpu.arm.cpsr };
    }
}

/// Fields that the multiply-long micro-operation reads: RdLo in `rn`, RdHi in
/// `rd`. An absent set-flags field means the flags are left alone.
pub open spec fn mul_long_shape(cpu: &CPU) -> bool {
    let d = cpu.current;
    let t = d.instr;
    (t == MnemonicARM::UMULL || t == MnemonicARM::UMLAL || t == MnemonicARM::SMULL || t
        == MnemonicARM::SMLAL) && reg_ok(d.rd) && reg_ok(d.rn) && reg_ok(d.rm) && reg_ok(d.rs)
}

/// 64-bit product of two words, signed or unsigned.
pub open spec fn long_product(signed: bool, a: u32, b: u32) -> u64 {
    if signed {
        ((a as i32) as int * (b as i32) as int) as i64 as u64
    } else {
        (a as int * b as int) as u64
    }
}

/// The 64-bit result of a multiply-long: the product, plus RdHi:RdLo for the
/// accumulating forms, wrapping at 64 bits.
pub open spec fn long_value(cpu: &CPU) -> u64 {
    let d = cpu.current;
    let t = d.instr;
    let p = long_product(
        t == MnemonicARM::SMULL || t == MnemonicARM::SMLAL,
        cpu.reg(d.rm.unwrap()),
        cpu.reg(d.rs.unwrap()),
    );
    if t == MnemonicARM::UMLAL || t == MnemonicARM::SMLAL {
        p.wrapping_add(((cpu.reg(d.rd.unwrap()) as u64) << 32u64) | (cpu.reg(d.rn.unwrap()) as u64))
    } else {
        p
    }
}

/// Multiplies two words into 64 bits, signed or unsigned.
pub fn long_multiply(signed: bool, a: u32, b: u32) -> (r: u64)
    ensures
        r == long_product(signed, a, b),
{
    if signed {
        let x = a as i32 as i64;
        let y = b as i32 as i64;
        assert(-0x4000_0000_0000_0000 <= x * y <= 0x4000_0000_0000_0000) by (nonlinear_arith)
            requires
                -0x8000_0000 <= x <= 0x7FFF_FFFF,
                -0x8000_0000 <= y <= 0x7FFF_FFFF,
        ;
        (x * y) as u64
    } else {
        let x = a as u64;
        let y = b as u64;
        assert(x * y <= 0xFFFF_FFFE_0000_0001) by (nonlinear_arith)
            requires
                x <= 0xFFFF_FFFF,
                y <= 0xFFFF_FFFF,
        ;
        x * y
    }
}

/// Effect of the multiply-long micro-operation.
pub open spec fn mul_long_post(a: &CPU, b: &CPU) -> bool {
    &&& same_but_regs_cpsr(b, a)
    &&& ({
        let r = long_value(a);
        let d = a.current;
        let mid = a.with_reg(d.rn.unwrap(), r as u32);
        &&& b.arm.phys() == mid.update(
            crate::registers::slot(a.arm.cpsr.mode, d.rd.unwrap() as int),
            (r >> 32u64) as u32 as i32,
        )
        &&& b.arm.cpsr == if d.set_cond == Some(true) {
            PSR { negative: (r >> 63u64) & 1 == 1, zero: r == 0, ..a.arm.cpsr }
        } else {
            a.arm.cpsr
        }
    })
}

/// UMULL, UMLAL, SMULL, SMLAL: RdLo gets the low word and RdHi the high word of
/// the 64-bit result; with the S bit, N is bit 63 and Z tells a zero result.
pub fn multiply_long(cpu: &mut CPU)
    requires
        old(cpu).wf(),
        mul_long_shape(old(cpu)),
    ensures
        final(cpu).wf(),
        mul_long_post(old(cpu), final(cpu)),
{
    let d = cpu.current;
    let t = d.instr;
    let p = long_multiply(
        t == MnemonicARM::SMULL || t == MnemonicARM::SMLAL,
        cpu.read(d.rm.unwrap()),
        cpu.read(d.rs.unwrap()),
    );
    let r = if t == MnemonicARM::UMLAL || t == MnemonicARM::SMLAL {
        let acc = ((cpu.read(d.rd.unwrap()) as u64) << 32u64) | (cpu.read(d.rn.unwrap()) as u64);
        p.wrapping_add(acc)
    } else {
        p
    };
    cpu.write(d.rn.unwrap(), r as u32);
    cpu.write(d.rd.unwrap(), (r >> 32u64) as u32);
    if d.set_cond == Some(true) {
        cpu.arm.cpsr = PSR { negative: (r >> 63u64) & 1 == 1, zero: r == 0, ..cpu.arm.cpsr };
    }
}

/// A signed multiply-long of two registers that both hold -1 (0xFFFF_FFFF)
/// leaves 1 in RdLo and 0 in RdHi.
pub proof fn lemma_signed_long_multiply_minus_ones(a: &CPU, b: &CPU)
    requires
        a.wf(),
        a.current.instr == MnemonicARM::SMULL,
        mul_long_shape(a),
        a.current.rn.unwrap() != a.current.rd.unwrap(),
        a.reg(a.current.rm.unwrap()) == 0xFFFF_FFFF,
        a.reg(a.current.rs.unwrap()) == 0xFFFF_FFFF,
        mul_long_post(a, b),
    ensures
        b.reg(a.current.rn.unwrap()) == 1,
        b.reg(a.current.rd.unwrap()) == 0,
{
    let r = long_value(a);
    assert(0xFFFF_FFFFu32 as i32 == -1i32) by (bit_vector);
    assert(long_product(true, 0xFFFF_FFFF, 0xFFFF_FFFF) == 1);
    assert(r == 1);
    assert((1u64 >> 32u64) as u32 == 0 && 1u64 as u32 == 1) by (bit_vector);
    let lo = a.current.rn.unwrap() as int;
    let hi = a.current.rd.unwrap() as int;
    let m = a.arm.cpsr.mode;
    assert(crate::registers::slot(m, lo) != crate::registers::slot(m, hi));
    assert(b.arm.cpsr.mode == m);
}

} // verus!
