use vstd::prelude::*;
use crate::alu::{rotated_immediate, spec_rotated_immediate};
use crate::cpu::{reg_ok, CPU};
use crate::enums::{MnemonicARM, ProcessorMode};
use crate::psr::PSR;
use crate::registers::{slot, LINK_REGISTER, PROGRAM_COUNTER};
use crate::transfer::same_but_regs_mem;

verus! {

/// Everything but the registers is unchanged, the status registers included.
pub open spec fn only_regs_change(a: &CPU, b: &CPU) -> bool {
    same_but_regs_mem(a, b) && a.mmu == b.mmu
}

/// Everything but the registers and the status registers is unchanged.
pub open spec fn only_regs_psrs_change(a: &CPU, b: &CPU) -> bool {
    a.mmu == b.mmu && a.current == b.current && a.execution_queue == b.execution_queue
        && a.should_exit == b.should_exit && a.arm.shifter_carry == b.arm.shifter_carry
}

/// Effect of saving the return address.
pub open spec fn link_post(a: &CPU, b: &CPU) -> bool {
    &&& only_regs_change(b, a)
    &&& b.arm.phys() == a.with_reg(14, a.reg(15))
}

/// Saves the return address: the link register gets the program counter.
pub fn store_pc_to_lr(cpu: &mut CPU)
    requires
        old(cpu).wf(),
    ensures
        final(cpu).wf(),
        link_post(old(cpu), final(cpu)),
{
    let pc = cpu.read(15);
    cpu.write(14, pc);
}

/// Effect of a relative branch.
pub open spec fn branch_post(a: &CPU, b: &CPU) -> bool {
    &&& only_regs_change(b, a)
    &&& b.arm.phys() == a.with_reg(
        15,
        a.reg(15).wrapping_add((a.current.offset.unwrap() as u32).wrapping_mul(4))
    )
}

/// Branches: the program counter moves by the signed word offset (times 4).
pub fn increase_pc_by_offset(cpu: &mut CPU)
    requires
        old(cpu).wf(),
        old(cpu).current.offset.is_some(),
    ensures
        final(cpu).wf(),
        branch_post(old(cpu), final(cpu)),
{
    let pc = cpu.read(15);
    let off = (cpu.current.offset.unwrap() as u32).wrapping_mul(4);
    cpu.write(15, pc.wrapping_add(off));
}

/// Effect of branch-exchange.
pub open spec fn exchange_post(a: &CPU, b: &CPU) -> bool {
    &&& only_regs_psrs_change(b, a)
    &&& b.arm.phys() == a.arm.phys()
    &&& b.arm.cpsr == (PSR {
        thumb_mode: a.reg(a.current.rn.unwrap()) & 1 == 1,
        ..a.arm.cpsr
    })
    &&& b.arm.spsr_fiq == a.arm.spsr_fiq
    &&& b.arm.spsr_irq == a.arm.spsr_irq
    &&& b.arm.spsr_svc == a.arm.spsr_svc
    &&& b.arm.spsr_abt == a.arm.spsr_abt
    &&& b.arm.spsr_und == a.arm.spsr_und
}

/// Branch-exchange: bit 0 of Rn selects the compressed (set) or wide (clear)
/// instruction set.
pub fn switch_mode(cpu: &mut CPU)
    requires
        old(cpu).wf(),
        reg_ok(old(cpu).current.rn),
    ensures
        final(cpu).wf(),
        exchange_post(old(cpu), final(cpu)),
{
    let v = cpu.read(cpu.current.rn.unwrap());
    cpu.arm.cpsr.thumb_mode = v & 1 == 1;
}

/// The saved status register of a mode; User and System have none.
pub open spec fn spsr_of(cpu: &CPU, m: ProcessorMode) -> Option<PSR> {
    match m {
        ProcessorMode::User | ProcessorMode::System => None,
        ProcessorMode::FIQ => Some(cpu.arm.spsr_fiq),
        ProcessorMode::IRQ => Some(cpu.arm.spsr_irq),
        ProcessorMode::Supervisor => Some(cpu.arm.spsr_svc),
        ProcessorMode::Abort => Some(cpu.arm.spsr_abt),
        ProcessorMode::Undefined => Some(cpu.arm.spsr_und),
    }
}

fn current_spsr(cpu: &CPU) -> (r: Option<PSR>)
    ensures
        r == spsr_of(cpu, cpu.arm.cpsr.mode),
{
    match cpu.arm.cpsr.mode {
        ProcessorMode::User | ProcessorMode::System => None,
        ProcessorMode::FIQ => Some(cpu.arm.spsr_fiq),
        ProcessorMode::IRQ => Some(cpu.arm.spsr_irq),
        ProcessorMode::Supervisor => Some(cpu.arm.spsr_svc),
        ProcessorMode::Abort => Some(cpu.arm.spsr_abt),
        ProcessorMode::Undefined => Some(cpu.arm.spsr_und),
    }
}

/// Fields that MRS reads.
pub open spec fn mrs_shape(cpu: &CPU) -> bool {
    reg_ok(cpu.current.rd) && cpu.current.val1.is_some()
}

/// Effect of MRS.
pub open spec fn mrs_post(a: &CPU, b: &CPU) -> bool {
    &&& only_regs_change(b, a)
    &&& b.arm.phys() == if a.current.val1.unwrap() == 0 {
        a.with_reg(a.current.rd.unwrap(), a.arm.cpsr.word())
    } else {
        match spsr_of(a, a.arm.cpsr.mode) {
            Some(p) => a.with_reg(a.current.rd.unwrap(), p.word()),
            None => a.arm.phys(),
        }
    }
}

/// MRS: Rd gets the CPSR word (`val1 == 0`) or the current mode's SPSR word;
/// in User and System mode, which have no SPSR, the latter does nothing.
pub fn mrs(cpu: &mut CPU)
    requires
        old(cpu).wf(),
        mrs_shape(old(cpu)),
    ensures
        final(cpu).wf(),
        mrs_post(old(cpu), final(cpu)),
{
    let rd = cpu.current.rd.unwrap();
    if cpu.current.val1.unwrap() == 0 {
        let w = cpu.arm.cpsr.unpack() as u32;
        cpu.write(rd, w);
    } else {
        match current_spsr(cpu) {
            Some(p) => {
                let w = p.unpack() as u32;
                cpu.write(rd, w);
            },
            None => {},
        }
    }
}

/// Fields that MSR reads: the target in `val1`, the field mask in `offset`,
/// and Rm or the rotated immediate.
pub open spec fn msr_shape(cpu: &CPU) -> bool {
    let d = cpu.current;
    d.val1.is_some() && d.imm.is_some() && d.offset.is_some() && if d.imm.unwrap() {
        d.val2.is_some() && d.val3.is_some() && d.val3.unwrap() < 16
    } else {
        reg_ok(d.rm)
    }
}

/// Bits MSR may change: the flag bits 31..28 when the flags field is named,
/// the control byte 7..0 when the control field is named and the processor is
/// not in User mode.
pub open spec fn msr_mask(cpu: &CPU) -> u32 {
    let fields = cpu.current.offset.unwrap() as u32;
    (if fields & 8 != 0 {
        0xF000_0000u32
    } else {
        0
    }) | (if fields & 1 != 0 && cpu.arm.cpsr.mode != ProcessorMode::User {
        0xFFu32
    } else {
        0
    })
}

/// Operand of MSR.
pub open spec fn msr_operand(cpu: &CPU) -> u32 {
    let d = cpu.current;
    if d.imm.unwrap() {
        spec_rotated_immediate(d.val2.unwrap() as u32, d.val3.unwrap() as u32)
    } else {
        cpu.reg(d.rm.unwrap())
    }
}

/// A status register with the masked bits taken from `v`.
#[verifier::opaque]
pub open spec fn merged(p: PSR, v: u32, mask: u32) -> PSR {
    PSR::from_word((p.word() & !mask) | (v & mask))
}

/// Effect of MSR.
pub open spec fn msr_post(a: &CPU, b: &CPU) -> bool {
    &&& only_regs_psrs_change(b, a)
    &&& b.arm.phys() == a.arm.phys()
    &&& ({
        let mask = msr_mask(a);
        let v = msr_operand(a);
        let m = a.arm.cpsr.mode;
        if a.current.val1.unwrap() == 0 {
            b.arm.cpsr == merged(a.arm.cpsr, v, mask)
        } else {
            &&& b.arm.cpsr == a.arm.cpsr
            &&& spsr_of(b, m) == match spsr_of(a, m) {
                Some(p) => Some(merged(p, v, mask)),
                None => None,
            }
        }
    })
}

/// MSR: writes the permitted fields of the CPSR (`val1 == 0`) or of the
/// current mode's SPSR (nothing in User and System mode).
pub fn msr(cpu: &mut CPU)
    requires
        old(cpu).wf(),
        msr_shape(old(cpu)),
    ensures
        final(cpu).wf(),
        msr_post(old(cpu), final(cpu)),
{
    let (v, mask) = msr_inputs(cpu);
    if cpu.current.val1.unwrap() == 0 {
        merge_into(&mut cpu.arm.cpsr, v, mask);
    } else {
        match cpu.arm.cpsr.mode {
            ProcessorMode::User | ProcessorMode::System => {},
            ProcessorMode::FIQ => merge_into(&mut cpu.arm.spsr_fiq, v, mask),
            ProcessorMode::IRQ => merge_into(&mut cpu.arm.spsr_irq, v, mask),
            ProcessorMode::Supervisor => merge_into(&mut cpu.arm.spsr_svc, v, mask),
            ProcessorMode::Abort => merge_into(&mut cpu.arm.spsr_abt, v, mask),
            ProcessorMode::Undefined => merge_into(&mut cpu.arm.spsr_und, v, mask),
        }
    }
}

fn msr_inputs(cpu: &CPU) -> (r: (u32, u32))
    requires
        cpu.wf(),
        msr_shape(cpu),
    ensures
        r == (msr_operand(cpu), msr_mask(cpu)),
{
    let d = cpu.current;
    let v = if d.imm.unwrap() {
        rotated_immediate(d.val2.unwrap(), d.val3.unwrap())
    } else {
        cpu.read(d.rm.unwrap())
    };
    let fields = d.offset.unwrap() as u32;
    let flags_mask: u32 = if fields & 8 != 0 {
        0xF000_0000
    } else {
        0
    };
    let control_mask: u32 = if fields & 1 != 0 && cpu.arm.cpsr.mode != ProcessorMode::User {
        0xFF
    } else {
        0
    };
    (v, flags_mask | control_mask)
}

/// Replaces the masked bits of a status register with those of `v`.
fn merge_into(p: &mut PSR, v: u32, mask: u32)
    ensures
        *final(p) == merged(*old(p), v, mask),
{
    reveal(merged);
    let w = (p.unpack() as u32 & !mask) | (v & mask);
    p.pack(w);
}

/// Enters an exception mode: IRQs masked, wide instruction set, the new
/// mode's link register gets the program counter plus 4, and the program
/// counter jumps to `vector`.
pub open spec fn exception_entry(cpu: &CPU, after: &CPU, m: ProcessorMode, vector: u32) -> bool {
    let pc = cpu.reg(15);
    &&& after.arm.cpsr == (PSR { mode: m, disable_irq: true, thumb_mode: false, ..cpu.arm.cpsr })
    &&& after.arm.phys() == cpu.arm.phys().update(slot(m, 14), pc.wrapping_add(4) as i32).update(
        slot(m, 15),
        vector as i32,
    )
}

fn enter_exception(cpu: &mut CPU, m: ProcessorMode, vector: u32)
    requires
        old(cpu).wf(),
    ensures
        final(cpu).wf(),
        only_regs_psrs_change(final(cpu), old(cpu)),
        exception_entry(old(cpu), final(cpu), m, vector),
        final(cpu).arm.spsr_fiq == old(cpu).arm.spsr_fiq,
        final(cpu).arm.spsr_irq == old(cpu).arm.spsr_irq,
        final(cpu).arm.spsr_svc == old(cpu).arm.spsr_svc,
        final(cpu).arm.spsr_abt == old(cpu).arm.spsr_abt,
        final(cpu).arm.spsr_und == old(cpu).arm.spsr_und,
{
    let pc = cpu.read(15);
    cpu.arm.cpsr = PSR { mode: m, disable_irq: true, thumb_mode: false, ..cpu.arm.cpsr };
    cpu.arm.store_register(LINK_REGISTER, pc.wrapping_add(4) as i32);
    cpu.arm.store_register(PROGRAM_COUNTER, vector as i32);
}

/// Effect of a software interrupt.
pub open spec fn svc_post(a: &CPU, b: &CPU) -> bool {
    &&& only_regs_psrs_change(b, a)
    &&& exception_entry(a, b, ProcessorMode::Supervisor, 0x08)
}

/// Software interrupt: enters Supervisor mode at vector 0x08.
pub fn switch_to_svc(cpu: &mut CPU)
    requires
        old(cpu).wf(),
    ensures
        final(cpu).wf(),
        svc_post(old(cpu), final(cpu)),
{
    enter_exception(cpu, ProcessorMode::Supervisor, 0x08);
}

/// Effect of the undefined-instruction trap.
pub open spec fn undef_post(a: &CPU, b: &CPU) -> bool {
    &&& only_regs_psrs_change(b, a)
    &&& exception_entry(a, b, ProcessorMode::Undefined, 0x04)
}

/// Undefined instruction: enters Undefined mode at vector 0x04.
pub fn undefined_trap(cpu: &mut CPU)
    requires
        old(cpu).wf(),
    ensures
        final(cpu).wf(),
        undef_post(old(cpu), final(cpu)),
{
    enter_exception(cpu, ProcessorMode::Undefined, 0x04);
}

/// Whether condition code `cond` holds for the flags of `p`.
pub open spec fn cond_passed(cond: u8, p: PSR) -> bool {
    if cond == 0 {
        p.zero
    } else if cond == 1 {
        !p.zero
    } else if cond == 2 {
        p.carry
    } else if cond == 3 {
        !p.carry
    } else if cond == 4 {
        p.negative
    } else if cond == 5 {
        !p.negative
    } else if cond == 6 {
        p.overflow
    } else if cond == 7 {
        !p.overflow
    } else if cond == 8 {
        p.carry && !p.zero
    } else if cond == 9 {
        !p.carry || p.zero
    } else if cond == 10 {
        p.negative == p.overflow
    } else if cond == 11 {
        p.negative != p.overflow
    } else if cond == 12 {
        !p.zero && p.negative == p.overflow
    } else if cond == 13 {
        p.zero || p.negative != p.overflow
    } else {
        cond == 14
    }
}

/// Evaluates a condition code against a status register.
pub fn condition_passed(cond: u8, p: &PSR) -> (r: bool)
    ensures
        r == cond_passed(cond, *p),
{
    if cond == 0 {
        p.zero
    } else if cond == 1 {
        !p.zero
    } else if cond == 2 {
        p.carry
    } else if cond == 3 {
        !p.carry
    } else if cond == 4 {
        p.negative
    } else if cond == 5 {
        !p.negative
    } else if cond == 6 {
        p.overflow
    } else if cond == 7 {
        !p.overflow
    } else if cond == 8 {
        p.carry && !p.zero
    } else if cond == 9 {
        !p.carry || p.zero
    } else if cond == 10 {
        p.negative == p.overflow
    } else if cond == 11 {
        p.negative != p.overflow
    } else if cond == 12 {
        !p.zero && p.negative == p.overflow
    } else if cond == 13 {
        p.zero || p.negative != p.overflow
    } else {
        cond == 14
    }
}

/// Fields that a compressed branch reads: the offset in `val1` (low byte) and
/// `val2` (top bits of an unconditional branch, or the condition).
pub open spec fn short_branch_shape(cpu: &CPU) -> bool {
    let d = cpu.current;
    (d.instr == MnemonicARM::B || d.instr == MnemonicARM::BCond) && d.val1.is_some() && d.val2.is_some()
}

/// Byte displacement of a compressed branch: a signed 11-bit (unconditional)
/// or 8-bit (conditional) half-word count, doubled.
pub open spec fn short_branch_delta(cpu: &CPU) -> int {
    let d = cpu.current;
    let lo = d.val1.unwrap() as int;
    if d.instr == MnemonicARM::B {
        let off = (d.val2.unwrap() as int % 8) * 256 + lo;
        2 * (if off >= 1024 { off - 2048 } else { off })
    } else {
        2 * (if lo >= 128 { lo - 256 } else { lo })
    }
}

/// Effect of a compressed branch.
pub open spec fn short_branch_post(a: &CPU, b: &CPU) -> bool {
    &&& only_regs_change(b, a)
    &&& b.arm.phys() == if a.current.instr == MnemonicARM::B || cond_passed(
        a.current.val2.unwrap(),
        a.arm.cpsr,
    ) {
        a.with_reg(15, (a.reg(15) as int + short_branch_delta(a)) as u32)
    } else {
        a.arm.phys()
    }
}

/// Compressed B and conditional B: the program counter moves by the doubled
/// signed offset; a conditional branch moves only when its condition holds.
pub fn short_branch(cpu: &mut CPU)
    requires
        old(cpu).wf(),
        short_branch_shape(old(cpu)),
    ensures
        final(cpu).wf(),
        short_branch_post(old(cpu), final(cpu)),
{
    let d = cpu.current;
    let lo = d.val1.unwrap() as i32;
    let delta: i32 = if d.instr == MnemonicARM::B {
        let off = (d.val2.unwrap() as i32 % 8) * 256 + lo;
        2 * (if off >= 1024 { off - 2048 } else { off })
    } else {
        2 * (if lo >= 128 { lo - 256 } else { lo })
    };
    if d.instr == MnemonicARM::B || condition_passed(d.val2.unwrap(), &cpu.arm.cpsr) {
        let pc = cpu.read(15);
        cpu.write(15, (pc as i64 + delta as i64) as u32);
    }
}

/// Fields that a half of a long branch with link reads.
pub open spec fn long_branch_shape(cpu: &CPU) -> bool {
    let d = cpu.current;
    d.instr == MnemonicARM::BL && d.val1.is_some() && d.offset.is_some() && 0 <= d.offset.unwrap() < 2048
}

/// Signed value of an 11-bit field.
pub open spec fn sext11(v: int) -> int {
    if v >= 1024 {
        v - 2048
    } else {
        v
    }
}

/// Effect of one half of a long branch with link.
pub open spec fn long_branch_post(a: &CPU, b: &CPU) -> bool {
    let off = a.current.offset.unwrap() as int;
    &&& only_regs_change(b, a)
    &&& b.arm.phys() == if a.current.val1.unwrap() == 0 {
        a.with_reg(14, (a.reg(15) as int + 4096 * sext11(off)) as u32)
    } else {
        a.arm.phys().update(slot(a.arm.cpsr.mode, 15), (a.reg(14) as int + 2 * off) as u32 as i32).update(
            slot(a.arm.cpsr.mode, 14),
            ((a.reg(15) as int + 2) as u32 | 1) as i32,
        )
    }
}

/// Long branch with link, first half (H clear): LR gets the program counter
/// plus the signed high offset shifted left 12. Second half (H set): the
/// program counter gets LR plus twice the low offset, and LR the address of
/// the next instruction with bit 0 set.
pub fn long_branch(cpu: &mut CPU)
    requires
        old(cpu).wf(),
        long_branch_shape(old(cpu)),
    ensures
        final(cpu).wf(),
        long_branch_post(old(cpu), final(cpu)),
{
    let d = cpu.current;
    let off = d.offset.unwrap() as i64;
    let pc = cpu.read(15);
    if d.val1.unwrap() == 0 {
        let high = if off >= 1024 { off - 2048 } else { off };
        cpu.write(14, (pc as i64 + 4096 * high) as u32);
    } else {
        let lr = cpu.read(14);
        cpu.write(15, (lr as i64 + 2 * off) as u32);
        cpu.write(14, ((pc as i64 + 2) as u32) | 1);
    }
}

} // verus!
