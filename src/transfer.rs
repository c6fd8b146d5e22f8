use vstd::prelude::*;
use crate::alu::{barrel_shift, spec_shift};
use crate::cpu::{reg_ok, CPU};
use crate::enums::MnemonicARM;
use crate::memory::{stored16, stored32, stored8};
use crate::registers::slot;

verus! {

/// Everything but the registers and the memory bus is unchanged.
pub open spec fn same_but_regs_mem(a: &CPU, b: &CPU) -> bool {
    a.current == b.current && a.execution_queue == b.execution_queue && a.should_exit
        == b.should_exit && a.arm.same_status(&b.arm)
}

/// Pre-index flag of a transfer's flag bundle.
pub open spec fn pre_indexed(flags: u8) -> bool {
    flags & 8 != 0
}

/// Up flag: the offset is added (else subtracted).
pub open spec fn upward(flags: u8) -> bool {
    flags & 4 != 0
}

/// Byte flag of a single transfer (user-bank flag of a block transfer).
pub open spec fn byte_flag(flags: u8) -> bool {
    flags & 2 != 0
}

/// Write-back flag.
pub open spec fn write_back(flags: u8) -> bool {
    flags & 1 != 0
}

/// Base moved by the offset, up or down.
pub open spec fn moved_base(base: u32, off: u32, flags: u8) -> u32 {
    if upward(flags) {
        base.wrapping_add(off)
    } else {
        base.wrapping_sub(off)
    }
}

/// Address used by a single transfer: the moved base when pre-indexed, else the base.
pub open spec fn transfer_address(base: u32, off: u32, flags: u8) -> u32 {
    if pre_indexed(flags) {
        moved_base(base, off, flags)
    } else {
        base
    }
}

/// Whether the base register is written back (always when post-indexed).
pub open spec fn writes_back(flags: u8) -> bool {
    !pre_indexed(flags) || write_back(flags)
}

/// Fields that the single-transfer micro-operation reads.
pub open spec fn single_shape(cpu: &CPU) -> bool {
    let d = cpu.current;
    (d.instr == MnemonicARM::LDR || d.instr == MnemonicARM::STR) && reg_ok(d.rn) && reg_ok(d.rd)
        && d.val1.is_some() && d.imm.is_some() && if d.imm.unwrap() {
        d.offset.is_some()
    } else {
        reg_ok(d.rm) && d.val2.is_some() && d.shift_type.is_some()
    }
}

/// Offset of a single transfer: the 12-bit immediate, or Rm shifted by an immediate.
pub open spec fn single_offset(cpu: &CPU) -> u32 {
    let d = cpu.current;
    if d.imm.unwrap() {
        d.offset.unwrap() as u32
    } else {
        spec_shift(
            d.shift_type.unwrap(),
            cpu.reg(d.rm.unwrap()),
            d.val2.unwrap() as u32,
            cpu.arm.cpsr.carry,
            false,
        ).0
    }
}

/// Registers after the base write-back (if any).
pub open spec fn after_write_back(cpu: &CPU, off: u32) -> Seq<i32> {
    let d = cpu.current;
    let flags = d.val1.unwrap();
    if writes_back(flags) {
        cpu.with_reg(d.rn.unwrap(), moved_base(cpu.reg(d.rn.unwrap()), off, flags))
    } else {
        cpu.arm.phys()
    }
}

fn flag_set(flags: u8, mask: u8) -> (r: bool)
    ensures
        r == (flags & mask != 0),
{
    flags & mask != 0
}

fn move_base(base: u32, off: u32, flags: u8) -> (r: u32)
    ensures
        r == moved_base(base, off, flags),
{
    if flag_set(flags, 4) {
        base.wrapping_add(off)
    } else {
        base.wrapping_sub(off)
    }
}

/// Writes the moved base back (when asked), then `v` into Rd.
fn finish_load(cpu: &mut CPU, rn: u8, moved: u32, wb: bool, rd: u8, v: u32)
    requires
        old(cpu).wf(),
        rn < 16,
        rd < 16,
    ensures
        final(cpu).wf(),
        same_but_regs_mem(final(cpu), old(cpu)),
        final(cpu).mmu == old(cpu).mmu,
        final(cpu).arm.phys() == (if wb {
            old(cpu).with_reg(rn, moved)
        } else {
            old(cpu).arm.phys()
        }).update(slot(old(cpu).arm.cpsr.mode, rd as int), v as i32),
{
    if wb {
        cpu.write(rn, moved);
    }
    cpu.write(rd, v);
}

/// Stores `v` at `addr` (`size` 1, 2 or 4 bytes), then writes the moved base
/// back when asked.
fn finish_store(cpu: &mut CPU, rn: u8, moved: u32, wb: bool, addr: u32, size: u8, v: u32)
    requires
        old(cpu).wf(),
        rn < 16,
    ensures
        final(cpu).wf(),
        same_but_regs_mem(final(cpu), old(cpu)),
        final(cpu).arm.phys() == if wb {
            old(cpu).with_reg(rn, moved)
        } else {
            old(cpu).arm.phys()
        },
        size == 1 ==> stored8(&old(cpu).mmu, &final(cpu).mmu, addr, v as u8),
        size == 2 ==> stored16(&old(cpu).mmu, &final(cpu).mmu, addr, v as u16),
        size != 1 && size != 2 ==> stored32(&old(cpu).mmu, &final(cpu).mmu, addr, v),
{
    if size == 1 {
        cpu.mmu.store8(addr, v as u8);
    } else if size == 2 {
        cpu.mmu.store16(addr, v as u16);
    } else {
        cpu.mmu.store32(addr, v);
    }
    if wb {
        cpu.write(rn, moved);
    }
}

/// Effect of the single-transfer micro-operation.
pub open spec fn single_post(a: &CPU, b: &CPU) -> bool {
    &&& same_but_regs_mem(b, a)
    &&& ({
        let d = a.current;
        let flags = d.val1.unwrap();
        let off = single_offset(a);
        let addr = transfer_address(a.reg(d.rn.unwrap()), off, flags);
        let mode = a.arm.cpsr.mode;
        if d.instr == MnemonicARM::LDR {
            let v = if byte_flag(flags) {
                a.mmu.byte(addr) as u32
            } else {
                a.mmu.word(addr)
            };
            &&& b.mmu == a.mmu
            &&& b.arm.phys() == after_write_back(a, off).update(
                slot(mode, d.rd.unwrap() as int),
                v as i32,
            )
        } else {
            let v = a.reg(d.rd.unwrap());
            &&& b.arm.phys() == after_write_back(a, off)
            &&& if byte_flag(flags) {
                stored8(&a.mmu, &b.mmu, addr, v as u8)
            } else {
                stored32(&a.mmu, &b.mmu, addr, v)
            }
        }
    })
}

/// LDR and STR: word or byte at Rn, pre- or post-indexed by the offset, with
/// optional write-back of the moved base. A load writes Rd after the base.
#[verifier::rlimit(20)]
pub fn single_transfer(cpu: &mut CPU)
    requires
        old(cpu).wf(),
        single_shape(old(cpu)),
    ensures
        final(cpu).wf(),
        single_post(old(cpu), final(cpu)),
{
    let d = cpu.current;
    let flags = d.val1.unwrap();
    let rn = d.rn.unwrap();
    let base = cpu.read(rn);
    let off = if d.imm.unwrap() {
        d.offset.unwrap() as u32
    } else {
        let shifted = barrel_shift(
            d.shift_type.unwrap(),
            cpu.read(d.rm.unwrap()),
            d.val2.unwrap() as u32,
            cpu.arm.cpsr.carry,
            false,
        );
        shifted.0
    };
    let moved = move_base(base, off, flags);
    let addr = if flag_set(flags, 8) {
        moved
    } else {
        base
    };
    let byte = flag_set(flags, 2);
    let wb = !flag_set(flags, 8) || flag_set(flags, 1);
    if d.instr == MnemonicARM::LDR {
        let v = if byte {
            cpu.mmu.load8(addr) as u32
        } else {
            cpu.mmu.load32(addr)
        };
        finish_load(cpu, rn, moved, wb, d.rd.unwrap(), v);
    } else {
        let v = cpu.read(d.rd.unwrap());
        finish_store(cpu, rn, moved, wb, addr, if byte { 1 } else { 4 }, v);
    }
}

/// Fields that the half-word and signed transfer micro-operation reads.
pub open spec fn half_shape(cpu: &CPU) -> bool {
    let d = cpu.current;
    let t = d.instr;
    (t == MnemonicARM::STRH || t == MnemonicARM::LDRH || t == MnemonicARM::LDRSB || t
        == MnemonicARM::LDRSH) && reg_ok(d.rn) && reg_ok(d.rd) && d.val1.is_some() && d.imm.is_some()
        && if d.imm.unwrap() {
        d.offset.is_some()
    } else {
        reg_ok(d.rm)
    }
}

/// Offset of a half-word transfer: the 8-bit immediate or Rm.
pub open spec fn half_offset(cpu: &CPU) -> u32 {
    let d = cpu.current;
    if d.imm.unwrap() {
        d.offset.unwrap() as u32
    } else {
        cpu.reg(d.rm.unwrap())
    }
}

/// Value a half-word or signed load reads: zero-extended half-word, or
/// sign-extended byte or half-word.
pub open spec fn half_load_value(cpu: &CPU, addr: u32) -> u32 {
    let t = cpu.current.instr;
    if t == MnemonicARM::LDRH {
        cpu.mmu.half(addr) as u32
    } else if t == MnemonicARM::LDRSB {
        cpu.mmu.byte(addr) as i8 as i32 as u32
    } else {
        cpu.mmu.half(addr) as i16 as i32 as u32
    }
}

/// Effect of the half-word transfer micro-operation.
pub open spec fn half_post(a: &CPU, b: &CPU) -> bool {
    &&& same_but_regs_mem(b, a)
    &&& ({
        let d = a.current;
        let flags = d.val1.unwrap();
        let off = half_offset(a);
        let addr = transfer_address(a.reg(d.rn.unwrap()), off, flags);
        let mode = a.arm.cpsr.mode;
        if d.instr == MnemonicARM::STRH {
            &&& b.arm.phys() == after_write_back(a, off)
            &&& stored16(&a.mmu, &b.mmu, addr, a.reg(d.rd.unwrap()) as u16)
        } else {
            &&& b.mmu == a.mmu
            &&& b.arm.phys() == after_write_back(a, off).update(
                slot(mode, d.rd.unwrap() as int),
                half_load_value(a, addr) as i32,
            )
        }
    })
}

/// STRH, LDRH, LDRSB, LDRSH, addressed as single transfers are.
#[verifier::rlimit(20)]
pub fn half_transfer(cpu: &mut CPU)
    requires
        old(cpu).wf(),
        half_shape(old(cpu)),
    ensures
        final(cpu).wf(),
        half_post(old(cpu), final(cpu)),
{
    let d = cpu.current;
    let t = d.instr;
    let flags = d.val1.unwrap();
    let rn = d.rn.unwrap();
    let base = cpu.read(rn);
    let off = if d.imm.unwrap() {
        d.offset.unwrap() as u32
    } else {
        cpu.read(d.rm.unwrap())
    };
    let moved = move_base(base, off, flags);
    let addr = if flag_set(flags, 8) {
        moved
    } else {
        base
    };
    let wb = !flag_set(flags, 8) || flag_set(flags, 1);
    if t == MnemonicARM::STRH {
        let v = cpu.read(d.rd.unwrap());
        finish_store(cpu, rn, moved, wb, addr, 2, v);
    } else {
        let v = if t == MnemonicARM::LDRH {
            cpu.mmu.load16(addr) as u32
        } else if t == MnemonicARM::LDRSB {
            cpu.mmu.load8(addr) as i8 as i32 as u32
        } else {
            cpu.mmu.load16(addr) as i16 as i32 as u32
        };
        finish_load(cpu, rn, moved, wb, d.rd.unwrap(), v);
    }
}

/// Fields that the swap micro-operation reads.
pub open spec fn swap_shape(cpu: &CPU) -> bool {
    let d = cpu.current;
    d.instr == MnemonicARM::SWP && reg_ok(d.rn) && reg_ok(d.rd) && reg_ok(d.rm) && d.val1.is_some()
}

/// Effect of the swap micro-operation.
pub open spec fn swap_post(a: &CPU, b: &CPU) -> bool {
    &&& same_but_regs_mem(b, a)
    &&& ({
        let d = a.current;
        let addr = a.reg(d.rn.unwrap());
        let src = a.reg(d.rm.unwrap());
        if d.val1.unwrap() != 0 {
            &&& b.arm.phys() == a.with_reg(d.rd.unwrap(), a.mmu.byte(addr) as u32)
            &&& stored8(&a.mmu, &b.mmu, addr, src as u8)
        } else {
            &&& b.arm.phys() == a.with_reg(d.rd.unwrap(), a.mmu.word(addr))
            &&& stored32(&a.mmu, &b.mmu, addr, src)
        }
    })
}

/// SWP: Rd gets the word (or byte) at Rn, and Rm is stored there, read before
/// Rd is written.
pub fn swap(cpu: &mut CPU)
    requires
        old(cpu).wf(),
        swap_shape(old(cpu)),
    ensures
        final(cpu).wf(),
        swap_post(old(cpu), final(cpu)),
{
    let d = cpu.current;
    let addr = cpu.read(d.rn.unwrap());
    let src = cpu.read(d.rm.unwrap());
    if d.val1.unwrap() != 0 {
        let v = cpu.mmu.load8(addr) as u32;
        cpu.mmu.store8(addr, src as u8);
        cpu.write(d.rd.unwrap(), v);
    } else {
        let v = cpu.mmu.load32(addr);
        cpu.mmu.store32(addr, src);
        cpu.write(d.rd.unwrap(), v);
    }
}

} // verus!
