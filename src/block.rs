use vstd::prelude::*;
use crate::bits::{count_set_bits, popcount};
use crate::cpu::{reg_ok, CPU};
use crate::enums::{MnemonicARM, ProcessorMode};
use crate::memory::{writable, MMU};
use crate::registers::{slot, PROGRAM_COUNTER};
use crate::transfer::{byte_flag, pre_indexed, same_but_regs_mem, upward, write_back};

verus! {

/// One word of a block transfer: address, value stored (for STM), register.
pub type BlockEntry = (u32, u32, u8);

/// Fields that the block-transfer micro-operation reads: Rn, the flag bundle in
/// `val1` and the 16-bit register list in `offset`.
pub open spec fn block_shape(cpu: &CPU) -> bool {
    let d = cpu.current;
    (d.instr == MnemonicARM::LDM || d.instr == MnemonicARM::STM) && reg_ok(d.rn) && d.val1.is_some()
        && d.offset.is_some() && 0 <= d.offset.unwrap() < 0x1_0000
}

/// The register list.
pub open spec fn reg_list(cpu: &CPU) -> u32 {
    cpu.current.offset.unwrap() as u32
}

/// Number of words moved for address arithmetic: the list's size, or 16 for
/// an empty list (which moves the program counter only).
pub open spec fn block_count(cpu: &CPU) -> u32 {
    if reg_list(cpu) == 0 {
        16
    } else {
        popcount(reg_list(cpu)) as u32
    }
}

/// Mode whose bank the registers are taken from: User when the S flag is set.
pub open spec fn block_bank(cpu: &CPU) -> ProcessorMode {
    if byte_flag(cpu.current.val1.unwrap()) {
        ProcessorMode::User
    } else {
        cpu.arm.cpsr.mode
    }
}

/// Lowest address of the block: Rn (increment after), Rn + 4 (increment
/// before), Rn - 4n + 4 (decrement after), Rn - 4n (decrement before).
pub open spec fn block_start(cpu: &CPU) -> u32 {
    let flags = cpu.current.val1.unwrap();
    let base = cpu.reg(cpu.current.rn.unwrap());
    let span = (4 * block_count(cpu)) as u32;
    if upward(flags) {
        if pre_indexed(flags) {
            base.wrapping_add(4)
        } else {
            base
        }
    } else if pre_indexed(flags) {
        base.wrapping_sub(span)
    } else {
        base.wrapping_sub(span).wrapping_add(4)
    }
}

/// Base after write-back: Rn moved by four bytes per word, up or down.
pub open spec fn block_new_base(cpu: &CPU) -> u32 {
    let flags = cpu.current.val1.unwrap();
    let base = cpu.reg(cpu.current.rn.unwrap());
    let span = (4 * block_count(cpu)) as u32;
    if upward(flags) {
        base.wrapping_add(span)
    } else {
        base.wrapping_sub(span)
    }
}

/// Value that STM stores for register `r`: its value before the instruction
/// (the program counter plus 4).
pub open spec fn stm_value(cpu: &CPU, r: u8) -> u32 {
    let v = cpu.arm.reg_in(block_bank(cpu), r as int) as u32;
    if r == 15 {
        v.wrapping_add(4)
    } else {
        v
    }
}

/// Words for the listed registers below `k`, in ascending register order at
/// ascending addresses from the block's start.
pub open spec fn block_plan_below(cpu: &CPU, k: nat) -> Seq<BlockEntry>
    decreases k,
{
    if k == 0 {
        seq![]
    } else {
        let prev = block_plan_below(cpu, (k - 1) as nat);
        let r = (k - 1) as u32;
        if (reg_list(cpu) >> r) & 1 == 1 {
            prev.push(
                (
                    block_start(cpu).wrapping_add((4 * prev.len()) as u32),
                    stm_value(cpu, r as u8),
                    r as u8,
                ),
            )
        } else {
            prev
        }
    }
}

/// Address of the single word an empty register list moves. A load reads the
/// program counter from Rn itself. A store writes it at Rn - 0x3C (decrement
/// after), Rn - 0x40 (increment after), Rn (decrement before) or Rn + 4
/// (increment before).
pub open spec fn empty_list_address(cpu: &CPU) -> u32 {
    let flags = cpu.current.val1.unwrap();
    let base = cpu.reg(cpu.current.rn.unwrap());
    if cpu.current.instr == MnemonicARM::LDM {
        base
    } else if !pre_indexed(flags) {
        if upward(flags) {
            base.wrapping_sub(0x40)
        } else {
            base.wrapping_sub(0x3C)
        }
    } else if upward(flags) {
        base.wrapping_add(4)
    } else {
        base
    }
}

fn empty_address(cpu: &CPU) -> (r: u32)
    requires
        cpu.wf(),
        block_shape(cpu),
    ensures
        r == empty_list_address(cpu),
{
    let flags = cpu.current.val1.unwrap();
    let base = cpu.read(cpu.current.rn.unwrap());
    let up = flags & 4 != 0;
    let pre = flags & 8 != 0;
    if cpu.current.instr == MnemonicARM::LDM {
        base
    } else if !pre {
        if up {
            base.wrapping_sub(0x40)
        } else {
            base.wrapping_sub(0x3C)
        }
    } else if up {
        base.wrapping_add(4)
    } else {
        base
    }
}

/// Every word of the block transfer: the listed registers, or the program
/// counter alone for an empty list.
pub open spec fn block_plan(cpu: &CPU) -> Seq<BlockEntry> {
    if reg_list(cpu) == 0 {
        seq![(empty_list_address(cpu), stm_value(cpu, 15), 15u8)]
    } else {
        block_plan_below(cpu, 16)
    }
}

/// Byte at `a` after storing each planned word in turn, highest byte first.
pub open spec fn byte_after(m: &MMU, plan: Seq<BlockEntry>, a: u32) -> u8
    decreases plan.len(),
{
    if plan.len() == 0 {
        m.byte(a)
    } else {
        let (addr, v, _r) = plan.last();
        let prev = byte_after(m, plan.drop_last(), a);
        if a == addr.wrapping_add(3) && writable(a) {
            v as u8
        } else if a == addr.wrapping_add(2) && writable(a) {
            (v >> 8u32) as u8
        } else if a == addr.wrapping_add(1) && writable(a) {
            (v >> 16u32) as u8
        } else if a == addr && writable(a) {
            (v >> 24u32) as u8
        } else {
            prev
        }
    }
}

/// Registers after loading each planned word in turn from `m`.
pub open spec fn regs_after(phys: Seq<i32>, m: &MMU, bank: ProcessorMode, plan: Seq<BlockEntry>) -> Seq<i32>
    decreases plan.len(),
{
    if plan.len() == 0 {
        phys
    } else {
        let (addr, _v, r) = plan.last();
        regs_after(phys, m, bank, plan.drop_last()).update(slot(bank, r as int), m.word(addr) as i32)
    }
}

/// Whether Rn is in the register list.
pub open spec fn base_listed(cpu: &CPU) -> bool {
    (reg_list(cpu) >> (cpu.current.rn.unwrap() as u32)) & 1 == 1
}

proof fn lemma_plan_len(cpu: &CPU, k: nat)
    ensures
        block_plan_below(cpu, k).len() <= k,
    decreases k,
{
    if k > 0 {
        lemma_plan_len(cpu, (k - 1) as nat);
    }
}

/// Effect of a block store.
pub open spec fn stm_post(a: &CPU, b: &CPU) -> bool {
    &&& same_but_regs_mem(b, a)
    &&& forall|x: u32| #[trigger] b.mmu.byte(x) == byte_after(&a.mmu, block_plan(a), x)
    &&& b.arm.phys() == if write_back(a.current.val1.unwrap()) {
        a.with_reg(a.current.rn.unwrap(), block_new_base(a))
    } else {
        a.arm.phys()
    }
}

/// STM: stores every planned word in turn; then, with write-back, Rn moves by
/// four bytes per word (0x40 for an empty list, which stores the program
/// counter plus 4 at `empty_list_address`). Every value is read before the
/// base moves.
pub fn store_multiple(cpu: &mut CPU)
    requires
        old(cpu).wf(),
        block_shape(old(cpu)),
        old(cpu).current.instr == MnemonicARM::STM,
    ensures
        final(cpu).wf(),
        stm_post(old(cpu), final(cpu)),
{
    let ghost before = *cpu;
    let (start, new_base, bank) = block_geometry(cpu);
    let list = cpu.current.offset.unwrap() as u32;
    if list == 0 {
        let addr = empty_address(cpu);
        let pc = cpu.arm.load_register(PROGRAM_COUNTER) as u32;
        cpu.mmu.store32(addr, pc.wrapping_add(4));
        proof {
            let plan = block_plan(&before);
            assert(plan.drop_last() =~= Seq::<BlockEntry>::empty());
            assert forall|a: u32| #[trigger] cpu.mmu.byte(a) == byte_after(&before.mmu, plan, a) by {
                assert(byte_after(&before.mmu, plan.drop_last(), a) == before.mmu.byte(a));
            }
        }
    } else {
        let mut k: u32 = 0;
        let mut count: u32 = 0;
        while k < 16
            invariant
                0 <= k <= 16,
                cpu.wf(),
                list == reg_list(&before),
                list != 0,
                start == block_start(&before),
                bank == block_bank(&before),
                cpu.arm == before.arm,
                cpu.current == before.current,
                cpu.execution_queue == before.execution_queue,
                cpu.should_exit == before.should_exit,
                count as nat == block_plan_below(&before, k as nat).len(),
                count <= k,
                forall|a: u32| #[trigger] cpu.mmu.byte(a) == byte_after(&before.mmu, block_plan_below(&before, k as nat), a),
            decreases 16 - k,
        {
            proof {
                lemma_plan_len(&before, k as nat);
            }
            if (list >> k) & 1 == 1 {
                let v0 = cpu.arm.load_register_in(bank, k as usize) as u32;
                let v = if k == 15 {
                    v0.wrapping_add(4)
                } else {
                    v0
                };
                let addr = start.wrapping_add(4 * count);
                let ghost mid = cpu.mmu;
                cpu.mmu.store32(addr, v);
                proof {
                    let plan = block_plan_below(&before, (k + 1) as nat);
                    assert(plan.drop_last() =~= block_plan_below(&before, k as nat));
                    assert forall|a: u32| #[trigger] cpu.mmu.byte(a) == byte_after(&before.mmu, plan, a) by {
                        assert(mid.byte(a) == byte_after(&before.mmu, plan.drop_last(), a));
                    }
                }
                count = count + 1;
            }
            k = k + 1;
        }
    }
    if (cpu.current.val1.unwrap() & 1) != 0 {
        let rn = cpu.current.rn.unwrap();
        cpu.write(rn, new_base);
    }
}

/// Start address, base after write-back and register bank of the block.
fn block_geometry(cpu: &CPU) -> (r: (u32, u32, ProcessorMode))
    requires
        cpu.wf(),
        block_shape(cpu),
    ensures
        r == (block_start(cpu), block_new_base(cpu), block_bank(cpu)),
{
    let d = cpu.current;
    let flags = d.val1.unwrap();
    let list = d.offset.unwrap() as u32;
    let n = if list == 0 {
        16
    } else {
        count_set_bits(list)
    };
    let base = cpu.read(d.rn.unwrap());
    let span = 4 * n;
    let up = flags & 4 != 0;
    let pre = flags & 8 != 0;
    let start = if up {
        if pre {
            base.wrapping_add(4)
        } else {
            base
        }
    } else if pre {
        base.wrapping_sub(span)
    } else {
        base.wrapping_sub(span).wrapping_add(4)
    };
    let new_base = if up {
        base.wrapping_add(span)
    } else {
        base.wrapping_sub(span)
    };
    let bank = if flags & 2 != 0 {
        ProcessorMode::User
    } else {
        cpu.arm.cpsr.mode
    };
    (start, new_base, bank)
}

/// In a block store without the S flag, the word stored for the base register
/// is the base's value before the instruction, never the written-back one.
pub proof fn lemma_block_store_keeps_base(cpu: &CPU, j: int)
    requires
        block_shape(cpu),
        !byte_flag(cpu.current.val1.unwrap()),
        cpu.current.rn.unwrap() != 15,
        0 <= j < block_plan(cpu).len(),
        block_plan(cpu)[j].2 == cpu.current.rn.unwrap(),
    ensures
        block_plan(cpu)[j].1 == cpu.reg(cpu.current.rn.unwrap()),
{
    lemma_plan_values(cpu, 16, j);
}

proof fn lemma_plan_values(cpu: &CPU, k: nat, j: int)
    requires
        0 <= j < block_plan_below(cpu, k).len(),
    ensures
        block_plan_below(cpu, k)[j].1 == stm_value(cpu, block_plan_below(cpu, k)[j].2),
    decreases k,
{
    if k > 0 {
        let prev = block_plan_below(cpu, (k - 1) as nat);
        if j < prev.len() {
            lemma_plan_values(cpu, (k - 1) as nat, j);
        }
    }
}

/// Effect of a block load.
pub open spec fn ldm_post(a: &CPU, b: &CPU) -> bool {
    &&& same_but_regs_mem(b, a)
    &&& b.mmu == a.mmu
    &&& ({
        let loaded = regs_after(a.arm.phys(), &a.mmu, block_bank(a), block_plan(a));
        b.arm.phys() == if write_back(a.current.val1.unwrap()) && !base_listed(a) && reg_list(a) != 0 {
            loaded.update(
                slot(a.arm.cpsr.mode, a.current.rn.unwrap() as int),
                block_new_base(a) as i32,
            )
        } else {
            loaded
        }
    })
}

/// LDM: loads every planned word into its register in turn; then, with
/// write-back and Rn not in the list, Rn moves by four bytes per word. An
/// empty list loads the program counter from Rn and leaves Rn as it was.
pub fn load_multiple(cpu: &mut CPU)
    requires
        old(cpu).wf(),
        block_shape(old(cpu)),
        old(cpu).current.instr == MnemonicARM::LDM,
    ensures
        final(cpu).wf(),
        ldm_post(old(cpu), final(cpu)),
{
    let ghost before = *cpu;
    let (start, new_base, bank) = block_geometry(cpu);
    let list = cpu.current.offset.unwrap() as u32;
    if list == 0 {
        let addr = empty_address(cpu);
        let v = cpu.mmu.load32(addr);
        cpu.arm.store_register_in(bank, PROGRAM_COUNTER, v as i32);
        proof {
            let plan = block_plan(&before);
            assert(plan.drop_last() =~= Seq::<BlockEntry>::empty());
            assert(regs_after(before.arm.phys(), &before.mmu, bank, plan.drop_last()) == before.arm.phys());
            assert(cpu.arm.phys() == regs_after(before.arm.phys(), &before.mmu, bank, plan));
        }
    } else {
        let mut k: u32 = 0;
        let mut count: u32 = 0;
        while k < 16
            invariant
                0 <= k <= 16,
                cpu.wf(),
                list == reg_list(&before),
                list != 0,
                start == block_start(&before),
                bank == block_bank(&before),
                cpu.mmu == before.mmu,
                cpu.arm.same_status(&before.arm),
                cpu.current == before.current,
                cpu.execution_queue == before.execution_queue,
                cpu.should_exit == before.should_exit,
                count as nat == block_plan_below(&before, k as nat).len(),
                count <= k,
                cpu.arm.phys() == regs_after(before.arm.phys(), &before.mmu, bank, block_plan_below(&before, k as nat)),
            decreases 16 - k,
        {
            proof {
                lemma_plan_len(&before, k as nat);
            }
            if (list >> k) & 1 == 1 {
                let addr = start.wrapping_add(4 * count);
                let v = cpu.mmu.load32(addr);
                cpu.arm.store_register_in(bank, k as usize, v as i32);
                proof {
                    let plan = block_plan_below(&before, (k + 1) as nat);
                    assert(plan.drop_last() =~= block_plan_below(&before, k as nat));
                }
                count = count + 1;
            }
            k = k + 1;
        }
    }
    let rn = cpu.current.rn.unwrap();
    if (cpu.current.val1.unwrap() & 1) != 0 && (list >> (rn as u32)) & 1 != 1 && list != 0 {
        cpu.write(rn, new_base);
    }
}

} // verus!
