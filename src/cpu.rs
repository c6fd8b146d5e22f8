use vstd::prelude::*;
use crate::enums::MnemonicARM;
use crate::instruction::{ARMInstruction, DecodedInstruction, InstructionType};
use crate::memory::MMU;
use crate::registers::{slot, ARM7TDMI};

verus! {

/// One unit of execution work; each runs in one cycle.
#[derive(Debug, PartialEq, Eq, Structural, Clone, Copy)]
pub enum MicroOp {
    Alu,
    Multiply,
    MultiplyLong,
    SingleTransfer,
    HalfTransfer,
    BlockTransfer,
    Swap,
    StorePcToLr,
    IncreasePcByOffset,
    SwitchMode,
    Mrs,
    Msr,
    SwitchToSvc,
    UndefinedTrap,
    ShortBranch,
    LongBranch,
    Idle,
}

/// The processor: register file, memory bus, the instruction being executed
/// and its queue of pending micro-operations.
pub struct CPU {
    pub mmu: MMU,
    pub arm: ARM7TDMI,
    pub current: DecodedInstruction,
    pub execution_queue: Vec<MicroOp>,
    pub should_exit: bool,
}

/// A register field that is present and names one of the 16 registers.
pub open spec fn reg_ok(r: Option<u8>) -> bool {
    r.is_some() && r.unwrap() < 16
}

impl CPU {
    pub open spec fn wf(&self) -> bool {
        self.mmu.wf() && self.arm.wf()
    }

    /// Value of register `r` (current mode) as an unsigned word.
    pub open spec fn reg(&self, r: u8) -> u32 {
        self.arm.reg(r as int) as u32
    }

    /// Physical registers after writing `v` to register `r` of the current mode.
    pub open spec fn with_reg(&self, r: u8, v: u32) -> Seq<i32> {
        self.arm.phys().update(slot(self.arm.cpsr.mode, r as int), v as i32)
    }

    pub fn read(&self, r: u8) -> (v: u32)
        requires
            self.wf(),
            r < 16,
        ensures
            v == self.reg(r),
    {
        self.arm.load_register(r as usize) as u32
    }

    pub fn write(&mut self, r: u8, v: u32)
        requires
            old(self).wf(),
            r < 16,
        ensures
            final(self).wf(),
            final(self).arm.phys() == old(self).with_reg(r, v),
            final(self).arm.same_status(&old(self).arm),
            final(self).mmu == old(self).mmu,
            final(self).current == old(self).current,
            final(self).execution_queue == old(self).execution_queue,
            final(self).should_exit == old(self).should_exit,
    {
        self.arm.store_register(r as usize, v as i32);
    }
}

/// Micro-operations that carry out a decoded instruction, in order. Compressed
/// records are expanded to wide ones before they are queued, but for the
/// compressed branches, which have micro-operations of their own; a record
/// that names no operation takes one idle cycle.
pub open spec fn queue_for(d: DecodedInstruction) -> Seq<MicroOp> {
    let t = d.instr;
    if crate::micro_ops::is_alu_tag(t) {
        seq![MicroOp::Alu]
    } else if t == MnemonicARM::MUL || t == MnemonicARM::MLA {
        seq![MicroOp::Multiply]
    } else if t == MnemonicARM::UMULL || t == MnemonicARM::UMLAL || t == MnemonicARM::SMULL || t
        == MnemonicARM::SMLAL {
        seq![MicroOp::MultiplyLong]
    } else if t == MnemonicARM::LDR || t == MnemonicARM::STR {
        seq![MicroOp::SingleTransfer]
    } else if t == MnemonicARM::STRH || t == MnemonicARM::LDRH || t == MnemonicARM::LDRSB || t
        == MnemonicARM::LDRSH {
        seq![MicroOp::HalfTransfer]
    } else if t == MnemonicARM::LDM || t == MnemonicARM::STM {
        seq![MicroOp::BlockTransfer]
    } else if t == MnemonicARM::SWP {
        seq![MicroOp::Swap]
    } else if t == MnemonicARM::B && d.offset.is_some() {
        seq![MicroOp::IncreasePcByOffset]
    } else if t == MnemonicARM::B || t == MnemonicARM::BCond {
        seq![MicroOp::ShortBranch]
    } else if t == MnemonicARM::BL {
        seq![MicroOp::LongBranch]
    } else if t == MnemonicARM::BX {
        if d.rn.is_some() {
            seq![MicroOp::SwitchMode]
        } else {
            seq![MicroOp::StorePcToLr, MicroOp::IncreasePcByOffset]
        }
    } else if t == MnemonicARM::MRS {
        seq![MicroOp::Mrs]
    } else if t == MnemonicARM::MSR {
        seq![MicroOp::Msr]
    } else if t == MnemonicARM::SWI {
        seq![MicroOp::SwitchToSvc]
    } else if t == MnemonicARM::Undefined {
        seq![MicroOp::UndefinedTrap]
    } else {
        seq![MicroOp::Idle]
    }
}

/// The fields that `op` reads are present and in range in the current record.
pub open spec fn op_ready(op: MicroOp, cpu: &CPU) -> bool {
    match op {
        MicroOp::Alu => crate::micro_ops::alu_shape(cpu),
        MicroOp::Multiply => crate::micro_ops::mul_shape(cpu),
        MicroOp::MultiplyLong => crate::micro_ops::mul_long_shape(cpu),
        MicroOp::SingleTransfer => crate::transfer::single_shape(cpu),
        MicroOp::HalfTransfer => crate::transfer::half_shape(cpu),
        MicroOp::BlockTransfer => crate::block::block_shape(cpu),
        MicroOp::Swap => crate::transfer::swap_shape(cpu),
        MicroOp::IncreasePcByOffset => cpu.current.offset.is_some(),
        MicroOp::SwitchMode => reg_ok(cpu.current.rn),
        MicroOp::Mrs => crate::control::mrs_shape(cpu),
        MicroOp::Msr => crate::control::msr_shape(cpu),
        MicroOp::ShortBranch => crate::control::short_branch_shape(cpu),
        MicroOp::LongBranch => crate::control::long_branch_shape(cpu),
        _ => true,
    }
}

/// The queue the decoder installs: the instruction's micro-operations when
/// its record has every field they read, else the undefined-instruction trap.
pub open spec fn checked_queue(cpu: &CPU) -> Seq<MicroOp> {
    let q = queue_for(cpu.current);
    if forall|i: int| 0 <= i < q.len() ==> op_ready(#[trigger] q[i], cpu) {
        q
    } else {
        seq![MicroOp::UndefinedTrap]
    }
}

/// Every queued micro-operation can run on the current record.
pub open spec fn queue_ready(cpu: &CPU) -> bool {
    forall|i: int| 0 <= i < cpu.execution_queue@.len() ==> op_ready(#[trigger] cpu.execution_queue@[i], cpu)
}

/// The record to execute for the instruction at the program counter.
pub open spec fn fetched_record(cpu: &CPU) -> DecodedInstruction {
    let pc = cpu.reg(15);
    if cpu.arm.cpsr.thumb_mode {
        crate::thumb_exec::wide_of_thumb(crate::thumb_decode::spec_decode_thumb(cpu.mmu.half(pc)))
    } else {
        crate::arm_decode::spec_decode_arm(cpu.mmu.word(pc))
    }
}

fn micro_ops_for(d: &DecodedInstruction) -> (r: Vec<MicroOp>)
    ensures
        r@ == queue_for(*d),
{
    let t = d.instr;
    let mut q: Vec<MicroOp> = Vec::new();
    if t == MnemonicARM::AND || t == MnemonicARM::EOR || t == MnemonicARM::SUB || t == MnemonicARM::RSB
        || t == MnemonicARM::ADD || t == MnemonicARM::ADC || t == MnemonicARM::SBC || t
        == MnemonicARM::RSC || t == MnemonicARM::TST || t == MnemonicARM::TEQ || t
        == MnemonicARM::CMP || t == MnemonicARM::CMN || t == MnemonicARM::ORR || t
        == MnemonicARM::MOV || t == MnemonicARM::BIC || t == MnemonicARM::MVN {
        q.push(MicroOp::Alu);
    } else if t == MnemonicARM::MUL || t == MnemonicARM::MLA {
        q.push(MicroOp::Multiply);
    } else if t == MnemonicARM::UMULL || t == MnemonicARM::UMLAL || t == MnemonicARM::SMULL || t
        == MnemonicARM::SMLAL {
        q.push(MicroOp::MultiplyLong);
    } else if t == MnemonicARM::LDR || t == MnemonicARM::STR {
        q.push(MicroOp::SingleTransfer);
    } else if t == MnemonicARM::STRH || t == MnemonicARM::LDRH || t == MnemonicARM::LDRSB || t
        == MnemonicARM::LDRSH {
        q.push(MicroOp::HalfTransfer);
    } else if t == MnemonicARM::LDM || t == MnemonicARM::STM {
        q.push(MicroOp::BlockTransfer);
    } else if t == MnemonicARM::SWP {
        q.push(MicroOp::Swap);
    } else if t == MnemonicARM::B && d.offset.is_some() {
        q.push(MicroOp::IncreasePcByOffset);
    } else if t == MnemonicARM::B || t == MnemonicARM::BCond {
        q.push(MicroOp::ShortBranch);
    } else if t == MnemonicARM::BL {
        q.push(MicroOp::LongBranch);
    } else if t == MnemonicARM::BX {
        if d.rn.is_some() {
            q.push(MicroOp::SwitchMode);
        } else {
            q.push(MicroOp::StorePcToLr);
            q.push(MicroOp::IncreasePcByOffset);
        }
    } else if t == MnemonicARM::MRS {
        q.push(MicroOp::Mrs);
    } else if t == MnemonicARM::MSR {
        q.push(MicroOp::Msr);
    } else if t == MnemonicARM::SWI {
        q.push(MicroOp::SwitchToSvc);
    } else if t == MnemonicARM::Undefined {
        q.push(MicroOp::UndefinedTrap);
    } else {
        q.push(MicroOp::Idle);
    }
    proof {
        assert(q@ =~= queue_for(*d));
    }
    q
}

fn ok_reg(r: Option<u8>) -> (b: bool)
    ensures
        b == reg_ok(r),
{
    match r {
        Some(x) => x < 16,
        None => false,
    }
}

fn is_ready(op: MicroOp, cpu: &CPU) -> (r: bool)
    ensures
        r == op_ready(op, cpu),
{
    let d = cpu.current;
    let t = d.instr;
    match op {
        MicroOp::Alu => {
            let tag = t == MnemonicARM::AND || t == MnemonicARM::EOR || t == MnemonicARM::SUB || t
                == MnemonicARM::RSB || t == MnemonicARM::ADD || t == MnemonicARM::ADC || t
                == MnemonicARM::SBC || t == MnemonicARM::RSC || t == MnemonicARM::TST || t
                == MnemonicARM::TEQ || t == MnemonicARM::CMP || t == MnemonicARM::CMN || t
                == MnemonicARM::ORR || t == MnemonicARM::MOV || t == MnemonicARM::BIC || t
                == MnemonicARM::MVN;
            tag && ok_reg(d.rn) && ok_reg(d.rd) && d.set_cond.is_some() && match d.imm {
                Some(true) => match d.val1 {
                    Some(v) => v < 16 && d.val2.is_some(),
                    None => false,
                },
                Some(false) => ok_reg(d.rm) && d.shift_type.is_some() && match d.rs {
                    Some(s) => s < 16,
                    None => d.val1.is_some(),
                },
                None => false,
            }
        },
        MicroOp::Multiply => (t == MnemonicARM::MUL || t == MnemonicARM::MLA) && ok_reg(d.rd) && ok_reg(
            d.rm,
        ) && ok_reg(d.rs) && d.set_cond.is_some() && (t != MnemonicARM::MLA || ok_reg(d.rn)),
        MicroOp::MultiplyLong => (t == MnemonicARM::UMULL || t == MnemonicARM::UMLAL || t
            == MnemonicARM::SMULL || t == MnemonicARM::SMLAL) && ok_reg(d.rd) && ok_reg(d.rn)
            && ok_reg(d.rm) && ok_reg(d.rs),
        MicroOp::SingleTransfer => (t == MnemonicARM::LDR || t == MnemonicARM::STR) && ok_reg(d.rn)
            && ok_reg(d.rd) && d.val1.is_some() && match d.imm {
            Some(true) => d.offset.is_some(),
            Some(false) => ok_reg(d.rm) && d.val2.is_some() && d.shift_type.is_some(),
            None => false,
        },
        MicroOp::HalfTransfer => (t == MnemonicARM::STRH || t == MnemonicARM::LDRH || t
            == MnemonicARM::LDRSB || t == MnemonicARM::LDRSH) && ok_reg(d.rn) && ok_reg(d.rd)
            && d.val1.is_some() && match d.imm {
            Some(true) => d.offset.is_some(),
            Some(false) => ok_reg(d.rm),
            None => false,
        },
        MicroOp::BlockTransfer => (t == MnemonicARM::LDM || t == MnemonicARM::STM) && ok_reg(d.rn)
            && d.val1.is_some() && match d.offset {
            Some(o) => 0 <= o && o < 0x1_0000,
            None => false,
        },
        MicroOp::Swap => t == MnemonicARM::SWP && ok_reg(d.rn) && ok_reg(d.rd) && ok_reg(d.rm)
            && d.val1.is_some(),
        MicroOp::IncreasePcByOffset => d.offset.is_some(),
        MicroOp::SwitchMode => ok_reg(d.rn),
        MicroOp::Mrs => ok_reg(d.rd) && d.val1.is_some(),
        MicroOp::Msr => d.val1.is_some() && d.offset.is_some() && match d.imm {
            Some(true) => d.val2.is_some() && match d.val3 {
                Some(v) => v < 16,
                None => false,
            },
            Some(false) => ok_reg(d.rm),
            None => false,
        },
        MicroOp::ShortBranch => (t == MnemonicARM::B || t == MnemonicARM::BCond) && d.val1.is_some()
            && d.val2.is_some(),
        MicroOp::LongBranch => t == MnemonicARM::BL && d.val1.is_some() && match d.offset {
            Some(o) => 0 <= o && o < 2048,
            None => false,
        },
        _ => true,
    }
}

impl CPU {
    /// A processor at power-on: zeroed registers and memory, empty queue.
    pub fn new() -> (r: CPU)
        ensures
            r.wf(),
            r.execution_queue@.len() == 0,
            r.arm.cpsr == crate::psr::PSR::default_value(),
            forall|i: int| 0 <= i < crate::registers::PHYSICAL_SLOTS ==> r.arm.phys()[i] == 0,
            forall|a: u32| #[trigger] r.mmu.byte(a) == 0,
    {
        CPU {
            mmu: MMU::new(),
            arm: ARM7TDMI::default(),
            current: DecodedInstruction::blank(0),
            execution_queue: Vec::new(),
            should_exit: false,
        }
    }

    /// Makes `d` the current instruction and queues its micro-operations (the
    /// undefined-instruction trap if its record lacks a field they read).
    pub fn install(&mut self, d: DecodedInstruction)
        requires
            old(self).wf(),
        ensures
            final(self).wf(),
            final(self).current == d,
            final(self).execution_queue@ == checked_queue(final(self)),
            queue_ready(final(self)),
            final(self).arm == old(self).arm,
            final(self).mmu == old(self).mmu,
            final(self).should_exit == old(self).should_exit,
    {
        self.current = d;
        let q = micro_ops_for(&d);
        let mut all = true;
        let mut i: usize = 0;
        while i < q.len()
            invariant
                self.wf(),
                self.current == d,
                q@ == queue_for(d),
                i <= q@.len(),
                all == forall|j: int| 0 <= j < i ==> op_ready(#[trigger] q@[j], self),
                self.arm == old(self).arm,
                self.mmu == old(self).mmu,
                self.should_exit == old(self).should_exit,
            decreases q@.len() - i,
        {
            let ok = is_ready(q[i], self);
            all = all && ok;
            i = i + 1;
        }
        if all {
            self.execution_queue = q;
        } else {
            let mut t: Vec<MicroOp> = Vec::new();
            t.push(MicroOp::UndefinedTrap);
            self.execution_queue = t;
            proof {
                assert(t@ =~= seq![MicroOp::UndefinedTrap]);
            }
        }
    }
}

/// Effect of running micro-operation `op` on `a`, giving `b`.
pub open spec fn op_post(op: MicroOp, a: &CPU, b: &CPU) -> bool {
    match op {
        MicroOp::Alu => crate::micro_ops::alu_post(a, b),
        MicroOp::Multiply => crate::micro_ops::mul_post(a, b),
        MicroOp::MultiplyLong => crate::micro_ops::mul_long_post(a, b),
        MicroOp::SingleTransfer => crate::transfer::single_post(a, b),
        MicroOp::HalfTransfer => crate::transfer::half_post(a, b),
        MicroOp::BlockTransfer => if a.current.instr == MnemonicARM::LDM {
            crate::block::ldm_post(a, b)
        } else {
            crate::block::stm_post(a, b)
        },
        MicroOp::Swap => crate::transfer::swap_post(a, b),
        MicroOp::StorePcToLr => crate::control::link_post(a, b),
        MicroOp::IncreasePcByOffset => crate::control::branch_post(a, b),
        MicroOp::SwitchMode => crate::control::exchange_post(a, b),
        MicroOp::Mrs => crate::control::mrs_post(a, b),
        MicroOp::Msr => crate::control::msr_post(a, b),
        MicroOp::SwitchToSvc => crate::control::svc_post(a, b),
        MicroOp::UndefinedTrap => crate::control::undef_post(a, b),
        MicroOp::ShortBranch => crate::control::short_branch_post(a, b),
        MicroOp::LongBranch => crate::control::long_branch_post(a, b),
        MicroOp::Idle => *b == *a,
    }
}

/// Width in bytes of an instruction in the instruction set in effect.
pub open spec fn width(cpu: &CPU) -> u32 {
    if cpu.arm.cpsr.thumb_mode {
        2
    } else {
        4
    }
}

/// `b` is `a` with the program counter advanced by the instruction width.
pub open spec fn pc_advanced(a: &CPU, b: &CPU) -> bool {
    &&& b.arm.phys() == a.with_reg(15, a.reg(15).wrapping_add(width(a)))
    &&& b.arm.same_status(&a.arm)
    &&& b.mmu == a.mmu
    &&& b.current == a.current
    &&& b.execution_queue == a.execution_queue
    &&& b.should_exit == a.should_exit
}

/// `b` is `a` after its first queued micro-operation was taken off the queue
/// and run, and the program counter then advanced.
pub open spec fn stepped(a: &CPU, b: &CPU) -> bool {
    &&& a.execution_queue@.len() > 0
    &&& exists|pre: CPU, mid: CPU|
        {
            &&& pre.arm == a.arm
            &&& pre.mmu == a.mmu
            &&& pre.current == a.current
            &&& pre.should_exit == a.should_exit
            &&& pre.execution_queue@ == a.execution_queue@.drop_first()
            &&& #[trigger] op_post(a.execution_queue@[0], &pre, &mid)
            &&& pc_advanced(&mid, b)
        }
}

/// Runs one micro-operation on the processor (see each operation's contract).
pub fn run_micro_op(cpu: &mut CPU, op: MicroOp)
    requires
        old(cpu).wf(),
        op_ready(op, old(cpu)),
    ensures
        final(cpu).wf(),
        final(cpu).current == old(cpu).current,
        final(cpu).execution_queue == old(cpu).execution_queue,
        op_post(op, old(cpu), final(cpu)),
{
    match op {
        MicroOp::Alu => crate::micro_ops::alu_master(cpu),
        MicroOp::Multiply => crate::micro_ops::multiply(cpu),
        MicroOp::MultiplyLong => crate::micro_ops::multiply_long(cpu),
        MicroOp::SingleTransfer => crate::transfer::single_transfer(cpu),
        MicroOp::HalfTransfer => crate::transfer::half_transfer(cpu),
        MicroOp::BlockTransfer => if cpu.current.instr == MnemonicARM::LDM {
            crate::block::load_multiple(cpu)
        } else {
            crate::block::store_multiple(cpu)
        },
        MicroOp::Swap => crate::transfer::swap(cpu),
        MicroOp::StorePcToLr => crate::control::store_pc_to_lr(cpu),
        MicroOp::IncreasePcByOffset => crate::control::increase_pc_by_offset(cpu),
        MicroOp::SwitchMode => crate::control::switch_mode(cpu),
        MicroOp::Mrs => crate::control::mrs(cpu),
        MicroOp::Msr => crate::control::msr(cpu),
        MicroOp::SwitchToSvc => crate::control::switch_to_svc(cpu),
        MicroOp::UndefinedTrap => crate::control::undefined_trap(cpu),
        MicroOp::ShortBranch => crate::control::short_branch(cpu),
        MicroOp::LongBranch => crate::control::long_branch(cpu),
        MicroOp::Idle => {},
    }
}

/// Pops the next micro-operation, runs it, then advances the program counter
/// by the width of the instruction set in effect. An empty queue skips the cycle.
pub fn pop_micro_operation(cpu: &mut CPU)
    requires
        old(cpu).wf(),
        queue_ready(old(cpu)),
    ensures
        final(cpu).wf(),
        queue_ready(final(cpu)),
        final(cpu).current == old(cpu).current,
        old(cpu).execution_queue@.len() > 0 ==> final(cpu).execution_queue@ == old(cpu).execution_queue@.drop_first(),
        old(cpu).execution_queue@.len() > 0 ==> stepped(old(cpu), final(cpu)),
        old(cpu).execution_queue@.len() == 0 ==> *final(cpu) == *old(cpu),
{
    if cpu.execution_queue.len() == 0 {
        return;
    }
    let op = cpu.execution_queue.remove(0);
    let ghost rest = cpu.execution_queue@;
    assert(rest =~= old(cpu).execution_queue@.drop_first());
    assert(op_ready(op, old(cpu)));
    let ghost pre = *cpu;
    run_micro_op(cpu, op);
    let ghost mid = *cpu;
    let w: u32 = if cpu.arm.cpsr.thumb_mode {
        2
    } else {
        4
    };
    let pc = cpu.read(15);
    cpu.write(15, pc.wrapping_add(w));
    assert(op_post(old(cpu).execution_queue@[0], &pre, &mid) && pc_advanced(&mid, cpu));
    assert forall|i: int| 0 <= i < cpu.execution_queue@.len() implies op_ready(
        #[trigger] cpu.execution_queue@[i],
        cpu,
    ) by {
        assert(cpu.execution_queue@[i] == old(cpu).execution_queue@[i + 1]);
    }
}

/// Reads the instruction at the program counter: a half-word in compressed
/// mode, else a word.
pub fn fetch(cpu: &CPU) -> (r: InstructionType)
    requires
        cpu.wf(),
    ensures
        r == if cpu.arm.cpsr.thumb_mode {
            InstructionType::Thumb(cpu.mmu.half(cpu.reg(15)))
        } else {
            InstructionType::ARM(
                ARMInstruction { fetched_instruction: Some(cpu.mmu.word(cpu.reg(15))), decoded_instruction: None },
            )
        },
{
    let pc = cpu.read(15);
    if cpu.arm.cpsr.thumb_mode {
        InstructionType::Thumb(cpu.mmu.load16(pc))
    } else {
        InstructionType::ARM(ARMInstruction::new_fetched(cpu.mmu.load32(pc)))
    }
}

/// Decodes a wide instruction and queues its micro-operations.
pub fn decode_arm(cpu: &mut CPU, instruction: u32)
    requires
        old(cpu).wf(),
    ensures
        final(cpu).wf(),
        final(cpu).current == crate::arm_decode::spec_decode_arm(instruction),
        final(cpu).execution_queue@ == checked_queue(final(cpu)),
        queue_ready(final(cpu)),
        final(cpu).arm == old(cpu).arm,
        final(cpu).mmu == old(cpu).mmu,
        final(cpu).should_exit == old(cpu).should_exit,
{
    let d = crate::arm_decode::BaseInstruction::base_to_decoded(instruction);
    cpu.install(d);
}

/// Decodes a compressed instruction, expands it to its wide counterpart and
/// queues that record's micro-operations.
pub fn decode_thumb(cpu: &mut CPU, instr: u16)
    requires
        old(cpu).wf(),
    ensures
        final(cpu).wf(),
        final(cpu).current == crate::thumb_exec::wide_of_thumb(crate::thumb_decode::spec_decode_thumb(instr)),
        final(cpu).execution_queue@ == checked_queue(final(cpu)),
        queue_ready(final(cpu)),
        final(cpu).arm == old(cpu).arm,
        final(cpu).mmu == old(cpu).mmu,
        final(cpu).should_exit == old(cpu).should_exit,
{
    let d = crate::thumb_exec::to_wide(crate::thumb_decode::base_to_decoded(instr));
    cpu.install(d);
}

/// Decodes a fetched instruction of either width and queues its micro-operations.
pub fn decode(cpu: &mut CPU, fetched: InstructionType)
    requires
        old(cpu).wf(),
    ensures
        final(cpu).wf(),
        final(cpu).current == match fetched {
            InstructionType::Thumb(h) => crate::thumb_exec::wide_of_thumb(crate::thumb_decode::spec_decode_thumb(h)),
            InstructionType::ARM(a) => crate::arm_decode::spec_decode_arm(
                match a.fetched_instruction {
                    Some(w) => w,
                    None => 0,
                },
            ),
        },
        final(cpu).execution_queue@ == checked_queue(final(cpu)),
        queue_ready(final(cpu)),
        final(cpu).arm == old(cpu).arm,
        final(cpu).mmu == old(cpu).mmu,
        final(cpu).should_exit == old(cpu).should_exit,
{
    match fetched {
        InstructionType::Thumb(h) => decode_thumb(cpu, h),
        InstructionType::ARM(a) => {
            let w = match a.fetched_instruction {
                Some(w) => w,
                None => 0,
            };
            decode_arm(cpu, w);
        },
    }
}

/// One clock cycle: when the queue is empty, fetch and decode the next
/// instruction and queue its micro-operations; then run one micro-operation.
/// Decoding never happens while micro-operations are pending.
pub fn cycle(cpu: &mut CPU)
    requires
        old(cpu).wf(),
        queue_ready(old(cpu)),
    ensures
        final(cpu).wf(),
        queue_ready(final(cpu)),
        old(cpu).execution_queue@.len() > 0 ==> final(cpu).current == old(cpu).current
            && final(cpu).execution_queue@ == old(cpu).execution_queue@.drop_first()
            && stepped(old(cpu), final(cpu)),
        old(cpu).execution_queue@.len() == 0 ==> final(cpu).current == fetched_record(old(cpu))
            && final(cpu).execution_queue@ == checked_queue(final(cpu)).drop_first()
            && exists|dec: CPU|
            {
                &&& dec.arm == old(cpu).arm
                &&& dec.mmu == old(cpu).mmu
                &&& dec.should_exit == old(cpu).should_exit
                &&& dec.current == fetched_record(old(cpu))
                &&& dec.execution_queue@ == checked_queue(&dec)
                &&& #[trigger] stepped(&dec, final(cpu))
            },
{
    if cpu.execution_queue.len() == 0 {
        let fetched = fetch(cpu);
        decode(cpu, fetched);
        assert(checked_queue(cpu).len() > 0);
    }
    let ghost dec = *cpu;
    pop_micro_operation(cpu);
    assert(stepped(&dec, cpu));
}

/// `trace` runs from `a` to `b` in `n` cycles that each ran the head
/// micro-operation of the state before it.
pub open spec fn drain_trace(trace: Seq<CPU>, a: CPU, b: CPU, n: nat) -> bool {
    &&& trace.len() == n + 1
    &&& trace[0] == a
    &&& trace[n as int] == b
    &&& forall|i: int| 0 <= i < n ==> #[trigger] stepped(&trace[i], &trace[i + 1])
}

/// Runs a decoded instruction to completion: installs it, then runs its
/// queued micro-operations one after another, each followed by the program
/// counter advance, until the queue is empty.
pub fn execute_instruction(cpu: &mut CPU, d: DecodedInstruction)
    requires
        old(cpu).wf(),
    ensures
        final(cpu).wf(),
        final(cpu).current == d,
        final(cpu).execution_queue@.len() == 0,
        exists|inst: CPU, trace: Seq<CPU>|
            {
                &&& inst.current == d
                &&& inst.arm == old(cpu).arm
                &&& inst.mmu == old(cpu).mmu
                &&& inst.execution_queue@ == checked_queue(&inst)
                &&& #[trigger] drain_trace(trace, inst, *final(cpu), checked_queue(&inst).len())
            },
{
    cpu.install(d);
    let ghost inst = *cpu;
    let ghost mut trace: Seq<CPU> = seq![inst];
    let ghost mut k: nat = 0;
    while cpu.execution_queue.len() > 0
        invariant
            cpu.wf(),
            queue_ready(cpu),
            cpu.current == d,
            inst.current == d,
            inst.arm == old(cpu).arm,
            inst.mmu == old(cpu).mmu,
            inst.execution_queue@ == checked_queue(&inst),
            drain_trace(trace, inst, *cpu, k),
            k + cpu.execution_queue@.len() == inst.execution_queue@.len(),
        decreases cpu.execution_queue@.len(),
    {
        let ghost before = *cpu;
        pop_micro_operation(cpu);
        proof {
            let t2 = trace.push(*cpu);
            assert forall|i: int| 0 <= i < k + 1 implies #[trigger] stepped(&t2[i], &t2[i + 1]) by {
                if i < k {
                    assert(t2[i] == trace[i] && t2[i + 1] == trace[i + 1]);
                } else {
                    assert(t2[i] == before && t2[i + 1] == *cpu);
                }
            }
            trace = t2;
            k = k + 1;
        }
    }
}

} // verus!
