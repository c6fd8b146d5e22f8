use vstd::prelude::*;
use crate::enums::ProcessorMode;
use crate::psr::PSR;

verus! {

/// Index of the stack pointer.
pub const STACK_POINTER: usize = 13;
/// Index of the link register.
pub const LINK_REGISTER: usize = 14;
/// Index of the program counter.
pub const PROGRAM_COUNTER: usize = 15;
/// Number of physical register slots: 16 shared, 7 for FIQ, 2 for each of IRQ,
/// Supervisor, Abort and Undefined.
pub const PHYSICAL_SLOTS: usize = 31;

/// Physical slot that logical register `r` resolves to in mode `m`.
pub open spec fn slot(m: ProcessorMode, r: int) -> int {
    match m {
        ProcessorMode::User | ProcessorMode::System => r,
        ProcessorMode::FIQ => if 8 <= r < 15 { 16 + (r - 8) } else { r },
        ProcessorMode::IRQ => if 13 <= r < 15 { 23 + (r - 13) } else { r },
        ProcessorMode::Supervisor => if 13 <= r < 15 { 25 + (r - 13) } else { r },
        ProcessorMode::Abort => if 13 <= r < 15 { 27 + (r - 13) } else { r },
        ProcessorMode::Undefined => if 13 <= r < 15 { 29 + (r - 13) } else { r },
    }
}

/// Resolves logical register `r` in mode `m` to its physical slot.
pub fn slot_of(m: ProcessorMode, r: usize) -> (s: usize)
    requires
        r < 16,
    ensures
        s as int == slot(m, r as int),
        s < PHYSICAL_SLOTS,
{
    match m {
        ProcessorMode::User | ProcessorMode::System => r,
        ProcessorMode::FIQ => if 8 <= r && r < 15 { 16 + (r - 8) } else { r },
        ProcessorMode::IRQ => if 13 <= r && r < 15 { 23 + (r - 13) } else { r },
        ProcessorMode::Supervisor => if 13 <= r && r < 15 { 25 + (r - 13) } else { r },
        ProcessorMode::Abort => if 13 <= r && r < 15 { 27 + (r - 13) } else { r },
        ProcessorMode::Undefined => if 13 <= r && r < 15 { 29 + (r - 13) } else { r },
    }
}

/// The processor core state: banked registers, status registers and the
/// last bit shifted out by the barrel shifter.
pub struct ARM7TDMI {
    pub slots: Vec<i32>,
    pub cpsr: PSR,
    pub spsr_fiq: PSR,
    pub spsr_irq: PSR,
    pub spsr_svc: PSR,
    pub spsr_abt: PSR,
    pub spsr_und: PSR,
    pub shifter_carry: u32,
}

impl ARM7TDMI {
    /// The physical register file.
    pub open spec fn phys(&self) -> Seq<i32> {
        self.slots@
    }

    pub open spec fn wf(&self) -> bool {
        self.phys().len() == PHYSICAL_SLOTS
    }

    /// Value of logical register `r` as seen from mode `m`.
    pub open spec fn reg_in(&self, m: ProcessorMode, r: int) -> i32 {
        self.phys()[slot(m, r)]
    }

    /// Value of logical register `r` in the current mode.
    pub open spec fn reg(&self, r: int) -> i32 {
        self.reg_in(self.cpsr.mode, r)
    }

    /// Everything but the physical slots is the same in both states.
    pub open spec fn same_status(&self, o: &ARM7TDMI) -> bool {
        self.cpsr == o.cpsr && self.spsr_fiq == o.spsr_fiq && self.spsr_irq == o.spsr_irq
            && self.spsr_svc == o.spsr_svc && self.spsr_abt == o.spsr_abt && self.spsr_und
            == o.spsr_und && self.shifter_carry == o.shifter_carry
    }

    /// Power-on state: every register zero, every status register at its default.
    pub fn default() -> (r: ARM7TDMI)
        ensures
            r.wf(),
            forall|i: int| 0 <= i < PHYSICAL_SLOTS ==> r.phys()[i] == 0,
            r.cpsr == PSR::default_value(),
            r.shifter_carry == 0,
    {
        let slots = vec![0i32; PHYSICAL_SLOTS];
        ARM7TDMI {
            slots,
            cpsr: PSR::default(),
            spsr_fiq: PSR::default(),
            spsr_irq: PSR::default(),
            spsr_svc: PSR::default(),
            spsr_abt: PSR::default(),
            spsr_und: PSR::default(),
            shifter_carry: 0,
        }
    }

    /// Reads logical register `r` through the current mode's banking.
    pub fn load_register(&self, r: usize) -> (v: i32)
        requires
            self.wf(),
            r < 16,
        ensures
            v == self.reg(r as int),
    {
        let s = slot_of(self.cpsr.mode, r);
        self.slots[s]
    }

    /// Reads logical register `r` as mode `m` sees it.
    pub fn load_register_in(&self, m: ProcessorMode, r: usize) -> (v: i32)
        requires
            self.wf(),
            r < 16,
        ensures
            v == self.reg_in(m, r as int),
    {
        let s = slot_of(m, r);
        self.slots[s]
    }

    /// Writes logical register `r` as mode `m` sees it.
    pub fn store_register_in(&mut self, m: ProcessorMode, r: usize, v: i32)
        requires
            old(self).wf(),
            r < 16,
        ensures
            final(self).wf(),
            final(self).same_status(old(self)),
            final(self).phys() == old(self).phys().update(slot(m, r as int), v),
    {
        let s = slot_of(m, r);
        self.slots.set(s, v);
    }

    /// Writes logical register `r` through the current mode's banking.
    pub fn store_register(&mut self, r: usize, v: i32)
        requires
            old(self).wf(),
            r < 16,
        ensures
            final(self).wf(),
            final(self).same_status(old(self)),
            final(self).phys() == old(self).phys().update(slot(old(self).cpsr.mode, r as int), v),
    {
        let s = slot_of(self.cpsr.mode, r);
        self.slots.set(s, v);
    }
}

/// Writing a register in one mode changes exactly the registers, in every
/// mode, that share its physical slot.
pub proof fn lemma_store_then_load(
    before: ARM7TDMI,
    after: ARM7TDMI,
    r: int,
    v: i32,
    m: ProcessorMode,
    q: int,
)
    requires
        before.wf(),
        0 <= r < 16,
        0 <= q < 16,
        after.phys() == before.phys().update(slot(before.cpsr.mode, r), v),
    ensures
        after.reg_in(m, q) == if slot(m, q) == slot(before.cpsr.mode, r) {
            v
        } else {
            before.reg_in(m, q)
        },
{
}

/// Writing the stack pointer while in IRQ mode leaves the User-mode stack
/// pointer untouched.
pub proof fn lemma_irq_stack_pointer_isolated(before: ARM7TDMI, after: ARM7TDMI, v: i32)
    requires
        before.wf(),
        before.cpsr.mode == ProcessorMode::IRQ,
        after.phys() == before.phys().update(slot(before.cpsr.mode, 13), v),
    ensures
        after.reg_in(ProcessorMode::User, 13) == before.reg_in(ProcessorMode::User, 13),
        after.reg_in(ProcessorMode::IRQ, 13) == v,
{
}

/// Every privileged mode but System keeps its own stack pointer and link
/// register, apart from the User bank.
pub proof fn lemma_banked_registers_distinct(m: ProcessorMode, r: int)
    requires
        13 <= r < 15,
        m != ProcessorMode::User,
        m != ProcessorMode::System,
    ensures
        slot(m, r) != slot(ProcessorMode::User, r),
{
}

} // verus!
