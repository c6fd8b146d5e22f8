use vstd::prelude::*;
use crate::enums::ProcessorMode;

verus! {

/// Bits of the status word that carry state: flags 31..28, 7..5 and the mode field 4..0.
pub const NORMATIVE_MASK: u32 = 0xF000_00FF;

/// Processor status register: condition flags, interrupt masks, instruction-set
/// flag and the processor mode.
#[derive(Debug, PartialEq, Eq, Structural, Clone, Copy)]
pub struct PSR {
    pub negative: bool,
    pub zero: bool,
    pub carry: bool,
    pub overflow: bool,
    pub thumb_mode: bool,
    pub disable_irq: bool,
    pub disable_fiq: bool,
    pub mode: ProcessorMode,
}

/// Hardware encoding of each mode in bits 4..0.
pub open spec fn mode_bits(m: ProcessorMode) -> u32 {
    match m {
        ProcessorMode::User => 0x10,
        ProcessorMode::System => 0x1F,
        ProcessorMode::FIQ => 0x11,
        ProcessorMode::IRQ => 0x12,
        ProcessorMode::Supervisor => 0x13,
        ProcessorMode::Abort => 0x17,
        ProcessorMode::Undefined => 0x1B,
    }
}

/// Mode named by the mode field (bits 4..0) of a status word; a pattern that
/// names no mode means User.
pub open spec fn mode_of(w: u32) -> ProcessorMode {
    let m = w & 0x1F;
    if m == 0x1F {
        ProcessorMode::System
    } else if m == 0x11 {
        ProcessorMode::FIQ
    } else if m == 0x12 {
        ProcessorMode::IRQ
    } else if m == 0x13 {
        ProcessorMode::Supervisor
    } else if m == 0x17 {
        ProcessorMode::Abort
    } else if m == 0x1B {
        ProcessorMode::Undefined
    } else {
        ProcessorMode::User
    }
}

/// A status word whose mode field (bits 4..0) is one of the seven mode encodings.
pub open spec fn valid_status_word(w: u32) -> bool {
    let m = w & 0x1F;
    m == 0x10 || m == 0x1F || m == 0x11 || m == 0x12 || m == 0x13 || m == 0x17 || m == 0x1B
}

pub open spec fn flag(b: bool, mask: u32) -> u32 {
    if b {
        mask
    } else {
        0
    }
}

pub open spec fn bit_set(w: u32, pos: u32) -> bool {
    (w >> pos) & 1 == 1
}

impl PSR {
    /// The 32-bit hardware layout of this status register.
    pub open spec fn word(self) -> u32 {
        mode_bits(self.mode) | flag(self.negative, 0x8000_0000) | flag(self.zero, 0x4000_0000) | flag(self.carry, 0x2000_0000)
            | flag(self.overflow, 0x1000_0000) | flag(self.disable_irq, 0x80) | flag(self.disable_fiq, 0x40)
            | flag(self.thumb_mode, 0x20)
    }

    /// The status register that a 32-bit word describes.
    pub open spec fn from_word(w: u32) -> PSR {
        PSR {
            negative: bit_set(w, 31),
            zero: bit_set(w, 30),
            carry: bit_set(w, 29),
            overflow: bit_set(w, 28),
            disable_irq: bit_set(w, 7),
            disable_fiq: bit_set(w, 6),
            thumb_mode: bit_set(w, 5),
            mode: mode_of(w),
        }
    }

    /// Power-on state: User mode, both interrupt kinds masked, every flag clear.
    pub open spec fn default_value() -> PSR {
        PSR {
            negative: false,
            zero: false,
            carry: false,
            overflow: false,
            thumb_mode: false,
            disable_irq: true,
            disable_fiq: true,
            mode: ProcessorMode::User,
        }
    }

    /// Power-on state: User mode, both interrupt kinds masked, every flag clear.
    pub fn default() -> (r: PSR)
        ensures
            r == PSR::default_value(),
            r == (PSR {
                negative: false,
                zero: false,
                carry: false,
                overflow: false,
                thumb_mode: false,
                disable_irq: true,
                disable_fiq: true,
                mode: ProcessorMode::User,
            }),
    {
        PSR {
            negative: false,
            zero: false,
            carry: false,
            overflow: false,
            thumb_mode: false,
            disable_irq: true,
            disable_fiq: true,
            mode: ProcessorMode::User,
        }
    }

    /// Writes the status register out as a 32-bit word.
    pub fn unpack(&self) -> (r: i32)
        ensures
            r as u32 == self.word(),
    {
        let mode: u32 = match self.mode {
            ProcessorMode::User => 0x10,
            ProcessorMode::System => 0x1F,
            ProcessorMode::FIQ => 0x11,
            ProcessorMode::IRQ => 0x12,
            ProcessorMode::Supervisor => 0x13,
            ProcessorMode::Abort => 0x17,
            ProcessorMode::Undefined => 0x1B,
        };
        let neg: u32 = if self.negative { 0x8000_0000 } else { 0 };
        let zero: u32 = if self.zero { 0x4000_0000 } else { 0 };
        let carry: u32 = if self.carry { 0x2000_0000 } else { 0 };
        let overflow: u32 = if self.overflow { 0x1000_0000 } else { 0 };
        let irq: u32 = if self.disable_irq { 0x80 } else { 0 };
        let fiq: u32 = if self.disable_fiq { 0x40 } else { 0 };
        let thumb: u32 = if self.thumb_mode { 0x20 } else { 0 };
        let w = mode | neg | zero | carry | overflow | irq | fiq | thumb;
        proof {
            assert(w as i32 as u32 == w) by (bit_vector);
        }
        w as i32
    }

    /// Loads the status register from a 32-bit word.
    pub fn pack(&mut self, source: u32)
        ensures
            *final(self) == PSR::from_word(source),
    {
        let mode = match source & 0x1F {
            0x10 => ProcessorMode::User,
            0x1F => ProcessorMode::System,
            0x11 => ProcessorMode::FIQ,
            0x12 => ProcessorMode::IRQ,
            0x13 => ProcessorMode::Supervisor,
            0x17 => ProcessorMode::Abort,
            0x1B => ProcessorMode::Undefined,
            _ => ProcessorMode::User,
        };
        *self = PSR {
            negative: (source >> 31u32) & 1 == 1,
            zero: (source >> 30u32) & 1 == 1,
            carry: (source >> 29u32) & 1 == 1,
            overflow: (source >> 28u32) & 1 == 1,
            disable_irq: (source >> 7u32) & 1 == 1,
            disable_fiq: (source >> 6u32) & 1 == 1,
            thumb_mode: (source >> 5u32) & 1 == 1,
            mode,
        };
    }
}

/// Reading a status register back from its word gives the same register.
pub proof fn lemma_psr_round_trip(p: PSR)
    ensures
        PSR::from_word(p.word()) == p,
{
    let m = mode_bits(p.mode);
    let n = flag(p.negative, 0x8000_0000);
    let z = flag(p.zero, 0x4000_0000);
    let c = flag(p.carry, 0x2000_0000);
    let v = flag(p.overflow, 0x1000_0000);
    let i = flag(p.disable_irq, 0x80);
    let f = flag(p.disable_fiq, 0x40);
    let t = flag(p.thumb_mode, 0x20);
    let w = m | n | z | c | v | i | f | t;
    assert(w & 0x1F == m) by (bit_vector)
        requires
            w == m | n | z | c | v | i | f | t,
            m == 0x10 || m == 0x1F || m == 0x11 || m == 0x12 || m == 0x13 || m == 0x17 || m == 0x1B,
            n == 0 || n == 0x8000_0000,
            z == 0 || z == 0x4000_0000,
            c == 0 || c == 0x2000_0000,
            v == 0 || v == 0x1000_0000,
            i == 0 || i == 0x80,
            f == 0 || f == 0x40,
            t == 0 || t == 0x20,
    ;
    assert(bit_set(w, 31) == (n != 0) && bit_set(w, 30) == (z != 0) && bit_set(w, 29) == (c != 0)
        && bit_set(w, 28) == (v != 0) && bit_set(w, 7) == (i != 0) && bit_set(w, 6) == (f != 0)
        && bit_set(w, 5) == (t != 0)) by (bit_vector)
        requires
            w == m | n | z | c | v | i | f | t,
            m == 0x10 || m == 0x1F || m == 0x11 || m == 0x12 || m == 0x13 || m == 0x17 || m == 0x1B,
            n == 0 || n == 0x8000_0000,
            z == 0 || z == 0x4000_0000,
            c == 0 || c == 0x2000_0000,
            v == 0 || v == 0x1000_0000,
            i == 0 || i == 0x80,
            f == 0 || f == 0x40,
            t == 0 || t == 0x20,
    ;
}

/// For a status word with a valid mode field, reading it into a register and
/// writing it back keeps every normative bit: `pack` then `unpack` is the
/// identity on bits 31..28, 7..5 and 4..0, and clears the rest.
pub proof fn lemma_status_word_round_trip(w: u32)
    requires
        valid_status_word(w),
    ensures
        PSR::from_word(w).word() == w & NORMATIVE_MASK,
{
    let p = PSR::from_word(w);
    let m = mode_bits(p.mode);
    let n = flag(p.negative, 0x8000_0000);
    let z = flag(p.zero, 0x4000_0000);
    let c = flag(p.carry, 0x2000_0000);
    let v = flag(p.overflow, 0x1000_0000);
    let i = flag(p.disable_irq, 0x80);
    let f = flag(p.disable_fiq, 0x40);
    let t = flag(p.thumb_mode, 0x20);
    assert(w & 0x1F == m);
    assert(m | n | z | c | v | i | f | t == w & NORMATIVE_MASK) by (bit_vector)
        requires
            w & 0x1F == m,
            n == (if (w >> 31) & 1 == 1 { 0x8000_0000u32 } else { 0 }),
            z == (if (w >> 30) & 1 == 1 { 0x4000_0000u32 } else { 0 }),
            c == (if (w >> 29) & 1 == 1 { 0x2000_0000u32 } else { 0 }),
            v == (if (w >> 28) & 1 == 1 { 0x1000_0000u32 } else { 0 }),
            i == (if (w >> 7) & 1 == 1 { 0x80u32 } else { 0 }),
            f == (if (w >> 6) & 1 == 1 { 0x40u32 } else { 0 }),
            t == (if (w >> 5) & 1 == 1 { 0x20u32 } else { 0 }),
    ;
}

/// A mode field (bits 4..0) that names no mode reads as User mode, and
/// writing the register back gives the User encoding 0x10 in that field.
pub proof fn lemma_unknown_mode_is_user(w: u32)
    requires
        !valid_status_word(w),
    ensures
        PSR::from_word(w).mode == ProcessorMode::User,
        PSR::from_word(w).word() & 0x1F == 0x10,
{
    let p = PSR::from_word(w);
    let n = flag(p.negative, 0x8000_0000);
    let z = flag(p.zero, 0x4000_0000);
    let c = flag(p.carry, 0x2000_0000);
    let v = flag(p.overflow, 0x1000_0000);
    let i = flag(p.disable_irq, 0x80);
    let f = flag(p.disable_fiq, 0x40);
    let t = flag(p.thumb_mode, 0x20);
    assert((0x10u32 | n | z | c | v | i | f | t) & 0x1F == 0x10) by (bit_vector)
        requires
            n == 0 || n == 0x8000_0000,
            z == 0 || z == 0x4000_0000,
            c == 0 || c == 0x2000_0000,
            v == 0 || v == 0x1000_0000,
            i == 0 || i == 0x80,
            f == 0 || f == 0x40,
            t == 0 || t == 0x20,
    ;
}

} // verus!
