use vstd::prelude::*;
use crate::enums::ShiftType;

verus! {

/// Bit `k` of `x`.
pub open spec fn bit(x: u32, k: u32) -> bool {
    (x >> k) & 1 == 1
}

/// `x` rotated right by `n` places, `0 < n < 32`.
pub open spec fn rotr(x: u32, n: u32) -> u32 {
    (x >> n) | (x << ((32 - n) as u32))
}

/// `x` shifted right arithmetically by `n < 32` places.
pub open spec fn asr(x: u32, n: u32) -> u32 {
    ((x as i32) >> n) as u32
}

/// The barrel shifter: `(result, carry_out)` of shifting `value` by `amount`.
///
/// With an immediate amount (`by_register` false, amount 0..31), amount 0 is
/// special: LSL passes the value and the carry through, LSR and ASR shift by 32
/// (LSR gives 0, ASR spreads bit 31; the carry is bit 31), and ROR is RRX, a
/// one-place rotate through the carry. With a register amount, 0 passes value
/// and carry through for every kind, and amounts of 32 or more follow the
/// hardware rules.
pub open spec fn spec_shift(kind: ShiftType, value: u32, amount: u32, carry_in: bool, by_register: bool) -> (u32, bool) {
    if amount == 0 && (by_register || kind == ShiftType::LSL) {
        (value, carry_in)
    } else {
        match kind {
            ShiftType::LSL => if amount < 32 {
                (value << amount, bit(value, (32 - amount) as u32))
            } else if amount == 32 {
                (0, bit(value, 0))
            } else {
                (0, false)
            },
            ShiftType::LSR => if amount == 0 || amount == 32 {
                (0, bit(value, 31))
            } else if amount < 32 {
                (value >> amount, bit(value, (amount - 1) as u32))
            } else {
                (0, false)
            },
            ShiftType::ASR => if amount == 0 || amount >= 32 {
                (asr(value, 31), bit(value, 31))
            } else {
                (asr(value, amount), bit(value, (amount - 1) as u32))
            },
            ShiftType::ROR => if amount == 0 {
                ((value >> 1) | (if carry_in {
                    0x8000_0000u32
                } else {
                    0
                }), bit(value, 0))
            } else if amount % 32 == 0 {
                (value, bit(value, 31))
            } else {
                (rotr(value, amount % 32), bit(value, ((amount % 32) - 1) as u32))
            },
        }
    }
}

fn bit_at(x: u32, k: u32) -> (r: bool)
    requires
        k < 32,
    ensures
        r == bit(x, k),
{
    (x >> k) & 1 == 1
}

fn rotate_right(x: u32, n: u32) -> (r: u32)
    requires
        0 < n < 32,
    ensures
        r == rotr(x, n),
{
    (x >> n) | (x << (32 - n))
}

/// Runs the barrel shifter (see `spec_shift`).
pub fn barrel_shift(kind: ShiftType, value: u32, amount: u32, carry_in: bool, by_register: bool) -> (r: (u32, bool))
    ensures
        r == spec_shift(kind, value, amount, carry_in, by_register),
{
    if amount == 0 && (by_register || kind == ShiftType::LSL) {
        return (value, carry_in);
    }
    match kind {
        ShiftType::LSL => if amount < 32 {
            (value << amount, bit_at(value, 32 - amount))
        } else if amount == 32 {
            (0, bit_at(value, 0))
        } else {
            (0, false)
        },
        ShiftType::LSR => if amount == 0 || amount == 32 {
            (0, bit_at(value, 31))
        } else if amount < 32 {
            (value >> amount, bit_at(value, amount - 1))
        } else {
            (0, false)
        },
        ShiftType::ASR => if amount == 0 || amount >= 32 {
            (((value as i32) >> 31u32) as u32, bit_at(value, 31))
        } else {
            (((value as i32) >> amount) as u32, bit_at(value, amount - 1))
        },
        ShiftType::ROR => if amount == 0 {
            let top: u32 = if carry_in {
                0x8000_0000
            } else {
                0
            };
            ((value >> 1u32) | top, bit_at(value, 0))
        } else if amount % 32 == 0 {
            (value, bit_at(value, 31))
        } else {
            let n = amount % 32;
            (rotate_right(value, n), bit_at(value, n - 1))
        },
    }
}

/// Rotate-right by zero is RRX: a set carry enters at bit 31. A logical shift
/// right by an immediate zero shifts by 32: the result is 0 and the carry is
/// the old bit 31.
pub proof fn lemma_shift_zero_amount(value: u32, carry_in: bool)
    ensures
        spec_shift(ShiftType::ROR, value, 0, true, false).0 & 0x8000_0000 != 0,
        spec_shift(ShiftType::ROR, value, 0, carry_in, false).1 == bit(value, 0),
        spec_shift(ShiftType::LSR, value, 0, carry_in, false) == (0u32, bit(value, 31)),
{
    assert(((value >> 1u32) | 0x8000_0000u32) & 0x8000_0000 != 0) by (bit_vector);
}

/// The 8-bit immediate operand rotated right by twice the 4-bit rotation field.
pub open spec fn spec_rotated_immediate(imm: u32, rot: u32) -> u32 {
    if rot == 0 {
        imm
    } else {
        rotr(imm, (2 * rot) as u32)
    }
}

/// Immediate second operand: `imm` rotated right by `2 * rot`.
pub fn rotated_immediate(imm: u8, rot: u8) -> (r: u32)
    requires
        rot < 16,
    ensures
        r == spec_rotated_immediate(imm as u32, rot as u32),
{
    if rot == 0 {
        imm as u32
    } else {
        rotate_right(imm as u32, 2 * rot as u32)
    }
}

/// Sum of `x`, `y` and the carry, truncated to 32 bits.
pub open spec fn add_value(x: u32, y: u32, c: bool) -> u32 {
    (x as u64 + y as u64 + (if c {
        1u64
    } else {
        0u64
    })) as u32
}

/// Unsigned carry out of `x + y + c` (bit 32 of the wide sum).
pub open spec fn add_carry(x: u32, y: u32, c: bool) -> bool {
    x as int + y as int + (if c {
        1int
    } else {
        0int
    }) > 0xFFFF_FFFF
}

/// Signed overflow: both operands share a sign that the result does not have.
pub open spec fn add_overflow(x: u32, y: u32, c: bool) -> bool {
    bit(x, 31) == bit(y, 31) && bit(add_value(x, y, c), 31) != bit(x, 31)
}

/// `x + y + c` with its carry and overflow flags: `(result, carry, overflow)`.
pub fn add_with_carry(x: u32, y: u32, c: bool) -> (r: (u32, bool, bool))
    ensures
        r == (add_value(x, y, c), add_carry(x, y, c), add_overflow(x, y, c)),
{
    let cin: u64 = if c {
        1
    } else {
        0
    };
    let wide: u64 = x as u64 + y as u64 + cin;
    let v = wide as u32;
    let carry = wide > 0xFFFF_FFFF;
    let overflow = bit_at(x, 31) == bit_at(y, 31) && bit_at(v, 31) != bit_at(x, 31);
    (v, carry, overflow)
}

/// `x - y - !c` computed as `x + !y + c`: carry set means no borrow.
pub fn sub_with_carry(x: u32, y: u32, c: bool) -> (r: (u32, bool, bool))
    ensures
        r == (add_value(x, !y, c), add_carry(x, !y, c), add_overflow(x, !y, c)),
{
    add_with_carry(x, !y, c)
}

/// Subtraction is addition of the complement plus one: the value is the
/// wrapped difference, and the carry is set exactly when `x >= y`.
pub proof fn lemma_subtract(x: u32, y: u32)
    ensures
        add_value(x, !y, true) == x.wrapping_sub(y),
        add_carry(x, !y, true) == (x >= y),
{
    assert(!y == 0xFFFF_FFFFu32 - y) by (bit_vector);
    assert((x as u64 + (!y) as u64 + 1u64) as u32 == (if x >= y {
        x - y
    } else {
        x + (0xFFFF_FFFFu32 - y) + 1
    })) by (bit_vector);
}

} // verus!
