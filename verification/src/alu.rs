//! Flag arithmetic.
//!
//! Every computing micro-operation gets its result and its flags from one of
//! the functions here. The rules are stated over plain integers:
//!
//! * zero: the 8-bit result is 0;
//! * subtraction: the operation subtracted;
//! * half-carry: carry or borrow across bit 3 (bit 11 for the 16-bit add),
//!   taken on the low nibbles alone;
//! * carry: carry or borrow across bit 7 (bit 15 for the 16-bit add), taken on
//!   the operands widened past their own width.
use vstd::prelude::*;
use crate::cpu::weight;
use crate::cpu::Flags;

verus! {

/// The eight operations the encoding selects with bits 5-3.
#[derive(Clone, Copy, Debug, PartialEq, Eq, Structural)]
pub enum AluOperation {
    Add,
    Adc,
    Sub,
    Sbc,
    And,
    Xor,
    Or,
    Cp,
}

/// The single-byte operations on the accumulator and the carry flag.
#[derive(Clone, Copy, Debug, PartialEq, Eq, Structural)]
pub enum AccumulatorOperation {
    Rlca,
    Rrca,
    Rla,
    Rra,
    Daa,
    Cpl,
    Scf,
    Ccf,
}

/// The rotations and shifts by one bit of the second encoding space.
#[derive(Clone, Copy, Debug, PartialEq, Eq, Structural)]
pub enum ShiftOperation {
    Rlc,
    Rrc,
    Rl,
    Rr,
    Sla,
    Sra,
    Swap,
    Srl,
}

/// What an instruction does to one byte in place.
#[derive(Clone, Copy, Debug, PartialEq, Eq, Structural)]
pub enum Change {
    /// Increment (`up`) or decrement.
    Step { up: bool },
    /// Rotate or shift by one bit.
    Shift { operation: ShiftOperation },
    /// Set (`value`) or reset bit `bit`.
    Assign { bit: u8, value: bool },
}

/// A computed byte and the flags that go with it.
#[derive(Clone, Copy, Debug, PartialEq, Eq, Structural)]
pub struct AluResult {
    pub value: u8,
    pub flags: Flags,
}

/// A computed word and the flags that go with it.
#[derive(Clone, Copy, Debug, PartialEq, Eq, Structural)]
pub struct WideResult {
    pub value: u16,
    pub flags: Flags,
}

/// `x + y + carry_in`.
pub open spec fn sum8(x: u8, y: u8, carry_in: bool) -> AluResult {
    let total = x + y + weight(carry_in, 1);
    AluResult {
        value: (total % 256) as u8,
        flags: Flags {
            zero: total % 256 == 0,
            subtraction: false,
            half_carry: x % 16 + y % 16 + weight(carry_in, 1) > 0xF,
            carry: total > 0xFF,
        },
    }
}

/// `x - y - borrow_in`.
pub open spec fn difference8(x: u8, y: u8, borrow_in: bool) -> AluResult {
    let total = x - y - weight(borrow_in, 1);
    AluResult {
        value: (total % 256) as u8,
        flags: Flags {
            zero: total % 256 == 0,
            subtraction: true,
            half_carry: x % 16 < y % 16 + weight(borrow_in, 1),
            carry: x < y + weight(borrow_in, 1),
        },
    }
}

/// Flags of a logical result; only AND sets the half-carry.
pub open spec fn logical8(value: u8, half_carry: bool) -> AluResult {
    AluResult {
        value,
        flags: Flags { zero: value == 0, subtraction: false, half_carry, carry: false },
    }
}

/// The accumulator and flags after `operation` on accumulator `a` and
/// `operand`. Compare leaves the accumulator as it was.
pub open spec fn computed(operation: AluOperation, a: u8, operand: u8, flags: Flags) -> AluResult {
    match operation {
        AluOperation::Add => sum8(a, operand, false),
        AluOperation::Adc => sum8(a, operand, flags.carry),
        AluOperation::Sub => difference8(a, operand, false),
        AluOperation::Sbc => difference8(a, operand, flags.carry),
        AluOperation::And => logical8(a & operand, true),
        AluOperation::Xor => logical8(a ^ operand, false),
        AluOperation::Or => logical8(a | operand, false),
        AluOperation::Cp => AluResult { value: a, flags: difference8(a, operand, false).flags },
    }
}

/// `x` moved one up or one down; the carry flag is not touched.
pub open spec fn stepped8(x: u8, up: bool, flags: Flags) -> AluResult {
    let total = if up {
        x + 1
    } else {
        x - 1
    };
    AluResult {
        value: (total % 256) as u8,
        flags: Flags {
            zero: total % 256 == 0,
            subtraction: !up,
            half_carry: if up {
                x % 16 == 0xF
            } else {
                x % 16 == 0
            },
            carry: flags.carry,
        },
    }
}

/// `x + y` on words; the zero flag is not touched.
pub open spec fn sum16(x: u16, y: u16, flags: Flags) -> WideResult {
    WideResult {
        value: ((x + y) % 0x1_0000) as u16,
        flags: Flags {
            zero: flags.zero,
            subtraction: false,
            half_carry: x % 0x1000 + y % 0x1000 > 0xFFF,
            carry: x + y > 0xFFFF,
        },
    }
}

/// `a` turned one bit to the left; `low` becomes bit 0.
pub open spec fn turned_left(a: u8, low: bool) -> int {
    (a % 128) * 2 + weight(low, 1)
}

/// `a` turned one bit to the right; `high` becomes bit 7.
pub open spec fn turned_right(a: u8, high: bool) -> int {
    a / 2 + weight(high, 128)
}

/// Flags after an operation that only produces a carry.
pub open spec fn carry_only(carry: bool) -> Flags {
    Flags { zero: false, subtraction: false, half_carry: false, carry }
}

/// What decimal adjustment adds to or takes from the accumulator, and
/// whether it carries: 0x60 when the high digit is out of range or carried,
/// 6 when the low digit is out of range or half-carried. After a subtraction
/// only the flags count.
pub open spec fn decimal_correction(a: u8, flags: Flags) -> (int, bool) {
    let high = flags.carry || (!flags.subtraction && a > 0x99);
    let low = flags.half_carry || (!flags.subtraction && a % 16 > 9);
    (weight(high, 0x60) + weight(low, 6), high)
}

/// The accumulator adjusted to two decimal digits after an addition or a
/// subtraction of two such numbers.
pub open spec fn decimal_adjusted(a: u8, flags: Flags) -> AluResult {
    let correction = decimal_correction(a, flags);
    let total = if flags.subtraction {
        a - correction.0
    } else {
        a + correction.0
    };
    AluResult {
        value: (total % 256) as u8,
        flags: Flags {
            zero: total % 256 == 0,
            subtraction: flags.subtraction,
            half_carry: false,
            carry: correction.1,
        },
    }
}

/// A byte read as a signed offset.
pub open spec fn signed(offset: u8) -> int {
    if offset < 128 {
        offset as int
    } else {
        offset - 256
    }
}

/// `address` moved by a signed offset, wrapping at both ends.
pub open spec fn displaced(address: u16, offset: u8) -> u16 {
    ((address + signed(offset)) % 0x1_0000) as u16
}

/// `address` moved by a signed offset, with the flags of the addition of the
/// low bytes: half-carry across bit 3, carry across bit 7.
pub open spec fn offset16(address: u16, offset: u8) -> WideResult {
    WideResult {
        value: displaced(address, offset),
        flags: Flags {
            zero: false,
            subtraction: false,
            half_carry: address % 16 + offset % 16 > 0xF,
            carry: address % 256 + offset > 0xFF,
        },
    }
}

/// The accumulator and flags after a single-byte accumulator operation.
pub open spec fn accumulated(operation: AccumulatorOperation, a: u8, flags: Flags) -> AluResult {
    match operation {
        AccumulatorOperation::Rlca => AluResult {
            value: turned_left(a, a >= 128) as u8,
            flags: carry_only(a >= 128),
        },
        AccumulatorOperation::Rrca => AluResult {
            value: turned_right(a, a % 2 == 1) as u8,
            flags: carry_only(a % 2 == 1),
        },
        AccumulatorOperation::Rla => AluResult {
            value: turned_left(a, flags.carry) as u8,
            flags: carry_only(a >= 128),
        },
        AccumulatorOperation::Rra => AluResult {
            value: turned_right(a, flags.carry) as u8,
            flags: carry_only(a % 2 == 1),
        },
        AccumulatorOperation::Daa => decimal_adjusted(a, flags),
        AccumulatorOperation::Cpl => AluResult {
            value: (255 - a) as u8,
            flags: Flags { subtraction: true, half_carry: true, ..flags },
        },
        AccumulatorOperation::Scf => AluResult {
            value: a,
            flags: Flags { subtraction: false, half_carry: false, carry: true, ..flags },
        },
        AccumulatorOperation::Ccf => AluResult {
            value: a,
            flags: Flags { subtraction: false, half_carry: false, carry: !flags.carry, ..flags },
        },
    }
}

/// The weight of bit `bit` in a byte; zero for an index that names no bit.
pub open spec fn bit_weight(bit: u8) -> int {
    if bit == 0 {
        1
    } else if bit == 1 {
        2
    } else if bit == 2 {
        4
    } else if bit == 3 {
        8
    } else if bit == 4 {
        16
    } else if bit == 5 {
        32
    } else if bit == 6 {
        64
    } else if bit == 7 {
        128
    } else {
        0
    }
}

/// Whether bit `bit` of `x` is 1.
pub open spec fn bit_is_set(x: u8, bit: u8) -> bool {
    bit < 8 && (x / (bit_weight(bit) as u8)) % 2 == 1
}

/// `x` with bit `bit` made `value`.
pub open spec fn assigned(x: u8, bit: u8, value: bool) -> int {
    if bit_is_set(x, bit) == value {
        x as int
    } else if value {
        x + bit_weight(bit)
    } else {
        x - bit_weight(bit)
    }
}

/// Flags after a rotation or shift: the zero flag follows the result, the
/// carry takes the bit that left.
pub open spec fn shift_result(value: int, carry: bool) -> AluResult {
    AluResult {
        value: value as u8,
        flags: Flags { zero: value == 0, subtraction: false, half_carry: false, carry },
    }
}

/// `x` rotated or shifted by one bit.
pub open spec fn shifted(operation: ShiftOperation, x: u8, flags: Flags) -> AluResult {
    let high = x >= 128;
    let low = x % 2 == 1;
    match operation {
        ShiftOperation::Rlc => shift_result(turned_left(x, high), high),
        ShiftOperation::Rrc => shift_result(turned_right(x, low), low),
        ShiftOperation::Rl => shift_result(turned_left(x, flags.carry), high),
        ShiftOperation::Rr => shift_result(turned_right(x, flags.carry), low),
        ShiftOperation::Sla => shift_result(turned_left(x, false), high),
        ShiftOperation::Sra => shift_result(turned_right(x, high), low),
        ShiftOperation::Swap => shift_result((x % 16) * 16 + x / 16, false),
        ShiftOperation::Srl => shift_result(turned_right(x, false), low),
    }
}

/// The byte and the flags after `change` on `x`. Setting or resetting a bit
/// touches no flag.
pub open spec fn changed(change: Change, x: u8, flags: Flags) -> AluResult {
    match change {
        Change::Step { up } => stepped8(x, up, flags),
        Change::Shift { operation } => shifted(operation, x, flags),
        Change::Assign { bit, value } => AluResult { value: assigned(x, bit, value) as u8, flags },
    }
}

/// The flags after a test of bit `bit` of `x`: zero exactly when the bit is
/// 0; the carry is not touched.
pub open spec fn tested(x: u8, bit: u8, flags: Flags) -> Flags {
    Flags { zero: !bit_is_set(x, bit), subtraction: false, half_carry: true, carry: flags.carry }
}

proof fn lemma_low_nibble(x: u8)
    ensures
        x & 0x0F == x % 16,
{
    assert(x & 0x0F == x % 16) by (bit_vector);
}

/// Adds `y` and the incoming carry to `x`.
pub fn add8(x: u8, y: u8, carry_in: bool) -> (r: AluResult)
    ensures
        r == sum8(x, y, carry_in),
{
    proof {
        lemma_low_nibble(x);
        lemma_low_nibble(y);
    }
    let carry: u16 = if carry_in {
        1
    } else {
        0
    };
    let half_carry = ((x & 0x0F) as u16) + ((y & 0x0F) as u16) + carry > 0x0F;
    let total: u16 = x as u16 + y as u16 + carry;
    let value: u8 = if total > 0xFF {
        (total - 0x100) as u8
    } else {
        total as u8
    };
    AluResult {
        value,
        flags: Flags { zero: value == 0, subtraction: false, half_carry, carry: total > 0xFF },
    }
}

/// Subtracts `y` and the incoming borrow from `x`.
pub fn sub8(x: u8, y: u8, borrow_in: bool) -> (r: AluResult)
    ensures
        r == difference8(x, y, borrow_in),
{
    proof {
        lemma_low_nibble(x);
        lemma_low_nibble(y);
    }
    let borrow: u16 = if borrow_in {
        1
    } else {
        0
    };
    let half_carry = ((x & 0x0F) as u16) < ((y & 0x0F) as u16) + borrow;
    let taken: u16 = y as u16 + borrow;
    let carry = (x as u16) < taken;
    let value: u8 = if carry {
        (x as u16 + 0x100 - taken) as u8
    } else {
        (x as u16 - taken) as u8
    };
    AluResult { value, flags: Flags { zero: value == 0, subtraction: true, half_carry, carry } }
}

fn logical(value: u8, half_carry: bool) -> (r: AluResult)
    ensures
        r == logical8(value, half_carry),
{
    AluResult {
        value,
        flags: Flags { zero: value == 0, subtraction: false, half_carry, carry: false },
    }
}

/// Applies `operation` to accumulator `a` and `operand`.
pub fn compute(operation: AluOperation, a: u8, operand: u8, flags: Flags) -> (r: AluResult)
    ensures
        r == computed(operation, a, operand, flags),
{
    match operation {
        AluOperation::Add => add8(a, operand, false),
        AluOperation::Adc => add8(a, operand, flags.carry),
        AluOperation::Sub => sub8(a, operand, false),
        AluOperation::Sbc => sub8(a, operand, flags.carry),
        AluOperation::And => logical(a & operand, true),
        AluOperation::Xor => logical(a ^ operand, false),
        AluOperation::Or => logical(a | operand, false),
        AluOperation::Cp => AluResult { value: a, flags: sub8(a, operand, false).flags },
    }
}

/// Increments (`up`) or decrements `x`, wrapping at the ends.
pub fn step8(x: u8, up: bool, flags: Flags) -> (r: AluResult)
    ensures
        r == stepped8(x, up, flags),
{
    proof {
        lemma_low_nibble(x);
    }
    let value: u8 = if up {
        if x == 0xFF {
            0
        } else {
            x + 1
        }
    } else {
        if x == 0 {
            0xFF
        } else {
            x - 1
        }
    };
    let half_carry = if up {
        (x & 0x0F) == 0x0F
    } else {
        (x & 0x0F) == 0
    };
    AluResult {
        value,
        flags: Flags { zero: value == 0, subtraction: !up, half_carry, carry: flags.carry },
    }
}

/// Adds two words.
pub fn add16(x: u16, y: u16, flags: Flags) -> (r: WideResult)
    ensures
        r == sum16(x, y, flags),
{
    assert(x & 0x0FFF == x % 0x1000 && y & 0x0FFF == y % 0x1000) by (bit_vector);
    let half_carry = ((x & 0x0FFF) as u32) + ((y & 0x0FFF) as u32) > 0x0FFF;
    let total: u32 = x as u32 + y as u32;
    let value: u16 = if total > 0xFFFF {
        (total - 0x1_0000) as u16
    } else {
        total as u16
    };
    WideResult {
        value,
        flags: Flags { zero: flags.zero, subtraction: false, half_carry, carry: total > 0xFFFF },
    }
}

/// Adjusts the accumulator to two decimal digits.
pub fn decimal_adjust(a: u8, flags: Flags) -> (r: AluResult)
    ensures
        r == decimal_adjusted(a, flags),
{
    proof {
        lemma_low_nibble(a);
    }
    let mut correction: u8 = 0;
    let mut carry = flags.carry;
    if flags.carry || (!flags.subtraction && a > 0x99) {
        correction = correction + 0x60;
        carry = true;
    }
    if flags.half_carry || (!flags.subtraction && (a & 0x0F) > 9) {
        correction = correction + 0x06;
    }
    let value: u8 = if flags.subtraction {
        if a >= correction {
            a - correction
        } else {
            ((a as u16 + 0x100) - correction as u16) as u8
        }
    } else {
        let total: u16 = a as u16 + correction as u16;
        if total > 0xFF {
            (total - 0x100) as u8
        } else {
            total as u8
        }
    };
    AluResult {
        value,
        flags: Flags {
            zero: value == 0,
            subtraction: flags.subtraction,
            half_carry: false,
            carry,
        },
    }
}

/// Moves `address` by a signed offset.
pub fn displace(address: u16, offset: u8) -> (r: u16)
    ensures
        r == displaced(address, offset),
{
    let total: u32 = if offset < 128 {
        address as u32 + offset as u32
    } else {
        address as u32 + 0x1_0000 + offset as u32 - 256
    };
    if total > 0xFFFF {
        (total - 0x1_0000) as u16
    } else {
        total as u16
    }
}

/// Moves `address` by a signed offset and computes the flags of the move.
pub fn add_offset(address: u16, offset: u8) -> (r: WideResult)
    ensures
        r == offset16(address, offset),
{
    assert(address & 0x000F == address % 16 && address & 0x00FF == address % 256
        && offset & 0x0F == offset % 16) by (bit_vector);
    let half_carry = (address & 0x000F) + ((offset & 0x0F) as u16) > 0x0F;
    let carry = (address & 0x00FF) + (offset as u16) > 0xFF;
    WideResult {
        value: displace(address, offset),
        flags: Flags { zero: false, subtraction: false, half_carry, carry },
    }
}

/// Applies a single-byte accumulator operation.
pub fn accumulate(operation: AccumulatorOperation, a: u8, flags: Flags) -> (r: AluResult)
    ensures
        r == accumulated(operation, a, flags),
{
    assert(((a << 1u8) | (a >> 7u8)) == (a % 128) * 2 + a / 128 && ((a >> 1u8) | (a << 7u8)) == a
        / 2 + (a % 2) * 128 && (a << 1u8) == (a % 128) * 2 && (a >> 1u8) == a / 2 && ((a << 1u8)
        | 1) == (a % 128) * 2 + 1 && ((a >> 1u8) | 0x80) == a / 2 + 128 && !a == 255 - a
        && ((a & 0x80) != 0) == (a >= 128) && ((a & 1) != 0) == (a % 2 == 1)) by (bit_vector);
    let high = (a & 0x80) != 0;
    let low = (a & 1) != 0;
    match operation {
        AccumulatorOperation::Rlca => AluResult {
            value: (a << 1u8) | (a >> 7u8),
            flags: Flags { zero: false, subtraction: false, half_carry: false, carry: high },
        },
        AccumulatorOperation::Rrca => AluResult {
            value: (a >> 1u8) | (a << 7u8),
            flags: Flags { zero: false, subtraction: false, half_carry: false, carry: low },
        },
        AccumulatorOperation::Rla => AluResult {
            value: if flags.carry {
                (a << 1u8) | 1
            } else {
                a << 1u8
            },
            flags: Flags { zero: false, subtraction: false, half_carry: false, carry: high },
        },
        AccumulatorOperation::Rra => AluResult {
            value: if flags.carry {
                (a >> 1u8) | 0x80
            } else {
                a >> 1u8
            },
            flags: Flags { zero: false, subtraction: false, half_carry: false, carry: low },
        },
        AccumulatorOperation::Daa => decimal_adjust(a, flags),
        AccumulatorOperation::Cpl => AluResult {
            value: !a,
            flags: Flags {
                zero: flags.zero,
                subtraction: true,
                half_carry: true,
                carry: flags.carry,
            },
        },
        AccumulatorOperation::Scf => AluResult {
            value: a,
            flags: Flags { zero: flags.zero, subtraction: false, half_carry: false, carry: true },
        },
        AccumulatorOperation::Ccf => AluResult {
            value: a,
            flags: Flags {
                zero: flags.zero,
                subtraction: false,
                half_carry: false,
                carry: !flags.carry,
            },
        },
    }
}

fn shifting(value: u8, carry: bool) -> (r: AluResult)
    ensures
        r == shift_result(value as int, carry),
{
    AluResult {
        value,
        flags: Flags { zero: value == 0, subtraction: false, half_carry: false, carry },
    }
}

/// Rotates or shifts `x` by one bit.
pub fn shift(operation: ShiftOperation, x: u8, flags: Flags) -> (r: AluResult)
    ensures
        r == shifted(operation, x, flags),
{
    assert(((x << 1u8) | (x >> 7u8)) == (x % 128) * 2 + x / 128 && ((x >> 1u8) | (x << 7u8)) == x
        / 2 + (x % 2) * 128 && (x << 1u8) == (x % 128) * 2 && (x >> 1u8) == x / 2 && ((x << 1u8)
        | 1) == (x % 128) * 2 + 1 && ((x >> 1u8) | 0x80) == x / 2 + 128 && ((x >> 1u8) | (x
        & 0x80)) == x / 2 + (x / 128) * 128 && ((x << 4u8) | (x >> 4u8)) == (x % 16) * 16 + x
        / 16 && ((x & 0x80) != 0) == (x >= 128) && ((x & 1) != 0) == (x % 2 == 1))
        by (bit_vector);
    let high = (x & 0x80) != 0;
    let low = (x & 1) != 0;
    match operation {
        ShiftOperation::Rlc => shifting((x << 1u8) | (x >> 7u8), high),
        ShiftOperation::Rrc => shifting((x >> 1u8) | (x << 7u8), low),
        ShiftOperation::Rl => shifting(
            if flags.carry {
                (x << 1u8) | 1
            } else {
                x << 1u8
            },
            high,
        ),
        ShiftOperation::Rr => shifting(
            if flags.carry {
                (x >> 1u8) | 0x80
            } else {
                x >> 1u8
            },
            low,
        ),
        ShiftOperation::Sla => shifting(x << 1u8, high),
        ShiftOperation::Sra => shifting((x >> 1u8) | (x & 0x80), low),
        ShiftOperation::Swap => shifting((x << 4u8) | (x >> 4u8), false),
        ShiftOperation::Srl => shifting(x >> 1u8, low),
    }
}

/// The byte with a single 1 at bit `bit`; zero for an index that names no
/// bit.
fn mask_of(bit: u8) -> (mask: u8)
    ensures
        mask as int == bit_weight(bit),
{
    if bit < 8 {
        assert((1u8 << bit) == (if bit == 0 {
            1u8
        } else if bit == 1 {
            2u8
        } else if bit == 2 {
            4u8
        } else if bit == 3 {
            8u8
        } else if bit == 4 {
            16u8
        } else if bit == 5 {
            32u8
        } else if bit == 6 {
            64u8
        } else {
            128u8
        })) by (bit_vector)
            requires
                bit < 8,
        ;
        1u8 << bit
    } else {
        0
    }
}

proof fn lemma_single_bit(x: u8, mask: u8)
    requires
        mask == 1 || mask == 2 || mask == 4 || mask == 8 || mask == 16 || mask == 32 || mask == 64
            || mask == 128,
    ensures
        ((x & mask) != 0) == ((x / mask) % 2 == 1),
        (x & mask) != 0 ==> (x | mask) == x && (x & !mask) == x - mask,
        (x & mask) == 0 ==> (x | mask) == x + mask && (x & !mask) == x,
{
    assert(((x & mask) != 0) == ((x / mask) % 2 == 1) && ((x & mask) != 0 ==> (x | mask) == x && (x
        & !mask) == x - mask) && ((x & mask) == 0 ==> (x | mask) == x + mask && (x & !mask) == x))
        by (bit_vector)
        requires
            mask == 1 || mask == 2 || mask == 4 || mask == 8 || mask == 16 || mask == 32 || mask
                == 64 || mask == 128,
    ;
}

/// Whether bit `bit` of `x` is 1.
pub fn bit_of(x: u8, bit: u8) -> (r: bool)
    ensures
        r == bit_is_set(x, bit),
{
    let mask = mask_of(bit);
    if mask == 0 {
        false
    } else {
        proof {
            lemma_single_bit(x, mask);
        }
        (x & mask) != 0
    }
}

/// Sets (`value`) or resets bit `bit` of `x`.
pub fn assign_bit(x: u8, bit: u8, value: bool) -> (r: u8)
    ensures
        r as int == assigned(x, bit, value),
{
    let mask = mask_of(bit);
    if mask == 0 {
        x
    } else {
        proof {
            lemma_single_bit(x, mask);
        }
        if value {
            x | mask
        } else {
            x & !mask
        }
    }
}

/// Applies `change` to `x`.
pub fn apply(change: Change, x: u8, flags: Flags) -> (r: AluResult)
    ensures
        r == changed(change, x, flags),
{
    match change {
        Change::Step { up } => step8(x, up, flags),
        Change::Shift { operation } => shift(operation, x, flags),
        Change::Assign { bit, value } => AluResult { value: assign_bit(x, bit, value), flags },
    }
}

/// Tests bit `bit` of `x`.
pub fn test_bit(x: u8, bit: u8, flags: Flags) -> (r: Flags)
    ensures
        r == tested(x, bit, flags),
{
    Flags { zero: !bit_of(x, bit), subtraction: false, half_carry: true, carry: flags.carry }
}

/// A bit reads back as it was assigned, and assigning it leaves every
/// other bit as it was.
pub proof fn lemma_assigned_bit(x: u8, bit: u8, value: bool)
    requires
        bit < 8,
    ensures
        0 <= assigned(x, bit, value) < 256,
        bit_is_set(assigned(x, bit, value) as u8, bit) == value,
        forall|other: u8|
            other < 8 && other != bit ==> bit_is_set(assigned(x, bit, value) as u8, other)
                == bit_is_set(x, other),
{
    let mask = bit_weight(bit) as u8;
    assert forall|other: u8| other < 8 && other != bit implies bit_is_set(
        assigned(x, bit, value) as u8,
        other,
    ) == bit_is_set(x, other) by {
        let probe = bit_weight(other) as u8;
        lemma_bits_are_independent(x, mask, probe);
    }
    lemma_bits_are_independent(x, mask, mask);
}

proof fn lemma_bits_are_independent(x: u8, mask: u8, probe: u8)
    requires
        mask == 1 || mask == 2 || mask == 4 || mask == 8 || mask == 16 || mask == 32 || mask == 64
            || mask == 128,
        probe == 1 || probe == 2 || probe == 4 || probe == 8 || probe == 16 || probe == 32 || probe
            == 64 || probe == 128,
    ensures
        (x / mask) % 2 == 1 ==> x >= mask && (((x - mask) as u8 / probe) % 2 == 1) == (probe != mask
            && (x / probe) % 2 == 1),
        (x / mask) % 2 != 1 ==> x + mask < 256 && (((x + mask) as u8 / probe) % 2 == 1) == (probe
            == mask || (x / probe) % 2 == 1),
{
    assert(((x / mask) % 2 == 1 ==> x >= mask && (((x - mask) as u8 / probe) % 2 == 1) == (probe
        != mask && (x / probe) % 2 == 1)) && ((x / mask) % 2 != 1 ==> x + mask < 256 && (((x
        + mask) as u8 / probe) % 2 == 1) == (probe == mask || (x / probe) % 2 == 1)))
        by (bit_vector)
        requires
            mask == 1 || mask == 2 || mask == 4 || mask == 8 || mask == 16 || mask == 32 || mask
                == 64 || mask == 128,
            probe == 1 || probe == 2 || probe == 4 || probe == 8 || probe == 16 || probe == 32
                || probe == 64 || probe == 128,
    ;
}

/// An addition sets the carry exactly when the true sum does not fit in a
/// byte, and the half-carry exactly when the sum of the low nibbles does not
/// fit in a nibble. Neither depends on anything but the two operands.
pub proof fn lemma_add_flags(x: u8, y: u8, flags: Flags)
    ensures
        computed(AluOperation::Add, x, y, flags).flags.carry <==> x + y > 0xFF,
        computed(AluOperation::Add, x, y, flags).flags.half_carry <==> (x & 0xF) + (y & 0xF) > 0xF,
        !computed(AluOperation::Add, x, y, flags).flags.subtraction,
        computed(AluOperation::Add, x, y, flags).flags.zero <==> (x + y) % 256 == 0,
        computed(AluOperation::Add, x, y, flags).value == (x + y) % 256,
{
    lemma_low_nibble(x);
    lemma_low_nibble(y);
}

/// A subtraction sets the carry exactly when it borrows, and the half-carry
/// exactly when the low nibbles alone would borrow. Compare sets the same
/// flags and keeps the accumulator.
pub proof fn lemma_sub_flags(x: u8, y: u8, flags: Flags)
    ensures
        computed(AluOperation::Sub, x, y, flags).flags.carry <==> x < y,
        computed(AluOperation::Sub, x, y, flags).flags.half_carry <==> (x & 0xF) < (y & 0xF),
        computed(AluOperation::Sub, x, y, flags).flags.subtraction,
        computed(AluOperation::Sub, x, y, flags).flags.zero <==> x == y,
        computed(AluOperation::Sub, x, y, flags).value == (x - y) % 256,
        computed(AluOperation::Cp, x, y, flags).flags == computed(
            AluOperation::Sub,
            x,
            y,
            flags,
        ).flags,
        computed(AluOperation::Cp, x, y, flags).value == x,
{
    lemma_low_nibble(x);
    lemma_low_nibble(y);
}

/// A logical operation clears the carry and the subtraction flag; AND sets
/// the half-carry, OR and XOR clear it.
pub proof fn lemma_logical_flags(x: u8, y: u8, flags: Flags)
    ensures
        computed(AluOperation::And, x, y, flags).flags == (Flags {
            zero: x & y == 0,
            subtraction: false,
            half_carry: true,
            carry: false,
        }),
        computed(AluOperation::Or, x, y, flags).flags == (Flags {
            zero: x | y == 0,
            subtraction: false,
            half_carry: false,
            carry: false,
        }),
        computed(AluOperation::Xor, x, y, flags).flags == (Flags {
            zero: x ^ y == 0,
            subtraction: false,
            half_carry: false,
            carry: false,
        }),
{
}

} // verus!
