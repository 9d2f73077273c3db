//! The arithmetic and logic unit: pure functions from operands to a result
//! and the flag byte that goes with it.

use vstd::prelude::*;
use crate::flags::CpuFlags;

verus! {

/// One when `flag` is set, zero otherwise: what a carry or borrow that is
/// taken along counts for.
pub open spec fn unit(flag: bool) -> int {
    if flag {
        1
    } else {
        0
    }
}

/// The 8-bit sum of `a`, `operand` and the carry taken along, wrapped modulo
/// 256.
pub open spec fn add8_value(a: u8, operand: u8, carry: bool) -> u8 {
    ((a + operand + unit(carry)) % 256) as u8
}

/// The sum of `a`, `operand` and the carry taken along does not fit in a
/// byte.
pub open spec fn add8_carry(a: u8, operand: u8, carry: bool) -> bool {
    a + operand + unit(carry) > 0xFF
}

/// The accumulator, or the operand with the carry taken along, fits in the
/// low nibble, and the wrapped sum does not.
pub open spec fn add8_half_carry(a: u8, operand: u8, carry: bool) -> bool {
    (a <= 0xF || operand + unit(carry) <= 0xF) && add8_value(a, operand, carry) > 0xF
}

/// The flag byte of an 8-bit addition: ZERO for a zero wrapped sum,
/// SUBTRACTION clear, HALF_CARRY and CARRY as above, reserved nibble clear.
pub open spec fn add8_flags(a: u8, operand: u8, carry: bool) -> CpuFlags {
    CpuFlags::from_conditions(
        add8_value(a, operand, carry) == 0,
        false,
        add8_half_carry(a, operand, carry),
        add8_carry(a, operand, carry),
    )
}

/// The result of an addition with carry: the wrapped sum of `a`, `operand`
/// and the carry that came in, plus one when that sum carried out of bit 7,
/// wrapped again.
pub open spec fn adc8_value(a: u8, operand: u8, carry: bool) -> u8 {
    ((add8_value(a, operand, carry) + unit(add8_carry(a, operand, carry))) % 256) as u8
}

/// The 8-bit difference of `a`, `operand` and the borrow taken along,
/// wrapped modulo 256.
pub open spec fn sub8_value(a: u8, operand: u8, borrow: bool) -> u8 {
    ((a - operand - unit(borrow)) % 256) as u8
}

/// The subtraction borrows into bit 7: `operand` and the borrow taken along
/// exceed `a`.
pub open spec fn sub8_borrow(a: u8, operand: u8, borrow: bool) -> bool {
    a < operand + unit(borrow)
}

/// The subtraction borrows into the low nibble: the low nibble of `operand`
/// and the borrow taken along exceed the low nibble of `a`.
pub open spec fn sub8_half_carry(a: u8, operand: u8, borrow: bool) -> bool {
    a % 16 < operand % 16 + unit(borrow)
}

/// The flag byte of an 8-bit subtraction: ZERO for a zero difference,
/// SUBTRACTION set, HALF_CARRY and CARRY as above, reserved nibble clear.
pub open spec fn sub8_flags(a: u8, operand: u8, borrow: bool) -> CpuFlags {
    CpuFlags::from_conditions(
        sub8_value(a, operand, borrow) == 0,
        true,
        sub8_half_carry(a, operand, borrow),
        sub8_borrow(a, operand, borrow),
    )
}

/// The successor of an 8-bit value, wrapped modulo 256.
pub open spec fn inc8_value(value: u8) -> u8 {
    ((value + 1) % 256) as u8
}

/// The successor of a 16-bit value, wrapped modulo 65536.
pub open spec fn inc16_value(value: u16) -> u16 {
    ((value + 1) % 65536) as u16
}

/// The flag byte after an increment from `before` to `after`: ZERO says
/// whether `after` is zero, HALF_CARRY whether `before` was 0b1111, and every
/// other bit of `flags` stays.
pub open spec fn inc_flags(flags: CpuFlags, before: int, after: int) -> CpuFlags {
    flags.with(CpuFlags::ZERO, after == 0).with(CpuFlags::HALF_CARRY, before == 0xF)
}

/// The flag byte of a bitwise operation with result `value`: ZERO for a zero
/// result, HALF_CARRY as given, SUBTRACTION and CARRY clear.
pub open spec fn logic_flags(value: u8, half_carry: bool) -> CpuFlags {
    CpuFlags::from_conditions(value == 0, false, half_carry, false)
}

/// The 16-bit sum of `hl` and `operand`, wrapped modulo 65536.
pub open spec fn add16_value(hl: u16, operand: u16) -> u16 {
    ((hl + operand) % 65536) as u16
}

/// The 16-bit sum does not fit in 16 bits.
pub open spec fn add16_carry(hl: u16, operand: u16) -> bool {
    hl + operand > 0xFFFF
}

/// The sum of the low 12 bits of both terms carries into bit 12.
pub open spec fn add16_half_carry(hl: u16, operand: u16) -> bool {
    hl % 0x1000 + operand % 0x1000 > 0x0FFF
}

/// The flag byte of a 16-bit addition: ZERO as it was before, SUBTRACTION
/// clear, HALF_CARRY and CARRY as above, reserved nibble clear.
pub open spec fn add16_flags(hl: u16, operand: u16, zero: bool) -> CpuFlags {
    CpuFlags::from_conditions(
        zero,
        false,
        add16_half_carry(hl, operand),
        add16_carry(hl, operand),
    )
}

/// Adds `operand` to `a`, and one more when `carry` is set.
pub fn add8(a: u8, operand: u8, carry: bool) -> (out: (u8, CpuFlags))
    ensures
        out.0 == add8_value(a, operand, carry),
        out.1 == add8_flags(a, operand, carry),
        out.1.contains(CpuFlags::ZERO) == (out.0 == 0),
        !out.1.contains(CpuFlags::SUBSTRACTION),
        out.1.contains(CpuFlags::HALF_CARRY) == add8_half_carry(a, operand, carry),
        out.1.contains(CpuFlags::CARRY) == add8_carry(a, operand, carry),
{
    let added: u16 = if carry {
        operand as u16 + 1
    } else {
        operand as u16
    };
    let wide: u16 = a as u16 + added;
    let value: u8 = if wide > 0xFF {
        (wide - 256) as u8
    } else {
        wide as u8
    };
    let half_carry = (a <= 0xF || added <= 0xF) && value > 0xF;
    (value, CpuFlags::from_conditions(value == 0, false, half_carry, wide > 0xFF))
}

/// Adds `operand` to `a` with carry. The carry that came in is added with
/// the operand; the carry out of that sum is then added to the wrapped sum.
/// The flags are those of the sum before its own carry went back in.
pub fn adc8(a: u8, operand: u8, carry: bool) -> (out: (u8, CpuFlags))
    ensures
        out.0 == adc8_value(a, operand, carry),
        out.1 == add8_flags(a, operand, carry),
        out.1.contains(CpuFlags::ZERO) == (add8_value(a, operand, carry) == 0),
        !out.1.contains(CpuFlags::SUBSTRACTION),
        out.1.contains(CpuFlags::HALF_CARRY) == add8_half_carry(a, operand, carry),
        out.1.contains(CpuFlags::CARRY) == add8_carry(a, operand, carry),
{
    let (sum, flags) = add8(a, operand, carry);
    let value = if flags.contains(CpuFlags::CARRY) {
        sum.wrapping_add(1)
    } else {
        sum
    };
    (value, flags)
}

/// Subtracts `operand` from `a`, and one more when `borrow` is set.
pub fn sub8(a: u8, operand: u8, borrow: bool) -> (out: (u8, CpuFlags))
    ensures
        out.0 == sub8_value(a, operand, borrow),
        out.1 == sub8_flags(a, operand, borrow),
        out.1.contains(CpuFlags::ZERO) == (out.0 == 0),
        out.1.contains(CpuFlags::SUBSTRACTION),
        out.1.contains(CpuFlags::HALF_CARRY) == sub8_half_carry(a, operand, borrow),
        out.1.contains(CpuFlags::CARRY) == sub8_borrow(a, operand, borrow),
{
    let one: u8 = if borrow {
        1
    } else {
        0
    };
    let taken: u16 = operand as u16 + one as u16;
    let wide: u16 = if (a as u16) < taken {
        a as u16 + 256 - taken
    } else {
        a as u16 - taken
    };
    let value: u8 = wide as u8;
    assert((a & 0x0F) == a % 16 && (operand & 0x0F) == operand % 16) by (bit_vector);
    let half_carry = (a & 0x0F) < (operand & 0x0F) + one;
    (value, CpuFlags::from_conditions(value == 0, true, half_carry, (a as u16) < taken))
}

/// Increments an 8-bit value. Only ZERO and HALF_CARRY of `flags` change.
pub fn inc8(value: u8, flags: CpuFlags) -> (out: (u8, CpuFlags))
    ensures
        out.0 == inc8_value(value),
        out.1 == inc_flags(flags, value as int, out.0 as int),
        out.1.contains(CpuFlags::ZERO) == (out.0 == 0),
        out.1.contains(CpuFlags::HALF_CARRY) == (value == 0xF),
        out.1.contains(CpuFlags::SUBSTRACTION) == flags.contains(CpuFlags::SUBSTRACTION),
        out.1.contains(CpuFlags::CARRY) == flags.contains(CpuFlags::CARRY),
{
    let after = value.wrapping_add(1);
    let mut updated = flags;
    updated.set(CpuFlags::ZERO, after == 0);
    updated.set(CpuFlags::HALF_CARRY, value == 0xF);
    proof {
        lemma_inc_flags(flags, value as int, after as int);
    }
    (after, updated)
}

/// Increments a 16-bit value. Only ZERO and HALF_CARRY of `flags` change.
pub fn inc16(value: u16, flags: CpuFlags) -> (out: (u16, CpuFlags))
    ensures
        out.0 == inc16_value(value),
        out.1 == inc_flags(flags, value as int, out.0 as int),
        out.1.contains(CpuFlags::ZERO) == (out.0 == 0),
        out.1.contains(CpuFlags::HALF_CARRY) == (value == 0xF),
        out.1.contains(CpuFlags::SUBSTRACTION) == flags.contains(CpuFlags::SUBSTRACTION),
        out.1.contains(CpuFlags::CARRY) == flags.contains(CpuFlags::CARRY),
{
    let after = value.wrapping_add(1);
    let mut updated = flags;
    updated.set(CpuFlags::ZERO, after == 0);
    updated.set(CpuFlags::HALF_CARRY, value == 0xF);
    proof {
        lemma_inc_flags(flags, value as int, after as int);
    }
    (after, updated)
}

/// Bitwise AND of `a` and `operand`. HALF_CARRY is always set.
pub fn and8(a: u8, operand: u8) -> (out: (u8, CpuFlags))
    ensures
        out.0 == a & operand,
        out.1 == logic_flags(out.0, true),
        out.1.contains(CpuFlags::ZERO) == (out.0 == 0),
        !out.1.contains(CpuFlags::SUBSTRACTION),
        out.1.contains(CpuFlags::HALF_CARRY),
        !out.1.contains(CpuFlags::CARRY),
{
    let value = a & operand;
    (value, CpuFlags::from_conditions(value == 0, false, true, false))
}

/// Bitwise OR of `a` and `operand`.
pub fn or8(a: u8, operand: u8) -> (out: (u8, CpuFlags))
    ensures
        out.0 == a | operand,
        out.1 == logic_flags(out.0, false),
        out.1.contains(CpuFlags::ZERO) == (out.0 == 0),
        !out.1.contains(CpuFlags::SUBSTRACTION),
        !out.1.contains(CpuFlags::HALF_CARRY),
        !out.1.contains(CpuFlags::CARRY),
{
    let value = a | operand;
    (value, CpuFlags::from_conditions(value == 0, false, false, false))
}

/// Bitwise exclusive OR of `a` and `operand`.
pub fn xor8(a: u8, operand: u8) -> (out: (u8, CpuFlags))
    ensures
        out.0 == a ^ operand,
        out.1 == logic_flags(out.0, false),
        out.1.contains(CpuFlags::ZERO) == (out.0 == 0),
        !out.1.contains(CpuFlags::SUBSTRACTION),
        !out.1.contains(CpuFlags::HALF_CARRY),
        !out.1.contains(CpuFlags::CARRY),
{
    let value = a ^ operand;
    (value, CpuFlags::from_conditions(value == 0, false, false, false))
}

/// Adds `operand` to `hl`. ZERO is handed through as `zero`.
pub fn add16(hl: u16, operand: u16, zero: bool) -> (out: (u16, CpuFlags))
    ensures
        out.0 == add16_value(hl, operand),
        out.1 == add16_flags(hl, operand, zero),
        out.1.contains(CpuFlags::ZERO) == zero,
        !out.1.contains(CpuFlags::SUBSTRACTION),
        out.1.contains(CpuFlags::HALF_CARRY) == add16_half_carry(hl, operand),
        out.1.contains(CpuFlags::CARRY) == add16_carry(hl, operand),
{
    let value = hl.wrapping_add(operand);
    let carry = value < hl;
    assert((hl & 0x0FFF) == hl % 0x1000 && (operand & 0x0FFF) == operand % 0x1000)
        by (bit_vector);
    let half_carry = (hl & 0x0FFF) + (operand & 0x0FFF) > 0x0FFF;
    (value, CpuFlags::from_conditions(zero, false, half_carry, carry))
}

/// After an increment ZERO and HALF_CARRY are as computed, and SUBTRACTION
/// and CARRY are as they were.
pub proof fn lemma_inc_flags(flags: CpuFlags, before: int, after: int)
    ensures
        inc_flags(flags, before, after).contains(CpuFlags::ZERO) == (after == 0),
        inc_flags(flags, before, after).contains(CpuFlags::HALF_CARRY) == (before == 0xF),
        inc_flags(flags, before, after).contains(CpuFlags::SUBSTRACTION) == flags.contains(
            CpuFlags::SUBSTRACTION,
        ),
        inc_flags(flags, before, after).contains(CpuFlags::CARRY) == flags.contains(
            CpuFlags::CARRY,
        ),
{
    let first = flags.with(CpuFlags::ZERO, after == 0);
    assert(0x20u8 & 0x80u8 == 0 && 0x40u8 & 0x80u8 == 0 && 0x10u8 & 0x80u8 == 0 && 0x80u8 & 0x20u8
        == 0 && 0x40u8 & 0x20u8 == 0 && 0x10u8 & 0x20u8 == 0) by (bit_vector);
    flags.lemma_with(CpuFlags::ZERO, after == 0, CpuFlags::SUBSTRACTION);
    flags.lemma_with(CpuFlags::ZERO, after == 0, CpuFlags::CARRY);
    first.lemma_with(CpuFlags::HALF_CARRY, before == 0xF, CpuFlags::ZERO);
    first.lemma_with(CpuFlags::HALF_CARRY, before == 0xF, CpuFlags::SUBSTRACTION);
    first.lemma_with(CpuFlags::HALF_CARRY, before == 0xF, CpuFlags::CARRY);
}

} // verus!
