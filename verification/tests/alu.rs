use gb_cpu::alu::{adc8, add16, add8, and8, inc16, inc8, or8, sub8, xor8};
use gb_cpu::CpuFlags;

fn flags(bits: u8) -> CpuFlags {
    CpuFlags::from_bits_truncate(bits)
}

#[test]
fn add8_exact_values() {
    assert_eq!(add8(0, 5, false), (5, flags(0x00)));
    assert_eq!(add8(0, 0, false), (0, flags(0x80)));
    assert_eq!(add8(1, 255, false), (0, flags(0x90)));
    assert_eq!(add8(0, 16, false), (16, flags(0x20)));
    assert_eq!(add8(200, 100, false), (44, flags(0x10)));
    assert_eq!(add8(0x0F, 0x01, false), (0x10, flags(0x20)));
    assert_eq!(add8(0x10, 0x20, false), (0x30, flags(0x00)));
    assert_eq!(add8(0xF0, 0x1F, false), (0x0F, flags(0x10)));
    assert_eq!(add8(255, 255, false), (254, flags(0x10)));
}

#[test]
fn add8_takes_a_carry_along() {
    assert_eq!(add8(0, 5, true), (6, flags(0x00)));
    assert_eq!(add8(255, 0, true), (0, flags(0x90)));
    assert_eq!(add8(0x0F, 0x00, true), (0x10, flags(0x20)));
    assert_eq!(add8(0x10, 0x0F, true), (0x20, flags(0x00)));
    assert_eq!(add8(0x10, 0x0E, true), (0x1F, flags(0x20)));
    assert_eq!(add8(255, 255, true), (255, flags(0x10)));
}

#[test]
fn add8_half_carry_needs_a_small_summand_and_a_large_sum() {
    // Both summands above the low nibble: never a half carry.
    assert!(!add8(0x18, 0x18, false).1.contains(CpuFlags::HALF_CARRY));
    // One summand in the low nibble, sum above it.
    assert!(add8(0x08, 0x18, false).1.contains(CpuFlags::HALF_CARRY));
    // One summand in the low nibble, sum wrapped into it.
    assert!(!add8(0x0F, 0xF1, false).1.contains(CpuFlags::HALF_CARRY));
    // Sum stays within the low nibble.
    assert!(!add8(0x07, 0x08, false).1.contains(CpuFlags::HALF_CARRY));
}

#[test]
fn add8_on_every_input() {
    for a in 0..=u8::MAX {
        for v in 0..=u8::MAX {
            for carry in [false, true] {
                let sum = a as u16 + v as u16 + carry as u16;
                let (value, f) = add8(a, v, carry);
                assert_eq!(value, (sum % 256) as u8);
                assert_eq!(f.contains(CpuFlags::ZERO), sum % 256 == 0);
                assert!(!f.contains(CpuFlags::SUBSTRACTION));
                assert_eq!(
                    f.contains(CpuFlags::HALF_CARRY),
                    (a <= 0xF || v as u16 + carry as u16 <= 0xF) && sum % 256 > 0xF
                );
                assert_eq!(f.contains(CpuFlags::CARRY), sum > 255);
                assert_eq!(f.bits() & 0x0F, 0);
            }
        }
    }
}

#[test]
fn adc8_folds_the_carry_out_into_the_sum() {
    assert_eq!(adc8(0, 5, false), (5, flags(0x00)));
    assert_eq!(adc8(0, 0, false), (0, flags(0x80)));
    assert_eq!(adc8(1, 255, false), (1, flags(0x90)));
    assert_eq!(adc8(0, 16, false), (16, flags(0x20)));
    assert_eq!(adc8(200, 100, false), (45, flags(0x10)));
    assert_eq!(adc8(255, 255, false), (255, flags(0x10)));
}

#[test]
fn adc8_adds_the_carry_that_came_in() {
    assert_eq!(adc8(0, 5, true), (6, flags(0x00)));
    assert_eq!(adc8(0x0F, 0, true), (0x10, flags(0x20)));
    assert_eq!(adc8(200, 100, true), (46, flags(0x10)));
    // Carry in and carry out together.
    assert_eq!(adc8(0, 255, true), (1, flags(0x90)));
    // The sum wraps to 255 and its carry wraps the result to zero.
    assert_eq!(adc8(255, 255, true), (0, flags(0x10)));
}

#[test]
fn adc8_on_every_input() {
    for a in 0..=u8::MAX {
        for v in 0..=u8::MAX {
            for carry in [false, true] {
                let sum = a as u16 + v as u16 + carry as u16;
                let (value, f) = adc8(a, v, carry);
                assert_eq!(value, ((sum % 256 + sum / 256) % 256) as u8);
                assert_eq!(f, add8(a, v, carry).1);
            }
        }
    }
}

#[test]
fn sub8_exact_values() {
    assert_eq!(sub8(5, 1, false), (4, flags(0x40)));
    assert_eq!(sub8(0, 0, false), (0, flags(0xC0)));
    assert_eq!(sub8(0, 1, false), (255, flags(0x70)));
    assert_eq!(sub8(16, 1, false), (15, flags(0x60)));
    assert_eq!(sub8(5, 5, false), (0, flags(0xC0)));
    assert_eq!(sub8(5, 6, false), (255, flags(0x70)));
    assert_eq!(sub8(0x20, 0x20, false), (0, flags(0xC0)));
    assert_eq!(sub8(0x05, 0x16, false), (0xEF, flags(0x70)));
    assert_eq!(sub8(0x1F, 0x10, false), (0x0F, flags(0x40)));
    assert_eq!(sub8(0x10, 0x20, false), (0xF0, flags(0x50)));
}

#[test]
fn sub8_with_borrow_takes_one_more() {
    assert_eq!(sub8(5, 2, true), (2, flags(0x40)));
    assert_eq!(sub8(5, 4, true), (0, flags(0xC0)));
    assert_eq!(sub8(0, 0, true), (255, flags(0x70)));
    assert_eq!(sub8(16, 0, true), (15, flags(0x60)));
    // The low nibbles are equal: only the borrow that came in borrows.
    assert_eq!(sub8(0x25, 0x15, true), (0x0F, flags(0x60)));
    // The operand and the borrow together exceed a byte.
    assert_eq!(sub8(0, 255, true), (0, flags(0xF0)));
    assert_eq!(sub8(7, 255, true), (7, flags(0x70)));
    assert_eq!(sub8(255, 255, true), (255, flags(0x70)));
}

#[test]
fn sub8_on_every_input() {
    for a in 0..=u8::MAX {
        for v in 0..=u8::MAX {
            for borrow in [false, true] {
                let taken = v as i32 + borrow as i32;
                let (value, f) = sub8(a, v, borrow);
                assert_eq!(value as i32, (a as i32 - taken).rem_euclid(256));
                assert_eq!(f.contains(CpuFlags::ZERO), value == 0);
                assert!(f.contains(CpuFlags::SUBSTRACTION));
                assert_eq!(
                    f.contains(CpuFlags::HALF_CARRY),
                    ((a & 0x0F) as i32) < (v & 0x0F) as i32 + borrow as i32
                );
                assert_eq!(f.contains(CpuFlags::CARRY), (a as i32) < taken);
                assert_eq!(f.bits() & 0x0F, 0);
            }
        }
    }
}

#[test]
fn inc8_wraps_and_touches_two_flags_only() {
    assert_eq!(inc8(0, flags(0x00)), (1, flags(0x00)));
    assert_eq!(inc8(255, flags(0x00)), (0, flags(0x80)));
    assert_eq!(inc8(0x0F, flags(0x00)), (0x10, flags(0x20)));
    assert_eq!(inc8(0x1F, flags(0x00)), (0x20, flags(0x00)));
    assert_eq!(inc8(1, flags(0xFF)), (2, flags(0x5F)));
    assert_eq!(inc8(255, flags(0x5A)), (0, flags(0xDA)));
    assert_eq!(inc8(0x0F, flags(0x80)), (0x10, flags(0x20)));
}

#[test]
fn inc16_wraps_and_touches_two_flags_only() {
    assert_eq!(inc16(0, flags(0x00)), (1, flags(0x00)));
    assert_eq!(inc16(0xFFFF, flags(0x00)), (0, flags(0x80)));
    assert_eq!(inc16(0x000F, flags(0x00)), (0x0010, flags(0x20)));
    assert_eq!(inc16(0x0FFF, flags(0x00)), (0x1000, flags(0x00)));
    assert_eq!(inc16(0x00FF, flags(0xF3)), (0x0100, flags(0x53)));
}

#[test]
fn logic_exact_values() {
    assert_eq!(and8(0b1100, 0b1010), (0b1000, flags(0x20)));
    assert_eq!(and8(0xF0, 0x0F), (0, flags(0xA0)));
    assert_eq!(or8(0, 0), (0, flags(0x80)));
    assert_eq!(or8(0b01, 0b10), (0b11, flags(0x00)));
    assert_eq!(xor8(0xFF, 0xFF), (0, flags(0x80)));
    assert_eq!(xor8(0xF0, 0xFF), (0x0F, flags(0x00)));
}

#[test]
fn add16_exact_values() {
    assert_eq!(add16(0x0001, 0x0002, false), (0x0003, flags(0x00)));
    assert_eq!(add16(0x0FFF, 0x0001, false), (0x1000, flags(0x20)));
    assert_eq!(add16(0xFFFF, 0x0001, false), (0x0000, flags(0x30)));
    assert_eq!(add16(0x8000, 0x8000, false), (0x0000, flags(0x10)));
    assert_eq!(add16(0xF000, 0x1000, false), (0x0000, flags(0x10)));
    assert_eq!(add16(0x0800, 0x0800, false), (0x1000, flags(0x20)));
}

#[test]
fn add16_hands_zero_through() {
    assert_eq!(add16(0x0001, 0x0002, true), (0x0003, flags(0x80)));
    assert_eq!(add16(0xFFFF, 0x0001, true), (0x0000, flags(0xB0)));
    assert_eq!(add16(0xFFFF, 0x0001, false), (0x0000, flags(0x30)));
}
