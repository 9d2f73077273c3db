use gb_cpu::CpuFlags;

#[test]
fn named_bits_have_their_positions() {
    assert_eq!(CpuFlags::ZERO, 0b1000_0000);
    assert_eq!(CpuFlags::SUBSTRACTION, 0b0100_0000);
    assert_eq!(CpuFlags::HALF_CARRY, 0b0010_0000);
    assert_eq!(CpuFlags::CARRY, 0b0001_0000);
    assert_eq!(CpuFlags::ALL, 0xFF);
}

#[test]
fn empty_holds_nothing() {
    let f = CpuFlags::empty();
    assert_eq!(f.bits(), 0);
    assert!(!f.contains(CpuFlags::ZERO));
    assert!(!f.contains(CpuFlags::SUBSTRACTION));
    assert!(!f.contains(CpuFlags::HALF_CARRY));
    assert!(!f.contains(CpuFlags::CARRY));
    assert!(f.contains(0));
}

#[test]
fn from_bits_truncate_keeps_every_bit() {
    for b in 0..=u8::MAX {
        assert_eq!(CpuFlags::from_bits_truncate(b).bits(), b);
    }
}

#[test]
fn contains_asks_for_every_bit_of_the_mask() {
    let f = CpuFlags::from_bits_truncate(0x90);
    assert!(f.contains(CpuFlags::ZERO));
    assert!(f.contains(CpuFlags::CARRY));
    assert!(f.contains(CpuFlags::ZERO | CpuFlags::CARRY));
    assert!(!f.contains(CpuFlags::ZERO | CpuFlags::HALF_CARRY));
    assert!(!f.contains(CpuFlags::SUBSTRACTION));
}

#[test]
fn set_switches_bits_on_and_off() {
    let mut f = CpuFlags::from_bits_truncate(0x0F);
    f.set(CpuFlags::ZERO, true);
    assert_eq!(f.bits(), 0x8F);
    f.set(CpuFlags::CARRY, true);
    assert_eq!(f.bits(), 0x9F);
    f.set(CpuFlags::ZERO, false);
    assert_eq!(f.bits(), 0x1F);
    f.set(CpuFlags::HALF_CARRY, false);
    assert_eq!(f.bits(), 0x1F);
    f.set(CpuFlags::CARRY, true);
    assert_eq!(f.bits(), 0x1F);
}

#[test]
fn from_conditions_builds_each_combination() {
    assert_eq!(CpuFlags::from_conditions(false, false, false, false).bits(), 0x00);
    assert_eq!(CpuFlags::from_conditions(true, false, false, false).bits(), 0x80);
    assert_eq!(CpuFlags::from_conditions(false, true, false, false).bits(), 0x40);
    assert_eq!(CpuFlags::from_conditions(false, false, true, false).bits(), 0x20);
    assert_eq!(CpuFlags::from_conditions(false, false, false, true).bits(), 0x10);
    assert_eq!(CpuFlags::from_conditions(true, true, true, true).bits(), 0xF0);
    assert_eq!(CpuFlags::from_conditions(true, false, false, true).bits(), 0x90);
    let f = CpuFlags::from_conditions(false, true, true, false);
    assert!(!f.contains(CpuFlags::ZERO));
    assert!(f.contains(CpuFlags::SUBSTRACTION));
    assert!(f.contains(CpuFlags::HALF_CARRY));
    assert!(!f.contains(CpuFlags::CARRY));
}
