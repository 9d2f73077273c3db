//! The register file and its 16-bit pair views.

use vstd::prelude::*;
use crate::flags::CpuFlags;

verus! {

/// The 16-bit value whose high byte is `high` and whose low byte is `low`.
pub open spec fn word(high: u8, low: u8) -> u16 {
    (high * 256 + low) as u16
}

/// The high byte of a 16-bit value.
pub open spec fn high_byte(value: u16) -> u8 {
    (value / 256) as u8
}

/// The low byte of a 16-bit value.
pub open spec fn low_byte(value: u16) -> u8 {
    (value % 256) as u8
}

/// Joins two bytes into a 16-bit value, high byte first.
pub fn join(high: u8, low: u8) -> (value: u16)
    ensures
        value == word(high, low),
        high_byte(value) == high,
        low_byte(value) == low,
{
    assert((((high as u16) << 8) | (low as u16)) == (high as u16) * 256 + (low as u16))
        by (bit_vector);
    ((high as u16) << 8) | (low as u16)
}

/// Splits a 16-bit value into its high and its low byte.
pub fn split(value: u16) -> (bytes: (u8, u8))
    ensures
        bytes.0 == high_byte(value),
        bytes.1 == low_byte(value),
        word(bytes.0, bytes.1) == value,
{
    assert(((value & 0xFF00) >> 8) == value / 256) by (bit_vector);
    assert((value & 0x00FF) == value % 256) by (bit_vector);
    (((value & 0xFF00) >> 8) as u8, (value & 0x00FF) as u8)
}

/// The register file: seven 8-bit general registers, the flag register, the
/// stack pointer and the program counter. Every combination of values is a
/// valid register file.
#[derive(Clone, Copy, Debug, PartialEq, Eq, Structural)]
pub struct Registers {
    pub a: u8,
    pub b: u8,
    pub c: u8,
    pub d: u8,
    pub e: u8,
    pub f: CpuFlags,
    pub h: u8,
    pub l: u8,
    pub sp: u16,
    pub pc: u16,
}

impl Registers {
    /// The pair BC: B is the high byte, C the low byte.
    pub open spec fn spec_bc(&self) -> u16 {
        word(self.b, self.c)
    }

    /// The pair DE: D is the high byte, E the low byte.
    pub open spec fn spec_de(&self) -> u16 {
        word(self.d, self.e)
    }

    /// The pair HL: H is the high byte, L the low byte.
    pub open spec fn spec_hl(&self) -> u16 {
        word(self.h, self.l)
    }

    /// The pair AF: A is the high byte, the flag byte the low byte.
    pub open spec fn spec_af(&self) -> u16 {
        word(self.a, self.f.bits)
    }

    /// `self` with `value` stored in BC and nothing else changed.
    pub open spec fn with_bc(self, value: u16) -> Registers {
        Registers { b: high_byte(value), c: low_byte(value), ..self }
    }

    /// `self` with `value` stored in DE and nothing else changed.
    pub open spec fn with_de(self, value: u16) -> Registers {
        Registers { d: high_byte(value), e: low_byte(value), ..self }
    }

    /// `self` with `value` stored in HL and nothing else changed.
    pub open spec fn with_hl(self, value: u16) -> Registers {
        Registers { h: high_byte(value), l: low_byte(value), ..self }
    }

    /// `self` with `value` stored in AF and nothing else changed. The low
    /// byte becomes the flag byte as it is, reserved nibble included.
    pub open spec fn with_af(self, value: u16) -> Registers {
        Registers { a: high_byte(value), f: CpuFlags { bits: low_byte(value) }, ..self }
    }

    #[verifier::when_used_as_spec(spec_bc)]
    pub fn bc(&self) -> (value: u16)
        ensures
            value == self.spec_bc(),
    {
        join(self.b, self.c)
    }

    pub fn set_bc(&mut self, value: u16)
        ensures
            *final(self) == old(self).with_bc(value),
            final(self).bc() == value,
    {
        let (high, low) = split(value);
        self.b = high;
        self.c = low;
    }

    #[verifier::when_used_as_spec(spec_de)]
    pub fn de(&self) -> (value: u16)
        ensures
            value == self.spec_de(),
    {
        join(self.d, self.e)
    }

    pub fn set_de(&mut self, value: u16)
        ensures
            *final(self) == old(self).with_de(value),
            final(self).de() == value,
    {
        let (high, low) = split(value);
        self.d = high;
        self.e = low;
    }

    #[verifier::when_used_as_spec(spec_hl)]
    pub fn hl(&self) -> (value: u16)
        ensures
            value == self.spec_hl(),
    {
        join(self.h, self.l)
    }

    pub fn set_hl(&mut self, value: u16)
        ensures
            *final(self) == old(self).with_hl(value),
            final(self).hl() == value,
    {
        let (high, low) = split(value);
        self.h = high;
        self.l = low;
    }

    #[verifier::when_used_as_spec(spec_af)]
    pub fn af(&self) -> (value: u16)
        ensures
            value == self.spec_af(),
    {
        join(self.a, self.f.bits())
    }

    pub fn set_af(&mut self, value: u16)
        ensures
            *final(self) == old(self).with_af(value),
            final(self).af() == value,
    {
        let (high, low) = split(value);
        self.a = high;
        self.f = CpuFlags::from_bits_truncate(low);
    }
}

impl Default for Registers {
    /// The register file at power-on: every register zero, no flag set.
    fn default() -> (registers: Registers)
        ensures
            registers == (Registers {
                a: 0,
                b: 0,
                c: 0,
                d: 0,
                e: 0,
                f: CpuFlags { bits: 0 },
                h: 0,
                l: 0,
                sp: 0,
                pc: 0,
            }),
    {
        Registers {
            a: 0,
            b: 0,
            c: 0,
            d: 0,
            e: 0,
            f: CpuFlags::empty(),
            h: 0,
            l: 0,
            sp: 0,
            pc: 0,
        }
    }
}

} // verus!
