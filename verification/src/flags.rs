//! The condition-flag register F.

use vstd::prelude::*;

verus! {

/// The flag register: one byte. Bits 7 to 4 are the four condition flags,
/// bits 3 to 0 are reserved. No bit is validated: every byte is a flag value.
#[derive(Clone, Copy, Debug, PartialEq, Eq, Structural)]
pub struct CpuFlags {
    pub bits: u8,
}

impl CpuFlags {
    /// Bit 7: the last flag-setting operation produced zero.
    pub const ZERO: u8 = 0x80;

    /// Bit 6: the last flag-setting operation was a subtraction.
    pub const SUBSTRACTION: u8 = 0x40;

    /// Bit 5: carry out of, or borrow into, the low nibble.
    pub const HALF_CARRY: u8 = 0x20;

    /// Bit 4: carry out of, or borrow into, the whole value.
    pub const CARRY: u8 = 0x10;

    /// Every bit that a flag value can hold.
    pub const ALL: u8 = 0xFF;

    /// The byte `mask` when `on`, zero otherwise.
    pub open spec fn weight(mask: u8, on: bool) -> u8 {
        if on {
            mask
        } else {
            0
        }
    }

    /// Every bit of `mask` is set in `self`.
    pub open spec fn spec_contains(&self, mask: u8) -> bool {
        self.bits & mask == mask
    }

    /// ZERO is set: the byte's binary digit of weight 0x80 is one.
    pub open spec fn zero(&self) -> bool {
        self.bits >= 0x80
    }

    /// SUBTRACTION is set: the byte's binary digit of weight 0x40 is one.
    pub open spec fn subtraction(&self) -> bool {
        self.bits % 0x80 >= 0x40
    }

    /// HALF_CARRY is set: the byte's binary digit of weight 0x20 is one.
    pub open spec fn half_carry(&self) -> bool {
        self.bits % 0x40 >= 0x20
    }

    /// CARRY is set: the byte's binary digit of weight 0x10 is one.
    pub open spec fn carry(&self) -> bool {
        self.bits % 0x20 >= 0x10
    }

    /// `self` with the bits of `mask` set when `on`, cleared otherwise.
    pub open spec fn with(self, mask: u8, on: bool) -> CpuFlags {
        CpuFlags { bits: if on { self.bits | mask } else { self.bits & !mask } }
    }

    /// The flag value that holds exactly the given conditions, with the
    /// reserved nibble clear.
    pub open spec fn spec_from_conditions(
        zero: bool,
        subtraction: bool,
        half_carry: bool,
        carry: bool,
    ) -> CpuFlags {
        CpuFlags {
            bits: (Self::weight(Self::ZERO, zero) + Self::weight(Self::SUBSTRACTION, subtraction)
                + Self::weight(Self::HALF_CARRY, half_carry) + Self::weight(
                Self::CARRY,
                carry,
            )) as u8,
        }
    }

    /// The four condition flags can be read off a flag byte by arithmetic:
    /// to contain a flag's mask is to have its binary digit set.
    pub proof fn lemma_condition_bits(self)
        ensures
            self.spec_contains(Self::ZERO) <==> self.zero(),
            self.spec_contains(Self::SUBSTRACTION) <==> self.subtraction(),
            self.spec_contains(Self::HALF_CARRY) <==> self.half_carry(),
            self.spec_contains(Self::CARRY) <==> self.carry(),
    {
        let b = self.bits;
        assert((b & 0x80 == 0x80 <==> b >= 0x80) && (b & 0x40 == 0x40 <==> b % 0x80 >= 0x40) && (b
            & 0x20 == 0x20 <==> b % 0x40 >= 0x20) && (b & 0x10 == 0x10 <==> b % 0x20 >= 0x10))
            by (bit_vector);
    }

    /// A flag value built from four conditions holds each of them exactly
    /// when it was given, and nothing in the reserved nibble.
    pub proof fn lemma_from_conditions(zero: bool, subtraction: bool, half_carry: bool, carry: bool)
        ensures
            Self::spec_from_conditions(zero, subtraction, half_carry, carry).spec_contains(
                Self::ZERO,
            ) == zero,
            Self::spec_from_conditions(zero, subtraction, half_carry, carry).spec_contains(
                Self::SUBSTRACTION,
            ) == subtraction,
            Self::spec_from_conditions(zero, subtraction, half_carry, carry).spec_contains(
                Self::HALF_CARRY,
            ) == half_carry,
            Self::spec_from_conditions(zero, subtraction, half_carry, carry).spec_contains(
                Self::CARRY,
            ) == carry,
            Self::spec_from_conditions(zero, subtraction, half_carry, carry).bits % 0x10 == 0,
    {
        Self::spec_from_conditions(zero, subtraction, half_carry, carry).lemma_condition_bits();
    }

    /// Writing the bits of a non-empty `mask` makes `mask` contained exactly
    /// when it was switched on, and leaves every disjoint mask as it was.
    pub proof fn lemma_with(self, mask: u8, on: bool, other: u8)
        requires
            mask != 0,
        ensures
            self.with(mask, on).spec_contains(mask) == on,
            other & mask == 0 ==> self.with(mask, on).spec_contains(other) == self.spec_contains(
                other,
            ),
    {
        let b = self.bits;
        assert(mask != 0 ==> (b | mask) & mask == mask && (b & !mask) & mask != mask)
            by (bit_vector);
        assert(other & mask == 0 ==> (b | mask) & other == b & other && (b & !mask) & other == b
            & other) by (bit_vector);
    }

    /// The flag value with no bit set.
    pub fn empty() -> (flags: CpuFlags)
        ensures
            flags.bits == 0,
    {
        CpuFlags { bits: 0 }
    }

    /// The underlying byte.
    pub fn bits(&self) -> (bits: u8)
        ensures
            bits == self.bits,
    {
        self.bits
    }

    /// The flag value of a byte. Bits outside `ALL` would be dropped; there
    /// are none, so the byte is kept whole.
    pub fn from_bits_truncate(bits: u8) -> (flags: CpuFlags)
        ensures
            flags.bits == bits,
    {
        assert(bits & 0xFF == bits) by (bit_vector);
        CpuFlags { bits: bits & Self::ALL }
    }

    /// Whether every bit of `mask` is set.
    #[verifier::when_used_as_spec(spec_contains)]
    pub fn contains(&self, mask: u8) -> (held: bool)
        ensures
            held == self.spec_contains(mask),
            mask == Self::ZERO ==> held == self.zero(),
            mask == Self::SUBSTRACTION ==> held == self.subtraction(),
            mask == Self::HALF_CARRY ==> held == self.half_carry(),
            mask == Self::CARRY ==> held == self.carry(),
    {
        proof {
            self.lemma_condition_bits();
        }
        self.bits & mask == mask
    }

    /// Sets the bits of `mask` when `on`, clears them otherwise.
    pub fn set(&mut self, mask: u8, on: bool)
        ensures
            *final(self) == old(self).with(mask, on),
    {
        if on {
            self.bits = self.bits | mask;
        } else {
            self.bits = self.bits & !mask;
        }
    }

    /// Builds a flag value from the four conditions.
    #[verifier::when_used_as_spec(spec_from_conditions)]
    pub fn from_conditions(zero: bool, subtraction: bool, half_carry: bool, carry: bool) -> (flags:
        CpuFlags)
        ensures
            flags == Self::spec_from_conditions(zero, subtraction, half_carry, carry),
            flags.contains(Self::ZERO) == zero,
            flags.contains(Self::SUBSTRACTION) == subtraction,
            flags.contains(Self::HALF_CARRY) == half_carry,
            flags.contains(Self::CARRY) == carry,
    {
        let z: u8 = if zero { Self::ZERO } else { 0 };
        let n: u8 = if subtraction { Self::SUBSTRACTION } else { 0 };
        let h: u8 = if half_carry { Self::HALF_CARRY } else { 0 };
        let c: u8 = if carry { Self::CARRY } else { 0 };
        proof {
            assert(z | n | h | c == z + n + h + c) by (bit_vector)
                requires
                    z == 0 || z == 0x80,
                    n == 0 || n == 0x40,
                    h == 0 || h == 0x20,
                    c == 0 || c == 0x10,
            ;
            Self::lemma_from_conditions(zero, subtraction, half_carry, carry);
        }
        CpuFlags { bits: z | n | h | c }
    }
}

impl Default for CpuFlags {
    /// The empty flag value.
    fn default() -> (flags: CpuFlags)
        ensures
            flags.bits == 0,
    {
        CpuFlags { bits: 0 }
    }
}

} // verus!
