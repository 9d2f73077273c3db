//! Decoded instructions and their operands: pure data, one operand type per
//! instruction family, and what each operand denotes in a given state.

use vstd::prelude::*;
use crate::registers::{low_byte, Registers};

verus! {

/// One decoded instruction.
#[derive(Debug, Clone, Copy, PartialEq, Eq, Structural)]
pub enum Instruction {
    /// Load an immediate byte into a register or, zero-extended, a pair.
    LDN(LdnTarget, u8),
    /// Copy the second operand into the first.
    LDRR(LdrrTarget, LdrrTarget),
    /// Load the operand into the accumulator.
    LDA(LdaTarget),
    /// Store the accumulator into the operand.
    LDFA(LdfaTarget),
    /// Push a register pair onto the stack.
    PUSH(StackTarget),
    /// Pop a register pair off the stack.
    POP(StackTarget),
    /// Add the operand to the accumulator.
    ADD(AddTarget),
    /// Add the operand and the carry flag to the accumulator.
    ADC(AddTarget),
    /// Subtract the operand from the accumulator.
    SUB(SubTarget),
    /// Subtract the operand and the carry flag from the accumulator.
    SBC(SubTarget),
    /// Compare the operand with the accumulator.
    CP(CpTarget),
    /// Increment a register or the pair HL.
    INC(IncTarget),
    /// Bitwise AND of the operand into the accumulator.
    AND(LogicTarget),
    /// Bitwise OR of the operand into the accumulator.
    OR(LogicTarget),
    /// Bitwise exclusive OR of the operand into the accumulator.
    XOR(LogicTarget),
    /// Add a 16-bit register to HL.
    ADD16(Add16Target),
}

/// The 16-bit operand of `ADD16`.
#[derive(Debug, Clone, Copy, PartialEq, Eq, Structural)]
pub enum Add16Target {
    BC,
    DE,
    SP,
    HL,
}

/// The source of `LDA`: a register, the byte that BC, DE or HL addresses, the
/// byte at an absolute address, or an immediate byte.
#[derive(Debug, Clone, Copy, PartialEq, Eq, Structural)]
pub enum LdaTarget {
    A,
    B,
    C,
    D,
    E,
    H,
    L,
    BC,
    DE,
    HL,
    Addr(u16),
    Value(u8),
}

/// The destination of `LDFA`: a register, the byte that BC, DE or HL
/// addresses, or the byte at an absolute address.
#[derive(Debug, Clone, Copy, PartialEq, Eq, Structural)]
pub enum LdfaTarget {
    A,
    B,
    C,
    D,
    E,
    H,
    L,
    BC,
    DE,
    HL,
    Addr(u16),
}

/// The operand of `ADD` and `ADC`: a register, the byte that HL addresses, or
/// an immediate byte.
#[derive(Debug, Clone, Copy, PartialEq, Eq, Structural)]
pub enum AddTarget {
    A,
    B,
    C,
    D,
    E,
    H,
    L,
    HL,
    Value(u8),
}

/// The operand of `INC`: a register, or the pair HL itself.
#[derive(Debug, Clone, Copy, PartialEq, Eq, Structural)]
pub enum IncTarget {
    A,
    B,
    C,
    D,
    E,
    H,
    L,
    HL,
}

/// The operand of `CP`: a register, the byte that HL addresses, or an
/// immediate byte.
#[derive(Debug, Clone, Copy, PartialEq, Eq, Structural)]
pub enum CpTarget {
    A,
    B,
    C,
    D,
    E,
    H,
    L,
    HL,
    Value(u8),
}

/// The operand of `SUB` and `SBC`: a register, the byte that HL addresses, or
/// an immediate byte.
#[derive(Debug, Clone, Copy, PartialEq, Eq, Structural)]
pub enum SubTarget {
    A,
    B,
    C,
    D,
    E,
    H,
    L,
    HL,
    Value(u8),
}

/// The register pair of `PUSH` and `POP`.
#[derive(Debug, Clone, Copy, PartialEq, Eq, Structural)]
pub enum StackTarget {
    AF,
    BC,
    DE,
    HL,
}

/// The destination of `LDN`: a register, or a register pair.
#[derive(Debug, Clone, Copy, PartialEq, Eq, Structural)]
pub enum LdnTarget {
    A,
    B,
    C,
    D,
    E,
    H,
    L,
    BC,
    DE,
    HL,
}

/// An operand of `LDRR`: a register, or the byte that HL addresses.
#[derive(Debug, Clone, Copy, PartialEq, Eq, Structural)]
pub enum LdrrTarget {
    A,
    B,
    C,
    D,
    E,
    H,
    L,
    HL,
}

/// An operand of `AND`, `OR` and `XOR`: a register, the byte that HL
/// addresses, or an immediate byte.
#[derive(Debug, Clone, Copy, PartialEq, Eq, Structural)]
pub enum LogicTarget {
    A,
    B,
    C,
    D,
    E,
    H,
    L,
    HL,
    Value(u8),
}

/// An operand that may name a memory byte lies within a memory of `len`
/// bytes: it names none, or its address is below `len`.
pub open spec fn within(address: Option<u16>, len: nat) -> bool {
    address matches Some(at) ==> at < len
}

impl AddTarget {
    /// The address of the memory byte that the operand names, if it names one.
    pub open spec fn address(self, registers: Registers) -> Option<u16> {
        match self {
            AddTarget::HL => Some(registers.hl()),
            _ => None,
        }
    }

    /// The byte that the operand denotes.
    pub open spec fn value(self, registers: Registers, memory: Seq<u8>) -> u8 {
        match self {
            AddTarget::A => registers.a,
            AddTarget::B => registers.b,
            AddTarget::C => registers.c,
            AddTarget::D => registers.d,
            AddTarget::E => registers.e,
            AddTarget::H => registers.h,
            AddTarget::L => registers.l,
            AddTarget::HL => memory[registers.hl() as int],
            AddTarget::Value(value) => value,
        }
    }

    /// Reads the operand.
    pub fn fetch(self, registers: &Registers, memory: &[u8]) -> (value: u8)
        requires
            within(self.address(*registers), memory@.len()),
        ensures
            value == self.value(*registers, memory@),
    {
        match self {
            AddTarget::A => registers.a,
            AddTarget::B => registers.b,
            AddTarget::C => registers.c,
            AddTarget::D => registers.d,
            AddTarget::E => registers.e,
            AddTarget::H => registers.h,
            AddTarget::L => registers.l,
            AddTarget::HL => memory[registers.hl() as usize],
            AddTarget::Value(value) => value,
        }
    }
}

impl SubTarget {
    /// The address of the memory byte that the operand names, if it names one.
    pub open spec fn address(self, registers: Registers) -> Option<u16> {
        match self {
            SubTarget::HL => Some(registers.hl()),
            _ => None,
        }
    }

    /// The byte that the operand denotes.
    pub open spec fn value(self, registers: Registers, memory: Seq<u8>) -> u8 {
        match self {
            SubTarget::A => registers.a,
            SubTarget::B => registers.b,
            SubTarget::C => registers.c,
            SubTarget::D => registers.d,
            SubTarget::E => registers.e,
            SubTarget::H => registers.h,
            SubTarget::L => registers.l,
            SubTarget::HL => memory[registers.hl() as int],
            SubTarget::Value(value) => value,
        }
    }

    /// Reads the operand.
    pub fn fetch(self, registers: &Registers, memory: &[u8]) -> (value: u8)
        requires
            within(self.address(*registers), memory@.len()),
        ensures
            value == self.value(*registers, memory@),
    {
        match self {
            SubTarget::A => registers.a,
            SubTarget::B => registers.b,
            SubTarget::C => registers.c,
            SubTarget::D => registers.d,
            SubTarget::E => registers.e,
            SubTarget::H => registers.h,
            SubTarget::L => registers.l,
            SubTarget::HL => memory[registers.hl() as usize],
            SubTarget::Value(value) => value,
        }
    }
}

impl CpTarget {
    /// The operand of `SUB` that denotes the same byte.
    pub open spec fn as_sub(self) -> SubTarget {
        match self {
            CpTarget::A => SubTarget::A,
            CpTarget::B => SubTarget::B,
            CpTarget::C => SubTarget::C,
            CpTarget::D => SubTarget::D,
            CpTarget::E => SubTarget::E,
            CpTarget::H => SubTarget::H,
            CpTarget::L => SubTarget::L,
            CpTarget::HL => SubTarget::HL,
            CpTarget::Value(value) => SubTarget::Value(value),
        }
    }

    /// The address of the memory byte that the operand names, if it names one.
    pub open spec fn address(self, registers: Registers) -> Option<u16> {
        match self {
            CpTarget::HL => Some(registers.hl()),
            _ => None,
        }
    }

    /// The byte that the operand denotes.
    pub open spec fn value(self, registers: Registers, memory: Seq<u8>) -> u8 {
        match self {
            CpTarget::A => registers.a,
            CpTarget::B => registers.b,
            CpTarget::C => registers.c,
            CpTarget::D => registers.d,
            CpTarget::E => registers.e,
            CpTarget::H => registers.h,
            CpTarget::L => registers.l,
            CpTarget::HL => memory[registers.hl() as int],
            CpTarget::Value(value) => value,
        }
    }

    /// Reads the operand.
    pub fn fetch(self, registers: &Registers, memory: &[u8]) -> (value: u8)
        requires
            within(self.address(*registers), memory@.len()),
        ensures
            value == self.value(*registers, memory@),
    {
        match self {
            CpTarget::A => registers.a,
            CpTarget::B => registers.b,
            CpTarget::C => registers.c,
            CpTarget::D => registers.d,
            CpTarget::E => registers.e,
            CpTarget::H => registers.h,
            CpTarget::L => registers.l,
            CpTarget::HL => memory[registers.hl() as usize],
            CpTarget::Value(value) => value,
        }
    }
}

impl LogicTarget {
    /// The address of the memory byte that the operand names, if it names one.
    pub open spec fn address(self, registers: Registers) -> Option<u16> {
        match self {
            LogicTarget::HL => Some(registers.hl()),
            _ => None,
        }
    }

    /// The byte that the operand denotes.
    pub open spec fn value(self, registers: Registers, memory: Seq<u8>) -> u8 {
        match self {
            LogicTarget::A => registers.a,
            LogicTarget::B => registers.b,
            LogicTarget::C => registers.c,
            LogicTarget::D => registers.d,
            LogicTarget::E => registers.e,
            LogicTarget::H => registers.h,
            LogicTarget::L => registers.l,
            LogicTarget::HL => memory[registers.hl() as int],
            LogicTarget::Value(value) => value,
        }
    }

    /// Reads the operand.
    pub fn fetch(self, registers: &Registers, memory: &[u8]) -> (value: u8)
        requires
            within(self.address(*registers), memory@.len()),
        ensures
            value == self.value(*registers, memory@),
    {
        match self {
            LogicTarget::A => registers.a,
            LogicTarget::B => registers.b,
            LogicTarget::C => registers.c,
            LogicTarget::D => registers.d,
            LogicTarget::E => registers.e,
            LogicTarget::H => registers.h,
            LogicTarget::L => registers.l,
            LogicTarget::HL => memory[registers.hl() as usize],
            LogicTarget::Value(value) => value,
        }
    }
}

impl LdaTarget {
    /// The address of the memory byte that the source names, if it names one.
    pub open spec fn address(self, registers: Registers) -> Option<u16> {
        match self {
            LdaTarget::BC => Some(registers.bc()),
            LdaTarget::DE => Some(registers.de()),
            LdaTarget::HL => Some(registers.hl()),
            LdaTarget::Addr(at) => Some(at),
            _ => None,
        }
    }

    /// The byte that the source denotes.
    pub open spec fn value(self, registers: Registers, memory: Seq<u8>) -> u8 {
        match self {
            LdaTarget::A => registers.a,
            LdaTarget::B => registers.b,
            LdaTarget::C => registers.c,
            LdaTarget::D => registers.d,
            LdaTarget::E => registers.e,
            LdaTarget::H => registers.h,
            LdaTarget::L => registers.l,
            LdaTarget::BC => memory[registers.bc() as int],
            LdaTarget::DE => memory[registers.de() as int],
            LdaTarget::HL => memory[registers.hl() as int],
            LdaTarget::Addr(at) => memory[at as int],
            LdaTarget::Value(value) => value,
        }
    }

    /// Reads the source.
    pub fn fetch(self, registers: &Registers, memory: &[u8]) -> (value: u8)
        requires
            within(self.address(*registers), memory@.len()),
        ensures
            value == self.value(*registers, memory@),
    {
        match self {
            LdaTarget::A => registers.a,
            LdaTarget::B => registers.b,
            LdaTarget::C => registers.c,
            LdaTarget::D => registers.d,
            LdaTarget::E => registers.e,
            LdaTarget::H => registers.h,
            LdaTarget::L => registers.l,
            LdaTarget::BC => memory[registers.bc() as usize],
            LdaTarget::DE => memory[registers.de() as usize],
            LdaTarget::HL => memory[registers.hl() as usize],
            LdaTarget::Addr(at) => memory[at as usize],
            LdaTarget::Value(value) => value,
        }
    }
}

impl LdfaTarget {
    /// The address of the memory byte that the destination names, if it
    /// names one.
    pub open spec fn address(self, registers: Registers) -> Option<u16> {
        match self {
            LdfaTarget::BC => Some(registers.bc()),
            LdfaTarget::DE => Some(registers.de()),
            LdfaTarget::HL => Some(registers.hl()),
            LdfaTarget::Addr(at) => Some(at),
            _ => None,
        }
    }
}

impl LdrrTarget {
    /// The address of the memory byte that the operand names, if it names one.
    pub open spec fn address(self, registers: Registers) -> Option<u16> {
        match self {
            LdrrTarget::HL => Some(registers.hl()),
            _ => None,
        }
    }

    /// The byte that the operand denotes.
    pub open spec fn value(self, registers: Registers, memory: Seq<u8>) -> u8 {
        match self {
            LdrrTarget::A => registers.a,
            LdrrTarget::B => registers.b,
            LdrrTarget::C => registers.c,
            LdrrTarget::D => registers.d,
            LdrrTarget::E => registers.e,
            LdrrTarget::H => registers.h,
            LdrrTarget::L => registers.l,
            LdrrTarget::HL => memory[registers.hl() as int],
        }
    }

    /// Reads the operand.
    pub fn fetch(self, registers: &Registers, memory: &[u8]) -> (value: u8)
        requires
            within(self.address(*registers), memory@.len()),
        ensures
            value == self.value(*registers, memory@),
    {
        match self {
            LdrrTarget::A => registers.a,
            LdrrTarget::B => registers.b,
            LdrrTarget::C => registers.c,
            LdrrTarget::D => registers.d,
            LdrrTarget::E => registers.e,
            LdrrTarget::H => registers.h,
            LdrrTarget::L => registers.l,
            LdrrTarget::HL => memory[registers.hl() as usize],
        }
    }
}

impl IncTarget {
    /// The value that the target holds: a register's byte, or the pair HL.
    pub open spec fn value(self, registers: Registers) -> u16 {
        match self {
            IncTarget::A => registers.a as u16,
            IncTarget::B => registers.b as u16,
            IncTarget::C => registers.c as u16,
            IncTarget::D => registers.d as u16,
            IncTarget::E => registers.e as u16,
            IncTarget::H => registers.h as u16,
            IncTarget::L => registers.l as u16,
            IncTarget::HL => registers.hl(),
        }
    }

    /// `registers` with `value` stored in the target and nothing else
    /// changed. A register takes the low byte of `value`.
    pub open spec fn store(self, registers: Registers, value: u16) -> Registers {
        match self {
            IncTarget::A => Registers { a: low_byte(value), ..registers },
            IncTarget::B => Registers { b: low_byte(value), ..registers },
            IncTarget::C => Registers { c: low_byte(value), ..registers },
            IncTarget::D => Registers { d: low_byte(value), ..registers },
            IncTarget::E => Registers { e: low_byte(value), ..registers },
            IncTarget::H => Registers { h: low_byte(value), ..registers },
            IncTarget::L => Registers { l: low_byte(value), ..registers },
            IncTarget::HL => registers.with_hl(value),
        }
    }
}

impl StackTarget {
    /// The 16-bit value of the pair.
    pub open spec fn value(self, registers: Registers) -> u16 {
        match self {
            StackTarget::AF => registers.af(),
            StackTarget::BC => registers.bc(),
            StackTarget::DE => registers.de(),
            StackTarget::HL => registers.hl(),
        }
    }

    /// `registers` with `value` stored in the pair and nothing else changed.
    pub open spec fn store(self, registers: Registers, value: u16) -> Registers {
        match self {
            StackTarget::AF => registers.with_af(value),
            StackTarget::BC => registers.with_bc(value),
            StackTarget::DE => registers.with_de(value),
            StackTarget::HL => registers.with_hl(value),
        }
    }
}

impl Add16Target {
    /// The 16-bit value of the operand.
    pub open spec fn value(self, registers: Registers) -> u16 {
        match self {
            Add16Target::BC => registers.bc(),
            Add16Target::DE => registers.de(),
            Add16Target::HL => registers.hl(),
            Add16Target::SP => registers.sp,
        }
    }
}

} // verus!
