//! The instruction engine: one state transition per decoded instruction.

use vstd::prelude::*;
use crate::alu;
use crate::flags::CpuFlags;
use crate::instruction::{
    within,
    Add16Target,
    AddTarget,
    CpTarget,
    IncTarget,
    Instruction,
    LdaTarget,
    LdfaTarget,
    LdnTarget,
    LdrrTarget,
    LogicTarget,
    StackTarget,
    SubTarget,
};
use crate::registers::{high_byte, join, low_byte, split, word, Registers};

verus! {

/// A 16-bit value wrapped modulo 65536.
pub open spec fn wrap16(value: int) -> u16 {
    (value % 65536) as u16
}

/// The processor: a register file. Memory is the caller's, handed in with
/// each instruction.
#[derive(Clone, Copy, Debug, PartialEq, Eq, Structural)]
pub struct Cpu {
    pub registers: Registers,
}

impl Cpu {
    /// `self` with the accumulator and the flag register replaced, and
    /// nothing else changed.
    pub open spec fn with_result(self, a: u8, f: CpuFlags) -> Cpu {
        Cpu { registers: Registers { a, f, ..self.registers } }
    }

    /// The processor after `ADD`.
    pub open spec fn after_add(self, target: AddTarget, memory: Seq<u8>) -> Cpu {
        let operand = target.value(self.registers, memory);
        self.with_result(
            alu::add8_value(self.registers.a, operand, false),
            alu::add8_flags(self.registers.a, operand, false),
        )
    }

    /// The processor after `ADC`: the operand and the CARRY that was set
    /// before are added to the accumulator, the flags are those of that sum,
    /// and the carry out of it goes back into the accumulator.
    pub open spec fn after_adc(self, target: AddTarget, memory: Seq<u8>) -> Cpu {
        let operand = target.value(self.registers, memory);
        let carry = self.registers.f.carry();
        self.with_result(
            alu::adc8_value(self.registers.a, operand, carry),
            alu::add8_flags(self.registers.a, operand, carry),
        )
    }

    /// The processor after `SUB`.
    pub open spec fn after_sub(self, target: SubTarget, memory: Seq<u8>) -> Cpu {
        let operand = target.value(self.registers, memory);
        self.with_result(
            alu::sub8_value(self.registers.a, operand, false),
            alu::sub8_flags(self.registers.a, operand, false),
        )
    }

    /// The processor after `SBC`: as after `SUB`, with one more taken from
    /// the accumulator when CARRY was set.
    pub open spec fn after_sbc(self, target: SubTarget, memory: Seq<u8>) -> Cpu {
        let operand = target.value(self.registers, memory);
        let borrow = self.registers.f.carry();
        self.with_result(
            alu::sub8_value(self.registers.a, operand, borrow),
            alu::sub8_flags(self.registers.a, operand, borrow),
        )
    }

    /// The processor after `CP`: the flags of the subtraction, and the
    /// accumulator as it was.
    pub open spec fn after_cp(self, target: CpTarget, memory: Seq<u8>) -> Cpu {
        let operand = target.value(self.registers, memory);
        self.with_result(self.registers.a, alu::sub8_flags(self.registers.a, operand, false))
    }

    /// The processor after `INC`. An 8-bit target wraps from 255 to zero, the
    /// pair HL from 65535 to zero. ZERO and HALF_CARRY follow the target;
    /// every other flag bit stays.
    pub open spec fn after_inc(self, target: IncTarget) -> Cpu {
        let r = self.registers;
        let before = target.value(r);
        let after = match target {
            IncTarget::HL => alu::inc16_value(before),
            _ => alu::inc8_value(before as u8) as u16,
        };
        Cpu {
            registers: Registers {
                f: alu::inc_flags(r.f, before as int, after as int),
                ..target.store(r, after)
            },
        }
    }

    /// The processor after `AND`.
    pub open spec fn after_and(self, target: LogicTarget, memory: Seq<u8>) -> Cpu {
        let value = self.registers.a & target.value(self.registers, memory);
        self.with_result(value, alu::logic_flags(value, true))
    }

    /// The processor after `OR`.
    pub open spec fn after_or(self, target: LogicTarget, memory: Seq<u8>) -> Cpu {
        let value = self.registers.a | target.value(self.registers, memory);
        self.with_result(value, alu::logic_flags(value, false))
    }

    /// The processor after `XOR`.
    pub open spec fn after_xor(self, target: LogicTarget, memory: Seq<u8>) -> Cpu {
        let value = self.registers.a ^ target.value(self.registers, memory);
        self.with_result(value, alu::logic_flags(value, false))
    }

    /// The processor after `ADD16`: the wrapped sum in HL, ZERO as it was,
    /// every other flag bit computed anew.
    pub open spec fn after_add_hl(self, target: Add16Target) -> Cpu {
        let r = self.registers;
        let operand = target.value(r);
        Cpu {
            registers: Registers {
                f: alu::add16_flags(r.hl(), operand, r.f.zero()),
                ..r.with_hl(alu::add16_value(r.hl(), operand))
            },
        }
    }

    /// The processor after `LDN`: the byte in the register, or zero-extended
    /// in the pair.
    pub open spec fn after_ldn(self, target: LdnTarget, value: u8) -> Cpu {
        let r = self.registers;
        Cpu {
            registers: match target {
                LdnTarget::A => Registers { a: value, ..r },
                LdnTarget::B => Registers { b: value, ..r },
                LdnTarget::C => Registers { c: value, ..r },
                LdnTarget::D => Registers { d: value, ..r },
                LdnTarget::E => Registers { e: value, ..r },
                LdnTarget::H => Registers { h: value, ..r },
                LdnTarget::L => Registers { l: value, ..r },
                LdnTarget::BC => r.with_bc(value as u16),
                LdnTarget::DE => r.with_de(value as u16),
                LdnTarget::HL => r.with_hl(value as u16),
            },
        }
    }

    /// The processor after `LDRR`.
    pub open spec fn after_ldrr(self, to: LdrrTarget, from: LdrrTarget, memory: Seq<u8>) -> Cpu {
        let r = self.registers;
        let value = from.value(r, memory);
        Cpu {
            registers: match to {
                LdrrTarget::A => Registers { a: value, ..r },
                LdrrTarget::B => Registers { b: value, ..r },
                LdrrTarget::C => Registers { c: value, ..r },
                LdrrTarget::D => Registers { d: value, ..r },
                LdrrTarget::E => Registers { e: value, ..r },
                LdrrTarget::H => Registers { h: value, ..r },
                LdrrTarget::L => Registers { l: value, ..r },
                LdrrTarget::HL => r,
            },
        }
    }

    /// Memory after `LDRR`: changed only where the destination is the byte
    /// that HL addresses.
    pub open spec fn memory_after_ldrr(
        self,
        to: LdrrTarget,
        from: LdrrTarget,
        memory: Seq<u8>,
    ) -> Seq<u8> {
        match to.address(self.registers) {
            Some(at) => memory.update(at as int, from.value(self.registers, memory)),
            None => memory,
        }
    }

    /// The processor after `LDA`.
    pub open spec fn after_lda(self, from: LdaTarget, memory: Seq<u8>) -> Cpu {
        Cpu { registers: Registers { a: from.value(self.registers, memory), ..self.registers } }
    }

    /// The processor after `LDFA`.
    pub open spec fn after_ldfa(self, to: LdfaTarget) -> Cpu {
        let r = self.registers;
        Cpu {
            registers: match to {
                LdfaTarget::B => Registers { b: r.a, ..r },
                LdfaTarget::C => Registers { c: r.a, ..r },
                LdfaTarget::D => Registers { d: r.a, ..r },
                LdfaTarget::E => Registers { e: r.a, ..r },
                LdfaTarget::H => Registers { h: r.a, ..r },
                LdfaTarget::L => Registers { l: r.a, ..r },
                _ => r,
            },
        }
    }

    /// Memory after `LDFA`: changed only where the destination is a memory
    /// byte.
    pub open spec fn memory_after_ldfa(self, to: LdfaTarget, memory: Seq<u8>) -> Seq<u8> {
        match to.address(self.registers) {
            Some(at) => memory.update(at as int, self.registers.a),
            None => memory,
        }
    }

    /// `PUSH` writes at SP and at the address below it, both within a memory
    /// of `len` bytes.
    pub open spec fn push_within(self, len: nat) -> bool {
        self.registers.sp < len && wrap16(self.registers.sp - 1) < len
    }

    /// The processor after `PUSH`: SP two below where it was.
    pub open spec fn after_push(self) -> Cpu {
        Cpu { registers: Registers { sp: wrap16(self.registers.sp - 2), ..self.registers } }
    }

    /// Memory after `PUSH`: the pair's high byte at SP, its low byte at the
    /// address below.
    pub open spec fn memory_after_push(self, target: StackTarget, memory: Seq<u8>) -> Seq<u8> {
        let value = target.value(self.registers);
        memory.update(self.registers.sp as int, high_byte(value)).update(
            wrap16(self.registers.sp - 1) as int,
            low_byte(value),
        )
    }

    /// `POP` reads at the two addresses above SP, both within a memory of
    /// `len` bytes.
    pub open spec fn pop_within(self, len: nat) -> bool {
        wrap16(self.registers.sp + 1) < len && wrap16(self.registers.sp + 2) < len
    }

    /// The processor after `POP`: the pair holds the low byte from the
    /// address above SP and the high byte from the one above that, and SP is
    /// two above where it was.
    pub open spec fn after_pop(self, target: StackTarget, memory: Seq<u8>) -> Cpu {
        let low = memory[wrap16(self.registers.sp + 1) as int];
        let high = memory[wrap16(self.registers.sp + 2) as int];
        Cpu {
            registers: Registers {
                sp: wrap16(self.registers.sp + 2),
                ..target.store(self.registers, word(high, low))
            },
        }
    }

    /// Every memory byte that `instruction` reads or writes lies within a
    /// memory of `len` bytes.
    pub open spec fn in_bounds(self, instruction: Instruction, len: nat) -> bool {
        let r = self.registers;
        match instruction {
            Instruction::LDN(_, _) => true,
            Instruction::LDRR(to, from) => within(to.address(r), len) && within(
                from.address(r),
                len,
            ),
            Instruction::LDA(from) => within(from.address(r), len),
            Instruction::LDFA(to) => within(to.address(r), len),
            Instruction::PUSH(_) => self.push_within(len),
            Instruction::POP(_) => self.pop_within(len),
            Instruction::ADD(target) => within(target.address(r), len),
            Instruction::ADC(target) => within(target.address(r), len),
            Instruction::SUB(target) => within(target.address(r), len),
            Instruction::SBC(target) => within(target.address(r), len),
            Instruction::CP(target) => within(target.address(r), len),
            Instruction::INC(_) => true,
            Instruction::AND(target) => within(target.address(r), len),
            Instruction::OR(target) => within(target.address(r), len),
            Instruction::XOR(target) => within(target.address(r), len),
            Instruction::ADD16(_) => true,
        }
    }

    /// The processor after `instruction` has run on `self` and `memory`.
    pub open spec fn after(self, instruction: Instruction, memory: Seq<u8>) -> Cpu {
        match instruction {
            Instruction::LDN(target, value) => self.after_ldn(target, value),
            Instruction::LDRR(to, from) => self.after_ldrr(to, from, memory),
            Instruction::LDA(from) => self.after_lda(from, memory),
            Instruction::LDFA(to) => self.after_ldfa(to),
            Instruction::PUSH(_) => self.after_push(),
            Instruction::POP(target) => self.after_pop(target, memory),
            Instruction::ADD(target) => self.after_add(target, memory),
            Instruction::ADC(target) => self.after_adc(target, memory),
            Instruction::SUB(target) => self.after_sub(target, memory),
            Instruction::SBC(target) => self.after_sbc(target, memory),
            Instruction::CP(target) => self.after_cp(target, memory),
            Instruction::INC(target) => self.after_inc(target),
            Instruction::AND(target) => self.after_and(target, memory),
            Instruction::OR(target) => self.after_or(target, memory),
            Instruction::XOR(target) => self.after_xor(target, memory),
            Instruction::ADD16(target) => self.after_add_hl(target),
        }
    }

    /// Memory after `instruction` has run on `self` and `memory`. Only a
    /// store to a memory byte and `PUSH` change it.
    pub open spec fn memory_after(self, instruction: Instruction, memory: Seq<u8>) -> Seq<u8> {
        match instruction {
            Instruction::LDRR(to, from) => self.memory_after_ldrr(to, from, memory),
            Instruction::LDFA(to) => self.memory_after_ldfa(to, memory),
            Instruction::PUSH(target) => self.memory_after_push(target, memory),
            _ => memory,
        }
    }

    fn add(&mut self, target: AddTarget, memory: &mut [u8])
        requires
            within(target.address(old(self).registers), old(memory)@.len()),
        ensures
            *final(self) == old(self).after_add(target, old(memory)@),
            final(memory)@ == old(memory)@,
    {
        let operand = target.fetch(&self.registers, memory);
        let (value, flags) = alu::add8(self.registers.a, operand, false);
        self.registers.f = flags;
        self.registers.a = value;
    }

    fn adc(&mut self, target: AddTarget, memory: &mut [u8])
        requires
            within(target.address(old(self).registers), old(memory)@.len()),
        ensures
            *final(self) == old(self).after_adc(target, old(memory)@),
            final(memory)@ == old(memory)@,
    {
        let operand = target.fetch(&self.registers, memory);
        let carry = self.registers.f.contains(CpuFlags::CARRY);
        let (value, flags) = alu::adc8(self.registers.a, operand, carry);
        self.registers.f = flags;
        self.registers.a = value;
    }

    fn sub(&mut self, target: SubTarget, memory: &mut [u8])
        requires
            within(target.address(old(self).registers), old(memory)@.len()),
        ensures
            *final(self) == old(self).after_sub(target, old(memory)@),
            final(memory)@ == old(memory)@,
    {
        let operand = target.fetch(&self.registers, memory);
        let (value, flags) = alu::sub8(self.registers.a, operand, false);
        self.registers.f = flags;
        self.registers.a = value;
    }

    fn sbc(&mut self, target: SubTarget, memory: &mut [u8])
        requires
            within(target.address(old(self).registers), old(memory)@.len()),
        ensures
            *final(self) == old(self).after_sbc(target, old(memory)@),
            final(memory)@ == old(memory)@,
    {
        let operand = target.fetch(&self.registers, memory);
        let borrow = self.registers.f.contains(CpuFlags::CARRY);
        let (value, flags) = alu::sub8(self.registers.a, operand, borrow);
        self.registers.f = flags;
        self.registers.a = value;
    }

    fn cp(&mut self, target: CpTarget, memory: &mut [u8])
        requires
            within(target.address(old(self).registers), old(memory)@.len()),
        ensures
            *final(self) == old(self).after_cp(target, old(memory)@),
            final(self).registers.a == old(self).registers.a,
            final(memory)@ == old(memory)@,
    {
        let operand = target.fetch(&self.registers, memory);
        let (_, flags) = alu::sub8(self.registers.a, operand, false);
        self.registers.f = flags;
    }

    fn inc(&mut self, target: IncTarget)
        ensures
            *final(self) == old(self).after_inc(target),
    {
        match target {
            IncTarget::HL => {
                let (value, flags) = alu::inc16(self.registers.hl(), self.registers.f);
                self.registers.set_hl(value);
                self.registers.f = flags;
            },
            other => {
                let before = match other {
                    IncTarget::A => self.registers.a,
                    IncTarget::B => self.registers.b,
                    IncTarget::C => self.registers.c,
                    IncTarget::D => self.registers.d,
                    IncTarget::E => self.registers.e,
                    IncTarget::H => self.registers.h,
                    _ => self.registers.l,
                };
                let (value, flags) = alu::inc8(before, self.registers.f);
                match other {
                    IncTarget::A => self.registers.a = value,
                    IncTarget::B => self.registers.b = value,
                    IncTarget::C => self.registers.c = value,
                    IncTarget::D => self.registers.d = value,
                    IncTarget::E => self.registers.e = value,
                    IncTarget::H => self.registers.h = value,
                    _ => self.registers.l = value,
                };
                self.registers.f = flags;
            },
        }
    }

    fn and(&mut self, target: LogicTarget, memory: &mut [u8])
        requires
            within(target.address(old(self).registers), old(memory)@.len()),
        ensures
            *final(self) == old(self).after_and(target, old(memory)@),
            final(memory)@ == old(memory)@,
    {
        let operand = target.fetch(&self.registers, memory);
        let (value, flags) = alu::and8(self.registers.a, operand);
        self.registers.a = value;
        self.registers.f = flags;
    }

    fn or(&mut self, target: LogicTarget, memory: &mut [u8])
        requires
            within(target.address(old(self).registers), old(memory)@.len()),
        ensures
            *final(self) == old(self).after_or(target, old(memory)@),
            final(memory)@ == old(memory)@,
    {
        let operand = target.fetch(&self.registers, memory);
        let (value, flags) = alu::or8(self.registers.a, operand);
        self.registers.a = value;
        self.registers.f = flags;
    }

    fn xor(&mut self, target: LogicTarget, memory: &mut [u8])
        requires
            within(target.address(old(self).registers), old(memory)@.len()),
        ensures
            *final(self) == old(self).after_xor(target, old(memory)@),
            final(memory)@ == old(memory)@,
    {
        let operand = target.fetch(&self.registers, memory);
        let (value, flags) = alu::xor8(self.registers.a, operand);
        self.registers.a = value;
        self.registers.f = flags;
    }

    fn add_hl(&mut self, target: Add16Target)
        ensures
            *final(self) == old(self).after_add_hl(target),
            final(self).registers.f.contains(CpuFlags::ZERO) == old(self).registers.f.contains(
                CpuFlags::ZERO,
            ),
    {
        let operand = match target {
            Add16Target::BC => self.registers.bc(),
            Add16Target::DE => self.registers.de(),
            Add16Target::HL => self.registers.hl(),
            Add16Target::SP => self.registers.sp,
        };
        let zero = self.registers.f.contains(CpuFlags::ZERO);
        let (value, flags) = alu::add16(self.registers.hl(), operand, zero);
        self.registers.f = flags;
        self.registers.set_hl(value);
    }

    fn ldn(&mut self, target: LdnTarget, value: u8)
        ensures
            *final(self) == old(self).after_ldn(target, value),
    {
        match target {
            LdnTarget::A => {
                self.registers.a = value;
            },
            LdnTarget::B => {
                self.registers.b = value;
            },
            LdnTarget::C => {
                self.registers.c = value;
            },
            LdnTarget::D => {
                self.registers.d = value;
            },
            LdnTarget::E => {
                self.registers.e = value;
            },
            LdnTarget::H => {
                self.registers.h = value;
            },
            LdnTarget::L => {
                self.registers.l = value;
            },
            LdnTarget::BC => {
                self.registers.set_bc(value as u16);
            },
            LdnTarget::DE => {
                self.registers.set_de(value as u16);
            },
            LdnTarget::HL => {
                self.registers.set_hl(value as u16);
            },
        }
    }

    fn ldrr(&mut self, to: LdrrTarget, from: LdrrTarget, memory: &mut [u8])
        requires
            within(to.address(old(self).registers), old(memory)@.len()),
            within(from.address(old(self).registers), old(memory)@.len()),
        ensures
            *final(self) == old(self).after_ldrr(to, from, old(memory)@),
            final(memory)@ == old(self).memory_after_ldrr(to, from, old(memory)@),
    {
        let value = from.fetch(&self.registers, memory);
        match to {
            LdrrTarget::A => self.registers.a = value,
            LdrrTarget::B => self.registers.b = value,
            LdrrTarget::C => self.registers.c = value,
            LdrrTarget::D => self.registers.d = value,
            LdrrTarget::E => self.registers.e = value,
            LdrrTarget::H => self.registers.h = value,
            LdrrTarget::L => self.registers.l = value,
            LdrrTarget::HL => memory[self.registers.hl() as usize] = value,
        };
    }

    fn lda(&mut self, from: LdaTarget, memory: &mut [u8])
        requires
            within(from.address(old(self).registers), old(memory)@.len()),
        ensures
            *final(self) == old(self).after_lda(from, old(memory)@),
            final(memory)@ == old(memory)@,
    {
        let value = from.fetch(&self.registers, memory);
        self.registers.a = value;
    }

    fn ldfa(&mut self, to: LdfaTarget, memory: &mut [u8])
        requires
            within(to.address(old(self).registers), old(memory)@.len()),
        ensures
            *final(self) == old(self).after_ldfa(to),
            final(memory)@ == old(self).memory_after_ldfa(to, old(memory)@),
    {
        match to {
            LdfaTarget::A => {},
            LdfaTarget::B => self.registers.b = self.registers.a,
            LdfaTarget::C => self.registers.c = self.registers.a,
            LdfaTarget::D => self.registers.d = self.registers.a,
            LdfaTarget::E => self.registers.e = self.registers.a,
            LdfaTarget::H => self.registers.h = self.registers.a,
            LdfaTarget::L => self.registers.l = self.registers.a,
            LdfaTarget::BC => memory[self.registers.bc() as usize] = self.registers.a,
            LdfaTarget::DE => memory[self.registers.de() as usize] = self.registers.a,
            LdfaTarget::HL => memory[self.registers.hl() as usize] = self.registers.a,
            LdfaTarget::Addr(at) => memory[at as usize] = self.registers.a,
        };
    }

    fn push(&mut self, target: StackTarget, memory: &mut [u8])
        requires
            old(self).push_within(old(memory)@.len()),
        ensures
            *final(self) == old(self).after_push(),
            final(memory)@ == old(self).memory_after_push(target, old(memory)@),
    {
        let value = match target {
            StackTarget::AF => self.registers.af(),
            StackTarget::BC => self.registers.bc(),
            StackTarget::DE => self.registers.de(),
            StackTarget::HL => self.registers.hl(),
        };
        let (high, low) = split(value);
        memory[self.registers.sp as usize] = high;
        self.registers.sp = self.registers.sp.wrapping_sub(1);
        memory[self.registers.sp as usize] = low;
        self.registers.sp = self.registers.sp.wrapping_sub(1);
    }

    fn pop(&mut self, target: StackTarget, memory: &mut [u8])
        requires
            old(self).pop_within(old(memory)@.len()),
        ensures
            *final(self) == old(self).after_pop(target, old(memory)@),
            final(memory)@ == old(memory)@,
    {
        self.registers.sp = self.registers.sp.wrapping_add(1);
        let low = memory[self.registers.sp as usize];
        self.registers.sp = self.registers.sp.wrapping_add(1);
        let high = memory[self.registers.sp as usize];
        let value = join(high, low);
        match target {
            StackTarget::AF => self.registers.set_af(value),
            StackTarget::BC => self.registers.set_bc(value),
            StackTarget::DE => self.registers.set_de(value),
            StackTarget::HL => self.registers.set_hl(value),
        };
    }

    /// Whether `instruction` can run on `self` with a memory of `len` bytes:
    /// whether every byte that it would read or write is there.
    pub fn can_execute(&self, instruction: &Instruction, len: usize) -> (ok: bool)
        ensures
            ok == self.in_bounds(*instruction, len as nat),
    {
        let r = &self.registers;
        match instruction {
            Instruction::LDRR(to, from) => {
                let to_ok = match to {
                    LdrrTarget::HL => (r.hl() as usize) < len,
                    _ => true,
                };
                let from_ok = match from {
                    LdrrTarget::HL => (r.hl() as usize) < len,
                    _ => true,
                };
                to_ok && from_ok
            },
            Instruction::LDA(from) => match from {
                LdaTarget::BC => (r.bc() as usize) < len,
                LdaTarget::DE => (r.de() as usize) < len,
                LdaTarget::HL => (r.hl() as usize) < len,
                LdaTarget::Addr(at) => (*at as usize) < len,
                _ => true,
            },
            Instruction::LDFA(to) => match to {
                LdfaTarget::BC => (r.bc() as usize) < len,
                LdfaTarget::DE => (r.de() as usize) < len,
                LdfaTarget::HL => (r.hl() as usize) < len,
                LdfaTarget::Addr(at) => (*at as usize) < len,
                _ => true,
            },
            Instruction::PUSH(_) => (r.sp as usize) < len && (r.sp.wrapping_sub(1) as usize) < len,
            Instruction::POP(_) => (r.sp.wrapping_add(1) as usize) < len && (r.sp.wrapping_add(2)
                as usize) < len,
            Instruction::ADD(AddTarget::HL) => (r.hl() as usize) < len,
            Instruction::ADC(AddTarget::HL) => (r.hl() as usize) < len,
            Instruction::SUB(SubTarget::HL) => (r.hl() as usize) < len,
            Instruction::SBC(SubTarget::HL) => (r.hl() as usize) < len,
            Instruction::CP(CpTarget::HL) => (r.hl() as usize) < len,
            Instruction::AND(LogicTarget::HL) => (r.hl() as usize) < len,
            Instruction::OR(LogicTarget::HL) => (r.hl() as usize) < len,
            Instruction::XOR(LogicTarget::HL) => (r.hl() as usize) < len,
            _ => true,
        }
    }

    /// Runs one decoded instruction to completion on the caller's memory.
    ///
    /// Registers, flags and memory change as the instruction says and in no
    /// other way. The program counter is the caller's to advance.
    pub fn execute(&mut self, instruction: Instruction, memory: &mut [u8])
        requires
            old(self).in_bounds(instruction, old(memory)@.len()),
        ensures
            *final(self) == old(self).after(instruction, old(memory)@),
            final(memory)@ == old(self).memory_after(instruction, old(memory)@),
            final(memory)@.len() == old(memory)@.len(),
            final(self).registers.pc == old(self).registers.pc,
    {
        match instruction {
            Instruction::LDN(target, value) => {
                self.ldn(target, value);
            },
            Instruction::LDRR(to, from) => {
                self.ldrr(to, from, memory);
            },
            Instruction::LDA(from) => {
                self.lda(from, memory);
            },
            Instruction::LDFA(to) => {
                self.ldfa(to, memory);
            },
            Instruction::PUSH(target) => {
                self.push(target, memory);
            },
            Instruction::POP(target) => {
                self.pop(target, memory);
            },
            Instruction::ADD(target) => {
                self.add(target, memory);
            },
            Instruction::ADC(target) => {
                self.adc(target, memory);
            },
            Instruction::SUB(target) => {
                self.sub(target, memory);
            },
            Instruction::SBC(target) => {
                self.sbc(target, memory);
            },
            Instruction::CP(target) => {
                self.cp(target, memory);
            },
            Instruction::INC(target) => {
                self.inc(target);
            },
            Instruction::AND(target) => {
                self.and(target, memory);
            },
            Instruction::OR(target) => {
                self.or(target, memory);
            },
            Instruction::XOR(target) => {
                self.xor(target, memory);
            },
            Instruction::ADD16(target) => {
                self.add_hl(target);
            },
        }
    }
}

impl Default for Cpu {
    /// The processor at power-on: every register zero, no flag set.
    fn default() -> (cpu: Cpu)
        ensures
            cpu.registers == (Registers {
                a: 0,
                b: 0,
                c: 0,
                d: 0,
                e: 0,
                f: CpuFlags { bits: 0 },
                h: 0,
                l: 0,
                sp: 0,
                pc: 0,
            }),
    {
        Cpu { registers: Registers::default() }
    }
}

} // verus!
