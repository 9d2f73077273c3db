//! Laws of the register file and of the instruction engine, stated over the
//! transition functions that the engine's contracts use.

use vstd::prelude::*;
use crate::alu;
use crate::cpu::{wrap16, Cpu};
use crate::flags::CpuFlags;
use crate::instruction::{
    Add16Target,
    AddTarget,
    CpTarget,
    IncTarget,
    Instruction,
    LogicTarget,
    StackTarget,
    SubTarget,
};
use crate::registers::{high_byte, low_byte, word, Registers};

verus! {

/// Splitting a 16-bit value into its bytes and joining them again gives the
/// value back.
pub proof fn lemma_word_of_bytes(value: u16)
    ensures
        word(high_byte(value), low_byte(value)) == value,
{
}

/// A register pair reads back what was stored in it: BC, DE and HL hold any
/// 16-bit value, and so does AF, reserved flag nibble included. Under any
/// mask, AF therefore reads back the masked value too.
pub proof fn lemma_pair_round_trip(registers: Registers, value: u16)
    ensures
        registers.with_bc(value).bc() == value,
        registers.with_de(value).de() == value,
        registers.with_hl(value).hl() == value,
        registers.with_af(value).af() == value,
        forall|mask: u16| registers.with_af(value).af() & mask == value & mask,
{
    lemma_word_of_bytes(value);
}

/// A pair of `PUSH` and `POP` reads back what it was given, through
/// `StackTarget::store` and `StackTarget::value`.
pub proof fn lemma_stack_target_round_trip(target: StackTarget, registers: Registers, value: u16)
    ensures
        target.value(target.store(registers, value)) == value,
        target.store(registers, value).sp == registers.sp,
        target.store(registers, value).pc == registers.pc,
{
    lemma_pair_round_trip(registers, value);
}

/// `CP` leaves the accumulator, and every register but the flags, as it
/// was, and sets the flags that `SUB` of the same operand sets.
pub proof fn lemma_cp_matches_sub(cpu: Cpu, target: CpTarget, memory: Seq<u8>)
    ensures
        cpu.after(Instruction::CP(target), memory).registers.a == cpu.registers.a,
        cpu.after(Instruction::CP(target), memory).registers.f == cpu.after(
            Instruction::SUB(target.as_sub()),
            memory,
        ).registers.f,
        cpu.after(Instruction::CP(target), memory).registers == (Registers {
            f: cpu.after(Instruction::SUB(target.as_sub()), memory).registers.f,
            ..cpu.registers
        }),
        cpu.memory_after(Instruction::CP(target), memory) == memory,
        cpu.in_bounds(Instruction::CP(target), memory.len()) == cpu.in_bounds(
            Instruction::SUB(target.as_sub()),
            memory.len(),
        ),
{
    assert(target.value(cpu.registers, memory) == target.as_sub().value(cpu.registers, memory));
    assert(target.address(cpu.registers) == target.as_sub().address(cpu.registers));
}

/// `PUSH` of a pair, then any change to the registers that keeps SP, then
/// `POP` of the same pair on the memory that `PUSH` left: the pair holds
/// what it held before `PUSH`, and SP is where it was before `PUSH`.
/// The bytes that `POP` reads are those that `PUSH` wrote, so `POP` can run
/// wherever `PUSH` could.
pub proof fn lemma_push_pop_round_trip(
    cpu: Cpu,
    target: StackTarget,
    memory: Seq<u8>,
    changed: Cpu,
)
    requires
        cpu.in_bounds(Instruction::PUSH(target), memory.len()),
        changed.registers.sp == cpu.after(Instruction::PUSH(target), memory).registers.sp,
    ensures
        changed.in_bounds(
            Instruction::POP(target),
            cpu.memory_after(Instruction::PUSH(target), memory).len(),
        ),
        target.value(
            changed.after(
                Instruction::POP(target),
                cpu.memory_after(Instruction::PUSH(target), memory),
            ).registers,
        ) == target.value(cpu.registers),
        changed.after(
            Instruction::POP(target),
            cpu.memory_after(Instruction::PUSH(target), memory),
        ).registers.sp == cpu.registers.sp,
{
    let sp = cpu.registers.sp;
    let value = target.value(cpu.registers);
    let below = wrap16(sp - 1);
    let pushed = cpu.memory_after(Instruction::PUSH(target), memory);
    assert(changed.registers.sp == wrap16(sp - 2));
    assert(wrap16(changed.registers.sp + 1) == below);
    assert(wrap16(changed.registers.sp + 2) == sp);
    assert(below != sp);
    assert(pushed[below as int] == low_byte(value));
    assert(pushed[sp as int] == high_byte(value));
    lemma_word_of_bytes(value);
    lemma_stack_target_round_trip(target, changed.registers, value);
}

/// `ADD16` leaves ZERO as it was, whatever the sum: set stays set, clear
/// stays clear. SUBTRACTION comes out clear.
pub proof fn lemma_add16_preserves_zero(cpu: Cpu, target: Add16Target, memory: Seq<u8>)
    ensures
        cpu.after(Instruction::ADD16(target), memory).registers.f.contains(CpuFlags::ZERO)
            == cpu.registers.f.contains(CpuFlags::ZERO),
        !cpu.after(Instruction::ADD16(target), memory).registers.f.contains(
            CpuFlags::SUBSTRACTION,
        ),
        cpu.after(Instruction::ADD16(target), memory).registers.hl() == alu::add16_value(
            cpu.registers.hl(),
            target.value(cpu.registers),
        ),
{
    let hl = cpu.registers.hl();
    let operand = target.value(cpu.registers);
    cpu.registers.f.lemma_condition_bits();
    CpuFlags::lemma_from_conditions(
        cpu.registers.f.zero(),
        false,
        alu::add16_half_carry(hl, operand),
        alu::add16_carry(hl, operand),
    );
    lemma_pair_round_trip(cpu.registers, alu::add16_value(hl, operand));
}

/// After `ADD` the flags are those of the addition, whatever they were
/// before: ZERO says that the wrapped sum is zero, SUBTRACTION is clear,
/// CARRY says that the sum left the byte, and the reserved nibble is clear.
pub proof fn lemma_add_sets_flags(cpu: Cpu, target: AddTarget, memory: Seq<u8>)
    ensures
        ({
            let a = cpu.registers.a;
            let operand = target.value(cpu.registers, memory);
            let after = cpu.after(Instruction::ADD(target), memory).registers;
            &&& after.a == (a + operand) % 256
            &&& after.f.contains(CpuFlags::ZERO) == (after.a == 0)
            &&& !after.f.contains(CpuFlags::SUBSTRACTION)
            &&& after.f.contains(CpuFlags::HALF_CARRY) == alu::add8_half_carry(a, operand, false)
            &&& after.f.contains(CpuFlags::CARRY) == (a + operand > 255)
            &&& after.f.bits % 0x10 == 0
        }),
{
    let a = cpu.registers.a;
    let operand = target.value(cpu.registers, memory);
    CpuFlags::lemma_from_conditions(
        alu::add8_value(a, operand, false) == 0,
        false,
        alu::add8_half_carry(a, operand, false),
        alu::add8_carry(a, operand, false),
    );
}

/// `ADC` adds the CARRY that was set before: its flags are those of the sum
/// of accumulator, operand and that carry, and the accumulator holds that
/// sum, plus one when it left the byte, wrapped. With CARRY clear before and
/// no carry out of the sum, `ADC` is `ADD`.
pub proof fn lemma_adc_takes_the_carry_in(cpu: Cpu, target: AddTarget, memory: Seq<u8>)
    ensures
        ({
            let a = cpu.registers.a;
            let operand = target.value(cpu.registers, memory);
            let carry = alu::unit(cpu.registers.f.carry());
            let sum = a + operand + carry;
            let after = cpu.after(Instruction::ADC(target), memory).registers;
            &&& after.a == if sum > 255 { (sum - 255) % 256 } else { sum }
            &&& after.f.contains(CpuFlags::ZERO) == (sum % 256 == 0)
            &&& !after.f.contains(CpuFlags::SUBSTRACTION)
            &&& after.f.contains(CpuFlags::CARRY) == (sum > 255)
            &&& after.f.bits % 0x10 == 0
            &&& carry == 0 && sum <= 255 ==> cpu.after(Instruction::ADC(target), memory)
                == cpu.after(Instruction::ADD(target), memory)
        }),
{
    let a = cpu.registers.a;
    let operand = target.value(cpu.registers, memory);
    let carry = cpu.registers.f.carry();
    CpuFlags::lemma_from_conditions(
        alu::add8_value(a, operand, carry) == 0,
        false,
        alu::add8_half_carry(a, operand, carry),
        alu::add8_carry(a, operand, carry),
    );
}

/// After `SUB` and after `SBC` the flags are those of the subtraction,
/// whatever else they were before: ZERO says that the wrapped difference is
/// zero, SUBTRACTION is set, HALF_CARRY says that the low nibble borrowed,
/// CARRY that the whole byte did, and the reserved nibble is clear. `SBC`
/// takes one more than `SUB` when CARRY was set before; with CARRY clear,
/// `SBC` is `SUB`.
pub proof fn lemma_sub_sets_flags(cpu: Cpu, target: SubTarget, memory: Seq<u8>)
    ensures
        ({
            let a = cpu.registers.a;
            let operand = target.value(cpu.registers, memory);
            let after = cpu.after(Instruction::SUB(target), memory).registers;
            &&& after.a == (a - operand) % 256
            &&& after.f.contains(CpuFlags::ZERO) == (a == operand)
            &&& after.f.contains(CpuFlags::SUBSTRACTION)
            &&& after.f.contains(CpuFlags::HALF_CARRY) == (a % 16 < operand % 16)
            &&& after.f.contains(CpuFlags::CARRY) == (a < operand)
            &&& after.f.bits % 0x10 == 0
        }),
        ({
            let a = cpu.registers.a;
            let operand = target.value(cpu.registers, memory);
            let borrow = alu::unit(cpu.registers.f.carry());
            let after = cpu.after(Instruction::SBC(target), memory).registers;
            &&& after.a == (a - operand - borrow) % 256
            &&& after.f.contains(CpuFlags::ZERO) == (after.a == 0)
            &&& after.f.contains(CpuFlags::SUBSTRACTION)
            &&& after.f.contains(CpuFlags::HALF_CARRY) == (a % 16 < operand % 16 + borrow)
            &&& after.f.contains(CpuFlags::CARRY) == (a < operand + borrow)
            &&& after.f.bits % 0x10 == 0
        }),
        !cpu.registers.f.carry() ==> cpu.after(Instruction::SBC(target), memory) == cpu.after(
            Instruction::SUB(target),
            memory,
        ),
{
    let a = cpu.registers.a;
    let operand = target.value(cpu.registers, memory);
    let borrow = cpu.registers.f.carry();
    CpuFlags::lemma_from_conditions(
        alu::sub8_value(a, operand, false) == 0,
        true,
        alu::sub8_half_carry(a, operand, false),
        alu::sub8_borrow(a, operand, false),
    );
    CpuFlags::lemma_from_conditions(
        alu::sub8_value(a, operand, borrow) == 0,
        true,
        alu::sub8_half_carry(a, operand, borrow),
        alu::sub8_borrow(a, operand, borrow),
    );
}

/// After `AND`, `OR` and `XOR` ZERO says that the accumulator is zero,
/// SUBTRACTION and CARRY are clear, and HALF_CARRY is set after `AND` and
/// clear after the other two.
pub proof fn lemma_logic_sets_flags(cpu: Cpu, target: LogicTarget, memory: Seq<u8>)
    ensures
        ({
            let and = cpu.after(Instruction::AND(target), memory).registers;
            let or = cpu.after(Instruction::OR(target), memory).registers;
            let xor = cpu.after(Instruction::XOR(target), memory).registers;
            &&& and.f.contains(CpuFlags::ZERO) == (and.a == 0)
            &&& or.f.contains(CpuFlags::ZERO) == (or.a == 0)
            &&& xor.f.contains(CpuFlags::ZERO) == (xor.a == 0)
            &&& and.f.contains(CpuFlags::HALF_CARRY)
            &&& !or.f.contains(CpuFlags::HALF_CARRY)
            &&& !xor.f.contains(CpuFlags::HALF_CARRY)
            &&& !and.f.contains(CpuFlags::SUBSTRACTION) && !and.f.contains(CpuFlags::CARRY)
            &&& !or.f.contains(CpuFlags::SUBSTRACTION) && !or.f.contains(CpuFlags::CARRY)
            &&& !xor.f.contains(CpuFlags::SUBSTRACTION) && !xor.f.contains(CpuFlags::CARRY)
        }),
{
    let and = cpu.after(Instruction::AND(target), memory).registers;
    let or = cpu.after(Instruction::OR(target), memory).registers;
    let xor = cpu.after(Instruction::XOR(target), memory).registers;
    CpuFlags::lemma_from_conditions(and.a == 0, false, true, false);
    CpuFlags::lemma_from_conditions(or.a == 0, false, false, false);
    CpuFlags::lemma_from_conditions(xor.a == 0, false, false, false);
}

/// `INC` leaves SUBTRACTION and CARRY as they were. An 8-bit register that
/// held 255 holds zero afterwards, HL that held 65535 holds zero, and ZERO
/// is then set.
pub proof fn lemma_inc_wraps_and_keeps_carry(cpu: Cpu, target: IncTarget, memory: Seq<u8>)
    ensures
        ({
            let before = target.value(cpu.registers);
            let after = cpu.after(Instruction::INC(target), memory).registers;
            let top: int = if target is HL { 65535 } else { 255 };
            &&& after.f.contains(CpuFlags::SUBSTRACTION) == cpu.registers.f.contains(
                CpuFlags::SUBSTRACTION,
            )
            &&& after.f.contains(CpuFlags::CARRY) == cpu.registers.f.contains(CpuFlags::CARRY)
            &&& after.f.contains(CpuFlags::ZERO) == (target.value(after) == 0)
            &&& after.f.contains(CpuFlags::HALF_CARRY) == (before == 0xF)
            &&& target.value(after) == if before == top { 0 } else { before + 1 }
        }),
{
    let r = cpu.registers;
    let before = target.value(r);
    let after = cpu.after(Instruction::INC(target), memory).registers;
    let value = target.value(after);
    alu::lemma_inc_flags(r.f, before as int, value as int);
    lemma_pair_round_trip(r, alu::inc16_value(r.hl()));
}

/// No instruction changes the program counter or the length of memory.
pub proof fn lemma_step_keeps_pc_and_length(cpu: Cpu, instruction: Instruction, memory: Seq<u8>)
    requires
        cpu.in_bounds(instruction, memory.len()),
    ensures
        cpu.after(instruction, memory).registers.pc == cpu.registers.pc,
        cpu.memory_after(instruction, memory).len() == memory.len(),
{
}

} // verus!
