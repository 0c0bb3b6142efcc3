//! How instructions reach their operands: registers, pairs, immediates and the stack.

use vstd::prelude::*;
use crate::cpu::instructions::{Condition, ExecutionResult, Indirect, Operand8, Pair, StackPair};
use crate::cpu::registers::{Flags, Registers};
use crate::mmu::{
    next_addr, read_byte_spec, read_word_spec, write_byte_spec, write_word_spec, MemoryImage, MMU,
};

verus! {

/// The state after an instruction's handler has run, and what it reports.
pub struct Outcome {
    pub registers: Registers,
    pub memory: MemoryImage,
    pub result: ExecutionResult,
}

/// The handler ran to the end and leaves PC to the dispatcher.
pub open spec fn completed(registers: Registers, memory: MemoryImage) -> Outcome {
    Outcome {
        registers,
        memory,
        result: ExecutionResult { update_pc: true, action_taken: true },
    }
}

/// The handler took a branch and wrote PC itself.
pub open spec fn branched(registers: Registers, memory: MemoryImage) -> Outcome {
    Outcome {
        registers,
        memory,
        result: ExecutionResult { update_pc: false, action_taken: true },
    }
}

/// A conditional instruction whose condition did not hold: nothing changes.
pub open spec fn not_taken(registers: Registers, memory: MemoryImage) -> Outcome {
    Outcome {
        registers,
        memory,
        result: ExecutionResult { update_pc: true, action_taken: false },
    }
}

/// `value` plus `offset`, modulo 2^16.
pub open spec fn offset16(value: u16, offset: int) -> u16 {
    ((value + offset) % 0x10000) as u16
}

/// The byte after the opcode.
pub open spec fn immediate8(registers: Registers, memory: MemoryImage) -> u8 {
    read_byte_spec(memory, offset16(registers.pc, 1))
}

/// The little-endian word after the opcode.
pub open spec fn immediate16(registers: Registers, memory: MemoryImage) -> u16 {
    read_word_spec(memory, offset16(registers.pc, 1))
}

/// Whether a branch condition holds under the flags.
pub open spec fn condition_holds(condition: Condition, f: Flags) -> bool {
    match condition {
        Condition::NotZero => !f.z,
        Condition::Zero => f.z,
        Condition::NotCarry => !f.c,
        Condition::Carry => f.c,
    }
}

/// The value of an 8-bit operand.
pub open spec fn operand8_value(operand: Operand8, registers: Registers, memory: MemoryImage) -> u8 {
    match operand {
        Operand8::B => registers.b,
        Operand8::C => registers.c,
        Operand8::D => registers.d,
        Operand8::E => registers.e,
        Operand8::H => registers.h,
        Operand8::L => registers.l,
        Operand8::HlIndirect => read_byte_spec(memory, registers.spec_hl()),
        Operand8::A => registers.a,
    }
}

/// The registers after `value` is stored in `operand`; they are unchanged for (HL).
pub open spec fn registers_with_operand8(operand: Operand8, value: u8, registers: Registers) -> Registers {
    match operand {
        Operand8::B => Registers { b: value, ..registers },
        Operand8::C => Registers { c: value, ..registers },
        Operand8::D => Registers { d: value, ..registers },
        Operand8::E => Registers { e: value, ..registers },
        Operand8::H => Registers { h: value, ..registers },
        Operand8::L => Registers { l: value, ..registers },
        Operand8::HlIndirect => registers,
        Operand8::A => Registers { a: value, ..registers },
    }
}

/// The memory after `value` is stored in `operand`; it changes only for (HL).
pub open spec fn memory_with_operand8(
    operand: Operand8,
    value: u8,
    registers: Registers,
    memory: MemoryImage,
) -> MemoryImage {
    match operand {
        Operand8::HlIndirect => write_byte_spec(memory, registers.spec_hl(), value),
        _ => memory,
    }
}

/// The state after `value` is stored in `operand`.
pub open spec fn loaded8(operand: Operand8, value: u8, registers: Registers, memory: MemoryImage) -> Outcome {
    completed(
        registers_with_operand8(operand, value, registers),
        memory_with_operand8(operand, value, registers, memory),
    )
}

/// The state after `result.0` is stored in `operand` and `result.1` in the flags.
pub open spec fn stored8(
    operand: Operand8,
    result: (u8, Flags),
    registers: Registers,
    memory: MemoryImage,
) -> Outcome {
    let flagged = Registers { f: result.1, ..registers };
    completed(
        registers_with_operand8(operand, result.0, flagged),
        memory_with_operand8(operand, result.0, flagged, memory),
    )
}

/// The state after `result.0` is stored in the accumulator and `result.1` in the flags.
pub open spec fn accumulated(result: (u8, Flags), registers: Registers, memory: MemoryImage) -> Outcome {
    completed(Registers { a: result.0, f: result.1, ..registers }, memory)
}

/// The value of a 16-bit register operand.
pub open spec fn pair_value(pair: Pair, registers: Registers) -> u16 {
    match pair {
        Pair::BC => registers.spec_bc(),
        Pair::DE => registers.spec_de(),
        Pair::HL => registers.spec_hl(),
        Pair::SP => registers.sp,
    }
}

/// The registers after `value` is stored in a 16-bit register operand.
pub open spec fn registers_with_pair(pair: Pair, value: u16, registers: Registers) -> Registers {
    match pair {
        Pair::BC => registers.spec_set_bc(value),
        Pair::DE => registers.spec_set_de(value),
        Pair::HL => registers.spec_set_hl(value),
        Pair::SP => Registers { sp: value, ..registers },
    }
}

/// The value of a pair that is pushed: AF carries the flags in its low byte.
pub open spec fn stack_pair_value(pair: StackPair, registers: Registers) -> u16 {
    match pair {
        StackPair::BC => registers.spec_bc(),
        StackPair::DE => registers.spec_de(),
        StackPair::HL => registers.spec_hl(),
        StackPair::AF => registers.spec_af(),
    }
}

/// The registers after `value` is popped into a pair: for AF the low nibble is dropped.
pub open spec fn registers_with_stack_pair(pair: StackPair, value: u16, registers: Registers) -> Registers {
    match pair {
        StackPair::BC => registers.spec_set_bc(value),
        StackPair::DE => registers.spec_set_de(value),
        StackPair::HL => registers.spec_set_hl(value),
        StackPair::AF => registers.spec_set_af(value),
    }
}

/// The address that an accumulator load or store goes through.
pub open spec fn indirect_address(indirect: Indirect, registers: Registers) -> u16 {
    match indirect {
        Indirect::BC => registers.spec_bc(),
        Indirect::DE => registers.spec_de(),
        Indirect::HlIncrement | Indirect::HlDecrement => registers.spec_hl(),
    }
}

/// The registers after the access: HL moves by one, modulo 2^16, for (HL+) and (HL-).
pub open spec fn registers_after_indirect(indirect: Indirect, registers: Registers) -> Registers {
    match indirect {
        Indirect::BC | Indirect::DE => registers,
        Indirect::HlIncrement => registers.spec_set_hl(offset16(registers.spec_hl(), 1)),
        Indirect::HlDecrement => registers.spec_set_hl(offset16(registers.spec_hl(), -1)),
    }
}

/// SP after a push: two lower, modulo 2^16.
pub open spec fn pushed_sp(registers: Registers) -> u16 {
    offset16(registers.sp, -2)
}

/// The memory after `value` is pushed: the word stands at the new SP.
pub open spec fn memory_after_push(registers: Registers, memory: MemoryImage, value: u16) -> MemoryImage {
    write_word_spec(memory, pushed_sp(registers), value)
}

/// The word that a pop reads: the one at SP.
pub open spec fn popped_value(registers: Registers, memory: MemoryImage) -> u16 {
    read_word_spec(memory, registers.sp)
}

/// SP after a pop: two higher, modulo 2^16.
pub open spec fn popped_sp(registers: Registers) -> u16 {
    offset16(registers.sp, 2)
}

/// Reads the byte after the opcode.
pub fn fetch_immediate8(registers: &Registers, mmu: &MMU) -> (value: u8)
    requires
        mmu.wf(),
    ensures
        value == immediate8(*registers, mmu@),
{
    mmu.read_byte(registers.pc.wrapping_add(1))
}

/// Reads the little-endian word after the opcode.
pub fn fetch_immediate16(registers: &Registers, mmu: &MMU) -> (value: u16)
    requires
        mmu.wf(),
    ensures
        value == immediate16(*registers, mmu@),
{
    mmu.read_word(registers.pc.wrapping_add(1))
}

/// Whether a branch condition holds under the flags.
pub fn condition_met(condition: Condition, flags: &Flags) -> (met: bool)
    ensures
        met == condition_holds(condition, *flags),
{
    match condition {
        Condition::NotZero => !flags.z,
        Condition::Zero => flags.z,
        Condition::NotCarry => !flags.c,
        Condition::Carry => flags.c,
    }
}

/// Reads an 8-bit operand.
pub fn read_operand8(operand: Operand8, registers: &Registers, mmu: &MMU) -> (value: u8)
    requires
        mmu.wf(),
    ensures
        value == operand8_value(operand, *registers, mmu@),
{
    match operand {
        Operand8::B => registers.b,
        Operand8::C => registers.c,
        Operand8::D => registers.d,
        Operand8::E => registers.e,
        Operand8::H => registers.h,
        Operand8::L => registers.l,
        Operand8::HlIndirect => mmu.read_byte(registers.get_hl()),
        Operand8::A => registers.a,
    }
}

/// Stores a byte in an 8-bit operand.
pub fn write_operand8(operand: Operand8, value: u8, registers: &mut Registers, mmu: &mut MMU)
    requires
        old(mmu).wf(),
    ensures
        final(mmu).wf(),
        final(mmu).rom_len() == old(mmu).rom_len(),
        *final(registers) == registers_with_operand8(operand, value, *old(registers)),
        final(mmu)@ == memory_with_operand8(operand, value, *old(registers), old(mmu)@),
{
    match operand {
        Operand8::B => registers.b = value,
        Operand8::C => registers.c = value,
        Operand8::D => registers.d = value,
        Operand8::E => registers.e = value,
        Operand8::H => registers.h = value,
        Operand8::L => registers.l = value,
        Operand8::HlIndirect => mmu.write_byte(registers.get_hl(), value),
        Operand8::A => registers.a = value,
    }
}

/// Reads a 16-bit register operand.
pub fn read_pair(pair: Pair, registers: &Registers) -> (value: u16)
    ensures
        value == pair_value(pair, *registers),
{
    match pair {
        Pair::BC => registers.get_bc(),
        Pair::DE => registers.get_de(),
        Pair::HL => registers.get_hl(),
        Pair::SP => registers.sp,
    }
}

/// Stores a word in a 16-bit register operand.
pub fn write_pair(pair: Pair, value: u16, registers: &mut Registers)
    ensures
        *final(registers) == registers_with_pair(pair, value, *old(registers)),
{
    match pair {
        Pair::BC => registers.set_bc(value),
        Pair::DE => registers.set_de(value),
        Pair::HL => registers.set_hl(value),
        Pair::SP => registers.sp = value,
    }
}

/// Reads a pair that is pushed.
pub fn read_stack_pair(pair: StackPair, registers: &Registers) -> (value: u16)
    ensures
        value == stack_pair_value(pair, *registers),
{
    match pair {
        StackPair::BC => registers.get_bc(),
        StackPair::DE => registers.get_de(),
        StackPair::HL => registers.get_hl(),
        StackPair::AF => registers.get_af(),
    }
}

/// Stores a popped word in a pair.
pub fn write_stack_pair(pair: StackPair, value: u16, registers: &mut Registers)
    ensures
        *final(registers) == registers_with_stack_pair(pair, value, *old(registers)),
{
    match pair {
        StackPair::BC => registers.set_bc(value),
        StackPair::DE => registers.set_de(value),
        StackPair::HL => registers.set_hl(value),
        StackPair::AF => registers.set_af(value),
    }
}

/// Lowers SP by two, then writes `value` at the new SP.
pub fn push(registers: &mut Registers, mmu: &mut MMU, value: u16)
    requires
        old(mmu).wf(),
    ensures
        final(mmu).wf(),
        final(mmu).rom_len() == old(mmu).rom_len(),
        *final(registers) == (Registers { sp: pushed_sp(*old(registers)), ..*old(registers) }),
        final(mmu)@ == memory_after_push(*old(registers), old(mmu)@, value),
{
    registers.sp = registers.sp.wrapping_sub(2);
    mmu.write_word(registers.sp, value);
}

/// Reads the word at SP, then raises SP by two.
pub fn pop(registers: &mut Registers, mmu: &MMU) -> (value: u16)
    requires
        mmu.wf(),
    ensures
        value == popped_value(*old(registers), mmu@),
        *final(registers) == (Registers { sp: popped_sp(*old(registers)), ..*old(registers) }),
{
    let value = mmu.read_word(registers.sp);
    registers.sp = registers.sp.wrapping_add(2);
    value
}

/// A pop after a push gives the pushed word back and restores SP, for every SP:
/// the stack wraps modulo 2^16 with the addresses. It takes both cells of the
/// word to be backed by storage.
pub proof fn lemma_pop_of_push(registers: Registers, memory: MemoryImage, value: u16)
    requires
        memory.dom().contains(pushed_sp(registers)),
        memory.dom().contains(next_addr(pushed_sp(registers))),
    ensures
        ({
            let pushed = Registers { sp: pushed_sp(registers), ..registers };
            let after = memory_after_push(registers, memory, value);
            &&& popped_value(pushed, after) == value
            &&& popped_sp(pushed) == registers.sp
        }),
{
}

/// SP after a push and after a pop, at the ends of the address space.
pub proof fn lemma_stack_pointer_wraps(registers: Registers)
    ensures
        registers.sp == 0 ==> pushed_sp(registers) == 0xFFFE,
        registers.sp == 1 ==> pushed_sp(registers) == 0xFFFF,
        registers.sp == 0xFFFE ==> popped_sp(registers) == 0,
        registers.sp == 0xFFFF ==> popped_sp(registers) == 1,
        2 <= registers.sp ==> pushed_sp(registers) == registers.sp - 2,
        registers.sp <= 0xFFFD ==> popped_sp(registers) == registers.sp + 2,
{
}

} // verus!
