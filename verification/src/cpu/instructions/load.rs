//! Loads, stores and the stack instructions.

use vstd::prelude::*;
use crate::cpu::instructions::arithmetic_logical::{add_sp_e8, add_sp_e8_spec};
use crate::cpu::instructions::operands::{
    completed, fetch_immediate16, fetch_immediate8, immediate16, immediate8, indirect_address,
    loaded8, memory_after_push, operand8_value, pop, popped_sp, popped_value, push, pushed_sp,
    read_operand8, read_stack_pair, registers_after_indirect, registers_with_pair,
    registers_with_stack_pair, stack_pair_value, write_operand8, write_pair, write_stack_pair,
    Outcome,
};
use crate::cpu::instructions::{
    lemma_opcode_fields, primary_instruction, primary_operation, Cycles, ExecutionResult, Indirect, Instruction,
    InstructionsMap, Operand8, Operation, Pair, StackPair,
};
use crate::cpu::registers::Registers;
use crate::mmu::{read_byte_spec, write_byte_spec, write_word_spec, MemoryImage, MMU};

verus! {

/// Whether an operation is an 8-bit load or store.
pub open spec fn is_load8(operation: Operation) -> bool {
    operation is Load8 || operation is LoadImmediate8 || operation is StoreAccumulator
        || operation is LoadAccumulator || operation is StoreHighImmediate
        || operation is LoadHighImmediate || operation is StoreHighC || operation is LoadHighC
        || operation is StoreAbsolute || operation is LoadAbsolute
}

/// Whether an operation is a 16-bit load other than a push or a pop.
pub open spec fn is_load16_ld(operation: Operation) -> bool {
    operation is LoadImmediate16 || operation is StoreStackPointer
        || operation is LoadStackPointerHl || operation is LoadHlStackOffset
}

/// Whether an operation is a pop.
pub open spec fn is_pop(operation: Operation) -> bool {
    operation is Pop
}

/// Whether an operation is a push.
pub open spec fn is_push(operation: Operation) -> bool {
    operation is Push
}

/// Whether an operation is a 16-bit load, a push or a pop.
pub open spec fn is_load16(operation: Operation) -> bool {
    is_load16_ld(operation) || is_pop(operation) || is_push(operation)
}

/// Whether an operation is a load, a store or a stack instruction.
pub open spec fn is_load(operation: Operation) -> bool {
    is_load8(operation) || is_load16(operation)
}

/// The address in the high page, 0xFF00 to 0xFFFF, at `offset`.
pub open spec fn high_page(offset: u8) -> u16 {
    (0xFF00 + offset) as u16
}

/// The state after `value` is stored in the accumulator.
pub open spec fn loaded_accumulator(value: u8, registers: Registers, memory: MemoryImage) -> Outcome {
    completed(Registers { a: value, ..registers }, memory)
}

/// The state after the accumulator is stored at `addr`.
pub open spec fn stored_accumulator(addr: u16, registers: Registers, memory: MemoryImage) -> Outcome {
    completed(registers, write_byte_spec(memory, addr, registers.a))
}

/// What a load, a store or a stack instruction does.
pub open spec fn load_spec(operation: Operation, registers: Registers, memory: MemoryImage) -> Outcome {
    match operation {
        Operation::Load8(dst, src) => loaded8(
            dst,
            operand8_value(src, registers, memory),
            registers,
            memory,
        ),
        Operation::LoadImmediate8(dst) => loaded8(
            dst,
            immediate8(registers, memory),
            registers,
            memory,
        ),
        Operation::StoreAccumulator(indirect) => completed(
            registers_after_indirect(indirect, registers),
            write_byte_spec(memory, indirect_address(indirect, registers), registers.a),
        ),
        Operation::LoadAccumulator(indirect) => completed(
            registers_after_indirect(
                indirect,
                Registers {
                    a: read_byte_spec(memory, indirect_address(indirect, registers)),
                    ..registers
                },
            ),
            memory,
        ),
        Operation::StoreHighImmediate => stored_accumulator(
            high_page(immediate8(registers, memory)),
            registers,
            memory,
        ),
        Operation::LoadHighImmediate => loaded_accumulator(
            read_byte_spec(memory, high_page(immediate8(registers, memory))),
            registers,
            memory,
        ),
        Operation::StoreHighC => stored_accumulator(high_page(registers.c), registers, memory),
        Operation::LoadHighC => loaded_accumulator(
            read_byte_spec(memory, high_page(registers.c)),
            registers,
            memory,
        ),
        Operation::StoreAbsolute => stored_accumulator(
            immediate16(registers, memory),
            registers,
            memory,
        ),
        Operation::LoadAbsolute => loaded_accumulator(
            read_byte_spec(memory, immediate16(registers, memory)),
            registers,
            memory,
        ),
        Operation::LoadImmediate16(pair) => completed(
            registers_with_pair(pair, immediate16(registers, memory), registers),
            memory,
        ),
        Operation::StoreStackPointer => completed(
            registers,
            write_word_spec(memory, immediate16(registers, memory), registers.sp),
        ),
        Operation::LoadStackPointerHl => completed(
            Registers { sp: registers.spec_hl(), ..registers },
            memory,
        ),
        Operation::LoadHlStackOffset => {
            let sum = add_sp_e8_spec(registers.sp, immediate8(registers, memory), registers.f);
            completed((Registers { f: sum.1, ..registers }).spec_set_hl(sum.0), memory)
        },
        Operation::Push(pair) => completed(
            Registers { sp: pushed_sp(registers), ..registers },
            memory_after_push(registers, memory, stack_pair_value(pair, registers)),
        ),
        Operation::Pop(pair) => completed(
            registers_with_stack_pair(
                pair,
                popped_value(registers, memory),
                Registers { sp: popped_sp(registers), ..registers },
            ),
            memory,
        ),
        _ => completed(registers, memory),
    }
}

/// The address in the high page at `offset`.
pub fn high_page_address(offset: u8) -> (addr: u16)
    ensures
        addr == high_page(offset),
{
    assert(0xFF00u16 | (offset as u16) == 0xFF00 + offset) by (bit_vector);
    0xFF00 | offset as u16
}

/// The address that an accumulator access goes through; HL moves afterwards
/// for (HL+) and (HL-).
fn take_indirect_address(indirect: Indirect, registers: &mut Registers) -> (addr: u16)
    ensures
        addr == indirect_address(indirect, *old(registers)),
        *final(registers) == registers_after_indirect(indirect, *old(registers)),
{
    match indirect {
        Indirect::BC => registers.get_bc(),
        Indirect::DE => registers.get_de(),
        Indirect::HlIncrement => {
            let addr = registers.get_hl();
            registers.set_hl(addr.wrapping_add(1));
            addr
        },
        Indirect::HlDecrement => {
            let addr = registers.get_hl();
            registers.set_hl(addr.wrapping_sub(1));
            addr
        },
    }
}

/// Runs a load, a store or a stack instruction.
pub fn execute_load(operation: Operation, registers: &mut Registers, mmu: &mut MMU) -> (result:
    ExecutionResult)
    requires
        is_load(operation),
        old(mmu).wf(),
    ensures
        final(mmu).wf(),
        final(mmu).rom_len() == old(mmu).rom_len(),
        (Outcome { registers: *final(registers), memory: final(mmu)@, result }) == load_spec(
            operation,
            *old(registers),
            old(mmu)@,
        ),
{
    match operation {
        Operation::Load8(dst, src) => {
            let value = read_operand8(src, registers, mmu);
            write_operand8(dst, value, registers, mmu);
        },
        Operation::LoadImmediate8(dst) => {
            let value = fetch_immediate8(registers, mmu);
            write_operand8(dst, value, registers, mmu);
        },
        Operation::StoreAccumulator(indirect) => {
            let addr = take_indirect_address(indirect, registers);
            mmu.write_byte(addr, registers.a);
        },
        Operation::LoadAccumulator(indirect) => {
            let addr = take_indirect_address(indirect, registers);
            registers.a = mmu.read_byte(addr);
        },
        Operation::StoreHighImmediate => {
            let offset = fetch_immediate8(registers, mmu);
            mmu.write_byte(high_page_address(offset), registers.a);
        },
        Operation::LoadHighImmediate => {
            let offset = fetch_immediate8(registers, mmu);
            registers.a = mmu.read_byte(high_page_address(offset));
        },
        Operation::StoreHighC => {
            mmu.write_byte(high_page_address(registers.c), registers.a);
        },
        Operation::LoadHighC => {
            registers.a = mmu.read_byte(high_page_address(registers.c));
        },
        Operation::StoreAbsolute => {
            let addr = fetch_immediate16(registers, mmu);
            mmu.write_byte(addr, registers.a);
        },
        Operation::LoadAbsolute => {
            let addr = fetch_immediate16(registers, mmu);
            registers.a = mmu.read_byte(addr);
        },
        Operation::LoadImmediate16(pair) => {
            let value = fetch_immediate16(registers, mmu);
            write_pair(pair, value, registers);
        },
        Operation::StoreStackPointer => {
            let addr = fetch_immediate16(registers, mmu);
            mmu.write_word(addr, registers.sp);
        },
        Operation::LoadStackPointerHl => {
            registers.sp = registers.get_hl();
        },
        Operation::LoadHlStackOffset => {
            let offset = fetch_immediate8(registers, mmu);
            let sum = add_sp_e8(registers.sp, offset, &mut registers.f);
            registers.set_hl(sum);
        },
        Operation::Push(pair) => {
            let value = read_stack_pair(pair, registers);
            push(registers, mmu, value);
        },
        Operation::Pop(pair) => {
            let value = pop(registers, mmu);
            write_stack_pair(pair, value, registers);
        },
        _ => {},
    }
    ExecutionResult::default()
}

/// Enters the loads, stores and stack instructions into the primary table.
pub fn instructions_map_load_instructions(instructions_map: &mut InstructionsMap)
    requires
        old(instructions_map).wf(),
    ensures
        final(instructions_map).wf(),
        forall|opcode: u8|
            #![auto]
            final(instructions_map)@[opcode as int] == if primary_operation(opcode) matches Some(o)
                && is_load(o) {
                primary_instruction(opcode)
            } else {
                old(instructions_map)@[opcode as int]
            },
{
    instructions_map_8_bit_load_instructions(instructions_map);
    instructions_map_16_bit_load_instructions(instructions_map);
}

/// Enters the 8-bit loads and stores into the primary table.
pub fn instructions_map_8_bit_load_instructions(instructions_map: &mut InstructionsMap)
    requires
        old(instructions_map).wf(),
    ensures
        final(instructions_map).wf(),
        forall|opcode: u8|
            #![auto]
            final(instructions_map)@[opcode as int] == if primary_operation(opcode) matches Some(o)
                && is_load8(o) {
                primary_instruction(opcode)
            } else {
                old(instructions_map)@[opcode as int]
            },
{
    instructions_map.insert(0x02, Instruction::new(Operation::StoreAccumulator(Indirect::BC), Cycles::new(8), 1));
    instructions_map.insert(0x12, Instruction::new(Operation::StoreAccumulator(Indirect::DE), Cycles::new(8), 1));
    instructions_map.insert(0x22, Instruction::new(Operation::StoreAccumulator(Indirect::HlIncrement), Cycles::new(8), 1));
    instructions_map.insert(0x32, Instruction::new(Operation::StoreAccumulator(Indirect::HlDecrement), Cycles::new(8), 1));
    instructions_map.insert(0x06, Instruction::new(Operation::LoadImmediate8(Operand8::B), Cycles::new(8), 2));
    instructions_map.insert(0x16, Instruction::new(Operation::LoadImmediate8(Operand8::D), Cycles::new(8), 2));
    instructions_map.insert(0x26, Instruction::new(Operation::LoadImmediate8(Operand8::H), Cycles::new(8), 2));
    instructions_map.insert(0x36, Instruction::new(Operation::LoadImmediate8(Operand8::HlIndirect), Cycles::new(12), 2));
    instructions_map.insert(0x0A, Instruction::new(Operation::LoadAccumulator(Indirect::BC), Cycles::new(8), 1));
    instructions_map.insert(0x1A, Instruction::new(Operation::LoadAccumulator(Indirect::DE), Cycles::new(8), 1));
    instructions_map.insert(0x2A, Instruction::new(Operation::LoadAccumulator(Indirect::HlIncrement), Cycles::new(8), 1));
    instructions_map.insert(0x3A, Instruction::new(Operation::LoadAccumulator(Indirect::HlDecrement), Cycles::new(8), 1));
    instructions_map.insert(0x0E, Instruction::new(Operation::LoadImmediate8(Operand8::C), Cycles::new(8), 2));
    instructions_map.insert(0x1E, Instruction::new(Operation::LoadImmediate8(Operand8::E), Cycles::new(8), 2));
    instructions_map.insert(0x2E, Instruction::new(Operation::LoadImmediate8(Operand8::L), Cycles::new(8), 2));
    instructions_map.insert(0x3E, Instruction::new(Operation::LoadImmediate8(Operand8::A), Cycles::new(8), 2));
    instructions_map.insert(0x40, Instruction::new(Operation::Load8(Operand8::B, Operand8::B), Cycles::new(4), 1));
    instructions_map.insert(0x50, Instruction::new(Operation::Load8(Operand8::D, Operand8::B), Cycles::new(4), 1));
    instructions_map.insert(0x60, Instruction::new(Operation::Load8(Operand8::H, Operand8::B), Cycles::new(4), 1));
    instructions_map.insert(0x70, Instruction::new(Operation::Load8(Operand8::HlIndirect, Operand8::B), Cycles::new(8), 1));
    instructions_map.insert(0x41, Instruction::new(Operation::Load8(Operand8::B, Operand8::C), Cycles::new(4), 1));
    instructions_map.insert(0x51, Instruction::new(Operation::Load8(Operand8::D, Operand8::C), Cycles::new(4), 1));
    instructions_map.insert(0x61, Instruction::new(Operation::Load8(Operand8::H, Operand8::C), Cycles::new(4), 1));
    instructions_map.insert(0x71, Instruction::new(Operation::Load8(Operand8::HlIndirect, Operand8::C), Cycles::new(8), 1));
    instructions_map.insert(0x42, Instruction::new(Operation::Load8(Operand8::B, Operand8::D), Cycles::new(4), 1));
    instructions_map.insert(0x52, Instruction::new(Operation::Load8(Operand8::D, Operand8::D), Cycles::new(4), 1));
    instructions_map.insert(0x62, Instruction::new(Operation::Load8(Operand8::H, Operand8::D), Cycles::new(4), 1));
    instructions_map.insert(0x72, Instruction::new(Operation::Load8(Operand8::HlIndirect, Operand8::D), Cycles::new(8), 1));
    instructions_map.insert(0x43, Instruction::new(Operation::Load8(Operand8::B, Operand8::E), Cycles::new(4), 1));
    instructions_map.insert(0x53, Instruction::new(Operation::Load8(Operand8::D, Operand8::E), Cycles::new(4), 1));
    instructions_map.insert(0x63, Instruction::new(Operation::Load8(Operand8::H, Operand8::E), Cycles::new(4), 1));
    instructions_map.insert(0x73, Instruction::new(Operation::Load8(Operand8::HlIndirect, Operand8::E), Cycles::new(8), 1));
    instructions_map.insert(0x44, Instruction::new(Operation::Load8(Operand8::B, Operand8::H), Cycles::new(4), 1));
    instructions_map.insert(0x54, Instruction::new(Operation::Load8(Operand8::D, Operand8::H), Cycles::new(4), 1));
    instructions_map.insert(0x64, Instruction::new(Operation::Load8(Operand8::H, Operand8::H), Cycles::new(4), 1));
    instructions_map.insert(0x74, Instruction::new(Operation::Load8(Operand8::HlIndirect, Operand8::H), Cycles::new(8), 1));
    instructions_map.insert(0x45, Instruction::new(Operation::Load8(Operand8::B, Operand8::L), Cycles::new(4), 1));
    instructions_map.insert(0x55, Instruction::new(Operation::Load8(Operand8::D, Operand8::L), Cycles::new(4), 1));
    instructions_map.insert(0x65, Instruction::new(Operation::Load8(Operand8::H, Operand8::L), Cycles::new(4), 1));
    instructions_map.insert(0x75, Instruction::new(Operation::Load8(Operand8::HlIndirect, Operand8::L), Cycles::new(8), 1));
    instructions_map.insert(0x46, Instruction::new(Operation::Load8(Operand8::B, Operand8::HlIndirect), Cycles::new(8), 1));
    instructions_map.insert(0x56, Instruction::new(Operation::Load8(Operand8::D, Operand8::HlIndirect), Cycles::new(8), 1));
    instructions_map.insert(0x66, Instruction::new(Operation::Load8(Operand8::H, Operand8::HlIndirect), Cycles::new(8), 1));
    instructions_map.insert(0x47, Instruction::new(Operation::Load8(Operand8::B, Operand8::A), Cycles::new(4), 1));
    instructions_map.insert(0x57, Instruction::new(Operation::Load8(Operand8::D, Operand8::A), Cycles::new(4), 1));
    instructions_map.insert(0x67, Instruction::new(Operation::Load8(Operand8::H, Operand8::A), Cycles::new(4), 1));
    instructions_map.insert(0x77, Instruction::new(Operation::Load8(Operand8::HlIndirect, Operand8::A), Cycles::new(8), 1));
    instructions_map.insert(0x48, Instruction::new(Operation::Load8(Operand8::C, Operand8::B), Cycles::new(4), 1));
    instructions_map.insert(0x58, Instruction::new(Operation::Load8(Operand8::E, Operand8::B), Cycles::new(4), 1));
    instructions_map.insert(0x68, Instruction::new(Operation::Load8(Operand8::L, Operand8::B), Cycles::new(4), 1));
    instructions_map.insert(0x78, Instruction::new(Operation::Load8(Operand8::A, Operand8::B), Cycles::new(4), 1));
    instructions_map.insert(0x49, Instruction::new(Operation::Load8(Operand8::C, Operand8::C), Cycles::new(4), 1));
    instructions_map.insert(0x59, Instruction::new(Operation::Load8(Operand8::E, Operand8::C), Cycles::new(4), 1));
    instructions_map.insert(0x69, Instruction::new(Operation::Load8(Operand8::L, Operand8::C), Cycles::new(4), 1));
    instructions_map.insert(0x79, Instruction::new(Operation::Load8(Operand8::A, Operand8::C), Cycles::new(4), 1));
    instructions_map.insert(0x4A, Instruction::new(Operation::Load8(Operand8::C, Operand8::D), Cycles::new(4), 1));
    instructions_map.insert(0x5A, Instruction::new(Operation::Load8(Operand8::E, Operand8::D), Cycles::new(4), 1));
    instructions_map.insert(0x6A, Instruction::new(Operation::Load8(Operand8::L, Operand8::D), Cycles::new(4), 1));
    instructions_map.insert(0x7A, Instruction::new(Operation::Load8(Operand8::A, Operand8::D), Cycles::new(4), 1));
    instructions_map.insert(0x4B, Instruction::new(Operation::Load8(Operand8::C, Operand8::E), Cycles::new(4), 1));
    instructions_map.insert(0x5B, Instruction::new(Operation::Load8(Operand8::E, Operand8::E), Cycles::new(4), 1));
    instructions_map.insert(0x6B, Instruction::new(Operation::Load8(Operand8::L, Operand8::E), Cycles::new(4), 1));
    instructions_map.insert(0x7B, Instruction::new(Operation::Load8(Operand8::A, Operand8::E), Cycles::new(4), 1));
    instructions_map.insert(0x4C, Instruction::new(Operation::Load8(Operand8::C, Operand8::H), Cycles::new(4), 1));
    instructions_map.insert(0x5C, Instruction::new(Operation::Load8(Operand8::E, Operand8::H), Cycles::new(4), 1));
    instructions_map.insert(0x6C, Instruction::new(Operation::Load8(Operand8::L, Operand8::H), Cycles::new(4), 1));
    instructions_map.insert(0x7C, Instruction::new(Operation::Load8(Operand8::A, Operand8::H), Cycles::new(4), 1));
    instructions_map.insert(0x4D, Instruction::new(Operation::Load8(Operand8::C, Operand8::L), Cycles::new(4), 1));
    instructions_map.insert(0x5D, Instruction::new(Operation::Load8(Operand8::E, Operand8::L), Cycles::new(4), 1));
    instructions_map.insert(0x6D, Instruction::new(Operation::Load8(Operand8::L, Operand8::L), Cycles::new(4), 1));
    instructions_map.insert(0x7D, Instruction::new(Operation::Load8(Operand8::A, Operand8::L), Cycles::new(4), 1));
    instructions_map.insert(0x4E, Instruction::new(Operation::Load8(Operand8::C, Operand8::HlIndirect), Cycles::new(8), 1));
    instructions_map.insert(0x5E, Instruction::new(Operation::Load8(Operand8::E, Operand8::HlIndirect), Cycles::new(8), 1));
    instructions_map.insert(0x6E, Instruction::new(Operation::Load8(Operand8::L, Operand8::HlIndirect), Cycles::new(8), 1));
    instructions_map.insert(0x7E, Instruction::new(Operation::Load8(Operand8::A, Operand8::HlIndirect), Cycles::new(8), 1));
    instructions_map.insert(0x4F, Instruction::new(Operation::Load8(Operand8::C, Operand8::A), Cycles::new(4), 1));
    instructions_map.insert(0x5F, Instruction::new(Operation::Load8(Operand8::E, Operand8::A), Cycles::new(4), 1));
    instructions_map.insert(0x6F, Instruction::new(Operation::Load8(Operand8::L, Operand8::A), Cycles::new(4), 1));
    instructions_map.insert(0x7F, Instruction::new(Operation::Load8(Operand8::A, Operand8::A), Cycles::new(4), 1));
    instructions_map.insert(0xE0, Instruction::new(Operation::StoreHighImmediate, Cycles::new(12), 2));
    instructions_map.insert(0xF0, Instruction::new(Operation::LoadHighImmediate, Cycles::new(12), 2));
    instructions_map.insert(0xE2, Instruction::new(Operation::StoreHighC, Cycles::new(8), 1));
    instructions_map.insert(0xF2, Instruction::new(Operation::LoadHighC, Cycles::new(8), 1));
    instructions_map.insert(0xEA, Instruction::new(Operation::StoreAbsolute, Cycles::new(16), 3));
    instructions_map.insert(0xFA, Instruction::new(Operation::LoadAbsolute, Cycles::new(16), 3));
    proof {
        instructions_map.lemma_len();
        assert forall|opcode: u8|
            #![auto]
            instructions_map@[opcode as int] == if primary_operation(opcode) matches Some(o)
                && is_load8(o) {
                primary_instruction(opcode)
            } else {
                old(instructions_map)@[opcode as int]
            } by {
            lemma_opcode_fields(opcode);
        }
    }
}

/// Enters the 16-bit loads, the pushes and the pops into the primary table.
pub fn instructions_map_16_bit_load_instructions(instructions_map: &mut InstructionsMap)
    requires
        old(instructions_map).wf(),
    ensures
        final(instructions_map).wf(),
        forall|opcode: u8|
            #![auto]
            final(instructions_map)@[opcode as int] == if primary_operation(opcode) matches Some(o)
                && is_load16(o) {
                primary_instruction(opcode)
            } else {
                old(instructions_map)@[opcode as int]
            },
{
    instructions_map_16_bit_load_ld_instructions(instructions_map);
    instructions_map_16_bit_load_pop_instructions(instructions_map);
    instructions_map_16_bit_load_push_instructions(instructions_map);
}

/// Enters the 16-bit loads into the primary table.
pub fn instructions_map_16_bit_load_ld_instructions(instructions_map: &mut InstructionsMap)
    requires
        old(instructions_map).wf(),
    ensures
        final(instructions_map).wf(),
        forall|opcode: u8|
            #![auto]
            final(instructions_map)@[opcode as int] == if primary_operation(opcode) matches Some(o)
                && is_load16_ld(o) {
                primary_instruction(opcode)
            } else {
                old(instructions_map)@[opcode as int]
            },
{
    instructions_map.insert(0x01, Instruction::new(Operation::LoadImmediate16(Pair::BC), Cycles::new(12), 3));
    instructions_map.insert(0x11, Instruction::new(Operation::LoadImmediate16(Pair::DE), Cycles::new(12), 3));
    instructions_map.insert(0x21, Instruction::new(Operation::LoadImmediate16(Pair::HL), Cycles::new(12), 3));
    instructions_map.insert(0x31, Instruction::new(Operation::LoadImmediate16(Pair::SP), Cycles::new(12), 3));
    instructions_map.insert(0x08, Instruction::new(Operation::StoreStackPointer, Cycles::new(20), 3));
    instructions_map.insert(0xF8, Instruction::new(Operation::LoadHlStackOffset, Cycles::new(12), 2));
    instructions_map.insert(0xF9, Instruction::new(Operation::LoadStackPointerHl, Cycles::new(8), 1));
    proof {
        instructions_map.lemma_len();
    }
}

/// Enters the pops into the primary table.
pub fn instructions_map_16_bit_load_pop_instructions(instructions_map: &mut InstructionsMap)
    requires
        old(instructions_map).wf(),
    ensures
        final(instructions_map).wf(),
        forall|opcode: u8|
            #![auto]
            final(instructions_map)@[opcode as int] == if primary_operation(opcode) matches Some(o)
                && is_pop(o) {
                primary_instruction(opcode)
            } else {
                old(instructions_map)@[opcode as int]
            },
{
    instructions_map.insert(0xC1, Instruction::new(Operation::Pop(StackPair::BC), Cycles::new(12), 1));
    instructions_map.insert(0xD1, Instruction::new(Operation::Pop(StackPair::DE), Cycles::new(12), 1));
    instructions_map.insert(0xE1, Instruction::new(Operation::Pop(StackPair::HL), Cycles::new(12), 1));
    instructions_map.insert(0xF1, Instruction::new(Operation::Pop(StackPair::AF), Cycles::new(12), 1));
    proof {
        instructions_map.lemma_len();
    }
}

/// Enters the pushes into the primary table.
pub fn instructions_map_16_bit_load_push_instructions(instructions_map: &mut InstructionsMap)
    requires
        old(instructions_map).wf(),
    ensures
        final(instructions_map).wf(),
        forall|opcode: u8|
            #![auto]
            final(instructions_map)@[opcode as int] == if primary_operation(opcode) matches Some(o)
                && is_push(o) {
                primary_instruction(opcode)
            } else {
                old(instructions_map)@[opcode as int]
            },
{
    instructions_map.insert(0xC5, Instruction::new(Operation::Push(StackPair::BC), Cycles::new(16), 1));
    instructions_map.insert(0xD5, Instruction::new(Operation::Push(StackPair::DE), Cycles::new(16), 1));
    instructions_map.insert(0xE5, Instruction::new(Operation::Push(StackPair::HL), Cycles::new(16), 1));
    instructions_map.insert(0xF5, Instruction::new(Operation::Push(StackPair::AF), Cycles::new(16), 1));
    proof {
        instructions_map.lemma_len();
    }
}

/// LD HL, SP+r8 takes H and C from the unsigned addition of the low byte of SP and
/// the offset byte, not from the 16-bit sum: they do not depend on the high byte
/// of SP nor on the sign of the offset. Z and N are cleared, SP stays.
pub proof fn lemma_load_hl_stack_offset_flags(registers: Registers, memory: MemoryImage)
    ensures
        ({
            let after = load_spec(Operation::LoadHlStackOffset, registers, memory).registers;
            let offset = immediate8(registers, memory);
            &&& after.f.h == ((registers.sp % 16) + (offset % 16) > 15)
            &&& after.f.c == ((registers.sp % 256) + offset > 255)
            &&& !after.f.z
            &&& !after.f.n
            &&& after.sp == registers.sp
            &&& after.spec_hl() == add_sp_e8_spec(registers.sp, offset, registers.f).0
        }),
{
}

} // verus!
