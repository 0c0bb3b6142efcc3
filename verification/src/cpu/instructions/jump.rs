//! Jumps, calls, returns and restarts.

use vstd::prelude::*;
use crate::cpu::instructions::arithmetic_logical::signed;
use crate::cpu::instructions::operands::{
    branched, completed, condition_holds, condition_met, fetch_immediate16, fetch_immediate8,
    immediate16, immediate8, memory_after_push, not_taken, offset16, pop, popped_sp, popped_value,
    push, pushed_sp, Outcome,
};
use crate::cpu::instructions::{
    primary_instruction, primary_operation, Condition, Cycles, ExecutionResult, Instruction,
    InstructionsMap, Operation,
};
use crate::cpu::registers::Registers;
use crate::mmu::{MemoryImage, MMU};

verus! {

/// Whether an operation is an absolute jump.
pub open spec fn is_jp(operation: Operation) -> bool {
    operation is Jump || operation is JumpIf || operation is JumpHl
}

/// Whether an operation is a relative jump.
pub open spec fn is_jr(operation: Operation) -> bool {
    operation is JumpRelative || operation is JumpRelativeIf
}

/// Whether an operation is a return.
pub open spec fn is_ret(operation: Operation) -> bool {
    operation is Ret || operation is RetIf || operation is Reti
}

/// Whether an operation is a call.
pub open spec fn is_call(operation: Operation) -> bool {
    operation is Call || operation is CallIf
}

/// Whether an operation is a restart.
pub open spec fn is_rst(operation: Operation) -> bool {
    operation is Rst
}

/// Whether an operation transfers control.
pub open spec fn is_jump(operation: Operation) -> bool {
    is_jp(operation) || is_jr(operation) || is_ret(operation) || is_call(operation) || is_rst(
        operation,
    )
}

/// PC is set to `target`.
pub open spec fn jump_to(registers: Registers, memory: MemoryImage, target: u16) -> Outcome {
    branched(Registers { pc: target, ..registers }, memory)
}

/// Where a relative jump lands: the signed offset is applied to the address of the
/// instruction after the two-byte jump, modulo 2^16.
pub open spec fn relative_target(registers: Registers, memory: MemoryImage) -> u16 {
    offset16(registers.pc, 2 + signed(immediate8(registers, memory)))
}

/// The address `length` bytes after PC is pushed, and PC is set to `target`.
pub open spec fn call_to(registers: Registers, memory: MemoryImage, length: int, target: u16) -> Outcome {
    branched(
        Registers { sp: pushed_sp(registers), pc: target, ..registers },
        memory_after_push(registers, memory, offset16(registers.pc, length)),
    )
}

/// PC is popped from the stack.
pub open spec fn return_from(registers: Registers, memory: MemoryImage) -> Outcome {
    branched(
        Registers { sp: popped_sp(registers), pc: popped_value(registers, memory), ..registers },
        memory,
    )
}

/// What a control transfer does. A conditional one whose condition fails changes nothing.
pub open spec fn jump_spec(operation: Operation, registers: Registers, memory: MemoryImage) -> Outcome {
    match operation {
        Operation::Jump => jump_to(registers, memory, immediate16(registers, memory)),
        Operation::JumpIf(condition) => if condition_holds(condition, registers.f) {
            jump_to(registers, memory, immediate16(registers, memory))
        } else {
            not_taken(registers, memory)
        },
        Operation::JumpHl => jump_to(registers, memory, registers.spec_hl()),
        Operation::JumpRelative => jump_to(registers, memory, relative_target(registers, memory)),
        Operation::JumpRelativeIf(condition) => if condition_holds(condition, registers.f) {
            jump_to(registers, memory, relative_target(registers, memory))
        } else {
            not_taken(registers, memory)
        },
        Operation::Call => call_to(registers, memory, 3, immediate16(registers, memory)),
        Operation::CallIf(condition) => if condition_holds(condition, registers.f) {
            call_to(registers, memory, 3, immediate16(registers, memory))
        } else {
            not_taken(registers, memory)
        },
        Operation::Ret => return_from(registers, memory),
        Operation::RetIf(condition) => if condition_holds(condition, registers.f) {
            return_from(registers, memory)
        } else {
            not_taken(registers, memory)
        },
        Operation::Reti => {
            let returned = return_from(registers, memory);
            Outcome {
                registers: Registers { interrupts_enabled: true, ..returned.registers },
                ..returned
            }
        },
        Operation::Rst(vector) => call_to(registers, memory, 1, vector as u16),
        _ => completed(registers, memory),
    }
}

fn jp(registers: &mut Registers, address: u16)
    ensures
        *final(registers) == (Registers { pc: address, ..*old(registers) }),
{
    registers.pc = address
}

fn jr(registers: &mut Registers, offset: u8)
    ensures
        *final(registers) == (Registers {
            pc: offset16(old(registers).pc, 2 + signed(offset)),
            ..*old(registers)
        }),
{
    let next = registers.pc.wrapping_add(2);
    registers.pc = if offset < 0x80 {
        next.wrapping_add(offset as u16)
    } else {
        next.wrapping_sub(0x100 - offset as u16)
    };
}

fn ret(registers: &mut Registers, mmu: &MMU)
    requires
        mmu.wf(),
    ensures
        *final(registers) == return_from(*old(registers), mmu@).registers,
{
    let new_pc = pop(registers, mmu);
    registers.pc = new_pc;
}

fn call(registers: &mut Registers, mmu: &mut MMU, address: u16)
    requires
        old(mmu).wf(),
    ensures
        final(mmu).wf(),
        final(mmu).rom_len() == old(mmu).rom_len(),
        *final(registers) == call_to(*old(registers), old(mmu)@, 3, address).registers,
        final(mmu)@ == call_to(*old(registers), old(mmu)@, 3, address).memory,
{
    let return_address = registers.pc.wrapping_add(3);
    push(registers, mmu, return_address);
    registers.pc = address;
}

fn rst(registers: &mut Registers, mmu: &mut MMU, address: u16)
    requires
        old(mmu).wf(),
    ensures
        final(mmu).wf(),
        final(mmu).rom_len() == old(mmu).rom_len(),
        *final(registers) == call_to(*old(registers), old(mmu)@, 1, address).registers,
        final(mmu)@ == call_to(*old(registers), old(mmu)@, 1, address).memory,
{
    let return_address = registers.pc.wrapping_add(1);
    push(registers, mmu, return_address);
    registers.pc = address;
}

/// Runs a jump, a call, a return or a restart.
pub fn execute_jump(operation: Operation, registers: &mut Registers, mmu: &mut MMU) -> (result:
    ExecutionResult)
    requires
        is_jump(operation),
        old(mmu).wf(),
    ensures
        final(mmu).wf(),
        final(mmu).rom_len() == old(mmu).rom_len(),
        (Outcome { registers: *final(registers), memory: final(mmu)@, result }) == jump_spec(
            operation,
            *old(registers),
            old(mmu)@,
        ),
{
    match operation {
        Operation::Jump => {
            let address = fetch_immediate16(registers, mmu);
            jp(registers, address);
            ExecutionResult::default().without_pc_update()
        },
        Operation::JumpIf(condition) => {
            if condition_met(condition, &registers.f) {
                let address = fetch_immediate16(registers, mmu);
                jp(registers, address);
                ExecutionResult::default().without_pc_update()
            } else {
                ExecutionResult::default().without_action()
            }
        },
        Operation::JumpHl => {
            let address = registers.get_hl();
            jp(registers, address);
            ExecutionResult::default().without_pc_update()
        },
        Operation::JumpRelative => {
            let offset = fetch_immediate8(registers, mmu);
            jr(registers, offset);
            ExecutionResult::default().without_pc_update()
        },
        Operation::JumpRelativeIf(condition) => {
            if condition_met(condition, &registers.f) {
                let offset = fetch_immediate8(registers, mmu);
                jr(registers, offset);
                ExecutionResult::default().without_pc_update()
            } else {
                ExecutionResult::default().without_action()
            }
        },
        Operation::Call => {
            let address = fetch_immediate16(registers, mmu);
            call(registers, mmu, address);
            ExecutionResult::default().without_pc_update()
        },
        Operation::CallIf(condition) => {
            if condition_met(condition, &registers.f) {
                let address = fetch_immediate16(registers, mmu);
                call(registers, mmu, address);
                ExecutionResult::default().without_pc_update()
            } else {
                ExecutionResult::default().without_action()
            }
        },
        Operation::Ret => {
            ret(registers, mmu);
            ExecutionResult::default().without_pc_update()
        },
        Operation::RetIf(condition) => {
            if condition_met(condition, &registers.f) {
                ret(registers, mmu);
                ExecutionResult::default().without_pc_update()
            } else {
                ExecutionResult::default().without_action()
            }
        },
        Operation::Reti => {
            ret(registers, mmu);
            registers.enable_interrupts();
            ExecutionResult::default().without_pc_update()
        },
        Operation::Rst(vector) => {
            rst(registers, mmu, vector as u16);
            ExecutionResult::default().without_pc_update()
        },
        _ => ExecutionResult::default(),
    }
}

/// Enters the jumps, calls, returns and restarts into the primary table.
pub fn instructions_map_jump_commands(instructions_map: &mut InstructionsMap)
    requires
        old(instructions_map).wf(),
    ensures
        final(instructions_map).wf(),
        forall|opcode: u8|
            #![auto]
            final(instructions_map)@[opcode as int] == if primary_operation(opcode) matches Some(o)
                && is_jump(o) {
                primary_instruction(opcode)
            } else {
                old(instructions_map)@[opcode as int]
            },
{
    instructions_map_jump_commands_jp(instructions_map);
    instructions_map_jump_commands_jr(instructions_map);
    instructions_map_jump_commands_ret(instructions_map);
    instructions_map_jump_commands_call(instructions_map);
    instructions_map_jump_commands_rst(instructions_map);
}

/// Enters the absolute jumps into the primary table.
pub fn instructions_map_jump_commands_jp(instructions_map: &mut InstructionsMap)
    requires
        old(instructions_map).wf(),
    ensures
        final(instructions_map).wf(),
        forall|opcode: u8|
            #![auto]
            final(instructions_map)@[opcode as int] == if primary_operation(opcode) matches Some(o)
                && is_jp(o) {
                primary_instruction(opcode)
            } else {
                old(instructions_map)@[opcode as int]
            },
{
    instructions_map.insert(0xC2, Instruction::new(Operation::JumpIf(Condition::NotZero), Cycles::new(16).with_not_taken(12), 3));
    instructions_map.insert(0xC3, Instruction::new(Operation::Jump, Cycles::new(16), 3));
    instructions_map.insert(0xCA, Instruction::new(Operation::JumpIf(Condition::Zero), Cycles::new(16).with_not_taken(12), 3));
    instructions_map.insert(0xD2, Instruction::new(Operation::JumpIf(Condition::NotCarry), Cycles::new(16).with_not_taken(12), 3));
    instructions_map.insert(0xDA, Instruction::new(Operation::JumpIf(Condition::Carry), Cycles::new(16).with_not_taken(12), 3));
    instructions_map.insert(0xE9, Instruction::new(Operation::JumpHl, Cycles::new(4), 1));
    proof {
        instructions_map.lemma_len();
    }
}

/// Enters the relative jumps into the primary table.
pub fn instructions_map_jump_commands_jr(instructions_map: &mut InstructionsMap)
    requires
        old(instructions_map).wf(),
    ensures
        final(instructions_map).wf(),
        forall|opcode: u8|
            #![auto]
            final(instructions_map)@[opcode as int] == if primary_operation(opcode) matches Some(o)
                && is_jr(o) {
                primary_instruction(opcode)
            } else {
                old(instructions_map)@[opcode as int]
            },
{
    instructions_map.insert(0x18, Instruction::new(Operation::JumpRelative, Cycles::new(12), 2));
    instructions_map.insert(0x20, Instruction::new(Operation::JumpRelativeIf(Condition::NotZero), Cycles::new(12).with_not_taken(8), 2));
    instructions_map.insert(0x28, Instruction::new(Operation::JumpRelativeIf(Condition::Zero), Cycles::new(12).with_not_taken(8), 2));
    instructions_map.insert(0x30, Instruction::new(Operation::JumpRelativeIf(Condition::NotCarry), Cycles::new(12).with_not_taken(8), 2));
    instructions_map.insert(0x38, Instruction::new(Operation::JumpRelativeIf(Condition::Carry), Cycles::new(12).with_not_taken(8), 2));
    proof {
        instructions_map.lemma_len();
    }
}

/// Enters the returns into the primary table.
pub fn instructions_map_jump_commands_ret(instructions_map: &mut InstructionsMap)
    requires
        old(instructions_map).wf(),
    ensures
        final(instructions_map).wf(),
        forall|opcode: u8|
            #![auto]
            final(instructions_map)@[opcode as int] == if primary_operation(opcode) matches Some(o)
                && is_ret(o) {
                primary_instruction(opcode)
            } else {
                old(instructions_map)@[opcode as int]
            },
{
    instructions_map.insert(0xC9, Instruction::new(Operation::Ret, Cycles::new(16), 1));
    instructions_map.insert(0xD9, Instruction::new(Operation::Reti, Cycles::new(16), 1));
    instructions_map.insert(0xC0, Instruction::new(Operation::RetIf(Condition::NotZero), Cycles::new(20).with_not_taken(8), 1));
    instructions_map.insert(0xC8, Instruction::new(Operation::RetIf(Condition::Zero), Cycles::new(20).with_not_taken(8), 1));
    instructions_map.insert(0xD0, Instruction::new(Operation::RetIf(Condition::NotCarry), Cycles::new(20).with_not_taken(8), 1));
    instructions_map.insert(0xD8, Instruction::new(Operation::RetIf(Condition::Carry), Cycles::new(20).with_not_taken(8), 1));
    proof {
        instructions_map.lemma_len();
    }
}

/// Enters the calls into the primary table.
pub fn instructions_map_jump_commands_call(instructions_map: &mut InstructionsMap)
    requires
        old(instructions_map).wf(),
    ensures
        final(instructions_map).wf(),
        forall|opcode: u8|
            #![auto]
            final(instructions_map)@[opcode as int] == if primary_operation(opcode) matches Some(o)
                && is_call(o) {
                primary_instruction(opcode)
            } else {
                old(instructions_map)@[opcode as int]
            },
{
    instructions_map.insert(0xCD, Instruction::new(Operation::Call, Cycles::new(24), 3));
    instructions_map.insert(0xC4, Instruction::new(Operation::CallIf(Condition::NotZero), Cycles::new(24).with_not_taken(12), 3));
    instructions_map.insert(0xCC, Instruction::new(Operation::CallIf(Condition::Zero), Cycles::new(24).with_not_taken(12), 3));
    instructions_map.insert(0xD4, Instruction::new(Operation::CallIf(Condition::NotCarry), Cycles::new(24).with_not_taken(12), 3));
    instructions_map.insert(0xDC, Instruction::new(Operation::CallIf(Condition::Carry), Cycles::new(24).with_not_taken(12), 3));
    proof {
        instructions_map.lemma_len();
    }
}

/// Enters the restarts into the primary table.
pub fn instructions_map_jump_commands_rst(instructions_map: &mut InstructionsMap)
    requires
        old(instructions_map).wf(),
    ensures
        final(instructions_map).wf(),
        forall|opcode: u8|
            #![auto]
            final(instructions_map)@[opcode as int] == if primary_operation(opcode) matches Some(o)
                && is_rst(o) {
                primary_instruction(opcode)
            } else {
                old(instructions_map)@[opcode as int]
            },
{
    instructions_map.insert(0xC7, Instruction::new(Operation::Rst(0x00), Cycles::new(16), 1));
    instructions_map.insert(0xD7, Instruction::new(Operation::Rst(0x10), Cycles::new(16), 1));
    instructions_map.insert(0xE7, Instruction::new(Operation::Rst(0x20), Cycles::new(16), 1));
    instructions_map.insert(0xF7, Instruction::new(Operation::Rst(0x30), Cycles::new(16), 1));
    instructions_map.insert(0xCF, Instruction::new(Operation::Rst(0x08), Cycles::new(16), 1));
    instructions_map.insert(0xDF, Instruction::new(Operation::Rst(0x18), Cycles::new(16), 1));
    instructions_map.insert(0xEF, Instruction::new(Operation::Rst(0x28), Cycles::new(16), 1));
    instructions_map.insert(0xFF, Instruction::new(Operation::Rst(0x38), Cycles::new(16), 1));
    proof {
        instructions_map.lemma_len();
    }
}

} // verus!
