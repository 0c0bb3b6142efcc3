//! Instructions that steer the processor itself.

use vstd::prelude::*;
use crate::cpu::instructions::operands::{completed, Outcome};
use crate::cpu::instructions::{
    primary_instruction, primary_operation, Cycles, ExecutionResult, Instruction, InstructionsMap,
    Operation,
};
use crate::cpu::registers::{CpuState, Registers};
use crate::mmu::{MemoryImage, MMU};

verus! {

/// Whether an operation is one of the control commands.
pub open spec fn is_control(operation: Operation) -> bool {
    operation is Nop || operation is Stop || operation is Halt || operation is Prefix
        || operation is Di || operation is Ei
}

/// What a control command does: STOP and HALT leave the running state, DI and EI
/// write the interrupt latch, NOP and the prefix do nothing.
pub open spec fn control_spec(operation: Operation, registers: Registers, memory: MemoryImage) -> Outcome {
    match operation {
        Operation::Stop => completed(Registers { cpu_state: CpuState::Stopped, ..registers }, memory),
        Operation::Halt => completed(Registers { cpu_state: CpuState::Halted, ..registers }, memory),
        Operation::Di => completed(Registers { interrupts_enabled: false, ..registers }, memory),
        Operation::Ei => completed(Registers { interrupts_enabled: true, ..registers }, memory),
        _ => completed(registers, memory),
    }
}

/// Runs a control command.
pub fn execute_control(operation: Operation, registers: &mut Registers, mmu: &mut MMU) -> (result:
    ExecutionResult)
    requires
        is_control(operation),
        old(mmu).wf(),
    ensures
        final(mmu).wf(),
        final(mmu).rom_len() == old(mmu).rom_len(),
        (Outcome { registers: *final(registers), memory: final(mmu)@, result }) == control_spec(
            operation,
            *old(registers),
            old(mmu)@,
        ),
{
    match operation {
        Operation::Stop => {
            registers.cpu_state = CpuState::Stopped;
        },
        Operation::Halt => {
            registers.cpu_state = CpuState::Halted;
        },
        Operation::Di => {
            registers.disable_interrupts();
        },
        Operation::Ei => {
            registers.enable_interrupts();
        },
        _ => {},
    }
    ExecutionResult::default()
}

/// Enters the control commands into the primary table.
pub fn instructions_map_control_commands(instructions_map: &mut InstructionsMap)
    requires
        old(instructions_map).wf(),
    ensures
        final(instructions_map).wf(),
        forall|opcode: u8|
            #![auto]
            final(instructions_map)@[opcode as int] == if primary_operation(opcode) matches Some(o)
                && is_control(o) {
                primary_instruction(opcode)
            } else {
                old(instructions_map)@[opcode as int]
            },
{
    instructions_map.insert(0x00, Instruction::new(Operation::Nop, Cycles::new(4), 1));
    instructions_map.insert(0x10, Instruction::new(Operation::Stop, Cycles::new(4), 2));
    instructions_map.insert(0x76, Instruction::new(Operation::Halt, Cycles::new(4), 1));
    instructions_map.insert(0xCB, Instruction::new(Operation::Prefix, Cycles::new(4), 1));
    instructions_map.insert(0xF3, Instruction::new(Operation::Di, Cycles::new(4), 1));
    instructions_map.insert(0xFB, Instruction::new(Operation::Ei, Cycles::new(4), 1));
    proof {
        instructions_map.lemma_len();
    }
}

} // verus!
