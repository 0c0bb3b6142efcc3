//! The processor: register file, arithmetic kernel, opcode tables and dispatcher.

use vstd::prelude::*;
use crate::cpu::instructions::arithmetic_logical::signed;
use crate::cpu::instructions::jump::{jump_to, relative_target};
use crate::cpu::instructions::operands::{completed, immediate8, offset16};
use crate::cpu::instructions::shift_rot_bit::bit_index_valid;
use crate::cpu::instructions::{
    active_instruction, execute_spec, lemma_opcode_fields, lemma_tables_bit_index_valid,
    instruction_for, state_after_decode, Condition, Instruction, InstructionsMapState,
    InstructionsMapsManager, Operation,
};
use crate::cpu::registers::{CpuState, Flags, Registers};
use crate::mmu::{read_byte_spec, MemoryImage, MMU};

pub mod instructions;
pub mod opcodes;
pub mod registers;

verus! {

/// Ticks of the master clock per second.
pub const CLOCK_SPEED: u64 = 4_194_304;

/// Nanoseconds per second.
pub const NANOS_PER_SECOND: u64 = 1_000_000_000;

/// The time that `cycles` t-states take at the master clock, in whole nanoseconds.
pub open spec fn cycles_to_time_spec(cycles: u8) -> u64 {
    ((cycles * NANOS_PER_SECOND) / (CLOCK_SPEED as int)) as u64
}

/// The time that `cycles` t-states take at the master clock, in nanoseconds, rounded down.
pub fn cycles_to_time(cycles: u8) -> (nanos: u64)
    ensures
        nanos == cycles_to_time_spec(cycles),
{
    cycles as u64 * NANOS_PER_SECOND / CLOCK_SPEED
}

/// What the driver does after a step to keep the pace of the master clock.
#[derive(Copy, Clone, Debug, PartialEq, Eq, Structural)]
pub enum Pace {
    /// The step was faster than the hardware: wait for the given nanoseconds.
    Sleep(u64),
    /// The step took longer than the hardware would: do not wait.
    Overshoot { elapsed: u64, target: u64 },
}

/// The pacing of a step that cost `cycles` t-states and took `elapsed` nanoseconds:
/// the rest of the time that the hardware would have taken is slept, and a step
/// that took longer is an overshoot.
pub open spec fn pace_spec(cycles: u8, elapsed: u64) -> Pace {
    let target = cycles_to_time_spec(cycles);
    if target < elapsed {
        Pace::Overshoot { elapsed, target }
    } else {
        Pace::Sleep((target - elapsed) as u64)
    }
}

/// Decides how a step that cost `cycles` t-states and took `elapsed` nanoseconds
/// of wall time is paced.
pub fn pace(cycles: u8, elapsed: u64) -> (p: Pace)
    ensures
        p == pace_spec(cycles, elapsed),
{
    let target = cycles_to_time(cycles);
    if target < elapsed {
        Pace::Overshoot { elapsed, target }
    } else {
        Pace::Sleep(target - elapsed)
    }
}

/// Why a step could not be carried out.
#[derive(Copy, Clone, Debug, PartialEq, Eq, Structural)]
pub enum CpuError {
    /// The active table has no entry for the opcode that was fetched at `pc`.
    UnknownOpcode { opcode: u8, pc: u16 },
}

/// The state after one step of the dispatcher, and the t-states it cost.
pub struct StepOutcome {
    pub registers: Registers,
    pub state: InstructionsMapState,
    pub memory: MemoryImage,
    pub cycles: Result<u8, CpuError>,
}

/// The t-states that a processor that is not running consumes per step.
pub const IDLE_CYCLES: u8 = 4;

/// One step of the dispatcher.
///
/// A processor that is not running consumes four t-states and changes nothing.
/// A running one fetches the opcode at PC and looks it up in the active table.
/// An opcode without an entry is an error, and registers and memory stay as they
/// were. Otherwise the handler runs, PC advances by the length of the instruction
/// modulo 2^16 unless the handler wrote PC itself, and the step costs the taken
/// or the not-taken cycles of the entry. The prefix opcode in the primary table
/// selects the prefixed table for the next step only.
pub open spec fn step_spec(registers: Registers, state: InstructionsMapState, memory: MemoryImage) -> StepOutcome {
    if registers.cpu_state != CpuState::Running {
        StepOutcome { registers, state, memory, cycles: Ok(IDLE_CYCLES) }
    } else {
        let opcode = read_byte_spec(memory, registers.pc);
        let next_state = state_after_decode(state, opcode);
        match active_instruction(state, opcode) {
            None => StepOutcome {
                registers,
                state: next_state,
                memory,
                cycles: Err(CpuError::UnknownOpcode { opcode, pc: registers.pc }),
            },
            Some(instruction) => {
                let executed = execute_spec(instruction.operation, registers, memory);
                StepOutcome {
                    registers: if executed.result.update_pc {
                        Registers {
                            pc: offset16(executed.registers.pc, instruction.bytes as int),
                            ..executed.registers
                        }
                    } else {
                        executed.registers
                    },
                    state: next_state,
                    memory: executed.memory,
                    cycles: Ok(
                        if executed.result.action_taken {
                            instruction.cycles.taken
                        } else {
                            instruction.cycles.not_taken
                        },
                    ),
                }
            },
        }
    }
}

/// PC after an instruction of `bytes` bytes, modulo 2^16.
pub fn advance_pc(pc: u16, bytes: u8) -> (next: u16)
    ensures
        next == offset16(pc, bytes as int),
{
    pc.wrapping_add(bytes as u16)
}

/// The processor: the register file and the opcode tables.
pub struct CPU {
    pub registers: Registers,
    pub instructions_maps_manager: InstructionsMapsManager,
}

impl CPU {
    /// The opcode tables are complete.
    pub open spec fn wf(&self) -> bool {
        self.instructions_maps_manager.wf()
    }

    /// The table that the next opcode is looked up in.
    pub open spec fn table_state(&self) -> InstructionsMapState {
        self.instructions_maps_manager@
    }

    /// A processor at reset, with both tables built and the primary one selected.
    pub fn new() -> (cpu: Self)
        ensures
            cpu.wf(),
            cpu.registers == Registers::spec_new(),
            cpu.table_state() == InstructionsMapState::Default,
    {
        CPU { registers: Registers::new(), instructions_maps_manager: InstructionsMapsManager::new() }
    }

    /// Whether the next opcode is looked up in the primary table.
    pub fn is_default_map(&self) -> (b: bool)
        ensures
            b == (self.table_state() == InstructionsMapState::Default),
    {
        self.instructions_maps_manager.is_default_map()
    }

    fn fetch(&self, mmu: &MMU) -> (byte: u8)
        requires
            mmu.wf(),
        ensures
            byte == read_byte_spec(mmu@, self.registers.pc),
    {
        mmu.read_byte(self.registers.pc)
    }

    fn decode(&mut self, byte: u8) -> (instruction: Option<Instruction>)
        requires
            old(self).wf(),
        ensures
            final(self).wf(),
            final(self).registers == old(self).registers,
            instruction == active_instruction(old(self).table_state(), byte),
            final(self).table_state() == state_after_decode(old(self).table_state(), byte),
    {
        let instruction = self.instructions_maps_manager.get_instruction_map().get(byte);
        if byte == 0xCB && self.instructions_maps_manager.is_default_map() {
            self.instructions_maps_manager.set_prefix_cb_state();
        } else {
            self.instructions_maps_manager.reset_state();
        };
        instruction
    }

    fn execute(&mut self, instruction: &Instruction, mmu: &mut MMU) -> (r: (bool, u8))
        requires
            old(self).wf(),
            old(mmu).wf(),
            bit_index_valid(instruction.operation),
        ensures
            final(self).wf(),
            final(self).table_state() == old(self).table_state(),
            final(mmu).wf(),
            final(mmu).rom_len() == old(mmu).rom_len(),
            ({
                let executed = execute_spec(instruction.operation, old(self).registers, old(mmu)@);
                &&& final(self).registers == executed.registers
                &&& final(mmu)@ == executed.memory
                &&& r.0 == executed.result.update_pc
                &&& r.1 == if executed.result.action_taken {
                    instruction.cycles.taken
                } else {
                    instruction.cycles.not_taken
                }
            }),
    {
        let result = instruction.execute(&mut self.registers, mmu);
        match result.action_taken {
            true => (result.update_pc, instruction.cycles.taken),
            false => (result.update_pc, instruction.cycles.not_taken),
        }
    }

    /// Carries out one step of the dispatcher and returns the t-states it cost.
    pub fn step(&mut self, mmu: &mut MMU) -> (cycles: Result<u8, CpuError>)
        requires
            old(self).wf(),
            old(mmu).wf(),
        ensures
            final(self).wf(),
            final(mmu).wf(),
            final(mmu).rom_len() == old(mmu).rom_len(),
            (StepOutcome {
                registers: final(self).registers,
                state: final(self).table_state(),
                memory: final(mmu)@,
                cycles,
            }) == step_spec(old(self).registers, old(self).table_state(), old(mmu)@),
    {
        if self.registers.cpu_state == CpuState::Running {
            let pc = self.registers.pc;
            let byte = self.fetch(mmu);
            proof {
                lemma_tables_bit_index_valid(self.table_state(), byte);
            }
            match self.decode(byte) {
                Some(instruction) => {
                    let (pc_update, cycles) = self.execute(&instruction, mmu);
                    if pc_update {
                        self.registers.pc = advance_pc(self.registers.pc, instruction.bytes);
                    }
                    Ok(cycles)
                },
                None => Err(CpuError::UnknownOpcode { opcode: byte, pc }),
            }
        } else {
            Ok(IDLE_CYCLES)
        }
    }
}

/// PC wraps modulo 2^16: a NOP at the last address leaves PC at 0x0000.
pub proof fn lemma_pc_wraps(registers: Registers, memory: MemoryImage)
    requires
        registers.cpu_state == CpuState::Running,
        registers.pc == 0xFFFF,
        read_byte_spec(memory, 0xFFFF) == 0x00,
    ensures
        step_spec(registers, InstructionsMapState::Default, memory) == (StepOutcome {
            registers: Registers { pc: 0, ..registers },
            state: InstructionsMapState::Default,
            memory,
            cycles: Ok(4),
        }),
{
    reveal(active_instruction);
    reveal(execute_spec);
}

/// Whether `opcode` is a relative jump that is taken under the flags `f`.
pub open spec fn relative_jump_taken(opcode: u8, f: Flags) -> bool {
    ||| opcode == 0x18
    ||| opcode == 0x20 && !f.z
    ||| opcode == 0x28 && f.z
    ||| opcode == 0x30 && !f.c
    ||| opcode == 0x38 && f.c
}

/// The relative jump that `opcode` stands for.
pub open spec fn relative_jump(opcode: u8) -> Operation {
    if opcode == 0x18 {
        Operation::JumpRelative
    } else if opcode == 0x20 {
        Operation::JumpRelativeIf(Condition::NotZero)
    } else if opcode == 0x28 {
        Operation::JumpRelativeIf(Condition::Zero)
    } else if opcode == 0x30 {
        Operation::JumpRelativeIf(Condition::NotCarry)
    } else {
        Operation::JumpRelativeIf(Condition::Carry)
    }
}

proof fn lemma_relative_jump_entry(opcode: u8)
    requires
        opcode == 0x18 || opcode == 0x20 || opcode == 0x28 || opcode == 0x30 || opcode == 0x38,
    ensures
        active_instruction(InstructionsMapState::Default, opcode) == Some(
            instruction_for(relative_jump(opcode)),
        ),
{
    reveal(active_instruction);
    if opcode == 0x18 {
    } else if opcode == 0x20 {
    } else if opcode == 0x28 {
    } else if opcode == 0x30 {
    } else {
    }
}

proof fn lemma_relative_jump_taken(opcode: u8, registers: Registers, memory: MemoryImage)
    requires
        relative_jump_taken(opcode, registers.f),
    ensures
        execute_spec(relative_jump(opcode), registers, memory) == jump_to(
            registers,
            memory,
            relative_target(registers, memory),
        ),
{
    reveal(execute_spec);
}

proof fn lemma_relative_jump_step(registers: Registers, memory: MemoryImage)
    requires
        registers.cpu_state == CpuState::Running,
        relative_jump_taken(read_byte_spec(memory, registers.pc), registers.f),
    ensures
        step_spec(registers, InstructionsMapState::Default, memory) == (StepOutcome {
            registers: Registers { pc: relative_target(registers, memory), ..registers },
            state: InstructionsMapState::Default,
            memory,
            cycles: Ok(12),
        }),
{
    let opcode = read_byte_spec(memory, registers.pc);
    lemma_relative_jump_entry(opcode);
    lemma_relative_jump_taken(opcode, registers, memory);
}

/// A relative jump that is taken lands at the address of the instruction after
/// it plus the offset byte read as a signed number between -128 and 127, modulo
/// 2^16. Nothing else changes, and the step costs 12 t-states.
pub proof fn lemma_relative_jump_range(registers: Registers, memory: MemoryImage)
    requires
        registers.cpu_state == CpuState::Running,
        relative_jump_taken(read_byte_spec(memory, registers.pc), registers.f),
    ensures
        ({
            let offset = signed(immediate8(registers, memory));
            let after = step_spec(registers, InstructionsMapState::Default, memory);
            &&& -128 <= offset <= 127
            &&& after.cycles == Ok::<u8, CpuError>(12)
            &&& after.memory == memory
            &&& after.registers == (Registers {
                pc: offset16(registers.pc, 2 + offset),
                ..registers
            })
        }),
{
    lemma_relative_jump_step(registers, memory);
}

proof fn lemma_relative_target_back(registers: Registers, memory: MemoryImage)
    requires
        read_byte_spec(memory, offset16(registers.pc, 1)) == 0xFE,
    ensures
        (Registers { pc: relative_target(registers, memory), ..registers }) == registers,
{
}

/// A relative jump by -2 that is taken is a loop of one instruction: the step
/// costs 12 t-states and leaves the whole state as it was.
pub proof fn lemma_relative_jump_to_itself(registers: Registers, memory: MemoryImage)
    requires
        registers.cpu_state == CpuState::Running,
        relative_jump_taken(read_byte_spec(memory, registers.pc), registers.f),
        read_byte_spec(memory, offset16(registers.pc, 1)) == 0xFE,
    ensures
        step_spec(registers, InstructionsMapState::Default, memory) == (StepOutcome {
            registers,
            state: InstructionsMapState::Default,
            memory,
            cycles: Ok(12),
        }),
{
    lemma_relative_jump_step(registers, memory);
    lemma_relative_target_back(registers, memory);
}

/// The table that a step leaves selected: the prefixed one after the prefix
/// opcode was fetched from the primary table by a running processor, the
/// primary one after any other fetch. A processor that does not run leaves
/// the selection alone.
pub proof fn lemma_prefix_is_single_shot(registers: Registers, state: InstructionsMapState, memory: MemoryImage)
    ensures
        ({
            let after = step_spec(registers, state, memory);
            if registers.cpu_state != CpuState::Running {
                after.state == state
            } else if state == InstructionsMapState::Default && read_byte_spec(memory, registers.pc)
                == 0xCB {
                after.state == InstructionsMapState::PrefixCB
            } else {
                after.state == InstructionsMapState::Default
            }
        }),
{
}

/// The prefix opcode itself costs 4 t-states and moves PC by one; nothing else changes.
pub proof fn lemma_prefix_step(registers: Registers, memory: MemoryImage)
    requires
        registers.cpu_state == CpuState::Running,
        read_byte_spec(memory, registers.pc) == 0xCB,
    ensures
        step_spec(registers, InstructionsMapState::Default, memory) == (StepOutcome {
            registers: Registers { pc: offset16(registers.pc, 1), ..registers },
            state: InstructionsMapState::PrefixCB,
            memory,
            cycles: Ok(4),
        }),
{
    assert(active_instruction(InstructionsMapState::Default, 0xCB) == Some(
        instruction_for(Operation::Prefix),
    )) by {
        reveal(active_instruction);
    }
    assert(execute_spec(Operation::Prefix, registers, memory) == completed(registers, memory)) by {
        reveal(execute_spec);
    }
}

/// A step fails exactly when a running processor fetches, from the primary
/// table, one of the eleven opcodes that stand for nothing.
pub proof fn lemma_unknown_opcodes(registers: Registers, state: InstructionsMapState, memory: MemoryImage)
    ensures
        ({
            let opcode = read_byte_spec(memory, registers.pc);
            step_spec(registers, state, memory).cycles is Err <==> (registers.cpu_state
                == CpuState::Running && state == InstructionsMapState::Default && (opcode == 0xD3
                || opcode == 0xDB || opcode == 0xDD || opcode == 0xE3 || opcode == 0xE4 || opcode
                == 0xEB || opcode == 0xEC || opcode == 0xED || opcode == 0xF4 || opcode == 0xFC
                || opcode == 0xFD))
        }),
{
    reveal(active_instruction);
    lemma_opcode_fields(read_byte_spec(memory, registers.pc));
}

} // verus!
