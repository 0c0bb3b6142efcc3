//! Instruction records, the two opcode tables and the state that selects between them.

use vstd::prelude::*;
use crate::cpu::instructions::arithmetic_logical::{arithmetic_spec, execute_arithmetic, is_arithmetic};
use crate::cpu::instructions::control::{control_spec, execute_control, is_control};
use crate::cpu::instructions::jump::{execute_jump, is_jump, jump_spec};
use crate::cpu::instructions::load::{execute_load, is_load, load_spec};
use crate::cpu::instructions::operands::Outcome;
use crate::cpu::instructions::shift_rot_bit::{bit_index_valid, execute_shift, shift_spec};
use crate::cpu::registers::Registers;
use crate::mmu::{MemoryImage, MMU};

pub mod arithmetic_logical;
pub mod control;
pub mod jump;
pub mod load;
pub mod mnemonic;
pub mod operands;
pub mod shift_rot_bit;

verus! {

/// What a handler reports back to the dispatcher.
#[derive(Copy, Clone, Debug, PartialEq, Eq, Structural)]
pub struct ExecutionResult {
    /// False exactly when the handler wrote PC itself, so that the dispatcher
    /// must not advance it.
    pub update_pc: bool,
    /// False exactly when a conditional instruction did not take its branch.
    pub action_taken: bool,
}

impl Default for ExecutionResult {
    fn default() -> (r: Self)
        ensures
            r == (ExecutionResult { update_pc: true, action_taken: true }),
    {
        ExecutionResult { update_pc: true, action_taken: true }
    }
}

impl ExecutionResult {
    /// The same report, but the handler wrote PC itself.
    pub fn without_pc_update(self) -> (r: Self)
        ensures
            r == (ExecutionResult { update_pc: false, ..self }),
    {
        ExecutionResult { update_pc: false, ..self }
    }

    /// The same report, but the branch was not taken.
    pub fn without_action(self) -> (r: Self)
        ensures
            r == (ExecutionResult { action_taken: false, ..self }),
    {
        ExecutionResult { action_taken: false, ..self }
    }
}

/// The cost of an instruction in t-states.
#[derive(Copy, Clone, Debug, PartialEq, Eq, Structural)]
pub struct Cycles {
    /// Cost when the instruction acts (always, for an unconditional one).
    pub taken: u8,
    /// Cost when a conditional instruction does not take its branch.
    pub not_taken: u8,
}

impl Cycles {
    /// A cost that is the same whether the instruction acts or not.
    pub fn new(taken: u8) -> (c: Self)
        ensures
            c == (Cycles { taken, not_taken: taken }),
    {
        Cycles { taken, not_taken: taken }
    }

    /// The same cost, but `not_taken` t-states when the branch is not taken.
    pub fn with_not_taken(self, not_taken: u8) -> (c: Self)
        ensures
            c == (Cycles { not_taken, ..self }),
    {
        Cycles { not_taken, ..self }
    }
}

/// An 8-bit operand: a register, or the byte that HL points to.
#[derive(Copy, Clone, Debug, PartialEq, Eq, Structural)]
pub enum Operand8 {
    B,
    C,
    D,
    E,
    H,
    L,
    HlIndirect,
    A,
}

/// A 16-bit register operand.
#[derive(Copy, Clone, Debug, PartialEq, Eq, Structural)]
pub enum Pair {
    BC,
    DE,
    HL,
    SP,
}

/// A register pair that PUSH and POP move.
#[derive(Copy, Clone, Debug, PartialEq, Eq, Structural)]
pub enum StackPair {
    BC,
    DE,
    HL,
    AF,
}

/// The memory operand of the accumulator loads that go through a register pair.
#[derive(Copy, Clone, Debug, PartialEq, Eq, Structural)]
pub enum Indirect {
    BC,
    DE,
    /// Through HL, which is incremented afterwards.
    HlIncrement,
    /// Through HL, which is decremented afterwards.
    HlDecrement,
}

/// A branch condition.
#[derive(Copy, Clone, Debug, PartialEq, Eq, Structural)]
pub enum Condition {
    NotZero,
    Zero,
    NotCarry,
    Carry,
}

/// The eight accumulator operations that take an 8-bit operand.
#[derive(Copy, Clone, Debug, PartialEq, Eq, Structural)]
pub enum AluOp {
    Add,
    Adc,
    Sub,
    Sbc,
    And,
    Xor,
    Or,
    Cp,
}

/// The eight rotate and shift operations of the prefixed table.
#[derive(Copy, Clone, Debug, PartialEq, Eq, Structural)]
pub enum RotOp {
    Rlc,
    Rrc,
    Rl,
    Rr,
    Sla,
    Sra,
    Swap,
    Srl,
}

/// What an instruction does, with its operands.
#[derive(Copy, Clone, Debug, PartialEq, Eq, Structural)]
pub enum Operation {
    Nop,
    Stop,
    Halt,
    Prefix,
    Di,
    Ei,
    /// LD dst, src between registers and (HL).
    Load8(Operand8, Operand8),
    /// LD dst, d8.
    LoadImmediate8(Operand8),
    /// LD (rr), A.
    StoreAccumulator(Indirect),
    /// LD A, (rr).
    LoadAccumulator(Indirect),
    /// LDH (a8), A.
    StoreHighImmediate,
    /// LDH A, (a8).
    LoadHighImmediate,
    /// LDH (C), A.
    StoreHighC,
    /// LDH A, (C).
    LoadHighC,
    /// LD (a16), A.
    StoreAbsolute,
    /// LD A, (a16).
    LoadAbsolute,
    /// LD rr, d16.
    LoadImmediate16(Pair),
    /// LD (a16), SP.
    StoreStackPointer,
    /// LD SP, HL.
    LoadStackPointerHl,
    /// LD HL, SP+r8.
    LoadHlStackOffset,
    Push(StackPair),
    Pop(StackPair),
    Inc8(Operand8),
    Dec8(Operand8),
    /// An accumulator operation with a register or (HL).
    Alu(AluOp, Operand8),
    /// An accumulator operation with d8.
    AluImmediate(AluOp),
    Daa,
    Cpl,
    Scf,
    Ccf,
    Inc16(Pair),
    Dec16(Pair),
    /// ADD HL, rr.
    AddHl(Pair),
    /// ADD SP, r8.
    AddStackOffset,
    Rlca,
    Rrca,
    Rla,
    Rra,
    Rotate(RotOp, Operand8),
    /// BIT n, r.
    TestBit(u8, Operand8),
    /// RES n, r.
    ResetBit(u8, Operand8),
    /// SET n, r.
    SetBit(u8, Operand8),
    /// JP a16.
    Jump,
    /// JP cc, a16.
    JumpIf(Condition),
    /// JP HL.
    JumpHl,
    /// JR r8.
    JumpRelative,
    /// JR cc, r8.
    JumpRelativeIf(Condition),
    /// CALL a16.
    Call,
    /// CALL cc, a16.
    CallIf(Condition),
    Ret,
    /// RET cc.
    RetIf(Condition),
    Reti,
    /// RST to the given address.
    Rst(u8),
}

/// One entry of an opcode table.
#[derive(Copy, Clone, Debug, PartialEq, Eq, Structural)]
pub struct Instruction {
    pub operation: Operation,
    pub cycles: Cycles,
    /// Length of the instruction in bytes, the opcode included.
    pub bytes: u8,
}

/// What the handler of an operation does to the registers and the memory, and
/// what it reports. PC is advanced by the dispatcher, not here.
///
/// The definition is hidden from the solver by default: `reveal(execute_spec)`
/// brings it in where a proof needs it.
pub open spec fn execute_spec(operation: Operation, registers: Registers, memory: MemoryImage) -> Outcome {
    if is_control(operation) {
        control_spec(operation, registers, memory)
    } else if is_jump(operation) {
        jump_spec(operation, registers, memory)
    } else if is_load(operation) {
        load_spec(operation, registers, memory)
    } else if is_arithmetic(operation) {
        arithmetic_spec(operation, registers, memory)
    } else {
        shift_spec(operation, registers, memory)
    }
}

impl Instruction {
    /// A table entry.
    pub fn new(operation: Operation, cycles: Cycles, bytes: u8) -> (i: Self)
        ensures
            i == (Instruction { operation, cycles, bytes }),
    {
        Instruction { operation, cycles, bytes }
    }

    /// The same record with another length.
    pub fn with_bytes(self, bytes: u8) -> (i: Self)
        ensures
            i == (Instruction { bytes, ..self }),
    {
        Instruction { bytes, ..self }
    }

    /// The same record with another cost for a branch that is not taken.
    pub fn with_cycles_not_taken(self, cycles_not_taken: u8) -> (i: Self)
        ensures
            i == (Instruction { cycles: Cycles { not_taken: cycles_not_taken, ..self.cycles }, ..self }),
    {
        Instruction { cycles: self.cycles.with_not_taken(cycles_not_taken), ..self }
    }

    /// The short text that names the instruction in a disassembly.
    pub fn mnemonic(&self) -> (text: String)
        ensures
            text@ == mnemonic::mnemonic_text(self.operation),
    {
        mnemonic::mnemonic(self.operation)
    }

    /// Runs the handler of the instruction.
    pub fn execute(&self, registers: &mut Registers, mmu: &mut MMU) -> (result: ExecutionResult)
        requires
            bit_index_valid(self.operation),
            old(mmu).wf(),
        ensures
            final(mmu).wf(),
            final(mmu).rom_len() == old(mmu).rom_len(),
            (Outcome { registers: *final(registers), memory: final(mmu)@, result }) == execute_spec(
                self.operation,
                *old(registers),
                old(mmu)@,
            ),
    {
        reveal(execute_spec);
        match self.operation {
            Operation::Nop | Operation::Stop | Operation::Halt | Operation::Prefix | Operation::Di
            | Operation::Ei => execute_control(self.operation, registers, mmu),
            Operation::Jump | Operation::JumpIf(_) | Operation::JumpHl | Operation::JumpRelative
            | Operation::JumpRelativeIf(_) | Operation::Call | Operation::CallIf(_) | Operation::Ret
            | Operation::RetIf(_) | Operation::Reti | Operation::Rst(_) => execute_jump(
                self.operation,
                registers,
                mmu,
            ),
            Operation::Load8(_, _) | Operation::LoadImmediate8(_) | Operation::StoreAccumulator(_)
            | Operation::LoadAccumulator(_) | Operation::StoreHighImmediate
            | Operation::LoadHighImmediate | Operation::StoreHighC | Operation::LoadHighC
            | Operation::StoreAbsolute | Operation::LoadAbsolute | Operation::LoadImmediate16(_)
            | Operation::StoreStackPointer | Operation::LoadStackPointerHl
            | Operation::LoadHlStackOffset | Operation::Push(_) | Operation::Pop(_) => execute_load(
                self.operation,
                registers,
                mmu,
            ),
            Operation::Inc8(_) | Operation::Dec8(_) | Operation::Alu(_, _)
            | Operation::AluImmediate(_) | Operation::Daa | Operation::Cpl | Operation::Scf
            | Operation::Ccf | Operation::Inc16(_) | Operation::Dec16(_) | Operation::AddHl(_)
            | Operation::AddStackOffset => execute_arithmetic(self.operation, registers, mmu),
            Operation::Rlca | Operation::Rrca | Operation::Rla | Operation::Rra
            | Operation::Rotate(_, _) | Operation::TestBit(_, _) | Operation::ResetBit(_, _)
            | Operation::SetBit(_, _) => execute_shift(self.operation, registers, mmu),
        }
    }
}

/// The operand that the three-bit field `code` of an opcode names.
pub open spec fn operand8_of(code: int) -> Operand8 {
    if code == 0 {
        Operand8::B
    } else if code == 1 {
        Operand8::C
    } else if code == 2 {
        Operand8::D
    } else if code == 3 {
        Operand8::E
    } else if code == 4 {
        Operand8::H
    } else if code == 5 {
        Operand8::L
    } else if code == 6 {
        Operand8::HlIndirect
    } else {
        Operand8::A
    }
}

/// The register pair that the two-bit field `code` of an opcode names.
pub open spec fn pair_of(code: int) -> Pair {
    if code == 0 {
        Pair::BC
    } else if code == 1 {
        Pair::DE
    } else if code == 2 {
        Pair::HL
    } else {
        Pair::SP
    }
}

/// The pair that the two-bit field `code` of a PUSH or POP names.
pub open spec fn stack_pair_of(code: int) -> StackPair {
    if code == 0 {
        StackPair::BC
    } else if code == 1 {
        StackPair::DE
    } else if code == 2 {
        StackPair::HL
    } else {
        StackPair::AF
    }
}

/// The memory operand that the two-bit field `code` of an accumulator load names.
pub open spec fn indirect_of(code: int) -> Indirect {
    if code == 0 {
        Indirect::BC
    } else if code == 1 {
        Indirect::DE
    } else if code == 2 {
        Indirect::HlIncrement
    } else {
        Indirect::HlDecrement
    }
}

/// The condition that the two-bit field `code` of a branch names.
pub open spec fn condition_of(code: int) -> Condition {
    if code == 0 {
        Condition::NotZero
    } else if code == 1 {
        Condition::Zero
    } else if code == 2 {
        Condition::NotCarry
    } else {
        Condition::Carry
    }
}

/// The accumulator operation that the three-bit field `code` of an opcode names.
pub open spec fn alu_op_of(code: int) -> AluOp {
    if code == 0 {
        AluOp::Add
    } else if code == 1 {
        AluOp::Adc
    } else if code == 2 {
        AluOp::Sub
    } else if code == 3 {
        AluOp::Sbc
    } else if code == 4 {
        AluOp::And
    } else if code == 5 {
        AluOp::Xor
    } else if code == 6 {
        AluOp::Or
    } else {
        AluOp::Cp
    }
}

/// The rotate or shift that the three-bit field `code` of a prefixed opcode names.
pub open spec fn rot_op_of(code: int) -> RotOp {
    if code == 0 {
        RotOp::Rlc
    } else if code == 1 {
        RotOp::Rrc
    } else if code == 2 {
        RotOp::Rl
    } else if code == 3 {
        RotOp::Rr
    } else if code == 4 {
        RotOp::Sla
    } else if code == 5 {
        RotOp::Sra
    } else if code == 6 {
        RotOp::Swap
    } else {
        RotOp::Srl
    }
}

/// The operation of the primary table's opcodes 0x00 to 0x3F, by the fields
/// `y` (bits 5 to 3) and `z` (bits 2 to 0) of the opcode.
pub open spec fn primary_low_operation(y: int, z: int) -> Operation {
    if z == 0 {
        if y == 0 {
            Operation::Nop
        } else if y == 1 {
            Operation::StoreStackPointer
        } else if y == 2 {
            Operation::Stop
        } else if y == 3 {
            Operation::JumpRelative
        } else {
            Operation::JumpRelativeIf(condition_of(y - 4))
        }
    } else if z == 1 {
        if y % 2 == 0 {
            Operation::LoadImmediate16(pair_of(y / 2))
        } else {
            Operation::AddHl(pair_of(y / 2))
        }
    } else if z == 2 {
        if y % 2 == 0 {
            Operation::StoreAccumulator(indirect_of(y / 2))
        } else {
            Operation::LoadAccumulator(indirect_of(y / 2))
        }
    } else if z == 3 {
        if y % 2 == 0 {
            Operation::Inc16(pair_of(y / 2))
        } else {
            Operation::Dec16(pair_of(y / 2))
        }
    } else if z == 4 {
        Operation::Inc8(operand8_of(y))
    } else if z == 5 {
        Operation::Dec8(operand8_of(y))
    } else if z == 6 {
        Operation::LoadImmediate8(operand8_of(y))
    } else if y == 0 {
        Operation::Rlca
    } else if y == 1 {
        Operation::Rrca
    } else if y == 2 {
        Operation::Rla
    } else if y == 3 {
        Operation::Rra
    } else if y == 4 {
        Operation::Daa
    } else if y == 5 {
        Operation::Cpl
    } else if y == 6 {
        Operation::Scf
    } else {
        Operation::Ccf
    }
}

/// The operation of the primary table's opcodes 0xC0 to 0xFF, by the fields
/// `y` and `z` of the opcode: `None` for the eleven opcodes that are undefined.
pub open spec fn primary_high_operation(y: int, z: int) -> Option<Operation> {
    if z == 0 {
        if y < 4 {
            Some(Operation::RetIf(condition_of(y)))
        } else if y == 4 {
            Some(Operation::StoreHighImmediate)
        } else if y == 5 {
            Some(Operation::AddStackOffset)
        } else if y == 6 {
            Some(Operation::LoadHighImmediate)
        } else {
            Some(Operation::LoadHlStackOffset)
        }
    } else if z == 1 {
        if y % 2 == 0 {
            Some(Operation::Pop(stack_pair_of(y / 2)))
        } else if y == 1 {
            Some(Operation::Ret)
        } else if y == 3 {
            Some(Operation::Reti)
        } else if y == 5 {
            Some(Operation::JumpHl)
        } else {
            Some(Operation::LoadStackPointerHl)
        }
    } else if z == 2 {
        if y < 4 {
            Some(Operation::JumpIf(condition_of(y)))
        } else if y == 4 {
            Some(Operation::StoreHighC)
        } else if y == 5 {
            Some(Operation::StoreAbsolute)
        } else if y == 6 {
            Some(Operation::LoadHighC)
        } else {
            Some(Operation::LoadAbsolute)
        }
    } else if z == 3 {
        if y == 0 {
            Some(Operation::Jump)
        } else if y == 1 {
            Some(Operation::Prefix)
        } else if y == 6 {
            Some(Operation::Di)
        } else if y == 7 {
            Some(Operation::Ei)
        } else {
            None
        }
    } else if z == 4 {
        if y < 4 {
            Some(Operation::CallIf(condition_of(y)))
        } else {
            None
        }
    } else if z == 5 {
        if y % 2 == 0 {
            Some(Operation::Push(stack_pair_of(y / 2)))
        } else if y == 1 {
            Some(Operation::Call)
        } else {
            None
        }
    } else if z == 6 {
        Some(Operation::AluImmediate(alu_op_of(y)))
    } else {
        Some(Operation::Rst((y * 8) as u8))
    }
}

/// An opcode is made of its three bit fields: bits 7 to 6, 5 to 3 and 2 to 0.
pub proof fn lemma_opcode_fields(opcode: u8)
    ensures
        opcode == 64 * (opcode / 64) + 8 * ((opcode / 8) % 8) + opcode % 8,
        0 <= opcode / 64 < 4,
        0 <= (opcode / 8) % 8 < 8,
        0 <= opcode % 8 < 8,
{
}

/// The operation that an opcode of the primary table stands for, read off the
/// opcode's bit fields: `None` for an undefined opcode.
pub open spec fn primary_operation(opcode: u8) -> Option<Operation> {
    let x = opcode / 64;
    let y = (opcode / 8) % 8;
    let z = opcode % 8;
    if x == 0 {
        Some(primary_low_operation(y as int, z as int))
    } else if x == 1 {
        if opcode == 0x76 {
            Some(Operation::Halt)
        } else {
            Some(Operation::Load8(operand8_of(y as int), operand8_of(z as int)))
        }
    } else if x == 2 {
        Some(Operation::Alu(alu_op_of(y as int), operand8_of(z as int)))
    } else {
        primary_high_operation(y as int, z as int)
    }
}

/// The operation that an opcode of the prefixed table stands for.
pub open spec fn prefix_cb_operation(opcode: u8) -> Operation {
    let x = opcode / 64;
    let y = (opcode / 8) % 8;
    let z = opcode % 8;
    if x == 0 {
        Operation::Rotate(rot_op_of(y as int), operand8_of(z as int))
    } else if x == 1 {
        Operation::TestBit(y, operand8_of(z as int))
    } else if x == 2 {
        Operation::ResetBit(y, operand8_of(z as int))
    } else {
        Operation::SetBit(y, operand8_of(z as int))
    }
}

/// The cost of an operation in t-states, taken and not taken.
pub open spec fn timing(operation: Operation) -> Cycles {
    match operation {
        Operation::Nop | Operation::Stop | Operation::Halt | Operation::Prefix | Operation::Di
        | Operation::Ei => Cycles { taken: 4, not_taken: 4 },
        Operation::Load8(dst, src) => if dst == Operand8::HlIndirect || src
            == Operand8::HlIndirect {
            Cycles { taken: 8, not_taken: 8 }
        } else {
            Cycles { taken: 4, not_taken: 4 }
        },
        Operation::LoadImmediate8(dst) => if dst == Operand8::HlIndirect {
            Cycles { taken: 12, not_taken: 12 }
        } else {
            Cycles { taken: 8, not_taken: 8 }
        },
        Operation::StoreAccumulator(_) | Operation::LoadAccumulator(_) => Cycles {
            taken: 8,
            not_taken: 8,
        },
        Operation::StoreHighImmediate | Operation::LoadHighImmediate => Cycles {
            taken: 12,
            not_taken: 12,
        },
        Operation::StoreHighC | Operation::LoadHighC => Cycles { taken: 8, not_taken: 8 },
        Operation::StoreAbsolute | Operation::LoadAbsolute => Cycles { taken: 16, not_taken: 16 },
        Operation::LoadImmediate16(_) => Cycles { taken: 12, not_taken: 12 },
        Operation::StoreStackPointer => Cycles { taken: 20, not_taken: 20 },
        Operation::LoadStackPointerHl => Cycles { taken: 8, not_taken: 8 },
        Operation::LoadHlStackOffset => Cycles { taken: 12, not_taken: 12 },
        Operation::Push(_) => Cycles { taken: 16, not_taken: 16 },
        Operation::Pop(_) => Cycles { taken: 12, not_taken: 12 },
        Operation::Inc8(r) | Operation::Dec8(r) => if r == Operand8::HlIndirect {
            Cycles { taken: 12, not_taken: 12 }
        } else {
            Cycles { taken: 4, not_taken: 4 }
        },
        Operation::Alu(_, r) => if r == Operand8::HlIndirect {
            Cycles { taken: 8, not_taken: 8 }
        } else {
            Cycles { taken: 4, not_taken: 4 }
        },
        Operation::AluImmediate(_) => Cycles { taken: 8, not_taken: 8 },
        Operation::Daa | Operation::Cpl | Operation::Scf | Operation::Ccf => Cycles {
            taken: 4,
            not_taken: 4,
        },
        Operation::Inc16(_) | Operation::Dec16(_) | Operation::AddHl(_) => Cycles {
            taken: 8,
            not_taken: 8,
        },
        Operation::AddStackOffset => Cycles { taken: 16, not_taken: 16 },
        Operation::Rlca | Operation::Rrca | Operation::Rla | Operation::Rra => Cycles {
            taken: 4,
            not_taken: 4,
        },
        Operation::Rotate(_, r) | Operation::ResetBit(_, r) | Operation::SetBit(_, r) => if r
            == Operand8::HlIndirect {
            Cycles { taken: 16, not_taken: 16 }
        } else {
            Cycles { taken: 8, not_taken: 8 }
        },
        Operation::TestBit(_, r) => if r == Operand8::HlIndirect {
            Cycles { taken: 12, not_taken: 12 }
        } else {
            Cycles { taken: 8, not_taken: 8 }
        },
        Operation::Jump => Cycles { taken: 16, not_taken: 16 },
        Operation::JumpIf(_) => Cycles { taken: 16, not_taken: 12 },
        Operation::JumpHl => Cycles { taken: 4, not_taken: 4 },
        Operation::JumpRelative => Cycles { taken: 12, not_taken: 12 },
        Operation::JumpRelativeIf(_) => Cycles { taken: 12, not_taken: 8 },
        Operation::Call => Cycles { taken: 24, not_taken: 24 },
        Operation::CallIf(_) => Cycles { taken: 24, not_taken: 12 },
        Operation::Ret | Operation::Reti => Cycles { taken: 16, not_taken: 16 },
        Operation::RetIf(_) => Cycles { taken: 20, not_taken: 8 },
        Operation::Rst(_) => Cycles { taken: 16, not_taken: 16 },
    }
}

/// The length of an operation's encoding in bytes, the opcode included. An
/// instruction of the prefixed table counts its prefix byte: the dispatcher
/// advances PC by one for the prefix and then by two for the instruction.
pub open spec fn length(operation: Operation) -> u8 {
    match operation {
        Operation::Stop | Operation::LoadImmediate8(_) | Operation::StoreHighImmediate
        | Operation::LoadHighImmediate | Operation::LoadHlStackOffset | Operation::AluImmediate(_)
        | Operation::AddStackOffset | Operation::JumpRelative | Operation::JumpRelativeIf(_)
        | Operation::Rotate(_, _) | Operation::TestBit(_, _) | Operation::ResetBit(_, _) | Operation::SetBit(
            _,
            _,
        ) => 2,
        Operation::StoreAbsolute | Operation::LoadAbsolute | Operation::LoadImmediate16(_)
        | Operation::StoreStackPointer | Operation::Jump | Operation::JumpIf(_) | Operation::Call
        | Operation::CallIf(_) => 3,
        _ => 1,
    }
}

/// The record that the tables hold for an operation.
pub open spec fn instruction_for(operation: Operation) -> Instruction {
    Instruction { operation, cycles: timing(operation), bytes: length(operation) }
}

/// The entry of the primary table for an opcode: `None` for an undefined opcode.
pub open spec fn primary_instruction(opcode: u8) -> Option<Instruction> {
    match primary_operation(opcode) {
        Some(operation) => Some(instruction_for(operation)),
        None => None,
    }
}

/// The entry of the prefixed table for an opcode.
pub open spec fn prefix_cb_instruction(opcode: u8) -> Option<Instruction> {
    Some(instruction_for(prefix_cb_operation(opcode)))
}

/// A dense table from opcode to instruction.
pub struct InstructionsMap {
    entries: Vec<Option<Instruction>>,
}

impl InstructionsMap {
    /// The table has one slot for each of the 256 opcodes.
    pub closed spec fn wf(&self) -> bool {
        self.entries.len() == 256
    }

    /// The 256 slots, by opcode.
    pub closed spec fn view(&self) -> Seq<Option<Instruction>> {
        self.entries@
    }

    /// A table has 256 slots.
    pub proof fn lemma_len(&self)
        requires
            self.wf(),
        ensures
            self@.len() == 256,
    {
    }

    /// A table with no entry.
    pub fn new() -> (table: Self)
        ensures
            table.wf(),
            table@ == Seq::new(256, |i: int| None::<Instruction>),
    {
        let table = InstructionsMap { entries: vec![None; 256] };
        assert(table@ =~= Seq::new(256, |i: int| None::<Instruction>));
        table
    }

    /// Sets the entry of `opcode`.
    pub fn insert(&mut self, opcode: u8, instruction: Instruction)
        requires
            old(self).wf(),
        ensures
            final(self).wf(),
            final(self)@ == old(self)@.update(opcode as int, Some(instruction)),
    {
        self.entries.set(opcode as usize, Some(instruction));
    }

    /// The entry of `opcode`.
    pub fn get(&self, opcode: u8) -> (entry: Option<Instruction>)
        requires
            self.wf(),
        ensures
            entry == self@[opcode as int],
    {
        self.entries[opcode as usize]
    }
}

/// Which table the next opcode is looked up in.
#[derive(Copy, Clone, Debug, PartialEq, Eq, Structural)]
pub enum InstructionsMapState {
    Default,
    PrefixCB,
}

/// The entry for `opcode` in the table that `state` selects.
#[verifier::opaque]
pub open spec fn active_instruction(state: InstructionsMapState, opcode: u8) -> Option<Instruction> {
    match state {
        InstructionsMapState::Default => primary_instruction(opcode),
        InstructionsMapState::PrefixCB => prefix_cb_instruction(opcode),
    }
}

/// The table state after `opcode` was decoded in `state`: the prefix opcode in the
/// primary table selects the prefixed table for one decode, anything else the
/// primary table.
pub open spec fn state_after_decode(state: InstructionsMapState, opcode: u8) -> InstructionsMapState {
    if opcode == 0xCB && state == InstructionsMapState::Default {
        InstructionsMapState::PrefixCB
    } else {
        InstructionsMapState::Default
    }
}

/// Every entry of both tables names a bit between 0 and 7 where it names one.
pub proof fn lemma_tables_bit_index_valid(state: InstructionsMapState, opcode: u8)
    ensures
        active_instruction(state, opcode) matches Some(i) ==> bit_index_valid(i.operation),
{
    reveal(active_instruction);
}

/// The two opcode tables and the state that selects between them.
pub struct InstructionsMapsManager {
    default_map: InstructionsMap,
    prefix_cb_map: InstructionsMap,
    state: InstructionsMapState,
}

impl InstructionsMapsManager {
    /// Both tables are complete: each holds, for every opcode, the entry that the
    /// opcode's bit fields stand for.
    pub closed spec fn wf(&self) -> bool {
        &&& self.default_map.wf()
        &&& self.prefix_cb_map.wf()
        &&& forall|opcode: u8| #![auto] self.default_map@[opcode as int] == primary_instruction(opcode)
        &&& forall|opcode: u8|
            #![auto]
            self.prefix_cb_map@[opcode as int] == prefix_cb_instruction(opcode)
    }

    /// The table that the next opcode is looked up in.
    pub closed spec fn view(&self) -> InstructionsMapState {
        self.state
    }

    /// Builds both tables; the primary table is selected.
    pub fn new() -> (manager: Self)
        ensures
            manager.wf(),
            manager@ == InstructionsMapState::Default,
    {
        let mut default_map = InstructionsMap::new();
        let mut prefix_cb_map = InstructionsMap::new();

        control::instructions_map_control_commands(&mut default_map);
        jump::instructions_map_jump_commands(&mut default_map);
        load::instructions_map_load_instructions(&mut default_map);
        arithmetic_logical::instructions_map_arithmetic_logical_instructions(&mut default_map);
        shift_rot_bit::instructions_map_shift_rot_bit_instructions(
            &mut default_map,
            &mut prefix_cb_map,
        );

        InstructionsMapsManager {
            default_map,
            prefix_cb_map,
            state: InstructionsMapState::Default,
        }
    }

    /// The table that is selected.
    pub fn get_instruction_map(&self) -> (table: &InstructionsMap)
        requires
            self.wf(),
        ensures
            table.wf(),
            forall|opcode: u8| #![auto] table@[opcode as int] == active_instruction(self@, opcode),
    {
        reveal(active_instruction);
        match self.state {
            InstructionsMapState::Default => &self.default_map,
            InstructionsMapState::PrefixCB => &self.prefix_cb_map,
        }
    }

    /// Whether the primary table is selected.
    pub fn is_default_map(&self) -> (b: bool)
        ensures
            b == (self@ == InstructionsMapState::Default),
    {
        self.state == InstructionsMapState::Default
    }

    /// Selects the prefixed table.
    pub fn set_prefix_cb_state(&mut self)
        requires
            old(self).wf(),
        ensures
            final(self).wf(),
            final(self)@ == InstructionsMapState::PrefixCB,
    {
        self.state = InstructionsMapState::PrefixCB
    }

    /// Selects the primary table.
    pub fn reset_state(&mut self)
        requires
            old(self).wf(),
        ensures
            final(self).wf(),
            final(self)@ == InstructionsMapState::Default,
    {
        self.state = InstructionsMapState::Default
    }
}

} // verus!
