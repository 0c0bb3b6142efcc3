//! Names for a few opcodes, for callers that speak of an opcode by name.

use vstd::prelude::*;
use crate::cpu::instructions::{primary_instruction, Cycles, Instruction, Operation};
use crate::cpu::registers::Registers;

verus! {

/// An opcode by name.
#[derive(Debug, Clone, Copy, PartialEq, Eq, Hash, Structural)]
pub enum Opcode {
    /// 0x00.
    Nop,
    /// 0xC3.
    JpA16,
}

impl Opcode {
    /// The byte that encodes the opcode.
    pub open spec fn spec_byte(self) -> u8 {
        match self {
            Opcode::Nop => 0x00,
            Opcode::JpA16 => 0xC3,
        }
    }

    /// Whether a byte encodes an opcode that has a name.
    pub open spec fn is_named(byte: u8) -> bool {
        byte == 0x00 || byte == 0xC3
    }

    /// The opcode that a byte encodes. The byte has to encode one that has a name.
    pub fn from_byte(byte: u8) -> (opcode: Opcode)
        requires
            Self::is_named(byte),
        ensures
            opcode.spec_byte() == byte,
    {
        match byte {
            0x00 => Opcode::Nop,
            _ => Opcode::JpA16,
        }
    }

    /// The opcode that a byte encodes, if it encodes one that has a name.
    pub fn try_from_byte(byte: u8) -> (opcode: Option<Opcode>)
        ensures
            opcode is Some <==> Self::is_named(byte),
            opcode matches Some(o) ==> o.spec_byte() == byte,
    {
        if byte == 0x00 || byte == 0xC3 {
            Some(Opcode::from_byte(byte))
        } else {
            None
        }
    }

    /// The byte that encodes the opcode.
    pub fn byte(&self) -> (byte: u8)
        ensures
            byte == self.spec_byte(),
    {
        match self {
            Opcode::Nop => 0x00,
            Opcode::JpA16 => 0xC3,
        }
    }
}

/// Sets PC to `address`.
pub fn jp_execute(registers: &mut Registers, address: u16)
    ensures
        *final(registers) == (Registers { pc: address, ..*old(registers) }),
{
    registers.pc = address
}

/// The named opcodes, each with its entry of the primary table.
pub fn initialize_opcodes_instructions_map() -> (entries: Vec<(Opcode, Instruction)>)
    ensures
        entries@.len() == 2,
        entries@[0].0 == Opcode::Nop,
        entries@[1].0 == Opcode::JpA16,
        forall|i: int|
            0 <= i < entries@.len() ==> primary_instruction((#[trigger] entries@[i]).0.spec_byte())
                == Some(entries@[i].1),
{
    let mut opcode_instructions: Vec<(Opcode, Instruction)> = Vec::new();
    opcode_instructions.push((Opcode::Nop, Instruction::new(Operation::Nop, Cycles::new(4), 1)));
    opcode_instructions.push(
        (Opcode::JpA16, Instruction::new(Operation::Jump, Cycles::new(16), 1).with_bytes(3)),
    );
    opcode_instructions
}

} // verus!
