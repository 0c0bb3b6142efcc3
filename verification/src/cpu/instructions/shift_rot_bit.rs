//! Rotates, shifts and single-bit operations, and their table entries.

use vstd::prelude::*;
use crate::cpu::instructions::arithmetic_logical::carry_in;
use crate::cpu::instructions::operands::{
    accumulated, completed, loaded8, operand8_value, read_operand8, stored8, write_operand8,
    Outcome,
};
use crate::cpu::instructions::{
    prefix_cb_instruction, prefix_cb_operation, primary_instruction, primary_operation, Cycles,
    ExecutionResult, Instruction, InstructionsMap, Operand8, Operation, RotOp,
};
use crate::cpu::registers::{Flags, Registers};
use crate::mmu::{MemoryImage, MMU};

verus! {

/// The flags after a rotate or shift: Z from the result, N and H cleared, C as given.
pub open spec fn shift_flags(r: u8, carry: bool) -> Flags {
    Flags { z: r == 0, n: false, h: false, c: carry }
}

/// Rotate left: bit 7 goes to the carry and to bit 0.
pub open spec fn rlc_spec(x: u8, f: Flags) -> (u8, Flags) {
    let r = ((2 * x) % 256 + x / 128) as u8;
    (r, shift_flags(r, x >= 128))
}

/// Rotate right: bit 0 goes to the carry and to bit 7.
pub open spec fn rrc_spec(x: u8, f: Flags) -> (u8, Flags) {
    let r = (x / 2 + 128 * (x % 2)) as u8;
    (r, shift_flags(r, x % 2 == 1))
}

/// Rotate left through the carry: the old carry goes to bit 0, bit 7 to the carry.
pub open spec fn rl_spec(x: u8, f: Flags) -> (u8, Flags) {
    let r = ((2 * x) % 256 + carry_in(f)) as u8;
    (r, shift_flags(r, x >= 128))
}

/// Rotate right through the carry: the old carry goes to bit 7, bit 0 to the carry.
pub open spec fn rr_spec(x: u8, f: Flags) -> (u8, Flags) {
    let r = (x / 2 + 128 * carry_in(f)) as u8;
    (r, shift_flags(r, x % 2 == 1))
}

/// Shift left: bit 7 goes to the carry, bit 0 becomes zero.
pub open spec fn sla_spec(x: u8, f: Flags) -> (u8, Flags) {
    let r = ((2 * x) % 256) as u8;
    (r, shift_flags(r, x >= 128))
}

/// Arithmetic shift right: bit 0 goes to the carry, bit 7 keeps its value.
pub open spec fn sra_spec(x: u8, f: Flags) -> (u8, Flags) {
    let r = (x / 2 + (if x >= 128 {
        128int
    } else {
        0
    })) as u8;
    (r, shift_flags(r, x % 2 == 1))
}

/// Logical shift right: bit 0 goes to the carry, bit 7 becomes zero.
pub open spec fn srl_spec(x: u8, f: Flags) -> (u8, Flags) {
    let r = (x / 2) as u8;
    (r, shift_flags(r, x % 2 == 1))
}

/// Exchange of the two nibbles.
pub open spec fn swap_spec(x: u8, f: Flags) -> (u8, Flags) {
    let r = ((x % 16) * 16 + x / 16) as u8;
    (r, shift_flags(r, false))
}

/// The flags after testing bit `n` of `x`: Z is set exactly when the bit is zero.
pub open spec fn bit_spec(n: u8, x: u8, f: Flags) -> Flags {
    Flags { z: (x >> n) & 1 == 0, n: false, h: true, c: f.c }
}

/// `x` with bit `n` cleared.
pub open spec fn res_spec(n: u8, x: u8) -> u8 {
    x & !(1u8 << n)
}

/// `x` with bit `n` set.
pub open spec fn set_spec(n: u8, x: u8) -> u8 {
    x | (1u8 << n)
}

proof fn lemma_rotate_left_bits(x: u8, cin: u8)
    by (bit_vector)
    requires
        cin <= 1,
    ensures
        (x >> 7 != 0) == (x >= 128),
        (x & 0x80 != 0) == (x >= 128),
        x << 1 == (2 * x) % 256,
        (x << 1) | (x >> 7) == (2 * x) % 256 + x / 128,
        (x << 1) | cin == (2 * x) % 256 + cin,
{
}

proof fn lemma_rotate_right_bits(x: u8, cin: u8)
    by (bit_vector)
    requires
        cin <= 1,
    ensures
        x & 1 == x % 2,
        x >> 1 == x / 2,
        (x & 1) << 7 == 128 * (x % 2),
        (x >> 1) | ((x & 1) << 7) == x / 2 + 128 * (x % 2),
        cin << 7 == 128 * cin,
        (x >> 1) | (cin << 7) == x / 2 + 128 * cin,
        (x >> 1) | (x & 0x80) == x / 2 + (if x >= 128 {
            128int
        } else {
            0
        }),
{
}

proof fn lemma_swap_bits(x: u8)
    by (bit_vector)
    ensures
        (x << 4) | (x >> 4) == (x % 16) * 16 + x / 16,
{
}

/// Rotates a byte left.
pub fn rlc(x: u8, flags: &mut Flags) -> (r: u8)
    ensures
        (r, *final(flags)) == rlc_spec(x, *old(flags)),
{
    proof {
        lemma_rotate_left_bits(x, 0);
    }
    let carry = x >> 7;
    let result = (x << 1) | carry;
    flags.z = result == 0;
    flags.n = false;
    flags.h = false;
    flags.c = carry != 0;
    result
}

/// Rotates a byte right.
pub fn rrc(x: u8, flags: &mut Flags) -> (r: u8)
    ensures
        (r, *final(flags)) == rrc_spec(x, *old(flags)),
{
    proof {
        lemma_rotate_right_bits(x, 0);
    }
    let carry = x & 1;
    let result = (x >> 1) | (carry << 7);
    flags.z = result == 0;
    flags.n = false;
    flags.h = false;
    flags.c = carry != 0;
    result
}

/// Rotates a byte left through the carry.
pub fn rl(x: u8, flags: &mut Flags) -> (r: u8)
    ensures
        (r, *final(flags)) == rl_spec(x, *old(flags)),
{
    let carry: u8 = if flags.c { 1 } else { 0 };
    proof {
        lemma_rotate_left_bits(x, carry);
    }
    let result = (x << 1) | carry;
    flags.z = result == 0;
    flags.n = false;
    flags.h = false;
    flags.c = (x & 0x80) != 0;
    result
}

/// Rotates a byte right through the carry.
pub fn rr(x: u8, flags: &mut Flags) -> (r: u8)
    ensures
        (r, *final(flags)) == rr_spec(x, *old(flags)),
{
    let carry: u8 = if flags.c { 1 } else { 0 };
    proof {
        lemma_rotate_right_bits(x, carry);
    }
    let result = (x >> 1) | (carry << 7);
    flags.z = result == 0;
    flags.n = false;
    flags.h = false;
    flags.c = (x & 1) != 0;
    result
}

/// Shifts a byte left.
pub fn sla(x: u8, flags: &mut Flags) -> (r: u8)
    ensures
        (r, *final(flags)) == sla_spec(x, *old(flags)),
{
    proof {
        lemma_rotate_left_bits(x, 0);
    }
    let carry = x >> 7;
    let result = x << 1;
    flags.z = result == 0;
    flags.n = false;
    flags.h = false;
    flags.c = carry != 0;
    result
}

/// Shifts a byte right and keeps its sign bit.
pub fn sra(x: u8, flags: &mut Flags) -> (r: u8)
    ensures
        (r, *final(flags)) == sra_spec(x, *old(flags)),
{
    proof {
        lemma_rotate_right_bits(x, 0);
    }
    let carry = x & 1;
    let result = (x >> 1) | (x & 0x80);
    flags.z = result == 0;
    flags.n = false;
    flags.h = false;
    flags.c = carry != 0;
    result
}

/// Exchanges the nibbles of a byte.
pub fn swap(x: u8, flags: &mut Flags) -> (r: u8)
    ensures
        (r, *final(flags)) == swap_spec(x, *old(flags)),
{
    proof {
        lemma_swap_bits(x);
    }
    let result = (x << 4) | (x >> 4);
    flags.z = result == 0;
    flags.n = false;
    flags.h = false;
    flags.c = false;
    result
}

/// Shifts a byte right.
pub fn srl(x: u8, flags: &mut Flags) -> (r: u8)
    ensures
        (r, *final(flags)) == srl_spec(x, *old(flags)),
{
    proof {
        lemma_rotate_right_bits(x, 0);
    }
    let carry = x & 1;
    let result = x >> 1;
    flags.z = result == 0;
    flags.n = false;
    flags.h = false;
    flags.c = carry != 0;
    result
}

/// Tests bit `n` of `data`: only the flags change.
pub fn bit(n: u8, data: u8, flags: &mut Flags)
    requires
        n < 8,
    ensures
        *final(flags) == bit_spec(n, data, *old(flags)),
{
    let mask: u8 = 1u8 << n;
    assert((data & (1u8 << n) == 0) == ((data >> n) & 1 == 0)) by (bit_vector)
        requires
            n < 8,
    ;
    flags.z = data & mask == 0;
    flags.n = false;
    flags.h = true;
}

/// Clears bit `n` of a byte. No flag changes.
pub fn res(n: u8, data: u8) -> (r: u8)
    requires
        n < 8,
    ensures
        r == res_spec(n, data),
{
    data & !(1u8 << n)
}

/// Sets bit `n` of a byte. No flag changes.
pub fn set(n: u8, data: u8) -> (r: u8)
    requires
        n < 8,
    ensures
        r == set_spec(n, data),
{
    data | (1u8 << n)
}

/// Whether an operation is one of the four unprefixed rotates of the accumulator.
pub open spec fn is_accumulator_rotate(operation: Operation) -> bool {
    operation is Rlca || operation is Rrca || operation is Rla || operation is Rra
}

/// Whether an operation is the rotate or shift `op` of the prefixed table.
pub open spec fn is_rotate(op: RotOp, operation: Operation) -> bool {
    operation matches Operation::Rotate(o, _) && o == op
}

/// Whether an operation is a rotate, a shift or a single-bit operation.
pub open spec fn is_shift(operation: Operation) -> bool {
    is_accumulator_rotate(operation) || operation is Rotate || operation is TestBit
        || operation is ResetBit || operation is SetBit
}

/// A single-bit operation names one of the bits 0 to 7.
pub open spec fn bit_index_valid(operation: Operation) -> bool {
    match operation {
        Operation::TestBit(n, _) | Operation::ResetBit(n, _) | Operation::SetBit(n, _) => n < 8,
        _ => true,
    }
}

/// The result and flags of a rotate or shift of `x`.
pub open spec fn rotate_spec(op: RotOp, x: u8, f: Flags) -> (u8, Flags) {
    match op {
        RotOp::Rlc => rlc_spec(x, f),
        RotOp::Rrc => rrc_spec(x, f),
        RotOp::Rl => rl_spec(x, f),
        RotOp::Rr => rr_spec(x, f),
        RotOp::Sla => sla_spec(x, f),
        RotOp::Sra => sra_spec(x, f),
        RotOp::Swap => swap_spec(x, f),
        RotOp::Srl => srl_spec(x, f),
    }
}

/// An unprefixed rotate of the accumulator clears Z whatever the result is.
pub open spec fn zero_cleared(result: (u8, Flags)) -> (u8, Flags) {
    (result.0, Flags { z: false, ..result.1 })
}

/// What a rotate, a shift or a single-bit operation does.
pub open spec fn shift_spec(operation: Operation, registers: Registers, memory: MemoryImage) -> Outcome {
    match operation {
        Operation::Rlca => accumulated(
            zero_cleared(rlc_spec(registers.a, registers.f)),
            registers,
            memory,
        ),
        Operation::Rrca => accumulated(
            zero_cleared(rrc_spec(registers.a, registers.f)),
            registers,
            memory,
        ),
        Operation::Rla => accumulated(
            zero_cleared(rl_spec(registers.a, registers.f)),
            registers,
            memory,
        ),
        Operation::Rra => accumulated(
            zero_cleared(rr_spec(registers.a, registers.f)),
            registers,
            memory,
        ),
        Operation::Rotate(op, operand) => stored8(
            operand,
            rotate_spec(op, operand8_value(operand, registers, memory), registers.f),
            registers,
            memory,
        ),
        Operation::TestBit(n, operand) => completed(
            Registers {
                f: bit_spec(n, operand8_value(operand, registers, memory), registers.f),
                ..registers
            },
            memory,
        ),
        Operation::ResetBit(n, operand) => loaded8(
            operand,
            res_spec(n, operand8_value(operand, registers, memory)),
            registers,
            memory,
        ),
        Operation::SetBit(n, operand) => loaded8(
            operand,
            set_spec(n, operand8_value(operand, registers, memory)),
            registers,
            memory,
        ),
        _ => completed(registers, memory),
    }
}

/// Applies a rotate or shift to `x`.
pub fn rotate(op: RotOp, x: u8, flags: &mut Flags) -> (r: u8)
    ensures
        (r, *final(flags)) == rotate_spec(op, x, *old(flags)),
{
    match op {
        RotOp::Rlc => rlc(x, flags),
        RotOp::Rrc => rrc(x, flags),
        RotOp::Rl => rl(x, flags),
        RotOp::Rr => rr(x, flags),
        RotOp::Sla => sla(x, flags),
        RotOp::Sra => sra(x, flags),
        RotOp::Swap => swap(x, flags),
        RotOp::Srl => srl(x, flags),
    }
}

/// Runs a rotate, a shift or a single-bit operation.
pub fn execute_shift(operation: Operation, registers: &mut Registers, mmu: &mut MMU) -> (result:
    ExecutionResult)
    requires
        is_shift(operation),
        bit_index_valid(operation),
        old(mmu).wf(),
    ensures
        final(mmu).wf(),
        final(mmu).rom_len() == old(mmu).rom_len(),
        (Outcome { registers: *final(registers), memory: final(mmu)@, result }) == shift_spec(
            operation,
            *old(registers),
            old(mmu)@,
        ),
{
    match operation {
        Operation::Rlca => {
            registers.a = rlc(registers.a, &mut registers.f);
            registers.f.z = false;
        },
        Operation::Rrca => {
            registers.a = rrc(registers.a, &mut registers.f);
            registers.f.z = false;
        },
        Operation::Rla => {
            registers.a = rl(registers.a, &mut registers.f);
            registers.f.z = false;
        },
        Operation::Rra => {
            registers.a = rr(registers.a, &mut registers.f);
            registers.f.z = false;
        },
        Operation::Rotate(op, operand) => {
            let value = read_operand8(operand, registers, mmu);
            let result = rotate(op, value, &mut registers.f);
            write_operand8(operand, result, registers, mmu);
        },
        Operation::TestBit(n, operand) => {
            let value = read_operand8(operand, registers, mmu);
            bit(n, value, &mut registers.f);
        },
        Operation::ResetBit(n, operand) => {
            let value = read_operand8(operand, registers, mmu);
            write_operand8(operand, res(n, value), registers, mmu);
        },
        Operation::SetBit(n, operand) => {
            let value = read_operand8(operand, registers, mmu);
            write_operand8(operand, set(n, value), registers, mmu);
        },
        _ => {},
    }
    ExecutionResult::default()
}

/// Enters the rotates of the accumulator into the primary table, and fills the
/// prefixed table.
pub fn instructions_map_shift_rot_bit_instructions(
    instructions_map: &mut InstructionsMap,
    prefix_cb_map: &mut InstructionsMap,
)
    requires
        old(instructions_map).wf(),
        old(prefix_cb_map).wf(),
    ensures
        final(instructions_map).wf(),
        final(prefix_cb_map).wf(),
        forall|opcode: u8|
            #![auto]
            final(instructions_map)@[opcode as int] == if primary_operation(opcode) matches Some(o)
                && is_accumulator_rotate(o) {
                primary_instruction(opcode)
            } else {
                old(instructions_map)@[opcode as int]
            },
        forall|opcode: u8| #![auto] final(prefix_cb_map)@[opcode as int] == prefix_cb_instruction(opcode),
{
    instructions_map_8_bit_shift_rot_bit_instructions(instructions_map);
    instructions_map_8_bitprefix_cb_map_instructions(prefix_cb_map)
}

/// Enters the four rotates of the accumulator into the primary table.
pub fn instructions_map_8_bit_shift_rot_bit_instructions(instructions_map: &mut InstructionsMap)
    requires
        old(instructions_map).wf(),
    ensures
        final(instructions_map).wf(),
        forall|opcode: u8|
            #![auto]
            final(instructions_map)@[opcode as int] == if primary_operation(opcode) matches Some(o)
                && is_accumulator_rotate(o) {
                primary_instruction(opcode)
            } else {
                old(instructions_map)@[opcode as int]
            },
{
    instructions_map.insert(0x07, Instruction::new(Operation::Rlca, Cycles::new(4), 1));
    instructions_map.insert(0x17, Instruction::new(Operation::Rla, Cycles::new(4), 1));
    instructions_map.insert(0x0F, Instruction::new(Operation::Rrca, Cycles::new(4), 1));
    instructions_map.insert(0x1F, Instruction::new(Operation::Rra, Cycles::new(4), 1));
    proof {
        instructions_map.lemma_len();
    }
}

/// The record of a prefixed instruction: two bytes long, 16 t-states when
/// `double_cycles` is set and 8 otherwise.
pub fn build_instruction(operation: Operation, double_cycles: bool) -> (i: Instruction)
    ensures
        i == (Instruction {
            operation,
            cycles: if double_cycles {
                Cycles { taken: 16, not_taken: 16 }
            } else {
                Cycles { taken: 8, not_taken: 8 }
            },
            bytes: 2,
        }),
{
    Instruction::new(
        operation,
        Cycles::new(
            match double_cycles {
                false => 8,
                true => 16,
            },
        ),
        2,
    )
}

/// Fills the prefixed table.
pub fn instructions_map_8_bitprefix_cb_map_instructions(prefix_cb_map: &mut InstructionsMap)
    requires
        old(prefix_cb_map).wf(),
    ensures
        final(prefix_cb_map).wf(),
        forall|opcode: u8| #![auto] final(prefix_cb_map)@[opcode as int] == prefix_cb_instruction(opcode),
{
    instructions_map_8_bitprefix_cb_map_rlc_instructions(prefix_cb_map);
    instructions_map_8_bitprefix_cb_map_rrc_instructions(prefix_cb_map);
    instructions_map_8_bitprefix_cb_map_rl_instructions(prefix_cb_map);
    instructions_map_8_bitprefix_cb_map_rr_instructions(prefix_cb_map);
    instructions_map_8_bitprefix_cb_map_sla_instructions(prefix_cb_map);
    instructions_map_8_bitprefix_cb_map_sra_instructions(prefix_cb_map);
    instructions_map_8_bitprefix_cb_map_swap_instructions(prefix_cb_map);
    instructions_map_8_bitprefix_cb_map_srl_instructions(prefix_cb_map);
    instructions_map_8_bitprefix_cb_map_bit_instructions(prefix_cb_map);
    instructions_map_8_bitprefix_cb_map_res_instructions(prefix_cb_map);
    instructions_map_8_bitprefix_cb_map_set_instructions(prefix_cb_map)
}

/// Enters the rotates left into the prefixed table.
pub fn instructions_map_8_bitprefix_cb_map_rlc_instructions(prefix_cb_map: &mut InstructionsMap)
    requires
        old(prefix_cb_map).wf(),
    ensures
        final(prefix_cb_map).wf(),
        forall|opcode: u8|
            #![auto]
            final(prefix_cb_map)@[opcode as int] == if is_rotate(RotOp::Rlc, prefix_cb_operation(opcode)) {
                prefix_cb_instruction(opcode)
            } else {
                old(prefix_cb_map)@[opcode as int]
            },
{
    prefix_cb_map.insert(0x00, build_instruction(Operation::Rotate(RotOp::Rlc, Operand8::B), false));
    prefix_cb_map.insert(0x01, build_instruction(Operation::Rotate(RotOp::Rlc, Operand8::C), false));
    prefix_cb_map.insert(0x02, build_instruction(Operation::Rotate(RotOp::Rlc, Operand8::D), false));
    prefix_cb_map.insert(0x03, build_instruction(Operation::Rotate(RotOp::Rlc, Operand8::E), false));
    prefix_cb_map.insert(0x04, build_instruction(Operation::Rotate(RotOp::Rlc, Operand8::H), false));
    prefix_cb_map.insert(0x05, build_instruction(Operation::Rotate(RotOp::Rlc, Operand8::L), false));
    prefix_cb_map.insert(0x06, build_instruction(Operation::Rotate(RotOp::Rlc, Operand8::HlIndirect), true));
    prefix_cb_map.insert(0x07, build_instruction(Operation::Rotate(RotOp::Rlc, Operand8::A), false));
    proof {
        prefix_cb_map.lemma_len();
    }
}

/// Enters the rotates right into the prefixed table.
pub fn instructions_map_8_bitprefix_cb_map_rrc_instructions(prefix_cb_map: &mut InstructionsMap)
    requires
        old(prefix_cb_map).wf(),
    ensures
        final(prefix_cb_map).wf(),
        forall|opcode: u8|
            #![auto]
            final(prefix_cb_map)@[opcode as int] == if is_rotate(RotOp::Rrc, prefix_cb_operation(opcode)) {
                prefix_cb_instruction(opcode)
            } else {
                old(prefix_cb_map)@[opcode as int]
            },
{
    prefix_cb_map.insert(0x08, build_instruction(Operation::Rotate(RotOp::Rrc, Operand8::B), false));
    prefix_cb_map.insert(0x09, build_instruction(Operation::Rotate(RotOp::Rrc, Operand8::C), false));
    prefix_cb_map.insert(0x0A, build_instruction(Operation::Rotate(RotOp::Rrc, Operand8::D), false));
    prefix_cb_map.insert(0x0B, build_instruction(Operation::Rotate(RotOp::Rrc, Operand8::E), false));
    prefix_cb_map.insert(0x0C, build_instruction(Operation::Rotate(RotOp::Rrc, Operand8::H), false));
    prefix_cb_map.insert(0x0D, build_instruction(Operation::Rotate(RotOp::Rrc, Operand8::L), false));
    prefix_cb_map.insert(0x0E, build_instruction(Operation::Rotate(RotOp::Rrc, Operand8::HlIndirect), true));
    prefix_cb_map.insert(0x0F, build_instruction(Operation::Rotate(RotOp::Rrc, Operand8::A), false));
    proof {
        prefix_cb_map.lemma_len();
    }
}

/// Enters the rotates left through the carry into the prefixed table.
pub fn instructions_map_8_bitprefix_cb_map_rl_instructions(prefix_cb_map: &mut InstructionsMap)
    requires
        old(prefix_cb_map).wf(),
    ensures
        final(prefix_cb_map).wf(),
        forall|opcode: u8|
            #![auto]
            final(prefix_cb_map)@[opcode as int] == if is_rotate(RotOp::Rl, prefix_cb_operation(opcode)) {
                prefix_cb_instruction(opcode)
            } else {
                old(prefix_cb_map)@[opcode as int]
            },
{
    prefix_cb_map.insert(0x10, build_instruction(Operation::Rotate(RotOp::Rl, Operand8::B), false));
    prefix_cb_map.insert(0x11, build_instruction(Operation::Rotate(RotOp::Rl, Operand8::C), false));
    prefix_cb_map.insert(0x12, build_instruction(Operation::Rotate(RotOp::Rl, Operand8::D), false));
    prefix_cb_map.insert(0x13, build_instruction(Operation::Rotate(RotOp::Rl, Operand8::E), false));
    prefix_cb_map.insert(0x14, build_instruction(Operation::Rotate(RotOp::Rl, Operand8::H), false));
    prefix_cb_map.insert(0x15, build_instruction(Operation::Rotate(RotOp::Rl, Operand8::L), false));
    prefix_cb_map.insert(0x16, build_instruction(Operation::Rotate(RotOp::Rl, Operand8::HlIndirect), true));
    prefix_cb_map.insert(0x17, build_instruction(Operation::Rotate(RotOp::Rl, Operand8::A), false));
    proof {
        prefix_cb_map.lemma_len();
    }
}

/// Enters the rotates right through the carry into the prefixed table.
pub fn instructions_map_8_bitprefix_cb_map_rr_instructions(prefix_cb_map: &mut InstructionsMap)
    requires
        old(prefix_cb_map).wf(),
    ensures
        final(prefix_cb_map).wf(),
        forall|opcode: u8|
            #![auto]
            final(prefix_cb_map)@[opcode as int] == if is_rotate(RotOp::Rr, prefix_cb_operation(opcode)) {
                prefix_cb_instruction(opcode)
            } else {
                old(prefix_cb_map)@[opcode as int]
            },
{
    prefix_cb_map.insert(0x18, build_instruction(Operation::Rotate(RotOp::Rr, Operand8::B), false));
    prefix_cb_map.insert(0x19, build_instruction(Operation::Rotate(RotOp::Rr, Operand8::C), false));
    prefix_cb_map.insert(0x1A, build_instruction(Operation::Rotate(RotOp::Rr, Operand8::D), false));
    prefix_cb_map.insert(0x1B, build_instruction(Operation::Rotate(RotOp::Rr, Operand8::E), false));
    prefix_cb_map.insert(0x1C, build_instruction(Operation::Rotate(RotOp::Rr, Operand8::H), false));
    prefix_cb_map.insert(0x1D, build_instruction(Operation::Rotate(RotOp::Rr, Operand8::L), false));
    prefix_cb_map.insert(0x1E, build_instruction(Operation::Rotate(RotOp::Rr, Operand8::HlIndirect), true));
    prefix_cb_map.insert(0x1F, build_instruction(Operation::Rotate(RotOp::Rr, Operand8::A), false));
    proof {
        prefix_cb_map.lemma_len();
    }
}

/// Enters the shifts left into the prefixed table.
pub fn instructions_map_8_bitprefix_cb_map_sla_instructions(prefix_cb_map: &mut InstructionsMap)
    requires
        old(prefix_cb_map).wf(),
    ensures
        final(prefix_cb_map).wf(),
        forall|opcode: u8|
            #![auto]
            final(prefix_cb_map)@[opcode as int] == if is_rotate(RotOp::Sla, prefix_cb_operation(opcode)) {
                prefix_cb_instruction(opcode)
            } else {
                old(prefix_cb_map)@[opcode as int]
            },
{
    prefix_cb_map.insert(0x20, build_instruction(Operation::Rotate(RotOp::Sla, Operand8::B), false));
    prefix_cb_map.insert(0x21, build_instruction(Operation::Rotate(RotOp::Sla, Operand8::C), false));
    prefix_cb_map.insert(0x22, build_instruction(Operation::Rotate(RotOp::Sla, Operand8::D), false));
    prefix_cb_map.insert(0x23, build_instruction(Operation::Rotate(RotOp::Sla, Operand8::E), false));
    prefix_cb_map.insert(0x24, build_instruction(Operation::Rotate(RotOp::Sla, Operand8::H), false));
    prefix_cb_map.insert(0x25, build_instruction(Operation::Rotate(RotOp::Sla, Operand8::L), false));
    prefix_cb_map.insert(0x26, build_instruction(Operation::Rotate(RotOp::Sla, Operand8::HlIndirect), true));
    prefix_cb_map.insert(0x27, build_instruction(Operation::Rotate(RotOp::Sla, Operand8::A), false));
    proof {
        prefix_cb_map.lemma_len();
    }
}

/// Enters the arithmetic shifts right into the prefixed table.
pub fn instructions_map_8_bitprefix_cb_map_sra_instructions(prefix_cb_map: &mut InstructionsMap)
    requires
        old(prefix_cb_map).wf(),
    ensures
        final(prefix_cb_map).wf(),
        forall|opcode: u8|
            #![auto]
            final(prefix_cb_map)@[opcode as int] == if is_rotate(RotOp::Sra, prefix_cb_operation(opcode)) {
                prefix_cb_instruction(opcode)
            } else {
                old(prefix_cb_map)@[opcode as int]
            },
{
    prefix_cb_map.insert(0x28, build_instruction(Operation::Rotate(RotOp::Sra, Operand8::B), false));
    prefix_cb_map.insert(0x29, build_instruction(Operation::Rotate(RotOp::Sra, Operand8::C), false));
    prefix_cb_map.insert(0x2A, build_instruction(Operation::Rotate(RotOp::Sra, Operand8::D), false));
    prefix_cb_map.insert(0x2B, build_instruction(Operation::Rotate(RotOp::Sra, Operand8::E), false));
    prefix_cb_map.insert(0x2C, build_instruction(Operation::Rotate(RotOp::Sra, Operand8::H), false));
    prefix_cb_map.insert(0x2D, build_instruction(Operation::Rotate(RotOp::Sra, Operand8::L), false));
    prefix_cb_map.insert(0x2E, build_instruction(Operation::Rotate(RotOp::Sra, Operand8::HlIndirect), true));
    prefix_cb_map.insert(0x2F, build_instruction(Operation::Rotate(RotOp::Sra, Operand8::A), false));
    proof {
        prefix_cb_map.lemma_len();
    }
}

/// Enters the nibble exchanges into the prefixed table.
pub fn instructions_map_8_bitprefix_cb_map_swap_instructions(prefix_cb_map: &mut InstructionsMap)
    requires
        old(prefix_cb_map).wf(),
    ensures
        final(prefix_cb_map).wf(),
        forall|opcode: u8|
            #![auto]
            final(prefix_cb_map)@[opcode as int] == if is_rotate(RotOp::Swap, prefix_cb_operation(opcode)) {
                prefix_cb_instruction(opcode)
            } else {
                old(prefix_cb_map)@[opcode as int]
            },
{
    prefix_cb_map.insert(0x30, build_instruction(Operation::Rotate(RotOp::Swap, Operand8::B), false));
    prefix_cb_map.insert(0x31, build_instruction(Operation::Rotate(RotOp::Swap, Operand8::C), false));
    prefix_cb_map.insert(0x32, build_instruction(Operation::Rotate(RotOp::Swap, Operand8::D), false));
    prefix_cb_map.insert(0x33, build_instruction(Operation::Rotate(RotOp::Swap, Operand8::E), false));
    prefix_cb_map.insert(0x34, build_instruction(Operation::Rotate(RotOp::Swap, Operand8::H), false));
    prefix_cb_map.insert(0x35, build_instruction(Operation::Rotate(RotOp::Swap, Operand8::L), false));
    prefix_cb_map.insert(0x36, build_instruction(Operation::Rotate(RotOp::Swap, Operand8::HlIndirect), true));
    prefix_cb_map.insert(0x37, build_instruction(Operation::Rotate(RotOp::Swap, Operand8::A), false));
    proof {
        prefix_cb_map.lemma_len();
    }
}

/// Enters the logical shifts right into the prefixed table.
pub fn instructions_map_8_bitprefix_cb_map_srl_instructions(prefix_cb_map: &mut InstructionsMap)
    requires
        old(prefix_cb_map).wf(),
    ensures
        final(prefix_cb_map).wf(),
        forall|opcode: u8|
            #![auto]
            final(prefix_cb_map)@[opcode as int] == if is_rotate(RotOp::Srl, prefix_cb_operation(opcode)) {
                prefix_cb_instruction(opcode)
            } else {
                old(prefix_cb_map)@[opcode as int]
            },
{
    prefix_cb_map.insert(0x38, build_instruction(Operation::Rotate(RotOp::Srl, Operand8::B), false));
    prefix_cb_map.insert(0x39, build_instruction(Operation::Rotate(RotOp::Srl, Operand8::C), false));
    prefix_cb_map.insert(0x3A, build_instruction(Operation::Rotate(RotOp::Srl, Operand8::D), false));
    prefix_cb_map.insert(0x3B, build_instruction(Operation::Rotate(RotOp::Srl, Operand8::E), false));
    prefix_cb_map.insert(0x3C, build_instruction(Operation::Rotate(RotOp::Srl, Operand8::H), false));
    prefix_cb_map.insert(0x3D, build_instruction(Operation::Rotate(RotOp::Srl, Operand8::L), false));
    prefix_cb_map.insert(0x3E, build_instruction(Operation::Rotate(RotOp::Srl, Operand8::HlIndirect), true));
    prefix_cb_map.insert(0x3F, build_instruction(Operation::Rotate(RotOp::Srl, Operand8::A), false));
    proof {
        prefix_cb_map.lemma_len();
    }
}

/// Enters the bit tests into the prefixed table.
pub fn instructions_map_8_bitprefix_cb_map_bit_instructions(prefix_cb_map: &mut InstructionsMap)
    requires
        old(prefix_cb_map).wf(),
    ensures
        final(prefix_cb_map).wf(),
        forall|opcode: u8|
            #![auto]
            final(prefix_cb_map)@[opcode as int] == if prefix_cb_operation(opcode) is TestBit {
                prefix_cb_instruction(opcode)
            } else {
                old(prefix_cb_map)@[opcode as int]
            },
{
    prefix_cb_map.insert(0x40, build_instruction(Operation::TestBit(0, Operand8::B), false));
    prefix_cb_map.insert(0x41, build_instruction(Operation::TestBit(0, Operand8::C), false));
    prefix_cb_map.insert(0x42, build_instruction(Operation::TestBit(0, Operand8::D), false));
    prefix_cb_map.insert(0x43, build_instruction(Operation::TestBit(0, Operand8::E), false));
    prefix_cb_map.insert(0x44, build_instruction(Operation::TestBit(0, Operand8::H), false));
    prefix_cb_map.insert(0x45, build_instruction(Operation::TestBit(0, Operand8::L), false));
    prefix_cb_map.insert(0x46, Instruction::new(Operation::TestBit(0, Operand8::HlIndirect), Cycles::new(12), 2));
    prefix_cb_map.insert(0x47, build_instruction(Operation::TestBit(0, Operand8::A), false));
    prefix_cb_map.insert(0x48, build_instruction(Operation::TestBit(1, Operand8::B), false));
    prefix_cb_map.insert(0x49, build_instruction(Operation::TestBit(1, Operand8::C), false));
    prefix_cb_map.insert(0x4A, build_instruction(Operation::TestBit(1, Operand8::D), false));
    prefix_cb_map.insert(0x4B, build_instruction(Operation::TestBit(1, Operand8::E), false));
    prefix_cb_map.insert(0x4C, build_instruction(Operation::TestBit(1, Operand8::H), false));
    prefix_cb_map.insert(0x4D, build_instruction(Operation::TestBit(1, Operand8::L), false));
    prefix_cb_map.insert(0x4E, Instruction::new(Operation::TestBit(1, Operand8::HlIndirect), Cycles::new(12), 2));
    prefix_cb_map.insert(0x4F, build_instruction(Operation::TestBit(1, Operand8::A), false));
    prefix_cb_map.insert(0x50, build_instruction(Operation::TestBit(2, Operand8::B), false));
    prefix_cb_map.insert(0x51, build_instruction(Operation::TestBit(2, Operand8::C), false));
    prefix_cb_map.insert(0x52, build_instruction(Operation::TestBit(2, Operand8::D), false));
    prefix_cb_map.insert(0x53, build_instruction(Operation::TestBit(2, Operand8::E), false));
    prefix_cb_map.insert(0x54, build_instruction(Operation::TestBit(2, Operand8::H), false));
    prefix_cb_map.insert(0x55, build_instruction(Operation::TestBit(2, Operand8::L), false));
    prefix_cb_map.insert(0x56, Instruction::new(Operation::TestBit(2, Operand8::HlIndirect), Cycles::new(12), 2));
    prefix_cb_map.insert(0x57, build_instruction(Operation::TestBit(2, Operand8::A), false));
    prefix_cb_map.insert(0x58, build_instruction(Operation::TestBit(3, Operand8::B), false));
    prefix_cb_map.insert(0x59, build_instruction(Operation::TestBit(3, Operand8::C), false));
    prefix_cb_map.insert(0x5A, build_instruction(Operation::TestBit(3, Operand8::D), false));
    prefix_cb_map.insert(0x5B, build_instruction(Operation::TestBit(3, Operand8::E), false));
    prefix_cb_map.insert(0x5C, build_instruction(Operation::TestBit(3, Operand8::H), false));
    prefix_cb_map.insert(0x5D, build_instruction(Operation::TestBit(3, Operand8::L), false));
    prefix_cb_map.insert(0x5E, Instruction::new(Operation::TestBit(3, Operand8::HlIndirect), Cycles::new(12), 2));
    prefix_cb_map.insert(0x5F, build_instruction(Operation::TestBit(3, Operand8::A), false));
    prefix_cb_map.insert(0x60, build_instruction(Operation::TestBit(4, Operand8::B), false));
    prefix_cb_map.insert(0x61, build_instruction(Operation::TestBit(4, Operand8::C), false));
    prefix_cb_map.insert(0x62, build_instruction(Operation::TestBit(4, Operand8::D), false));
    prefix_cb_map.insert(0x63, build_instruction(Operation::TestBit(4, Operand8::E), false));
    prefix_cb_map.insert(0x64, build_instruction(Operation::TestBit(4, Operand8::H), false));
    prefix_cb_map.insert(0x65, build_instruction(Operation::TestBit(4, Operand8::L), false));
    prefix_cb_map.insert(0x66, Instruction::new(Operation::TestBit(4, Operand8::HlIndirect), Cycles::new(12), 2));
    prefix_cb_map.insert(0x67, build_instruction(Operation::TestBit(4, Operand8::A), false));
    prefix_cb_map.insert(0x68, build_instruction(Operation::TestBit(5, Operand8::B), false));
    prefix_cb_map.insert(0x69, build_instruction(Operation::TestBit(5, Operand8::C), false));
    prefix_cb_map.insert(0x6A, build_instruction(Operation::TestBit(5, Operand8::D), false));
    prefix_cb_map.insert(0x6B, build_instruction(Operation::TestBit(5, Operand8::E), false));
    prefix_cb_map.insert(0x6C, build_instruction(Operation::TestBit(5, Operand8::H), false));
    prefix_cb_map.insert(0x6D, build_instruction(Operation::TestBit(5, Operand8::L), false));
    prefix_cb_map.insert(0x6E, Instruction::new(Operation::TestBit(5, Operand8::HlIndirect), Cycles::new(12), 2));
    prefix_cb_map.insert(0x6F, build_instruction(Operation::TestBit(5, Operand8::A), false));
    prefix_cb_map.insert(0x70, build_instruction(Operation::TestBit(6, Operand8::B), false));
    prefix_cb_map.insert(0x71, build_instruction(Operation::TestBit(6, Operand8::C), false));
    prefix_cb_map.insert(0x72, build_instruction(Operation::TestBit(6, Operand8::D), false));
    prefix_cb_map.insert(0x73, build_instruction(Operation::TestBit(6, Operand8::E), false));
    prefix_cb_map.insert(0x74, build_instruction(Operation::TestBit(6, Operand8::H), false));
    prefix_cb_map.insert(0x75, build_instruction(Operation::TestBit(6, Operand8::L), false));
    prefix_cb_map.insert(0x76, Instruction::new(Operation::TestBit(6, Operand8::HlIndirect), Cycles::new(12), 2));
    prefix_cb_map.insert(0x77, build_instruction(Operation::TestBit(6, Operand8::A), false));
    prefix_cb_map.insert(0x78, build_instruction(Operation::TestBit(7, Operand8::B), false));
    prefix_cb_map.insert(0x79, build_instruction(Operation::TestBit(7, Operand8::C), false));
    prefix_cb_map.insert(0x7A, build_instruction(Operation::TestBit(7, Operand8::D), false));
    prefix_cb_map.insert(0x7B, build_instruction(Operation::TestBit(7, Operand8::E), false));
    prefix_cb_map.insert(0x7C, build_instruction(Operation::TestBit(7, Operand8::H), false));
    prefix_cb_map.insert(0x7D, build_instruction(Operation::TestBit(7, Operand8::L), false));
    prefix_cb_map.insert(0x7E, Instruction::new(Operation::TestBit(7, Operand8::HlIndirect), Cycles::new(12), 2));
    prefix_cb_map.insert(0x7F, build_instruction(Operation::TestBit(7, Operand8::A), false));
    proof {
        prefix_cb_map.lemma_len();
    }
}

/// Enters the bit clears into the prefixed table.
pub fn instructions_map_8_bitprefix_cb_map_res_instructions(prefix_cb_map: &mut InstructionsMap)
    requires
        old(prefix_cb_map).wf(),
    ensures
        final(prefix_cb_map).wf(),
        forall|opcode: u8|
            #![auto]
            final(prefix_cb_map)@[opcode as int] == if prefix_cb_operation(opcode) is ResetBit {
                prefix_cb_instruction(opcode)
            } else {
                old(prefix_cb_map)@[opcode as int]
            },
{
    prefix_cb_map.insert(0x80, build_instruction(Operation::ResetBit(0, Operand8::B), false));
    prefix_cb_map.insert(0x81, build_instruction(Operation::ResetBit(0, Operand8::C), false));
    prefix_cb_map.insert(0x82, build_instruction(Operation::ResetBit(0, Operand8::D), false));
    prefix_cb_map.insert(0x83, build_instruction(Operation::ResetBit(0, Operand8::E), false));
    prefix_cb_map.insert(0x84, build_instruction(Operation::ResetBit(0, Operand8::H), false));
    prefix_cb_map.insert(0x85, build_instruction(Operation::ResetBit(0, Operand8::L), false));
    prefix_cb_map.insert(0x86, build_instruction(Operation::ResetBit(0, Operand8::HlIndirect), true));
    prefix_cb_map.insert(0x87, build_instruction(Operation::ResetBit(0, Operand8::A), false));
    prefix_cb_map.insert(0x88, build_instruction(Operation::ResetBit(1, Operand8::B), false));
    prefix_cb_map.insert(0x89, build_instruction(Operation::ResetBit(1, Operand8::C), false));
    prefix_cb_map.insert(0x8A, build_instruction(Operation::ResetBit(1, Operand8::D), false));
    prefix_cb_map.insert(0x8B, build_instruction(Operation::ResetBit(1, Operand8::E), false));
    prefix_cb_map.insert(0x8C, build_instruction(Operation::ResetBit(1, Operand8::H), false));
    prefix_cb_map.insert(0x8D, build_instruction(Operation::ResetBit(1, Operand8::L), false));
    prefix_cb_map.insert(0x8E, build_instruction(Operation::ResetBit(1, Operand8::HlIndirect), true));
    prefix_cb_map.insert(0x8F, build_instruction(Operation::ResetBit(1, Operand8::A), false));
    prefix_cb_map.insert(0x90, build_instruction(Operation::ResetBit(2, Operand8::B), false));
    prefix_cb_map.insert(0x91, build_instruction(Operation::ResetBit(2, Operand8::C), false));
    prefix_cb_map.insert(0x92, build_instruction(Operation::ResetBit(2, Operand8::D), false));
    prefix_cb_map.insert(0x93, build_instruction(Operation::ResetBit(2, Operand8::E), false));
    prefix_cb_map.insert(0x94, build_instruction(Operation::ResetBit(2, Operand8::H), false));
    prefix_cb_map.insert(0x95, build_instruction(Operation::ResetBit(2, Operand8::L), false));
    prefix_cb_map.insert(0x96, build_instruction(Operation::ResetBit(2, Operand8::HlIndirect), true));
    prefix_cb_map.insert(0x97, build_instruction(Operation::ResetBit(2, Operand8::A), false));
    prefix_cb_map.insert(0x98, build_instruction(Operation::ResetBit(3, Operand8::B), false));
    prefix_cb_map.insert(0x99, build_instruction(Operation::ResetBit(3, Operand8::C), false));
    prefix_cb_map.insert(0x9A, build_instruction(Operation::ResetBit(3, Operand8::D), false));
    prefix_cb_map.insert(0x9B, build_instruction(Operation::ResetBit(3, Operand8::E), false));
    prefix_cb_map.insert(0x9C, build_instruction(Operation::ResetBit(3, Operand8::H), false));
    prefix_cb_map.insert(0x9D, build_instruction(Operation::ResetBit(3, Operand8::L), false));
    prefix_cb_map.insert(0x9E, build_instruction(Operation::ResetBit(3, Operand8::HlIndirect), true));
    prefix_cb_map.insert(0x9F, build_instruction(Operation::ResetBit(3, Operand8::A), false));
    prefix_cb_map.insert(0xA0, build_instruction(Operation::ResetBit(4, Operand8::B), false));
    prefix_cb_map.insert(0xA1, build_instruction(Operation::ResetBit(4, Operand8::C), false));
    prefix_cb_map.insert(0xA2, build_instruction(Operation::ResetBit(4, Operand8::D), false));
    prefix_cb_map.insert(0xA3, build_instruction(Operation::ResetBit(4, Operand8::E), false));
    prefix_cb_map.insert(0xA4, build_instruction(Operation::ResetBit(4, Operand8::H), false));
    prefix_cb_map.insert(0xA5, build_instruction(Operation::ResetBit(4, Operand8::L), false));
    prefix_cb_map.insert(0xA6, build_instruction(Operation::ResetBit(4, Operand8::HlIndirect), true));
    prefix_cb_map.insert(0xA7, build_instruction(Operation::ResetBit(4, Operand8::A), false));
    prefix_cb_map.insert(0xA8, build_instruction(Operation::ResetBit(5, Operand8::B), false));
    prefix_cb_map.insert(0xA9, build_instruction(Operation::ResetBit(5, Operand8::C), false));
    prefix_cb_map.insert(0xAA, build_instruction(Operation::ResetBit(5, Operand8::D), false));
    prefix_cb_map.insert(0xAB, build_instruction(Operation::ResetBit(5, Operand8::E), false));
    prefix_cb_map.insert(0xAC, build_instruction(Operation::ResetBit(5, Operand8::H), false));
    prefix_cb_map.insert(0xAD, build_instruction(Operation::ResetBit(5, Operand8::L), false));
    prefix_cb_map.insert(0xAE, build_instruction(Operation::ResetBit(5, Operand8::HlIndirect), true));
    prefix_cb_map.insert(0xAF, build_instruction(Operation::ResetBit(5, Operand8::A), false));
    prefix_cb_map.insert(0xB0, build_instruction(Operation::ResetBit(6, Operand8::B), false));
    prefix_cb_map.insert(0xB1, build_instruction(Operation::ResetBit(6, Operand8::C), false));
    prefix_cb_map.insert(0xB2, build_instruction(Operation::ResetBit(6, Operand8::D), false));
    prefix_cb_map.insert(0xB3, build_instruction(Operation::ResetBit(6, Operand8::E), false));
    prefix_cb_map.insert(0xB4, build_instruction(Operation::ResetBit(6, Operand8::H), false));
    prefix_cb_map.insert(0xB5, build_instruction(Operation::ResetBit(6, Operand8::L), false));
    prefix_cb_map.insert(0xB6, build_instruction(Operation::ResetBit(6, Operand8::HlIndirect), true));
    prefix_cb_map.insert(0xB7, build_instruction(Operation::ResetBit(6, Operand8::A), false));
    prefix_cb_map.insert(0xB8, build_instruction(Operation::ResetBit(7, Operand8::B), false));
    prefix_cb_map.insert(0xB9, build_instruction(Operation::ResetBit(7, Operand8::C), false));
    prefix_cb_map.insert(0xBA, build_instruction(Operation::ResetBit(7, Operand8::D), false));
    prefix_cb_map.insert(0xBB, build_instruction(Operation::ResetBit(7, Operand8::E), false));
    prefix_cb_map.insert(0xBC, build_instruction(Operation::ResetBit(7, Operand8::H), false));
    prefix_cb_map.insert(0xBD, build_instruction(Operation::ResetBit(7, Operand8::L), false));
    prefix_cb_map.insert(0xBE, build_instruction(Operation::ResetBit(7, Operand8::HlIndirect), true));
    prefix_cb_map.insert(0xBF, build_instruction(Operation::ResetBit(7, Operand8::A), false));
    proof {
        prefix_cb_map.lemma_len();
    }
}

/// Enters the bit sets into the prefixed table.
pub fn instructions_map_8_bitprefix_cb_map_set_instructions(prefix_cb_map: &mut InstructionsMap)
    requires
        old(prefix_cb_map).wf(),
    ensures
        final(prefix_cb_map).wf(),
        forall|opcode: u8|
            #![auto]
            final(prefix_cb_map)@[opcode as int] == if prefix_cb_operation(opcode) is SetBit {
                prefix_cb_instruction(opcode)
            } else {
                old(prefix_cb_map)@[opcode as int]
            },
{
    prefix_cb_map.insert(0xC0, build_instruction(Operation::SetBit(0, Operand8::B), false));
    prefix_cb_map.insert(0xC1, build_instruction(Operation::SetBit(0, Operand8::C), false));
    prefix_cb_map.insert(0xC2, build_instruction(Operation::SetBit(0, Operand8::D), false));
    prefix_cb_map.insert(0xC3, build_instruction(Operation::SetBit(0, Operand8::E), false));
    prefix_cb_map.insert(0xC4, build_instruction(Operation::SetBit(0, Operand8::H), false));
    prefix_cb_map.insert(0xC5, build_instruction(Operation::SetBit(0, Operand8::L), false));
    prefix_cb_map.insert(0xC6, build_instruction(Operation::SetBit(0, Operand8::HlIndirect), true));
    prefix_cb_map.insert(0xC7, build_instruction(Operation::SetBit(0, Operand8::A), false));
    prefix_cb_map.insert(0xC8, build_instruction(Operation::SetBit(1, Operand8::B), false));
    prefix_cb_map.insert(0xC9, build_instruction(Operation::SetBit(1, Operand8::C), false));
    prefix_cb_map.insert(0xCA, build_instruction(Operation::SetBit(1, Operand8::D), false));
    prefix_cb_map.insert(0xCB, build_instruction(Operation::SetBit(1, Operand8::E), false));
    prefix_cb_map.insert(0xCC, build_instruction(Operation::SetBit(1, Operand8::H), false));
    prefix_cb_map.insert(0xCD, build_instruction(Operation::SetBit(1, Operand8::L), false));
    prefix_cb_map.insert(0xCE, build_instruction(Operation::SetBit(1, Operand8::HlIndirect), true));
    prefix_cb_map.insert(0xCF, build_instruction(Operation::SetBit(1, Operand8::A), false));
    prefix_cb_map.insert(0xD0, build_instruction(Operation::SetBit(2, Operand8::B), false));
    prefix_cb_map.insert(0xD1, build_instruction(Operation::SetBit(2, Operand8::C), false));
    prefix_cb_map.insert(0xD2, build_instruction(Operation::SetBit(2, Operand8::D), false));
    prefix_cb_map.insert(0xD3, build_instruction(Operation::SetBit(2, Operand8::E), false));
    prefix_cb_map.insert(0xD4, build_instruction(Operation::SetBit(2, Operand8::H), false));
    prefix_cb_map.insert(0xD5, build_instruction(Operation::SetBit(2, Operand8::L), false));
    prefix_cb_map.insert(0xD6, build_instruction(Operation::SetBit(2, Operand8::HlIndirect), true));
    prefix_cb_map.insert(0xD7, build_instruction(Operation::SetBit(2, Operand8::A), false));
    prefix_cb_map.insert(0xD8, build_instruction(Operation::SetBit(3, Operand8::B), false));
    prefix_cb_map.insert(0xD9, build_instruction(Operation::SetBit(3, Operand8::C), false));
    prefix_cb_map.insert(0xDA, build_instruction(Operation::SetBit(3, Operand8::D), false));
    prefix_cb_map.insert(0xDB, build_instruction(Operation::SetBit(3, Operand8::E), false));
    prefix_cb_map.insert(0xDC, build_instruction(Operation::SetBit(3, Operand8::H), false));
    prefix_cb_map.insert(0xDD, build_instruction(Operation::SetBit(3, Operand8::L), false));
    prefix_cb_map.insert(0xDE, build_instruction(Operation::SetBit(3, Operand8::HlIndirect), true));
    prefix_cb_map.insert(0xDF, build_instruction(Operation::SetBit(3, Operand8::A), false));
    prefix_cb_map.insert(0xE0, build_instruction(Operation::SetBit(4, Operand8::B), false));
    prefix_cb_map.insert(0xE1, build_instruction(Operation::SetBit(4, Operand8::C), false));
    prefix_cb_map.insert(0xE2, build_instruction(Operation::SetBit(4, Operand8::D), false));
    prefix_cb_map.insert(0xE3, build_instruction(Operation::SetBit(4, Operand8::E), false));
    prefix_cb_map.insert(0xE4, build_instruction(Operation::SetBit(4, Operand8::H), false));
    prefix_cb_map.insert(0xE5, build_instruction(Operation::SetBit(4, Operand8::L), false));
    prefix_cb_map.insert(0xE6, build_instruction(Operation::SetBit(4, Operand8::HlIndirect), true));
    prefix_cb_map.insert(0xE7, build_instruction(Operation::SetBit(4, Operand8::A), false));
    prefix_cb_map.insert(0xE8, build_instruction(Operation::SetBit(5, Operand8::B), false));
    prefix_cb_map.insert(0xE9, build_instruction(Operation::SetBit(5, Operand8::C), false));
    prefix_cb_map.insert(0xEA, build_instruction(Operation::SetBit(5, Operand8::D), false));
    prefix_cb_map.insert(0xEB, build_instruction(Operation::SetBit(5, Operand8::E), false));
    prefix_cb_map.insert(0xEC, build_instruction(Operation::SetBit(5, Operand8::H), false));
    prefix_cb_map.insert(0xED, build_instruction(Operation::SetBit(5, Operand8::L), false));
    prefix_cb_map.insert(0xEE, build_instruction(Operation::SetBit(5, Operand8::HlIndirect), true));
    prefix_cb_map.insert(0xEF, build_instruction(Operation::SetBit(5, Operand8::A), false));
    prefix_cb_map.insert(0xF0, build_instruction(Operation::SetBit(6, Operand8::B), false));
    prefix_cb_map.insert(0xF1, build_instruction(Operation::SetBit(6, Operand8::C), false));
    prefix_cb_map.insert(0xF2, build_instruction(Operation::SetBit(6, Operand8::D), false));
    prefix_cb_map.insert(0xF3, build_instruction(Operation::SetBit(6, Operand8::E), false));
    prefix_cb_map.insert(0xF4, build_instruction(Operation::SetBit(6, Operand8::H), false));
    prefix_cb_map.insert(0xF5, build_instruction(Operation::SetBit(6, Operand8::L), false));
    prefix_cb_map.insert(0xF6, build_instruction(Operation::SetBit(6, Operand8::HlIndirect), true));
    prefix_cb_map.insert(0xF7, build_instruction(Operation::SetBit(6, Operand8::A), false));
    prefix_cb_map.insert(0xF8, build_instruction(Operation::SetBit(7, Operand8::B), false));
    prefix_cb_map.insert(0xF9, build_instruction(Operation::SetBit(7, Operand8::C), false));
    prefix_cb_map.insert(0xFA, build_instruction(Operation::SetBit(7, Operand8::D), false));
    prefix_cb_map.insert(0xFB, build_instruction(Operation::SetBit(7, Operand8::E), false));
    prefix_cb_map.insert(0xFC, build_instruction(Operation::SetBit(7, Operand8::H), false));
    prefix_cb_map.insert(0xFD, build_instruction(Operation::SetBit(7, Operand8::L), false));
    prefix_cb_map.insert(0xFE, build_instruction(Operation::SetBit(7, Operand8::HlIndirect), true));
    prefix_cb_map.insert(0xFF, build_instruction(Operation::SetBit(7, Operand8::A), false));
    proof {
        prefix_cb_map.lemma_len();
    }
}

/// A rotate left undoes a rotate right, whatever the flags were.
pub proof fn lemma_rlc_of_rrc(x: u8, f: Flags)
    ensures
        ({
            let right = rrc_spec(x, f);
            rlc_spec(right.0, right.1).0 == x
        }),
{
}

/// A rotate left through the carry undoes a rotate right through the carry when
/// the carry is handed from the one to the other: the byte and the carry are
/// those from before.
pub proof fn lemma_rl_of_rr(x: u8, f: Flags)
    ensures
        ({
            let right = rr_spec(x, f);
            let left = rl_spec(right.0, right.1);
            &&& left.0 == x
            &&& left.1.c == f.c
        }),
{
}

/// Setting a bit that was cleared, or clearing one that was set, gives the same
/// as setting or clearing it at once.
pub proof fn lemma_set_and_res(n: u8, x: u8)
    requires
        n < 8,
    ensures
        set_spec(n, res_spec(n, x)) == x | (1u8 << n),
        res_spec(n, set_spec(n, x)) == x & !(1u8 << n),
        set_spec(n, res_spec(n, x)) == set_spec(n, x),
        res_spec(n, set_spec(n, x)) == res_spec(n, x),
{
    assert((x & !(1u8 << n)) | (1u8 << n) == x | (1u8 << n)) by (bit_vector)
        requires
            n < 8,
    ;
    assert((x | (1u8 << n)) & !(1u8 << n) == x & !(1u8 << n)) by (bit_vector)
        requires
            n < 8,
    ;
}

/// The bit test sets Z exactly when bit `n` of the byte is zero, and it changes
/// nothing but the flags: the operand, the other registers and the memory stay
/// as they were.
pub proof fn lemma_bit_test(n: u8, operand: Operand8, registers: Registers, memory: MemoryImage)
    requires
        n < 8,
    ensures
        ({
            let x = operand8_value(operand, registers, memory);
            let after = shift_spec(Operation::TestBit(n, operand), registers, memory);
            &&& after.registers.f.z == (x & (1u8 << n) == 0)
            &&& after.registers.f.z == ((x >> n) & 1 == 0)
            &&& after.registers == (Registers { f: after.registers.f, ..registers })
            &&& after.memory == memory
            &&& operand8_value(operand, after.registers, after.memory) == x
        }),
{
    let x = operand8_value(operand, registers, memory);
    assert((x & (1u8 << n) == 0) == ((x >> n) & 1 == 0)) by (bit_vector)
        requires
            n < 8,
    ;
}

} // verus!
