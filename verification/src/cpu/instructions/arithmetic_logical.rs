//! The arithmetic and logic kernel, and the table entries of the instructions built on it.

use vstd::prelude::*;
use crate::cpu::instructions::operands::{
    accumulated, completed, fetch_immediate8, immediate8, operand8_value, pair_value,
    read_operand8, read_pair, registers_with_pair, stored8, write_operand8, write_pair, Outcome,
};
use crate::cpu::instructions::{
    lemma_opcode_fields, primary_instruction, primary_operation, AluOp, Cycles, ExecutionResult, Instruction,
    InstructionsMap, Operand8, Operation, Pair,
};
use crate::cpu::registers::{Flags, Registers};
use crate::mmu::{MemoryImage, MMU};

verus! {

/// The low nibble of a byte, read as a mask or as a remainder.
pub proof fn lemma_low_nibble(x: u8)
    by (bit_vector)
    ensures
        x & 0x0F == x % 16,
{
}

/// The low twelve bits and the low byte of a word, read as masks or as remainders.
pub proof fn lemma_low_bits16(x: u16)
    by (bit_vector)
    ensures
        x & 0x0FFF == x % 0x1000,
        x & 0x00FF == x % 0x100,
        x & 0x000F == x % 0x10,
{
}

/// 1 if the carry flag is set, else 0.
pub open spec fn carry_in(f: Flags) -> int {
    if f.c {
        1
    } else {
        0
    }
}

/// The value of an 8-bit operand read as a signed offset.
pub open spec fn signed(e8: u8) -> int {
    if e8 < 128 {
        e8 as int
    } else {
        e8 - 256
    }
}

/// The increment of a byte: H is the carry out of bit 3, C keeps its value.
pub open spec fn inc8_spec(x: u8, f: Flags) -> (u8, Flags) {
    let r = ((x + 1) % 256) as u8;
    (r, Flags { z: r == 0, n: false, h: x % 16 == 15, c: f.c })
}

/// The decrement of a byte: H is set when the low nibble borrows, C keeps its value.
pub open spec fn dec8_spec(x: u8, f: Flags) -> (u8, Flags) {
    let r = ((x - 1) % 256) as u8;
    (r, Flags { z: r == 0, n: true, h: x % 16 == 0, c: f.c })
}

/// The sum of two bytes: H is the carry out of bit 3, C the carry out of bit 7.
pub open spec fn add8_spec(a: u8, b: u8, f: Flags) -> (u8, Flags) {
    let r = ((a + b) % 256) as u8;
    (r, Flags { z: r == 0, n: false, h: a % 16 + b % 16 > 15, c: a + b > 255 })
}

/// The sum of two bytes and the carry flag.
pub open spec fn adc8_spec(a: u8, b: u8, f: Flags) -> (u8, Flags) {
    let cin = carry_in(f);
    let r = ((a + b + cin) % 256) as u8;
    (r, Flags { z: r == 0, n: false, h: a % 16 + b % 16 + cin > 15, c: a + b + cin > 255 })
}

/// The difference of two bytes: H is set when the low nibble borrows, C when the
/// byte does.
pub open spec fn sub8_spec(a: u8, b: u8, f: Flags) -> (u8, Flags) {
    let r = ((a - b) % 256) as u8;
    (r, Flags { z: r == 0, n: true, h: a % 16 < b % 16, c: a - b < 0 })
}

/// The difference of two bytes less the carry flag.
pub open spec fn sbc8_spec(a: u8, b: u8, f: Flags) -> (u8, Flags) {
    let cin = carry_in(f);
    let r = ((a - b - cin) % 256) as u8;
    (r, Flags { z: r == 0, n: true, h: a % 16 < b % 16 + cin, c: a - b - cin < 0 })
}

/// The bitwise and of two bytes: H is set, C cleared.
pub open spec fn and8_spec(a: u8, b: u8, f: Flags) -> (u8, Flags) {
    let r = a & b;
    (r, Flags { z: r == 0, n: false, h: true, c: false })
}

/// The bitwise or of two bytes: H and C are cleared.
pub open spec fn or8_spec(a: u8, b: u8, f: Flags) -> (u8, Flags) {
    let r = a | b;
    (r, Flags { z: r == 0, n: false, h: false, c: false })
}

/// The bitwise exclusive or of two bytes: H and C are cleared.
pub open spec fn xor8_spec(a: u8, b: u8, f: Flags) -> (u8, Flags) {
    let r = a ^ b;
    (r, Flags { z: r == 0, n: false, h: false, c: false })
}

/// A comparison sets the flags of a subtraction and keeps the left operand.
pub open spec fn cp8_spec(a: u8, b: u8, f: Flags) -> (u8, Flags) {
    (a, sub8_spec(a, b, f).1)
}

/// The amount that the decimal adjustment adds to or takes from the accumulator.
pub open spec fn daa_adjustment(a: u8, f: Flags) -> int {
    (if f.h || (!f.n && a % 16 > 9) {
        0x06int
    } else {
        0
    }) + (if f.c || (!f.n && a > 0x99) {
        0x60int
    } else {
        0
    })
}

/// The decimal adjustment of the accumulator after an addition (N clear) or a
/// subtraction (N set) of packed decimal bytes.
pub open spec fn daa_spec(a: u8, f: Flags) -> (u8, Flags) {
    let adj = daa_adjustment(a, f);
    let r = (if f.n {
        (a - adj) % 256
    } else {
        (a + adj) % 256
    }) as u8;
    (r, Flags { z: r == 0, n: f.n, h: false, c: f.c || (!f.n && a > 0x99) })
}

/// The complement of a byte: N and H are set, Z and C keep their values.
pub open spec fn cpl_spec(a: u8, f: Flags) -> (u8, Flags) {
    (!a, Flags { n: true, h: true, ..f })
}

/// The flags after the carry is set: N and H are cleared, Z keeps its value.
pub open spec fn scf_spec(f: Flags) -> Flags {
    Flags { n: false, h: false, c: true, ..f }
}

/// The flags after the carry is inverted: N and H are cleared, Z keeps its value.
pub open spec fn ccf_spec(f: Flags) -> Flags {
    Flags { n: false, h: false, c: !f.c, ..f }
}

/// The increment of a word, modulo 2^16. No flag changes.
pub open spec fn inc16_spec(x: u16) -> u16 {
    ((x + 1) % 0x10000) as u16
}

/// The decrement of a word, modulo 2^16. No flag changes.
pub open spec fn dec16_spec(x: u16) -> u16 {
    ((x - 1) % 0x10000) as u16
}

/// The sum of two words: H is the carry out of bit 11, C the carry out of bit 15, Z
/// keeps its value.
pub open spec fn add16_spec(a: u16, b: u16, f: Flags) -> (u16, Flags) {
    (
        ((a + b) % 0x10000) as u16,
        Flags { n: false, h: a % 0x1000 + b % 0x1000 > 0x0FFF, c: a + b > 0xFFFF, ..f },
    )
}

/// The stack pointer plus a signed offset: the flags come from the unsigned
/// addition of the low bytes, whatever the sign of the offset.
pub open spec fn add_sp_e8_spec(sp: u16, e8: u8, f: Flags) -> (u16, Flags) {
    (
        ((sp + signed(e8)) % 0x10000) as u16,
        Flags { z: false, n: false, h: sp % 16 + e8 % 16 > 15, c: sp % 256 + e8 > 255 },
    )
}

/// Increments a byte and sets Z, N and H.
pub fn inc8(x: u8, flags: &mut Flags) -> (r: u8)
    ensures
        (r, *final(flags)) == inc8_spec(x, *old(flags)),
{
    let result = x.wrapping_add(1);
    proof {
        lemma_low_nibble(x);
    }
    flags.z = result == 0;
    flags.n = false;
    flags.h = (x & 0x0F) == 0x0F;
    result
}

/// Decrements a byte and sets Z, N and H.
pub fn dec8(x: u8, flags: &mut Flags) -> (r: u8)
    ensures
        (r, *final(flags)) == dec8_spec(x, *old(flags)),
{
    let result = x.wrapping_sub(1);
    proof {
        lemma_low_nibble(x);
    }
    flags.z = result == 0;
    flags.n = true;
    flags.h = (x & 0x0F) == 0x00;
    result
}

/// Adds two bytes and sets all four flags.
pub fn add8(a: u8, b: u8, flags: &mut Flags) -> (r: u8)
    ensures
        (r, *final(flags)) == add8_spec(a, b, *old(flags)),
{
    let result_u16: u16 = a as u16 + b as u16;
    let result = a.wrapping_add(b);
    proof {
        lemma_low_nibble(a);
        lemma_low_nibble(b);
    }
    flags.z = result == 0;
    flags.n = false;
    flags.h = (a & 0x0F) + (b & 0x0F) > 0x0F;
    flags.c = result_u16 > 0xFF;
    result
}

/// Adds two bytes and the carry flag, and sets all four flags.
pub fn adc8(a: u8, b: u8, flags: &mut Flags) -> (r: u8)
    ensures
        (r, *final(flags)) == adc8_spec(a, b, *old(flags)),
{
    let carry: u8 = if flags.c { 1 } else { 0 };
    let result_u16: u16 = a as u16 + b as u16 + carry as u16;
    let result = a.wrapping_add(b).wrapping_add(carry);
    proof {
        lemma_low_nibble(a);
        lemma_low_nibble(b);
    }
    flags.z = result == 0;
    flags.n = false;
    flags.h = (a & 0x0F) + (b & 0x0F) + carry > 0x0F;
    flags.c = result_u16 > 0xFF;
    result
}

/// Subtracts `b` from `a` and sets all four flags.
pub fn sub8(a: u8, b: u8, flags: &mut Flags) -> (r: u8)
    ensures
        (r, *final(flags)) == sub8_spec(a, b, *old(flags)),
{
    let result = a.wrapping_sub(b);
    proof {
        lemma_low_nibble(a);
        lemma_low_nibble(b);
    }
    flags.z = result == 0;
    flags.n = true;
    flags.h = (a & 0x0F) < (b & 0x0F);
    flags.c = a < b;
    result
}

/// Subtracts `b` and the carry flag from `a`, and sets all four flags.
pub fn sbc8(a: u8, b: u8, flags: &mut Flags) -> (r: u8)
    ensures
        (r, *final(flags)) == sbc8_spec(a, b, *old(flags)),
{
    let carry: u8 = if flags.c { 1 } else { 0 };
    let result = a.wrapping_sub(b).wrapping_sub(carry);
    proof {
        lemma_low_nibble(a);
        lemma_low_nibble(b);
    }
    flags.z = result == 0;
    flags.n = true;
    flags.h = (a & 0x0F) < (b & 0x0F) + carry;
    flags.c = (a as u16) < (b as u16) + (carry as u16);
    result
}

/// The bitwise and of two bytes, with its flags.
pub fn and8(a: u8, b: u8, flags: &mut Flags) -> (r: u8)
    ensures
        (r, *final(flags)) == and8_spec(a, b, *old(flags)),
{
    let result = a & b;
    flags.z = result == 0;
    flags.n = false;
    flags.h = true;
    flags.c = false;
    result
}

/// The bitwise or of two bytes, with its flags.
pub fn or8(a: u8, b: u8, flags: &mut Flags) -> (r: u8)
    ensures
        (r, *final(flags)) == or8_spec(a, b, *old(flags)),
{
    let result = a | b;
    flags.z = result == 0;
    flags.n = false;
    flags.h = false;
    flags.c = false;
    result
}

/// The bitwise exclusive or of two bytes, with its flags.
pub fn xor8(a: u8, b: u8, flags: &mut Flags) -> (r: u8)
    ensures
        (r, *final(flags)) == xor8_spec(a, b, *old(flags)),
{
    let result = a ^ b;
    flags.z = result == 0;
    flags.n = false;
    flags.h = false;
    flags.c = false;
    result
}

/// Compares `a` with `b`: the flags of a subtraction, and `a` as it was.
pub fn cp8(a: u8, b: u8, flags: &mut Flags) -> (r: u8)
    ensures
        (r, *final(flags)) == cp8_spec(a, b, *old(flags)),
{
    let _ = sub8(a, b, flags);
    a
}

/// Adjusts the accumulator to packed decimal after an addition or a subtraction.
pub fn daa(a: u8, flags: &mut Flags) -> (r: u8)
    ensures
        (r, *final(flags)) == daa_spec(a, *old(flags)),
{
    proof {
        lemma_low_nibble(a);
    }
    let mut adjustment: u8 = 0;
    if flags.h || (!flags.n && (a & 0x0F) > 9) {
        adjustment = adjustment + 0x06;
    }
    if flags.c || (!flags.n && a > 0x99) {
        adjustment = adjustment + 0x60;
        flags.c = true;
    }
    let result = if flags.n {
        a.wrapping_sub(adjustment)
    } else {
        a.wrapping_add(adjustment)
    };
    flags.z = result == 0;
    flags.h = false;
    result
}

/// Complements a byte and sets N and H.
pub fn cpl(a: u8, flags: &mut Flags) -> (r: u8)
    ensures
        (r, *final(flags)) == cpl_spec(a, *old(flags)),
{
    flags.n = true;
    flags.h = true;
    !a
}

/// Sets the carry flag and clears N and H.
pub fn scf(flags: &mut Flags)
    ensures
        *final(flags) == scf_spec(*old(flags)),
{
    flags.c = true;
    flags.h = false;
    flags.n = false;
}

/// Inverts the carry flag and clears N and H.
pub fn ccf(flags: &mut Flags)
    ensures
        *final(flags) == ccf_spec(*old(flags)),
{
    flags.c = !flags.c;
    flags.h = false;
    flags.n = false;
}

/// Increments a word, modulo 2^16.
pub fn inc16(x: u16) -> (r: u16)
    ensures
        r == inc16_spec(x),
{
    x.wrapping_add(1)
}

/// Decrements a word, modulo 2^16.
pub fn dec16(x: u16) -> (r: u16)
    ensures
        r == dec16_spec(x),
{
    x.wrapping_sub(1)
}

/// Adds two words and sets N, H and C.
pub fn add16(a: u16, b: u16, flags: &mut Flags) -> (r: u16)
    ensures
        (r, *final(flags)) == add16_spec(a, b, *old(flags)),
{
    let result = a.wrapping_add(b);
    proof {
        lemma_low_bits16(a);
        lemma_low_bits16(b);
    }
    flags.n = false;
    flags.h = (a & 0x0FFF) + (b & 0x0FFF) > 0x0FFF;
    flags.c = result < a;
    result
}

/// Adds a signed offset byte to the stack pointer and sets all four flags.
pub fn add_sp_e8(sp: u16, e8: u8, flags: &mut Flags) -> (r: u16)
    ensures
        (r, *final(flags)) == add_sp_e8_spec(sp, e8, *old(flags)),
{
    let result = if e8 < 0x80 {
        sp.wrapping_add(e8 as u16)
    } else {
        sp.wrapping_sub(0x100 - e8 as u16)
    };
    proof {
        lemma_low_bits16(sp);
        lemma_low_nibble(e8);
    }
    flags.z = false;
    flags.n = false;
    flags.h = (sp & 0x000F) + ((e8 & 0x0F) as u16) > 0x000F;
    flags.c = (sp & 0x00FF) + (e8 as u16) > 0x00FF;
    result
}

/// Whether an operation belongs to the 8-bit arithmetic and logic instructions.
pub open spec fn is_alu8(operation: Operation) -> bool {
    operation is Inc8 || operation is Dec8 || operation is Alu || operation is AluImmediate
        || operation is Daa || operation is Cpl || operation is Scf || operation is Ccf
}

/// Whether an operation belongs to the 16-bit arithmetic instructions.
pub open spec fn is_alu16(operation: Operation) -> bool {
    operation is Inc16 || operation is Dec16 || operation is AddHl || operation is AddStackOffset
}

/// Whether an operation is an arithmetic or logic instruction.
pub open spec fn is_arithmetic(operation: Operation) -> bool {
    is_alu8(operation) || is_alu16(operation)
}

/// The result and flags of an accumulator operation on `a` and `b`.
pub open spec fn alu_spec(op: AluOp, a: u8, b: u8, f: Flags) -> (u8, Flags) {
    match op {
        AluOp::Add => add8_spec(a, b, f),
        AluOp::Adc => adc8_spec(a, b, f),
        AluOp::Sub => sub8_spec(a, b, f),
        AluOp::Sbc => sbc8_spec(a, b, f),
        AluOp::And => and8_spec(a, b, f),
        AluOp::Xor => xor8_spec(a, b, f),
        AluOp::Or => or8_spec(a, b, f),
        AluOp::Cp => cp8_spec(a, b, f),
    }
}

/// What an arithmetic or logic instruction does.
pub open spec fn arithmetic_spec(operation: Operation, registers: Registers, memory: MemoryImage) -> Outcome {
    match operation {
        Operation::Inc8(operand) => stored8(
            operand,
            inc8_spec(operand8_value(operand, registers, memory), registers.f),
            registers,
            memory,
        ),
        Operation::Dec8(operand) => stored8(
            operand,
            dec8_spec(operand8_value(operand, registers, memory), registers.f),
            registers,
            memory,
        ),
        Operation::Alu(op, operand) => accumulated(
            alu_spec(op, registers.a, operand8_value(operand, registers, memory), registers.f),
            registers,
            memory,
        ),
        Operation::AluImmediate(op) => accumulated(
            alu_spec(op, registers.a, immediate8(registers, memory), registers.f),
            registers,
            memory,
        ),
        Operation::Daa => accumulated(daa_spec(registers.a, registers.f), registers, memory),
        Operation::Cpl => accumulated(cpl_spec(registers.a, registers.f), registers, memory),
        Operation::Scf => completed(Registers { f: scf_spec(registers.f), ..registers }, memory),
        Operation::Ccf => completed(Registers { f: ccf_spec(registers.f), ..registers }, memory),
        Operation::Inc16(pair) => completed(
            registers_with_pair(pair, inc16_spec(pair_value(pair, registers)), registers),
            memory,
        ),
        Operation::Dec16(pair) => completed(
            registers_with_pair(pair, dec16_spec(pair_value(pair, registers)), registers),
            memory,
        ),
        Operation::AddHl(pair) => {
            let sum = add16_spec(registers.spec_hl(), pair_value(pair, registers), registers.f);
            completed((Registers { f: sum.1, ..registers }).spec_set_hl(sum.0), memory)
        },
        Operation::AddStackOffset => {
            let sum = add_sp_e8_spec(registers.sp, immediate8(registers, memory), registers.f);
            completed(Registers { sp: sum.0, f: sum.1, ..registers }, memory)
        },
        _ => completed(registers, memory),
    }
}

/// Applies an accumulator operation to `a` and `b`.
pub fn alu(op: AluOp, a: u8, b: u8, flags: &mut Flags) -> (r: u8)
    ensures
        (r, *final(flags)) == alu_spec(op, a, b, *old(flags)),
{
    match op {
        AluOp::Add => add8(a, b, flags),
        AluOp::Adc => adc8(a, b, flags),
        AluOp::Sub => sub8(a, b, flags),
        AluOp::Sbc => sbc8(a, b, flags),
        AluOp::And => and8(a, b, flags),
        AluOp::Xor => xor8(a, b, flags),
        AluOp::Or => or8(a, b, flags),
        AluOp::Cp => cp8(a, b, flags),
    }
}

/// Runs an arithmetic or logic instruction.
pub fn execute_arithmetic(operation: Operation, registers: &mut Registers, mmu: &mut MMU) -> (result:
    ExecutionResult)
    requires
        is_arithmetic(operation),
        old(mmu).wf(),
    ensures
        final(mmu).wf(),
        final(mmu).rom_len() == old(mmu).rom_len(),
        (Outcome { registers: *final(registers), memory: final(mmu)@, result }) == arithmetic_spec(
            operation,
            *old(registers),
            old(mmu)@,
        ),
{
    match operation {
        Operation::Inc8(operand) => {
            let value = read_operand8(operand, registers, mmu);
            let result = inc8(value, &mut registers.f);
            write_operand8(operand, result, registers, mmu);
        },
        Operation::Dec8(operand) => {
            let value = read_operand8(operand, registers, mmu);
            let result = dec8(value, &mut registers.f);
            write_operand8(operand, result, registers, mmu);
        },
        Operation::Alu(op, operand) => {
            let value = read_operand8(operand, registers, mmu);
            registers.a = alu(op, registers.a, value, &mut registers.f);
        },
        Operation::AluImmediate(op) => {
            let value = fetch_immediate8(registers, mmu);
            registers.a = alu(op, registers.a, value, &mut registers.f);
        },
        Operation::Daa => {
            registers.a = daa(registers.a, &mut registers.f);
        },
        Operation::Cpl => {
            registers.a = cpl(registers.a, &mut registers.f);
        },
        Operation::Scf => {
            scf(&mut registers.f);
        },
        Operation::Ccf => {
            ccf(&mut registers.f);
        },
        Operation::Inc16(pair) => {
            let value = read_pair(pair, registers);
            write_pair(pair, inc16(value), registers);
        },
        Operation::Dec16(pair) => {
            let value = read_pair(pair, registers);
            write_pair(pair, dec16(value), registers);
        },
        Operation::AddHl(pair) => {
            let value = read_pair(pair, registers);
            let sum = add16(registers.get_hl(), value, &mut registers.f);
            registers.set_hl(sum);
        },
        Operation::AddStackOffset => {
            let offset = fetch_immediate8(registers, mmu);
            registers.sp = add_sp_e8(registers.sp, offset, &mut registers.f);
        },
        _ => {},
    }
    ExecutionResult::default()
}

/// Enters the arithmetic and logic instructions into the primary table.
pub fn instructions_map_arithmetic_logical_instructions(instructions_map: &mut InstructionsMap)
    requires
        old(instructions_map).wf(),
    ensures
        final(instructions_map).wf(),
        forall|opcode: u8|
            #![auto]
            final(instructions_map)@[opcode as int] == if primary_operation(opcode) matches Some(o)
                && is_arithmetic(o) {
                primary_instruction(opcode)
            } else {
                old(instructions_map)@[opcode as int]
            },
{
    instructions_map_8_bit_arithmetic_logical_instructions(instructions_map);
    instructions_map_16_bit_arithmetic_logical_instructions(instructions_map);
}

/// Enters the 8-bit arithmetic and logic instructions into the primary table.
pub fn instructions_map_8_bit_arithmetic_logical_instructions(instructions_map: &mut InstructionsMap)
    requires
        old(instructions_map).wf(),
    ensures
        final(instructions_map).wf(),
        forall|opcode: u8|
            #![auto]
            final(instructions_map)@[opcode as int] == if primary_operation(opcode) matches Some(o)
                && is_alu8(o) {
                primary_instruction(opcode)
            } else {
                old(instructions_map)@[opcode as int]
            },
{
    instructions_map.insert(0x04, Instruction::new(Operation::Inc8(Operand8::B), Cycles::new(4), 1));
    instructions_map.insert(0x14, Instruction::new(Operation::Inc8(Operand8::D), Cycles::new(4), 1));
    instructions_map.insert(0x24, Instruction::new(Operation::Inc8(Operand8::H), Cycles::new(4), 1));
    instructions_map.insert(0x34, Instruction::new(Operation::Inc8(Operand8::HlIndirect), Cycles::new(12), 1));
    instructions_map.insert(0x0C, Instruction::new(Operation::Inc8(Operand8::C), Cycles::new(4), 1));
    instructions_map.insert(0x1C, Instruction::new(Operation::Inc8(Operand8::E), Cycles::new(4), 1));
    instructions_map.insert(0x2C, Instruction::new(Operation::Inc8(Operand8::L), Cycles::new(4), 1));
    instructions_map.insert(0x3C, Instruction::new(Operation::Inc8(Operand8::A), Cycles::new(4), 1));
    instructions_map.insert(0x05, Instruction::new(Operation::Dec8(Operand8::B), Cycles::new(4), 1));
    instructions_map.insert(0x15, Instruction::new(Operation::Dec8(Operand8::D), Cycles::new(4), 1));
    instructions_map.insert(0x25, Instruction::new(Operation::Dec8(Operand8::H), Cycles::new(4), 1));
    instructions_map.insert(0x35, Instruction::new(Operation::Dec8(Operand8::HlIndirect), Cycles::new(12), 1));
    instructions_map.insert(0x0D, Instruction::new(Operation::Dec8(Operand8::C), Cycles::new(4), 1));
    instructions_map.insert(0x1D, Instruction::new(Operation::Dec8(Operand8::E), Cycles::new(4), 1));
    instructions_map.insert(0x2D, Instruction::new(Operation::Dec8(Operand8::L), Cycles::new(4), 1));
    instructions_map.insert(0x3D, Instruction::new(Operation::Dec8(Operand8::A), Cycles::new(4), 1));
    instructions_map.insert(0x27, Instruction::new(Operation::Daa, Cycles::new(4), 1));
    instructions_map.insert(0x37, Instruction::new(Operation::Scf, Cycles::new(4), 1));
    instructions_map.insert(0x2F, Instruction::new(Operation::Cpl, Cycles::new(4), 1));
    instructions_map.insert(0x3F, Instruction::new(Operation::Ccf, Cycles::new(4), 1));
    instructions_map.insert(0x80, Instruction::new(Operation::Alu(AluOp::Add, Operand8::B), Cycles::new(4), 1));
    instructions_map.insert(0x81, Instruction::new(Operation::Alu(AluOp::Add, Operand8::C), Cycles::new(4), 1));
    instructions_map.insert(0x82, Instruction::new(Operation::Alu(AluOp::Add, Operand8::D), Cycles::new(4), 1));
    instructions_map.insert(0x83, Instruction::new(Operation::Alu(AluOp::Add, Operand8::E), Cycles::new(4), 1));
    instructions_map.insert(0x84, Instruction::new(Operation::Alu(AluOp::Add, Operand8::H), Cycles::new(4), 1));
    instructions_map.insert(0x85, Instruction::new(Operation::Alu(AluOp::Add, Operand8::L), Cycles::new(4), 1));
    instructions_map.insert(0x86, Instruction::new(Operation::Alu(AluOp::Add, Operand8::HlIndirect), Cycles::new(8), 1));
    instructions_map.insert(0x87, Instruction::new(Operation::Alu(AluOp::Add, Operand8::A), Cycles::new(4), 1));
    instructions_map.insert(0x88, Instruction::new(Operation::Alu(AluOp::Adc, Operand8::B), Cycles::new(4), 1));
    instructions_map.insert(0x89, Instruction::new(Operation::Alu(AluOp::Adc, Operand8::C), Cycles::new(4), 1));
    instructions_map.insert(0x8A, Instruction::new(Operation::Alu(AluOp::Adc, Operand8::D), Cycles::new(4), 1));
    instructions_map.insert(0x8B, Instruction::new(Operation::Alu(AluOp::Adc, Operand8::E), Cycles::new(4), 1));
    instructions_map.insert(0x8C, Instruction::new(Operation::Alu(AluOp::Adc, Operand8::H), Cycles::new(4), 1));
    instructions_map.insert(0x8D, Instruction::new(Operation::Alu(AluOp::Adc, Operand8::L), Cycles::new(4), 1));
    instructions_map.insert(0x8E, Instruction::new(Operation::Alu(AluOp::Adc, Operand8::HlIndirect), Cycles::new(8), 1));
    instructions_map.insert(0x8F, Instruction::new(Operation::Alu(AluOp::Adc, Operand8::A), Cycles::new(4), 1));
    instructions_map.insert(0x90, Instruction::new(Operation::Alu(AluOp::Sub, Operand8::B), Cycles::new(4), 1));
    instructions_map.insert(0x91, Instruction::new(Operation::Alu(AluOp::Sub, Operand8::C), Cycles::new(4), 1));
    instructions_map.insert(0x92, Instruction::new(Operation::Alu(AluOp::Sub, Operand8::D), Cycles::new(4), 1));
    instructions_map.insert(0x93, Instruction::new(Operation::Alu(AluOp::Sub, Operand8::E), Cycles::new(4), 1));
    instructions_map.insert(0x94, Instruction::new(Operation::Alu(AluOp::Sub, Operand8::H), Cycles::new(4), 1));
    instructions_map.insert(0x95, Instruction::new(Operation::Alu(AluOp::Sub, Operand8::L), Cycles::new(4), 1));
    instructions_map.insert(0x96, Instruction::new(Operation::Alu(AluOp::Sub, Operand8::HlIndirect), Cycles::new(8), 1));
    instructions_map.insert(0x97, Instruction::new(Operation::Alu(AluOp::Sub, Operand8::A), Cycles::new(4), 1));
    instructions_map.insert(0x98, Instruction::new(Operation::Alu(AluOp::Sbc, Operand8::B), Cycles::new(4), 1));
    instructions_map.insert(0x99, Instruction::new(Operation::Alu(AluOp::Sbc, Operand8::C), Cycles::new(4), 1));
    instructions_map.insert(0x9A, Instruction::new(Operation::Alu(AluOp::Sbc, Operand8::D), Cycles::new(4), 1));
    instructions_map.insert(0x9B, Instruction::new(Operation::Alu(AluOp::Sbc, Operand8::E), Cycles::new(4), 1));
    instructions_map.insert(0x9C, Instruction::new(Operation::Alu(AluOp::Sbc, Operand8::H), Cycles::new(4), 1));
    instructions_map.insert(0x9D, Instruction::new(Operation::Alu(AluOp::Sbc, Operand8::L), Cycles::new(4), 1));
    instructions_map.insert(0x9E, Instruction::new(Operation::Alu(AluOp::Sbc, Operand8::HlIndirect), Cycles::new(8), 1));
    instructions_map.insert(0x9F, Instruction::new(Operation::Alu(AluOp::Sbc, Operand8::A), Cycles::new(4), 1));
    instructions_map.insert(0xA0, Instruction::new(Operation::Alu(AluOp::And, Operand8::B), Cycles::new(4), 1));
    instructions_map.insert(0xA1, Instruction::new(Operation::Alu(AluOp::And, Operand8::C), Cycles::new(4), 1));
    instructions_map.insert(0xA2, Instruction::new(Operation::Alu(AluOp::And, Operand8::D), Cycles::new(4), 1));
    instructions_map.insert(0xA3, Instruction::new(Operation::Alu(AluOp::And, Operand8::E), Cycles::new(4), 1));
    instructions_map.insert(0xA4, Instruction::new(Operation::Alu(AluOp::And, Operand8::H), Cycles::new(4), 1));
    instructions_map.insert(0xA5, Instruction::new(Operation::Alu(AluOp::And, Operand8::L), Cycles::new(4), 1));
    instructions_map.insert(0xA6, Instruction::new(Operation::Alu(AluOp::And, Operand8::HlIndirect), Cycles::new(8), 1));
    instructions_map.insert(0xA7, Instruction::new(Operation::Alu(AluOp::And, Operand8::A), Cycles::new(4), 1));
    instructions_map.insert(0xA8, Instruction::new(Operation::Alu(AluOp::Xor, Operand8::B), Cycles::new(4), 1));
    instructions_map.insert(0xA9, Instruction::new(Operation::Alu(AluOp::Xor, Operand8::C), Cycles::new(4), 1));
    instructions_map.insert(0xAA, Instruction::new(Operation::Alu(AluOp::Xor, Operand8::D), Cycles::new(4), 1));
    instructions_map.insert(0xAB, Instruction::new(Operation::Alu(AluOp::Xor, Operand8::E), Cycles::new(4), 1));
    instructions_map.insert(0xAC, Instruction::new(Operation::Alu(AluOp::Xor, Operand8::H), Cycles::new(4), 1));
    instructions_map.insert(0xAD, Instruction::new(Operation::Alu(AluOp::Xor, Operand8::L), Cycles::new(4), 1));
    instructions_map.insert(0xAE, Instruction::new(Operation::Alu(AluOp::Xor, Operand8::HlIndirect), Cycles::new(8), 1));
    instructions_map.insert(0xAF, Instruction::new(Operation::Alu(AluOp::Xor, Operand8::A), Cycles::new(4), 1));
    instructions_map.insert(0xB0, Instruction::new(Operation::Alu(AluOp::Or, Operand8::B), Cycles::new(4), 1));
    instructions_map.insert(0xB1, Instruction::new(Operation::Alu(AluOp::Or, Operand8::C), Cycles::new(4), 1));
    instructions_map.insert(0xB2, Instruction::new(Operation::Alu(AluOp::Or, Operand8::D), Cycles::new(4), 1));
    instructions_map.insert(0xB3, Instruction::new(Operation::Alu(AluOp::Or, Operand8::E), Cycles::new(4), 1));
    instructions_map.insert(0xB4, Instruction::new(Operation::Alu(AluOp::Or, Operand8::H), Cycles::new(4), 1));
    instructions_map.insert(0xB5, Instruction::new(Operation::Alu(AluOp::Or, Operand8::L), Cycles::new(4), 1));
    instructions_map.insert(0xB6, Instruction::new(Operation::Alu(AluOp::Or, Operand8::HlIndirect), Cycles::new(8), 1));
    instructions_map.insert(0xB7, Instruction::new(Operation::Alu(AluOp::Or, Operand8::A), Cycles::new(4), 1));
    instructions_map.insert(0xB8, Instruction::new(Operation::Alu(AluOp::Cp, Operand8::B), Cycles::new(4), 1));
    instructions_map.insert(0xB9, Instruction::new(Operation::Alu(AluOp::Cp, Operand8::C), Cycles::new(4), 1));
    instructions_map.insert(0xBA, Instruction::new(Operation::Alu(AluOp::Cp, Operand8::D), Cycles::new(4), 1));
    instructions_map.insert(0xBB, Instruction::new(Operation::Alu(AluOp::Cp, Operand8::E), Cycles::new(4), 1));
    instructions_map.insert(0xBC, Instruction::new(Operation::Alu(AluOp::Cp, Operand8::H), Cycles::new(4), 1));
    instructions_map.insert(0xBD, Instruction::new(Operation::Alu(AluOp::Cp, Operand8::L), Cycles::new(4), 1));
    instructions_map.insert(0xBE, Instruction::new(Operation::Alu(AluOp::Cp, Operand8::HlIndirect), Cycles::new(8), 1));
    instructions_map.insert(0xBF, Instruction::new(Operation::Alu(AluOp::Cp, Operand8::A), Cycles::new(4), 1));
    instructions_map.insert(0xC6, Instruction::new(Operation::AluImmediate(AluOp::Add), Cycles::new(8), 2));
    instructions_map.insert(0xD6, Instruction::new(Operation::AluImmediate(AluOp::Sub), Cycles::new(8), 2));
    instructions_map.insert(0xE6, Instruction::new(Operation::AluImmediate(AluOp::And), Cycles::new(8), 2));
    instructions_map.insert(0xF6, Instruction::new(Operation::AluImmediate(AluOp::Or), Cycles::new(8), 2));
    instructions_map.insert(0xCE, Instruction::new(Operation::AluImmediate(AluOp::Adc), Cycles::new(8), 2));
    instructions_map.insert(0xDE, Instruction::new(Operation::AluImmediate(AluOp::Sbc), Cycles::new(8), 2));
    instructions_map.insert(0xEE, Instruction::new(Operation::AluImmediate(AluOp::Xor), Cycles::new(8), 2));
    instructions_map.insert(0xFE, Instruction::new(Operation::AluImmediate(AluOp::Cp), Cycles::new(8), 2));
    proof {
        instructions_map.lemma_len();
        assert forall|opcode: u8|
            #![auto]
            instructions_map@[opcode as int] == if primary_operation(opcode) matches Some(o)
                && is_alu8(o) {
                primary_instruction(opcode)
            } else {
                old(instructions_map)@[opcode as int]
            } by {
            lemma_opcode_fields(opcode);
        }
    }
}

/// Enters the 16-bit arithmetic instructions into the primary table.
pub fn instructions_map_16_bit_arithmetic_logical_instructions(instructions_map: &mut InstructionsMap)
    requires
        old(instructions_map).wf(),
    ensures
        final(instructions_map).wf(),
        forall|opcode: u8|
            #![auto]
            final(instructions_map)@[opcode as int] == if primary_operation(opcode) matches Some(o)
                && is_alu16(o) {
                primary_instruction(opcode)
            } else {
                old(instructions_map)@[opcode as int]
            },
{
    instructions_map.insert(0x03, Instruction::new(Operation::Inc16(Pair::BC), Cycles::new(8), 1));
    instructions_map.insert(0x13, Instruction::new(Operation::Inc16(Pair::DE), Cycles::new(8), 1));
    instructions_map.insert(0x23, Instruction::new(Operation::Inc16(Pair::HL), Cycles::new(8), 1));
    instructions_map.insert(0x33, Instruction::new(Operation::Inc16(Pair::SP), Cycles::new(8), 1));
    instructions_map.insert(0x09, Instruction::new(Operation::AddHl(Pair::BC), Cycles::new(8), 1));
    instructions_map.insert(0x19, Instruction::new(Operation::AddHl(Pair::DE), Cycles::new(8), 1));
    instructions_map.insert(0x29, Instruction::new(Operation::AddHl(Pair::HL), Cycles::new(8), 1));
    instructions_map.insert(0x39, Instruction::new(Operation::AddHl(Pair::SP), Cycles::new(8), 1));
    instructions_map.insert(0x0B, Instruction::new(Operation::Dec16(Pair::BC), Cycles::new(8), 1));
    instructions_map.insert(0x1B, Instruction::new(Operation::Dec16(Pair::DE), Cycles::new(8), 1));
    instructions_map.insert(0x2B, Instruction::new(Operation::Dec16(Pair::HL), Cycles::new(8), 1));
    instructions_map.insert(0x3B, Instruction::new(Operation::Dec16(Pair::SP), Cycles::new(8), 1));
    instructions_map.insert(0xE8, Instruction::new(Operation::AddStackOffset, Cycles::new(16), 2));
    proof {
        instructions_map.lemma_len();
    }
}

/// Subtracting what was added gives the first operand back. The subtraction borrows
/// exactly when the addition carried, out of bit 7 and out of bit 3 alike, and each
/// operation sets Z for its own result.
pub proof fn lemma_add8_then_sub8(a: u8, b: u8, f: Flags)
    ensures
        ({
            let sum = add8_spec(a, b, f);
            let difference = sub8_spec(sum.0, b, sum.1);
            &&& difference.0 == a
            &&& !sum.1.n
            &&& difference.1.n
            &&& sum.1.z == (sum.0 == 0)
            &&& difference.1.z == (a == 0)
            &&& difference.1.c == sum.1.c
            &&& difference.1.h == sum.1.h
        }),
{
}

/// Whether both nibbles of a byte are decimal digits.
pub open spec fn is_bcd(x: u8) -> bool {
    x % 16 <= 9 && x / 16 <= 9
}

/// The number between 0 and 99 that a packed decimal byte stands for.
pub open spec fn bcd_value(x: u8) -> int {
    (x / 16) * 10 + x % 16
}

/// A packed decimal byte needs no adjustment when no carry is pending.
pub proof fn lemma_daa_keeps_bcd(x: u8, f: Flags)
    requires
        is_bcd(x),
        !f.h,
        !f.c,
    ensures
        daa_spec(x, f).0 == x,
        !daa_spec(x, f).1.c,
        daa_spec(x, f).1.z == (x == 0),
{
}

proof fn lemma_decimal_add(a: u8, b: u8, s: u8, adj: u8, r: u8)
    by (bit_vector)
    requires
        a % 16 <= 9 && a / 16 <= 9,
        b % 16 <= 9 && b / 16 <= 9,
        s == ((a + b) % 256) as u8,
        adj == ((if a % 16 + b % 16 > 15 || s % 16 > 9 {
            0x06u8
        } else {
            0u8
        }) + (if a + b > 255 || s > 0x99 {
            0x60u8
        } else {
            0u8
        })) as u8,
        r == ((s + adj) % 256) as u8,
    ensures
        r % 16 <= 9 && r / 16 <= 9,
        (r / 16) * 10 + r % 16 == ((a / 16) * 10 + a % 16 + (b / 16) * 10 + b % 16) % 100,
        (a + b > 255 || s > 0x99) == ((a / 16) * 10 + a % 16 + (b / 16) * 10 + b % 16 >= 100),
{
}

proof fn lemma_decimal_sub(a: u8, b: u8, d: u8, adj: u8, r: u8)
    by (bit_vector)
    requires
        a % 16 <= 9 && a / 16 <= 9,
        b % 16 <= 9 && b / 16 <= 9,
        d == ((256 + a - b) % 256) as u8,
        adj == ((if a % 16 < b % 16 {
            0x06u8
        } else {
            0u8
        }) + (if a < b {
            0x60u8
        } else {
            0u8
        })) as u8,
        r == ((256 + d - adj) % 256) as u8,
    ensures
        r % 16 <= 9 && r / 16 <= 9,
        (r / 16) * 10 + r % 16 == (100 + (a / 16) * 10 + a % 16 - ((b / 16) * 10 + b % 16)) % 100,
        (a < b) == ((a / 16) * 10 + a % 16 < (b / 16) * 10 + b % 16),
{
}

/// The decimal adjustment after an addition of two packed decimal bytes gives the
/// packed decimal sum modulo 100, and sets the carry exactly when the sum
/// reaches 100.
pub proof fn lemma_daa_after_add8(a: u8, b: u8, f: Flags)
    requires
        is_bcd(a),
        is_bcd(b),
    ensures
        ({
            let sum = add8_spec(a, b, f);
            let adjusted = daa_spec(sum.0, sum.1);
            &&& is_bcd(adjusted.0)
            &&& bcd_value(adjusted.0) == (bcd_value(a) + bcd_value(b)) % 100
            &&& adjusted.1.c == (bcd_value(a) + bcd_value(b) >= 100)
            &&& adjusted.1.z == (adjusted.0 == 0)
            &&& !adjusted.1.h
            &&& !adjusted.1.n
        }),
{
    let sum = add8_spec(a, b, f);
    let adjusted = daa_spec(sum.0, sum.1);
    lemma_decimal_add(a, b, sum.0, daa_adjustment(sum.0, sum.1) as u8, adjusted.0);
}

/// The decimal adjustment after a subtraction of two packed decimal bytes gives the
/// packed decimal difference modulo 100, and keeps the borrow.
pub proof fn lemma_daa_after_sub8(a: u8, b: u8, f: Flags)
    requires
        is_bcd(a),
        is_bcd(b),
    ensures
        ({
            let difference = sub8_spec(a, b, f);
            let adjusted = daa_spec(difference.0, difference.1);
            &&& is_bcd(adjusted.0)
            &&& bcd_value(adjusted.0) == (bcd_value(a) - bcd_value(b)) % 100
            &&& adjusted.1.c == (bcd_value(a) < bcd_value(b))
            &&& adjusted.1.z == (adjusted.0 == 0)
            &&& !adjusted.1.h
            &&& adjusted.1.n
        }),
{
    let difference = sub8_spec(a, b, f);
    let adjustment = daa_adjustment(difference.0, difference.1);
    let adjusted = daa_spec(difference.0, difference.1);
    let value = bcd_value(a) - bcd_value(b);
    assert(difference.0 == (256 + a - b) % 256);
    assert(adjustment == 0 || adjustment == 0x06 || adjustment == 0x60 || adjustment == 0x66);
    assert(adjusted.0 == (256 + difference.0 - adjustment) % 256);
    assert((100 + value) % 100 == value % 100);
    lemma_decimal_sub(a, b, difference.0, adjustment as u8, adjusted.0);
}

} // verus!
