//! The mnemonics of the instructions, for disassembly.

use vstd::prelude::*;
use vstd::string::*;
use crate::cpu::instructions::{
    AluOp, Condition, Indirect, Operand8, Operation, Pair, RotOp, StackPair,
};
use crate::text::{append_decimal, append_hex8, decimal_text, hex_text8};

verus! {

/// How the mnemonics write a value of `Operand8`.
pub open spec fn operand8_text(value: Operand8) -> Seq<char> {
    match value {
        Operand8::B => "B"@,
        Operand8::C => "C"@,
        Operand8::D => "D"@,
        Operand8::E => "E"@,
        Operand8::H => "H"@,
        Operand8::L => "L"@,
        Operand8::HlIndirect => "(HL)"@,
        Operand8::A => "A"@,
    }
}

/// How the mnemonics write an 8-bit operand.
pub fn operand8_str(value: Operand8) -> (text: &'static str)
    ensures
        text@ == operand8_text(value),
{
    match value {
        Operand8::B => "B",
        Operand8::C => "C",
        Operand8::D => "D",
        Operand8::E => "E",
        Operand8::H => "H",
        Operand8::L => "L",
        Operand8::HlIndirect => "(HL)",
        Operand8::A => "A",
    }
}

/// How the mnemonics write a value of `Pair`.
pub open spec fn pair_text(value: Pair) -> Seq<char> {
    match value {
        Pair::BC => "BC"@,
        Pair::DE => "DE"@,
        Pair::HL => "HL"@,
        Pair::SP => "SP"@,
    }
}

/// How the mnemonics write a register pair.
pub fn pair_str(value: Pair) -> (text: &'static str)
    ensures
        text@ == pair_text(value),
{
    match value {
        Pair::BC => "BC",
        Pair::DE => "DE",
        Pair::HL => "HL",
        Pair::SP => "SP",
    }
}

/// How the mnemonics write a value of `StackPair`.
pub open spec fn stack_pair_text(value: StackPair) -> Seq<char> {
    match value {
        StackPair::BC => "BC"@,
        StackPair::DE => "DE"@,
        StackPair::HL => "HL"@,
        StackPair::AF => "AF"@,
    }
}

/// How the mnemonics write a pair that is pushed or popped.
pub fn stack_pair_str(value: StackPair) -> (text: &'static str)
    ensures
        text@ == stack_pair_text(value),
{
    match value {
        StackPair::BC => "BC",
        StackPair::DE => "DE",
        StackPair::HL => "HL",
        StackPair::AF => "AF",
    }
}

/// How the mnemonics write a value of `Indirect`.
pub open spec fn indirect_text(value: Indirect) -> Seq<char> {
    match value {
        Indirect::BC => "(BC)"@,
        Indirect::DE => "(DE)"@,
        Indirect::HlIncrement => "(HL+)"@,
        Indirect::HlDecrement => "(HL-)"@,
    }
}

/// How the mnemonics write the memory operand of an accumulator load.
pub fn indirect_str(value: Indirect) -> (text: &'static str)
    ensures
        text@ == indirect_text(value),
{
    match value {
        Indirect::BC => "(BC)",
        Indirect::DE => "(DE)",
        Indirect::HlIncrement => "(HL+)",
        Indirect::HlDecrement => "(HL-)",
    }
}

/// How the mnemonics write a value of `Condition`.
pub open spec fn condition_text(value: Condition) -> Seq<char> {
    match value {
        Condition::NotZero => "NZ"@,
        Condition::Zero => "Z"@,
        Condition::NotCarry => "NC"@,
        Condition::Carry => "C"@,
    }
}

/// How the mnemonics write a branch condition.
pub fn condition_str(value: Condition) -> (text: &'static str)
    ensures
        text@ == condition_text(value),
{
    match value {
        Condition::NotZero => "NZ",
        Condition::Zero => "Z",
        Condition::NotCarry => "NC",
        Condition::Carry => "C",
    }
}

/// How the mnemonics write a value of `AluOp`.
pub open spec fn alu_op_text(value: AluOp) -> Seq<char> {
    match value {
        AluOp::Add => "ADD"@,
        AluOp::Adc => "ADC"@,
        AluOp::Sub => "SUB"@,
        AluOp::Sbc => "SBC"@,
        AluOp::And => "AND"@,
        AluOp::Xor => "XOR"@,
        AluOp::Or => "OR"@,
        AluOp::Cp => "CP"@,
    }
}

/// How the mnemonics write an accumulator operation.
pub fn alu_op_str(value: AluOp) -> (text: &'static str)
    ensures
        text@ == alu_op_text(value),
{
    match value {
        AluOp::Add => "ADD",
        AluOp::Adc => "ADC",
        AluOp::Sub => "SUB",
        AluOp::Sbc => "SBC",
        AluOp::And => "AND",
        AluOp::Xor => "XOR",
        AluOp::Or => "OR",
        AluOp::Cp => "CP",
    }
}

/// How the mnemonics write a value of `RotOp`.
pub open spec fn rot_op_text(value: RotOp) -> Seq<char> {
    match value {
        RotOp::Rlc => "RLC"@,
        RotOp::Rrc => "RRC"@,
        RotOp::Rl => "RL"@,
        RotOp::Rr => "RR"@,
        RotOp::Sla => "SLA"@,
        RotOp::Sra => "SRA"@,
        RotOp::Swap => "SWAP"@,
        RotOp::Srl => "SRL"@,
    }
}

/// How the mnemonics write a rotate or shift.
pub fn rot_op_str(value: RotOp) -> (text: &'static str)
    ensures
        text@ == rot_op_text(value),
{
    match value {
        RotOp::Rlc => "RLC",
        RotOp::Rrc => "RRC",
        RotOp::Rl => "RL",
        RotOp::Rr => "RR",
        RotOp::Sla => "SLA",
        RotOp::Sra => "SRA",
        RotOp::Swap => "SWAP",
        RotOp::Srl => "SRL",
    }
}

/// The mnemonic of an operation: the name of the instruction and its operands as
/// the opcode matrix writes them.
pub open spec fn mnemonic_text(operation: Operation) -> Seq<char> {
    match operation {
        Operation::Nop => "NOP"@,
        Operation::Stop => "STOP"@,
        Operation::Halt => "HALT"@,
        Operation::Prefix => "PREFIX"@,
        Operation::Di => "DI"@,
        Operation::Ei => "EI"@,
        Operation::Load8(dst, src) => "LD "@ + operand8_text(dst) + ", "@ + operand8_text(src),
        Operation::LoadImmediate8(dst) => "LD "@ + operand8_text(dst) + ", d8"@,
        Operation::StoreAccumulator(indirect) => "LD "@ + indirect_text(indirect) + ", A"@,
        Operation::LoadAccumulator(indirect) => "LD A, "@ + indirect_text(indirect),
        Operation::StoreHighImmediate => "LDH (a8), A"@,
        Operation::LoadHighImmediate => "LDH A, (a8)"@,
        Operation::StoreHighC => "LDH (C), A"@,
        Operation::LoadHighC => "LDH A, (C)"@,
        Operation::StoreAbsolute => "LD (a16), A"@,
        Operation::LoadAbsolute => "LD A, (a16)"@,
        Operation::LoadImmediate16(pair) => "LD "@ + pair_text(pair) + ", d16"@,
        Operation::StoreStackPointer => "LD (a16), SP"@,
        Operation::LoadStackPointerHl => "LD SP, HL"@,
        Operation::LoadHlStackOffset => "LD HL, SP+r8"@,
        Operation::Push(pair) => "PUSH "@ + stack_pair_text(pair),
        Operation::Pop(pair) => "POP "@ + stack_pair_text(pair),
        Operation::Inc8(operand) => "INC "@ + operand8_text(operand),
        Operation::Dec8(operand) => "DEC "@ + operand8_text(operand),
        Operation::Alu(op, operand) => alu_op_text(op) + " A, "@ + operand8_text(operand),
        Operation::AluImmediate(op) => alu_op_text(op) + " A, d8"@,
        Operation::Daa => "DAA"@,
        Operation::Cpl => "CPL"@,
        Operation::Scf => "SCF"@,
        Operation::Ccf => "CCF"@,
        Operation::Inc16(pair) => "INC "@ + pair_text(pair),
        Operation::Dec16(pair) => "DEC "@ + pair_text(pair),
        Operation::AddHl(pair) => "ADD HL, "@ + pair_text(pair),
        Operation::AddStackOffset => "ADD SP, r8"@,
        Operation::Rlca => "RLCA"@,
        Operation::Rrca => "RRCA"@,
        Operation::Rla => "RLA"@,
        Operation::Rra => "RRA"@,
        Operation::Rotate(op, operand) => rot_op_text(op) + " "@ + operand8_text(operand),
        Operation::TestBit(n, operand) => "BIT "@ + decimal_text(n as nat) + ","@ + operand8_text(operand),
        Operation::ResetBit(n, operand) => "RES "@ + decimal_text(n as nat) + ","@ + operand8_text(operand),
        Operation::SetBit(n, operand) => "SET "@ + decimal_text(n as nat) + ","@ + operand8_text(operand),
        Operation::Jump => "JP a16"@,
        Operation::JumpIf(condition) => "JP "@ + condition_text(condition) + ", a16"@,
        Operation::JumpHl => "JP (HL)"@,
        Operation::JumpRelative => "JR r8"@,
        Operation::JumpRelativeIf(condition) => "JR "@ + condition_text(condition) + ", r8"@,
        Operation::Call => "CALL a16"@,
        Operation::CallIf(condition) => "CALL "@ + condition_text(condition) + ", a16"@,
        Operation::Ret => "RET"@,
        Operation::RetIf(condition) => "RET "@ + condition_text(condition),
        Operation::Reti => "RETI"@,
        Operation::Rst(vector) => "RST "@ + hex_text8(vector) + "H"@,
    }
}

/// The mnemonic of an operation.
pub fn mnemonic(operation: Operation) -> (text: String)
    ensures
        text@ == mnemonic_text(operation),
{
    let mut text = String::new();
    match operation {
        Operation::Nop => {
            text.append("NOP");
        },
        Operation::Stop => {
            text.append("STOP");
        },
        Operation::Halt => {
            text.append("HALT");
        },
        Operation::Prefix => {
            text.append("PREFIX");
        },
        Operation::Di => {
            text.append("DI");
        },
        Operation::Ei => {
            text.append("EI");
        },
        Operation::Load8(dst, src) => {
            text.append("LD ");
            text.append(operand8_str(dst));
            text.append(", ");
            text.append(operand8_str(src));
        },
        Operation::LoadImmediate8(dst) => {
            text.append("LD ");
            text.append(operand8_str(dst));
            text.append(", d8");
        },
        Operation::StoreAccumulator(indirect) => {
            text.append("LD ");
            text.append(indirect_str(indirect));
            text.append(", A");
        },
        Operation::LoadAccumulator(indirect) => {
            text.append("LD A, ");
            text.append(indirect_str(indirect));
        },
        Operation::StoreHighImmediate => {
            text.append("LDH (a8), A");
        },
        Operation::LoadHighImmediate => {
            text.append("LDH A, (a8)");
        },
        Operation::StoreHighC => {
            text.append("LDH (C), A");
        },
        Operation::LoadHighC => {
            text.append("LDH A, (C)");
        },
        Operation::StoreAbsolute => {
            text.append("LD (a16), A");
        },
        Operation::LoadAbsolute => {
            text.append("LD A, (a16)");
        },
        Operation::LoadImmediate16(pair) => {
            text.append("LD ");
            text.append(pair_str(pair));
            text.append(", d16");
        },
        Operation::StoreStackPointer => {
            text.append("LD (a16), SP");
        },
        Operation::LoadStackPointerHl => {
            text.append("LD SP, HL");
        },
        Operation::LoadHlStackOffset => {
            text.append("LD HL, SP+r8");
        },
        Operation::Push(pair) => {
            text.append("PUSH ");
            text.append(stack_pair_str(pair));
        },
        Operation::Pop(pair) => {
            text.append("POP ");
            text.append(stack_pair_str(pair));
        },
        Operation::Inc8(operand) => {
            text.append("INC ");
            text.append(operand8_str(operand));
        },
        Operation::Dec8(operand) => {
            text.append("DEC ");
            text.append(operand8_str(operand));
        },
        Operation::Alu(op, operand) => {
            text.append(alu_op_str(op));
            text.append(" A, ");
            text.append(operand8_str(operand));
        },
        Operation::AluImmediate(op) => {
            text.append(alu_op_str(op));
            text.append(" A, d8");
        },
        Operation::Daa => {
            text.append("DAA");
        },
        Operation::Cpl => {
            text.append("CPL");
        },
        Operation::Scf => {
            text.append("SCF");
        },
        Operation::Ccf => {
            text.append("CCF");
        },
        Operation::Inc16(pair) => {
            text.append("INC ");
            text.append(pair_str(pair));
        },
        Operation::Dec16(pair) => {
            text.append("DEC ");
            text.append(pair_str(pair));
        },
        Operation::AddHl(pair) => {
            text.append("ADD HL, ");
            text.append(pair_str(pair));
        },
        Operation::AddStackOffset => {
            text.append("ADD SP, r8");
        },
        Operation::Rlca => {
            text.append("RLCA");
        },
        Operation::Rrca => {
            text.append("RRCA");
        },
        Operation::Rla => {
            text.append("RLA");
        },
        Operation::Rra => {
            text.append("RRA");
        },
        Operation::Rotate(op, operand) => {
            text.append(rot_op_str(op));
            text.append(" ");
            text.append(operand8_str(operand));
        },
        Operation::TestBit(n, operand) => {
            text.append("BIT ");
            append_decimal(&mut text, n);
            text.append(",");
            text.append(operand8_str(operand));
        },
        Operation::ResetBit(n, operand) => {
            text.append("RES ");
            append_decimal(&mut text, n);
            text.append(",");
            text.append(operand8_str(operand));
        },
        Operation::SetBit(n, operand) => {
            text.append("SET ");
            append_decimal(&mut text, n);
            text.append(",");
            text.append(operand8_str(operand));
        },
        Operation::Jump => {
            text.append("JP a16");
        },
        Operation::JumpIf(condition) => {
            text.append("JP ");
            text.append(condition_str(condition));
            text.append(", a16");
        },
        Operation::JumpHl => {
            text.append("JP (HL)");
        },
        Operation::JumpRelative => {
            text.append("JR r8");
        },
        Operation::JumpRelativeIf(condition) => {
            text.append("JR ");
            text.append(condition_str(condition));
            text.append(", r8");
        },
        Operation::Call => {
            text.append("CALL a16");
        },
        Operation::CallIf(condition) => {
            text.append("CALL ");
            text.append(condition_str(condition));
            text.append(", a16");
        },
        Operation::Ret => {
            text.append("RET");
        },
        Operation::RetIf(condition) => {
            text.append("RET ");
            text.append(condition_str(condition));
        },
        Operation::Reti => {
            text.append("RETI");
        },
        Operation::Rst(vector) => {
            text.append("RST ");
            append_hex8(&mut text, vector);
            text.append("H");
        },
    }
    assert(text@ =~= mnemonic_text(operation));
    text
}

} // verus!
