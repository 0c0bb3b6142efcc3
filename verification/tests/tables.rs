use lr35902::cpu::instructions::{
    AluOp, Condition, Cycles, Indirect, Instruction, InstructionsMap, InstructionsMapsManager,
    Operand8, Operation, Pair, RotOp, StackPair,
};
use lr35902::cpu::opcodes::{initialize_opcodes_instructions_map, Opcode};

const UNDEFINED: [u8; 11] = [0xD3, 0xDB, 0xDD, 0xE3, 0xE4, 0xEB, 0xEC, 0xED, 0xF4, 0xFC, 0xFD];

// T-states of the primary table when the instruction acts; 0 marks an undefined opcode.
const TAKEN: [[u8; 16]; 16] = [
    [4, 12, 8, 8, 4, 4, 8, 4, 20, 8, 8, 8, 4, 4, 8, 4],
    [4, 12, 8, 8, 4, 4, 8, 4, 12, 8, 8, 8, 4, 4, 8, 4],
    [12, 12, 8, 8, 4, 4, 8, 4, 12, 8, 8, 8, 4, 4, 8, 4],
    [12, 12, 8, 8, 12, 12, 12, 4, 12, 8, 8, 8, 4, 4, 8, 4],
    [4, 4, 4, 4, 4, 4, 8, 4, 4, 4, 4, 4, 4, 4, 8, 4],
    [4, 4, 4, 4, 4, 4, 8, 4, 4, 4, 4, 4, 4, 4, 8, 4],
    [4, 4, 4, 4, 4, 4, 8, 4, 4, 4, 4, 4, 4, 4, 8, 4],
    [8, 8, 8, 8, 8, 8, 4, 8, 4, 4, 4, 4, 4, 4, 8, 4],
    [4, 4, 4, 4, 4, 4, 8, 4, 4, 4, 4, 4, 4, 4, 8, 4],
    [4, 4, 4, 4, 4, 4, 8, 4, 4, 4, 4, 4, 4, 4, 8, 4],
    [4, 4, 4, 4, 4, 4, 8, 4, 4, 4, 4, 4, 4, 4, 8, 4],
    [4, 4, 4, 4, 4, 4, 8, 4, 4, 4, 4, 4, 4, 4, 8, 4],
    [20, 12, 16, 16, 24, 16, 8, 16, 20, 16, 16, 4, 24, 24, 8, 16],
    [20, 12, 16, 0, 24, 16, 8, 16, 20, 16, 16, 0, 24, 0, 8, 16],
    [12, 12, 8, 0, 0, 16, 8, 16, 16, 4, 16, 0, 0, 0, 8, 16],
    [12, 12, 8, 4, 0, 16, 8, 16, 12, 8, 16, 4, 0, 0, 8, 16],
];

// Lengths of the primary table in bytes; 0 marks an undefined opcode.
const BYTES: [[u8; 16]; 16] = [
    [1, 3, 1, 1, 1, 1, 2, 1, 3, 1, 1, 1, 1, 1, 2, 1],
    [2, 3, 1, 1, 1, 1, 2, 1, 2, 1, 1, 1, 1, 1, 2, 1],
    [2, 3, 1, 1, 1, 1, 2, 1, 2, 1, 1, 1, 1, 1, 2, 1],
    [2, 3, 1, 1, 1, 1, 2, 1, 2, 1, 1, 1, 1, 1, 2, 1],
    [1; 16],
    [1; 16],
    [1; 16],
    [1; 16],
    [1; 16],
    [1; 16],
    [1; 16],
    [1; 16],
    [1, 1, 3, 3, 3, 1, 2, 1, 1, 1, 3, 1, 3, 3, 2, 1],
    [1, 1, 3, 0, 3, 1, 2, 1, 1, 1, 3, 0, 3, 0, 2, 1],
    [2, 1, 1, 0, 0, 1, 2, 1, 2, 1, 3, 0, 0, 0, 2, 1],
    [2, 1, 1, 1, 0, 1, 2, 1, 2, 1, 3, 1, 0, 0, 2, 1],
];

fn not_taken(opcode: u8) -> Option<u8> {
    match opcode {
        0x20 | 0x28 | 0x30 | 0x38 => Some(8),
        0xC0 | 0xC8 | 0xD0 | 0xD8 => Some(8),
        0xC2 | 0xCA | 0xD2 | 0xDA => Some(12),
        0xC4 | 0xCC | 0xD4 | 0xDC => Some(12),
        _ => None,
    }
}

fn primary(opcode: u8) -> Option<Instruction> {
    InstructionsMapsManager::new().get_instruction_map().get(opcode)
}

fn prefixed(opcode: u8) -> Option<Instruction> {
    let mut manager = InstructionsMapsManager::new();
    manager.set_prefix_cb_state();
    manager.get_instruction_map().get(opcode)
}

#[test]
fn the_primary_table_has_the_documented_costs_and_lengths() {
    let manager = InstructionsMapsManager::new();
    let table = manager.get_instruction_map();
    for opcode in 0..=255u8 {
        let row = (opcode >> 4) as usize;
        let column = (opcode & 0x0F) as usize;
        match table.get(opcode) {
            None => {
                assert_eq!(TAKEN[row][column], 0, "opcode {:02X}", opcode);
                assert!(UNDEFINED.contains(&opcode));
            }
            Some(instruction) => {
                assert_eq!(instruction.cycles.taken, TAKEN[row][column], "opcode {:02X}", opcode);
                assert_eq!(instruction.bytes, BYTES[row][column], "opcode {:02X}", opcode);
                assert_eq!(
                    instruction.cycles.not_taken,
                    not_taken(opcode).unwrap_or(TAKEN[row][column]),
                    "opcode {:02X}",
                    opcode
                );
            }
        }
    }
}

#[test]
fn the_primary_table_lacks_exactly_the_undefined_opcodes() {
    let missing: Vec<u8> = (0..=255u8).filter(|opcode| primary(*opcode).is_none()).collect();
    assert_eq!(missing, UNDEFINED.to_vec());
}

#[test]
fn the_prefixed_table_is_full() {
    let mut manager = InstructionsMapsManager::new();
    manager.set_prefix_cb_state();
    assert!(!manager.is_default_map());
    let table = manager.get_instruction_map();
    for opcode in 0..=255u8 {
        let instruction = table.get(opcode).unwrap();
        let on_memory = opcode & 0x07 == 6;
        let is_bit = (0x40..0x80).contains(&opcode);
        let expected = match (on_memory, is_bit) {
            (false, _) => 8,
            (true, true) => 12,
            (true, false) => 16,
        };
        assert_eq!(instruction.cycles, Cycles { taken: expected, not_taken: expected });
        assert_eq!(instruction.bytes, 2);
    }
    manager.reset_state();
    assert!(manager.is_default_map());
}

#[test]
fn chosen_primary_entries() {
    let operation = |opcode: u8| primary(opcode).unwrap().operation;
    assert_eq!(operation(0x00), Operation::Nop);
    assert_eq!(operation(0x10), Operation::Stop);
    assert_eq!(operation(0x76), Operation::Halt);
    assert_eq!(operation(0xCB), Operation::Prefix);
    assert_eq!(operation(0xF3), Operation::Di);
    assert_eq!(operation(0xFB), Operation::Ei);
    assert_eq!(operation(0x7D), Operation::Load8(Operand8::A, Operand8::L));
    assert_eq!(operation(0x41), Operation::Load8(Operand8::B, Operand8::C));
    assert_eq!(operation(0x70), Operation::Load8(Operand8::HlIndirect, Operand8::B));
    assert_eq!(operation(0x06), Operation::LoadImmediate8(Operand8::B));
    assert_eq!(operation(0x36), Operation::LoadImmediate8(Operand8::HlIndirect));
    assert_eq!(operation(0x02), Operation::StoreAccumulator(Indirect::BC));
    assert_eq!(operation(0x22), Operation::StoreAccumulator(Indirect::HlIncrement));
    assert_eq!(operation(0x3A), Operation::LoadAccumulator(Indirect::HlDecrement));
    assert_eq!(operation(0xE0), Operation::StoreHighImmediate);
    assert_eq!(operation(0xF0), Operation::LoadHighImmediate);
    assert_eq!(operation(0xE2), Operation::StoreHighC);
    assert_eq!(operation(0xF2), Operation::LoadHighC);
    assert_eq!(operation(0xEA), Operation::StoreAbsolute);
    assert_eq!(operation(0xFA), Operation::LoadAbsolute);
    assert_eq!(operation(0x31), Operation::LoadImmediate16(Pair::SP));
    assert_eq!(operation(0x08), Operation::StoreStackPointer);
    assert_eq!(operation(0xF9), Operation::LoadStackPointerHl);
    assert_eq!(operation(0xF8), Operation::LoadHlStackOffset);
    assert_eq!(operation(0xF5), Operation::Push(StackPair::AF));
    assert_eq!(operation(0xC1), Operation::Pop(StackPair::BC));
    assert_eq!(operation(0x34), Operation::Inc8(Operand8::HlIndirect));
    assert_eq!(operation(0x3D), Operation::Dec8(Operand8::A));
    assert_eq!(operation(0x80), Operation::Alu(AluOp::Add, Operand8::B));
    assert_eq!(operation(0xBE), Operation::Alu(AluOp::Cp, Operand8::HlIndirect));
    assert_eq!(operation(0xAF), Operation::Alu(AluOp::Xor, Operand8::A));
    assert_eq!(operation(0xD6), Operation::AluImmediate(AluOp::Sub));
    assert_eq!(operation(0xFE), Operation::AluImmediate(AluOp::Cp));
    assert_eq!(operation(0x27), Operation::Daa);
    assert_eq!(operation(0x2F), Operation::Cpl);
    assert_eq!(operation(0x37), Operation::Scf);
    assert_eq!(operation(0x3F), Operation::Ccf);
    assert_eq!(operation(0x23), Operation::Inc16(Pair::HL));
    assert_eq!(operation(0x3B), Operation::Dec16(Pair::SP));
    assert_eq!(operation(0x19), Operation::AddHl(Pair::DE));
    assert_eq!(operation(0xE8), Operation::AddStackOffset);
    assert_eq!(operation(0x07), Operation::Rlca);
    assert_eq!(operation(0x0F), Operation::Rrca);
    assert_eq!(operation(0x17), Operation::Rla);
    assert_eq!(operation(0x1F), Operation::Rra);
    assert_eq!(operation(0xC3), Operation::Jump);
    assert_eq!(operation(0xDA), Operation::JumpIf(Condition::Carry));
    assert_eq!(operation(0xE9), Operation::JumpHl);
    assert_eq!(operation(0x18), Operation::JumpRelative);
    assert_eq!(operation(0x20), Operation::JumpRelativeIf(Condition::NotZero));
    assert_eq!(operation(0xCD), Operation::Call);
    assert_eq!(operation(0xC4), Operation::CallIf(Condition::NotZero));
    assert_eq!(operation(0xD4), Operation::CallIf(Condition::NotCarry));
    assert_eq!(operation(0xC9), Operation::Ret);
    assert_eq!(operation(0xC8), Operation::RetIf(Condition::Zero));
    assert_eq!(operation(0xD9), Operation::Reti);
    for (i, opcode) in [0xC7u8, 0xCF, 0xD7, 0xDF, 0xE7, 0xEF, 0xF7, 0xFF].iter().enumerate() {
        assert_eq!(operation(*opcode), Operation::Rst(8 * i as u8));
    }
}

#[test]
fn chosen_prefixed_entries() {
    let operation = |opcode: u8| prefixed(opcode).unwrap().operation;
    assert_eq!(operation(0x00), Operation::Rotate(RotOp::Rlc, Operand8::B));
    assert_eq!(operation(0x0E), Operation::Rotate(RotOp::Rrc, Operand8::HlIndirect));
    assert_eq!(operation(0x17), Operation::Rotate(RotOp::Rl, Operand8::A));
    assert_eq!(operation(0x19), Operation::Rotate(RotOp::Rr, Operand8::C));
    assert_eq!(operation(0x22), Operation::Rotate(RotOp::Sla, Operand8::D));
    assert_eq!(operation(0x2B), Operation::Rotate(RotOp::Sra, Operand8::E));
    assert_eq!(operation(0x34), Operation::Rotate(RotOp::Swap, Operand8::H));
    assert_eq!(operation(0x3D), Operation::Rotate(RotOp::Srl, Operand8::L));
    assert_eq!(operation(0x7F), Operation::TestBit(7, Operand8::A));
    assert_eq!(operation(0x46), Operation::TestBit(0, Operand8::HlIndirect));
    assert_eq!(operation(0x80), Operation::ResetBit(0, Operand8::B));
    assert_eq!(operation(0xBE), Operation::ResetBit(7, Operand8::HlIndirect));
    assert_eq!(operation(0xC0), Operation::SetBit(0, Operand8::B));
    assert_eq!(operation(0xFF), Operation::SetBit(7, Operand8::A));
}

#[test]
fn a_table_keeps_what_is_inserted() {
    let mut table = InstructionsMap::new();
    assert_eq!(table.get(0x42), None);
    let entry = Instruction::new(Operation::Nop, Cycles::new(4).with_not_taken(2), 1);
    table.insert(0x42, entry);
    assert_eq!(table.get(0x42), Some(entry));
    assert_eq!(table.get(0x43), None);
    assert_eq!(entry.with_bytes(3).bytes, 3);
    assert_eq!(entry.with_cycles_not_taken(9).cycles, Cycles { taken: 4, not_taken: 9 });
}

#[test]
fn mnemonics() {
    let text = |opcode: u8| primary(opcode).unwrap().mnemonic();
    assert_eq!(text(0x00), "NOP");
    assert_eq!(text(0x10), "STOP");
    assert_eq!(text(0x41), "LD B, C");
    assert_eq!(text(0x7E), "LD A, (HL)");
    assert_eq!(text(0x36), "LD (HL), d8");
    assert_eq!(text(0x22), "LD (HL+), A");
    assert_eq!(text(0x3A), "LD A, (HL-)");
    assert_eq!(text(0xE0), "LDH (a8), A");
    assert_eq!(text(0xF2), "LDH A, (C)");
    assert_eq!(text(0xEA), "LD (a16), A");
    assert_eq!(text(0x21), "LD HL, d16");
    assert_eq!(text(0x08), "LD (a16), SP");
    assert_eq!(text(0xF8), "LD HL, SP+r8");
    assert_eq!(text(0xF9), "LD SP, HL");
    assert_eq!(text(0xF5), "PUSH AF");
    assert_eq!(text(0xD1), "POP DE");
    assert_eq!(text(0x34), "INC (HL)");
    assert_eq!(text(0x0D), "DEC C");
    assert_eq!(text(0x80), "ADD A, B");
    assert_eq!(text(0x96), "SUB A, (HL)");
    assert_eq!(text(0xFE), "CP A, d8");
    assert_eq!(text(0x27), "DAA");
    assert_eq!(text(0x33), "INC SP");
    assert_eq!(text(0x0B), "DEC BC");
    assert_eq!(text(0x29), "ADD HL, HL");
    assert_eq!(text(0xE8), "ADD SP, r8");
    assert_eq!(text(0x07), "RLCA");
    assert_eq!(text(0xC3), "JP a16");
    assert_eq!(text(0xC2), "JP NZ, a16");
    assert_eq!(text(0xE9), "JP (HL)");
    assert_eq!(text(0x18), "JR r8");
    assert_eq!(text(0x38), "JR C, r8");
    assert_eq!(text(0xCD), "CALL a16");
    assert_eq!(text(0xCC), "CALL Z, a16");
    assert_eq!(text(0xC9), "RET");
    assert_eq!(text(0xD0), "RET NC");
    assert_eq!(text(0xD9), "RETI");
    assert_eq!(text(0xC7), "RST 00H");
    assert_eq!(text(0xDF), "RST 18H");
    assert_eq!(text(0xFF), "RST 38H");
    let text = |opcode: u8| prefixed(opcode).unwrap().mnemonic();
    assert_eq!(text(0x00), "RLC B");
    assert_eq!(text(0x36), "SWAP (HL)");
    assert_eq!(text(0x7F), "BIT 7,A");
    assert_eq!(text(0x86), "RES 0,(HL)");
    assert_eq!(text(0xFD), "SET 7,L");
    assert_eq!(
        Instruction::new(Operation::TestBit(255, Operand8::A), Cycles::new(8), 2).mnemonic(),
        "BIT 255,A"
    );
    assert_eq!(
        Instruction::new(Operation::TestBit(40, Operand8::A), Cycles::new(8), 2).mnemonic(),
        "BIT 40,A"
    );
    assert_eq!(Instruction::new(Operation::Rst(0xAB), Cycles::new(16), 1).mnemonic(), "RST ABH");
}

#[test]
fn named_opcodes() {
    assert_eq!(Opcode::from_byte(0x00), Opcode::Nop);
    assert_eq!(Opcode::from_byte(0xC3), Opcode::JpA16);
    assert_eq!(Opcode::try_from_byte(0x00), Some(Opcode::Nop));
    assert_eq!(Opcode::try_from_byte(0xC3), Some(Opcode::JpA16));
    assert_eq!(Opcode::try_from_byte(0x01), None);
    assert_eq!(Opcode::Nop.byte(), 0x00);
    assert_eq!(Opcode::JpA16.byte(), 0xC3);
    let entries = initialize_opcodes_instructions_map();
    assert_eq!(entries.len(), 2);
    for (opcode, instruction) in entries {
        assert_eq!(primary(opcode.byte()), Some(instruction));
    }
}
