use lr35902::cpu::instructions::operands::{pop, push};
use lr35902::cpu::instructions::{Cycles, Instruction, Operand8, Operation};
use lr35902::cpu::opcodes::jp_execute;
use lr35902::cpu::registers::{CpuState, Flags, Registers};
use lr35902::cpu::{advance_pc, cycles_to_time, pace, Pace, CPU};
use lr35902::mmu::MMU;

fn machine(program_at_0x0100: &[u8]) -> (CPU, MMU) {
    let mut cpu = CPU::new();
    cpu.registers.sp = 0xFFFE;
    let mut mmu = MMU::new();
    for (i, byte) in program_at_0x0100.iter().enumerate() {
        mmu.write_byte(0x0100 + i as u16, *byte);
    }
    (cpu, mmu)
}

fn flags(z: bool, n: bool, h: bool, c: bool) -> Flags {
    Flags { z, n, h, c }
}

#[test]
fn pc_wraps_after_the_last_address() {
    let (mut cpu, mut mmu) = machine(&[]);
    cpu.registers.pc = 0xFFFF;
    assert_eq!(cpu.step(&mut mmu), Ok(4));
    assert_eq!(cpu.registers.pc, 0x0000);
    assert_eq!(advance_pc(0xFFFE, 3), 0x0001);
    assert_eq!(advance_pc(0x0100, 2), 0x0102);
}

#[test]
fn operands_wrap_after_the_last_address() {
    let (mut cpu, mut mmu) = machine(&[]);
    mmu.write_byte(0xFFFE, 0x3E); // LD A, d8 with the operand at 0xFFFF, which reads 0x00
    mmu.write_byte(0x0000, 0x77);
    cpu.registers.pc = 0xFFFE;
    cpu.registers.a = 0x55;
    assert_eq!(cpu.step(&mut mmu), Ok(8));
    assert_eq!(cpu.registers.a, 0x00);
    assert_eq!(cpu.registers.pc, 0x0000);
}

#[test]
fn jr_minus_two_loops_on_itself() {
    let (mut cpu, mut mmu) = machine(&[0x18, 0xFE]);
    let before = cpu.registers;
    for _ in 0..3 {
        assert_eq!(cpu.step(&mut mmu), Ok(12));
        assert_eq!(cpu.registers, before);
    }
}

#[test]
fn conditional_jr_minus_two_loops_while_the_condition_holds() {
    for (opcode, taken) in [
        (0x20u8, flags(false, false, false, false)),
        (0x28, flags(true, false, false, false)),
        (0x30, flags(false, false, false, false)),
        (0x38, flags(false, false, false, true)),
    ] {
        let (mut cpu, mut mmu) = machine(&[opcode, 0xFE]);
        cpu.registers.f = taken;
        assert_eq!(cpu.step(&mut mmu), Ok(12));
        assert_eq!(cpu.registers.pc, 0x0100);
        cpu.registers.f = flags(!taken.z, false, false, !taken.c);
        assert_eq!(cpu.step(&mut mmu), Ok(8));
        assert_eq!(cpu.registers.pc, 0x0102);
    }
}

#[test]
fn jr_spans_the_signed_range() {
    let (mut cpu, mut mmu) = machine(&[0x18, 0x7F]);
    assert_eq!(cpu.step(&mut mmu), Ok(12));
    assert_eq!(cpu.registers.pc, 0x0100 + 2 + 127);
    let (mut cpu, mut mmu) = machine(&[0x18, 0x80]);
    assert_eq!(cpu.step(&mut mmu), Ok(12));
    assert_eq!(cpu.registers.pc, 0x0100 + 2 - 128);
    let (mut cpu, mut mmu) = machine(&[0x18, 0x00]);
    assert_eq!(cpu.step(&mut mmu), Ok(12));
    assert_eq!(cpu.registers.pc, 0x0102);
    let (mut cpu, mut mmu) = machine(&[]);
    mmu.write_byte(0x0000, 0x18);
    mmu.write_byte(0x0001, 0xFB);
    cpu.registers.pc = 0x0000;
    assert_eq!(cpu.step(&mut mmu), Ok(12));
    assert_eq!(cpu.registers.pc, 0xFFFD);
}

#[test]
fn conditional_jumps_cost_less_when_not_taken() {
    let (mut cpu, mut mmu) = machine(&[0xC2, 0x34, 0x12]);
    cpu.registers.f.z = true;
    assert_eq!(cpu.step(&mut mmu), Ok(12));
    assert_eq!(cpu.registers.pc, 0x0103);
    let (mut cpu, mut mmu) = machine(&[0xC2, 0x34, 0x12]);
    assert_eq!(cpu.step(&mut mmu), Ok(16));
    assert_eq!(cpu.registers.pc, 0x1234);
    let (mut cpu, mut mmu) = machine(&[0xDC, 0x34, 0x12]);
    assert_eq!(cpu.step(&mut mmu), Ok(12));
    assert_eq!(cpu.registers.pc, 0x0103);
    assert_eq!(cpu.registers.sp, 0xFFFE);
    let (mut cpu, mut mmu) = machine(&[0xDC, 0x34, 0x12]);
    cpu.registers.f.c = true;
    assert_eq!(cpu.step(&mut mmu), Ok(24));
    assert_eq!(cpu.registers.pc, 0x1234);
    assert_eq!(mmu.read_word(0xFFFC), 0x0103);
    let (mut cpu, mut mmu) = machine(&[0xC8]);
    assert_eq!(cpu.step(&mut mmu), Ok(8));
    assert_eq!(cpu.registers.pc, 0x0101);
    let (mut cpu, mut mmu) = machine(&[0xC8]);
    cpu.registers.f.z = true;
    cpu.registers.sp = 0xC000;
    mmu.write_word(0xC000, 0x4321);
    assert_eq!(cpu.step(&mut mmu), Ok(20));
    assert_eq!(cpu.registers.pc, 0x4321);
    assert_eq!(cpu.registers.sp, 0xC002);
}

#[test]
fn jp_hl_takes_the_address_from_hl() {
    let (mut cpu, mut mmu) = machine(&[0xE9]);
    cpu.registers.set_hl(0xC123);
    mmu.write_word(0xC123, 0x9999);
    assert_eq!(cpu.step(&mut mmu), Ok(4));
    assert_eq!(cpu.registers.pc, 0xC123);
}

#[test]
fn rst_pushes_the_next_address() {
    for (i, opcode) in [0xC7u8, 0xCF, 0xD7, 0xDF, 0xE7, 0xEF, 0xF7, 0xFF].iter().enumerate() {
        let (mut cpu, mut mmu) = machine(&[*opcode]);
        assert_eq!(cpu.step(&mut mmu), Ok(16));
        assert_eq!(cpu.registers.pc, 8 * i as u16);
        assert_eq!(cpu.registers.sp, 0xFFFC);
        assert_eq!(mmu.read_word(0xFFFC), 0x0101);
    }
}

#[test]
fn reti_sets_the_interrupt_latch() {
    let (mut cpu, mut mmu) = machine(&[0xD9]);
    cpu.registers.sp = 0xC000;
    mmu.write_word(0xC000, 0x0150);
    assert_eq!(cpu.step(&mut mmu), Ok(16));
    assert_eq!(cpu.registers.pc, 0x0150);
    assert_eq!(cpu.registers.sp, 0xC002);
    assert!(cpu.registers.interrupts_enabled);
}

#[test]
fn ei_di_stop_halt() {
    let (mut cpu, mut mmu) = machine(&[0xFB, 0xF3, 0x10, 0x00]);
    assert_eq!(cpu.step(&mut mmu), Ok(4));
    assert!(cpu.registers.interrupts_enabled);
    assert_eq!(cpu.step(&mut mmu), Ok(4));
    assert!(!cpu.registers.interrupts_enabled);
    assert_eq!(cpu.step(&mut mmu), Ok(4));
    assert_eq!(cpu.registers.cpu_state, CpuState::Stopped);
    assert_eq!(cpu.registers.pc, 0x0104);
    assert_eq!(cpu.step(&mut mmu), Ok(4));
    assert_eq!(cpu.registers.pc, 0x0104);
}

#[test]
fn the_stack_wraps_with_the_addresses() {
    let mut registers = Registers::new();
    let mut mmu = MMU::new();
    registers.sp = 0x0001;
    push(&mut registers, &mut mmu, 0xABCD);
    assert_eq!(registers.sp, 0xFFFF);
    assert_eq!(mmu.read_byte(0x0000), 0xAB);
    // 0xFFFF is not backed: the low byte is lost.
    assert_eq!(pop(&mut registers, &mmu), 0xAB00);
    assert_eq!(registers.sp, 0x0001);

    registers.sp = 0x0000;
    push(&mut registers, &mut mmu, 0x1234);
    assert_eq!(registers.sp, 0xFFFE);
    assert_eq!(mmu.read_byte(0xFFFE), 0x34);
    registers.sp = 0xFFFF;
    assert_eq!(pop(&mut registers, &mmu), 0xAB00);
    assert_eq!(registers.sp, 0x0001);
}

#[test]
fn push_lowers_sp_and_pop_raises_it() {
    let (mut cpu, mut mmu) = machine(&[0xC5, 0xD1]);
    cpu.registers.set_bc(0xBEEF);
    assert_eq!(cpu.step(&mut mmu), Ok(16));
    assert_eq!(cpu.registers.sp, 0xFFFC);
    assert_eq!(mmu.read_byte(0xFFFC), 0xEF);
    assert_eq!(mmu.read_byte(0xFFFD), 0xBE);
    assert_eq!(cpu.step(&mut mmu), Ok(12));
    assert_eq!(cpu.registers.sp, 0xFFFE);
    assert_eq!(cpu.registers.get_de(), 0xBEEF);
}

#[test]
fn push_and_pop_af_keep_the_low_nibble_of_f_zero() {
    let (mut cpu, mut mmu) = machine(&[0xF5, 0xF1]);
    cpu.registers.a = 0x12;
    cpu.registers.f = flags(true, false, true, false);
    assert_eq!(cpu.step(&mut mmu), Ok(16));
    assert_eq!(mmu.read_word(0xFFFC), 0x12A0);
    mmu.write_word(0xFFFC, 0x34FF);
    assert_eq!(cpu.step(&mut mmu), Ok(12));
    assert_eq!(cpu.registers.a, 0x34);
    assert_eq!(cpu.registers.f, flags(true, true, true, true));
    assert_eq!(cpu.registers.get_af(), 0x34F0);
}

#[test]
fn ld_hl_sp_plus_r8_takes_flags_from_the_low_byte() {
    let (mut cpu, mut mmu) = machine(&[0xF8, 0xFF]);
    cpu.registers.sp = 0x0001;
    cpu.registers.f = flags(true, true, false, false);
    assert_eq!(cpu.step(&mut mmu), Ok(12));
    assert_eq!(cpu.registers.get_hl(), 0x0000);
    assert_eq!(cpu.registers.sp, 0x0001);
    assert_eq!(cpu.registers.f, flags(false, false, true, true));

    let (mut cpu, mut mmu) = machine(&[0xF8, 0x01]);
    cpu.registers.sp = 0xFFFF;
    assert_eq!(cpu.step(&mut mmu), Ok(12));
    assert_eq!(cpu.registers.get_hl(), 0x0000);
    assert_eq!(cpu.registers.f, flags(false, false, true, true));

    let (mut cpu, mut mmu) = machine(&[0xF8, 0x01]);
    cpu.registers.sp = 0x0FFF;
    assert_eq!(cpu.step(&mut mmu), Ok(12));
    assert_eq!(cpu.registers.get_hl(), 0x1000);
    assert_eq!(cpu.registers.f, flags(false, false, true, true));

    let (mut cpu, mut mmu) = machine(&[0xF8, 0x01]);
    cpu.registers.sp = 0x0F00;
    assert_eq!(cpu.step(&mut mmu), Ok(12));
    assert_eq!(cpu.registers.get_hl(), 0x0F01);
    assert_eq!(cpu.registers.f, flags(false, false, false, false));
}

#[test]
fn add_sp_r8() {
    let (mut cpu, mut mmu) = machine(&[0xE8, 0xFE]);
    cpu.registers.sp = 0xFFFE;
    assert_eq!(cpu.step(&mut mmu), Ok(16));
    assert_eq!(cpu.registers.sp, 0xFFFC);
    assert_eq!(cpu.registers.pc, 0x0102);
    assert_eq!(cpu.registers.f, flags(false, false, true, true));
}

#[test]
fn sixteen_bit_loads() {
    let (mut cpu, mut mmu) = machine(&[0x31, 0x00, 0xD0, 0x21, 0x34, 0xC2, 0xF9, 0x08, 0x00, 0xC1]);
    assert_eq!(cpu.step(&mut mmu), Ok(12));
    assert_eq!(cpu.registers.sp, 0xD000);
    assert_eq!(cpu.step(&mut mmu), Ok(12));
    assert_eq!(cpu.registers.get_hl(), 0xC234);
    assert_eq!(cpu.step(&mut mmu), Ok(8));
    assert_eq!(cpu.registers.sp, 0xC234);
    assert_eq!(cpu.step(&mut mmu), Ok(20));
    assert_eq!(mmu.read_word(0xC100), 0xC234);
    assert_eq!(cpu.registers.pc, 0x010A);
}

#[test]
fn eight_bit_loads() {
    let (mut cpu, mut mmu) = machine(&[0x7D, 0x06, 0x42, 0x70, 0x4E, 0x36, 0x99]);
    cpu.registers.c = 0x11;
    cpu.registers.l = 0x22;
    cpu.registers.h = 0xC0;
    assert_eq!(cpu.step(&mut mmu), Ok(4)); // LD A, L
    assert_eq!(cpu.registers.a, 0x22);
    assert_eq!(cpu.step(&mut mmu), Ok(8)); // LD B, d8
    assert_eq!(cpu.registers.b, 0x42);
    assert_eq!(cpu.step(&mut mmu), Ok(8)); // LD (HL), B
    assert_eq!(mmu.read_byte(0xC022), 0x42);
    assert_eq!(cpu.step(&mut mmu), Ok(8)); // LD C, (HL)
    assert_eq!(cpu.registers.c, 0x42);
    assert_eq!(cpu.step(&mut mmu), Ok(12)); // LD (HL), d8
    assert_eq!(mmu.read_byte(0xC022), 0x99);
    assert_eq!(cpu.registers.pc, 0x0107);
}

#[test]
fn accumulator_loads_through_pairs() {
    let (mut cpu, mut mmu) = machine(&[0x02, 0x12, 0x22, 0x32, 0x0A, 0x2A, 0x3A]);
    cpu.registers.a = 0x5A;
    cpu.registers.set_bc(0xC000);
    cpu.registers.set_de(0xC001);
    cpu.registers.set_hl(0xFFFF);
    assert_eq!(cpu.step(&mut mmu), Ok(8));
    assert_eq!(cpu.step(&mut mmu), Ok(8));
    assert_eq!(mmu.read_word(0xC000), 0x5A5A);
    assert_eq!(cpu.step(&mut mmu), Ok(8)); // LD (HL+), A at 0xFFFF, HL wraps
    assert_eq!(cpu.registers.get_hl(), 0x0000);
    assert_eq!(cpu.step(&mut mmu), Ok(8)); // LD (HL-), A at 0x0000, HL wraps back
    assert_eq!(mmu.read_byte(0x0000), 0x5A);
    assert_eq!(cpu.registers.get_hl(), 0xFFFF);
    cpu.registers.a = 0;
    assert_eq!(cpu.step(&mut mmu), Ok(8)); // LD A, (BC)
    assert_eq!(cpu.registers.a, 0x5A);
    cpu.registers.set_hl(0xC000);
    mmu.write_byte(0xC000, 0x77);
    assert_eq!(cpu.step(&mut mmu), Ok(8)); // LD A, (HL+)
    assert_eq!(cpu.registers.a, 0x77);
    assert_eq!(cpu.registers.get_hl(), 0xC001);
    assert_eq!(cpu.step(&mut mmu), Ok(8)); // LD A, (HL-)
    assert_eq!(cpu.registers.a, 0x5A);
    assert_eq!(cpu.registers.get_hl(), 0xC000);
}

#[test]
fn high_page_and_absolute_loads() {
    let (mut cpu, mut mmu) = machine(&[0xE0, 0x80, 0xF0, 0x81, 0xE2, 0xF2, 0xEA, 0x00, 0xC0, 0xFA, 0x01, 0xC0]);
    cpu.registers.a = 0x42;
    assert_eq!(cpu.step(&mut mmu), Ok(12));
    assert_eq!(mmu.read_byte(0xFF80), 0x42);
    assert_eq!(cpu.registers.a, 0x42);
    mmu.write_byte(0xFF81, 0x24);
    assert_eq!(cpu.step(&mut mmu), Ok(12));
    assert_eq!(cpu.registers.a, 0x24);
    cpu.registers.c = 0x10;
    assert_eq!(cpu.step(&mut mmu), Ok(8));
    assert_eq!(mmu.read_byte(0xFF10), 0x24);
    assert_eq!(cpu.registers.pc, 0x0105);
    cpu.registers.c = 0x80;
    assert_eq!(cpu.step(&mut mmu), Ok(8));
    assert_eq!(cpu.registers.a, 0x42);
    assert_eq!(cpu.step(&mut mmu), Ok(16));
    assert_eq!(mmu.read_byte(0xC000), 0x42);
    mmu.write_byte(0xC001, 0x11);
    assert_eq!(cpu.step(&mut mmu), Ok(16));
    assert_eq!(cpu.registers.a, 0x11);
    assert_eq!(cpu.registers.pc, 0x010C);
}

#[test]
fn inc_and_dec_on_memory_go_through_hl() {
    let (mut cpu, mut mmu) = machine(&[0x34, 0x35, 0x35]);
    cpu.registers.set_hl(0xC010);
    cpu.registers.set_bc(0xC020);
    mmu.write_byte(0xC010, 0xFF);
    mmu.write_byte(0xC020, 0x07);
    assert_eq!(cpu.step(&mut mmu), Ok(12));
    assert_eq!(mmu.read_byte(0xC010), 0x00);
    assert_eq!(mmu.read_byte(0xC020), 0x07);
    assert_eq!(cpu.registers.f, flags(true, false, true, false));
    assert_eq!(cpu.step(&mut mmu), Ok(12));
    assert_eq!(mmu.read_byte(0xC010), 0xFF);
    assert_eq!(cpu.registers.f, flags(false, true, true, false));
    assert_eq!(cpu.step(&mut mmu), Ok(12));
    assert_eq!(mmu.read_byte(0xC010), 0xFE);
}

#[test]
fn sixteen_bit_arithmetic() {
    let (mut cpu, mut mmu) = machine(&[0x03, 0x1B, 0x33, 0x09, 0x29]);
    cpu.registers.set_bc(0xFFFF);
    cpu.registers.f = flags(true, true, true, true);
    assert_eq!(cpu.step(&mut mmu), Ok(8));
    assert_eq!(cpu.registers.get_bc(), 0x0000);
    assert_eq!(cpu.registers.f, flags(true, true, true, true));
    assert_eq!(cpu.step(&mut mmu), Ok(8));
    assert_eq!(cpu.registers.get_de(), 0xFFFF);
    assert_eq!(cpu.step(&mut mmu), Ok(8));
    assert_eq!(cpu.registers.sp, 0xFFFF);
    cpu.registers.set_hl(0x8A23);
    cpu.registers.set_bc(0x0605);
    assert_eq!(cpu.step(&mut mmu), Ok(8));
    assert_eq!(cpu.registers.get_hl(), 0x9028);
    assert_eq!(cpu.registers.f, flags(true, false, true, false));
    assert_eq!(cpu.step(&mut mmu), Ok(8));
    assert_eq!(cpu.registers.get_hl(), 0x2050);
    assert_eq!(cpu.registers.f, flags(true, false, false, true));
}

#[test]
fn accumulator_arithmetic() {
    let (mut cpu, mut mmu) = machine(&[0xC6, 0x01, 0xCE, 0x00, 0x96, 0xFE, 0x0F, 0xAF, 0xB6, 0xE6, 0x0F, 0x2F, 0x37, 0x3F]);
    cpu.registers.a = 0xFF;
    cpu.registers.set_hl(0xC000);
    mmu.write_byte(0xC000, 0xF1);
    assert_eq!(cpu.step(&mut mmu), Ok(8)); // ADD A, 1
    assert_eq!(cpu.registers.a, 0x00);
    assert_eq!(cpu.registers.f, flags(true, false, true, true));
    assert_eq!(cpu.step(&mut mmu), Ok(8)); // ADC A, 0
    assert_eq!(cpu.registers.a, 0x01);
    assert_eq!(cpu.registers.f, flags(false, false, false, false));
    assert_eq!(cpu.step(&mut mmu), Ok(8)); // SUB A, (HL)
    assert_eq!(cpu.registers.a, 0x10);
    assert_eq!(cpu.registers.f, flags(false, true, false, true));
    assert_eq!(cpu.step(&mut mmu), Ok(8)); // CP A, 0x0F
    assert_eq!(cpu.registers.a, 0x10);
    assert_eq!(cpu.registers.f, flags(false, true, true, false));
    assert_eq!(cpu.step(&mut mmu), Ok(4)); // XOR A, A
    assert_eq!(cpu.registers.a, 0x00);
    assert_eq!(cpu.registers.f, flags(true, false, false, false));
    assert_eq!(cpu.step(&mut mmu), Ok(8)); // OR A, (HL)
    assert_eq!(cpu.registers.a, 0xF1);
    assert_eq!(cpu.step(&mut mmu), Ok(8)); // AND A, 0x0F
    assert_eq!(cpu.registers.a, 0x01);
    assert_eq!(cpu.registers.f, flags(false, false, true, false));
    assert_eq!(cpu.step(&mut mmu), Ok(4)); // CPL
    assert_eq!(cpu.registers.a, 0xFE);
    assert_eq!(cpu.registers.f, flags(false, true, true, false));
    assert_eq!(cpu.step(&mut mmu), Ok(4)); // SCF
    assert_eq!(cpu.registers.f, flags(false, false, false, true));
    assert_eq!(cpu.step(&mut mmu), Ok(4)); // CCF
    assert_eq!(cpu.registers.f, flags(false, false, false, false));
}

#[test]
fn rotates_of_the_accumulator_clear_z() {
    for (opcode, a, carry, result, carry_out) in [
        (0x07u8, 0x00u8, false, 0x00u8, false),
        (0x07, 0x85, false, 0x0B, true),
        (0x0F, 0x01, false, 0x80, true),
        (0x17, 0x80, false, 0x00, true),
        (0x17, 0x01, true, 0x03, false),
        (0x1F, 0x01, false, 0x00, true),
        (0x1F, 0x00, true, 0x80, false),
    ] {
        let (mut cpu, mut mmu) = machine(&[opcode]);
        cpu.registers.a = a;
        cpu.registers.f = flags(true, true, true, carry);
        assert_eq!(cpu.step(&mut mmu), Ok(4));
        assert_eq!(cpu.registers.a, result);
        assert_eq!(cpu.registers.f, flags(false, false, false, carry_out));
    }
}

#[test]
fn prefixed_instructions() {
    let (mut cpu, mut mmu) = machine(&[0xCB, 0x00, 0x00, 0xCB, 0x36, 0x00, 0xCB, 0x46, 0x00, 0xCB, 0xC6, 0x00, 0xCB, 0x86]);
    cpu.registers.b = 0x80;
    cpu.registers.set_hl(0xC000);
    mmu.write_byte(0xC000, 0xA5);
    assert_eq!(cpu.step(&mut mmu), Ok(4));
    assert_eq!(cpu.step(&mut mmu), Ok(8)); // RLC B
    assert_eq!(cpu.registers.b, 0x01);
    assert_eq!(cpu.registers.f, flags(false, false, false, true));
    assert_eq!(cpu.registers.pc, 0x0103);
    assert!(cpu.is_default_map());
    assert_eq!(cpu.step(&mut mmu), Ok(4));
    assert_eq!(cpu.step(&mut mmu), Ok(16)); // SWAP (HL)
    assert_eq!(mmu.read_byte(0xC000), 0x5A);
    assert_eq!(cpu.step(&mut mmu), Ok(4));
    assert_eq!(cpu.step(&mut mmu), Ok(12)); // BIT 0, (HL)
    assert_eq!(cpu.registers.f, flags(true, false, true, false));
    assert_eq!(mmu.read_byte(0xC000), 0x5A);
    assert_eq!(cpu.step(&mut mmu), Ok(4));
    assert_eq!(cpu.step(&mut mmu), Ok(16)); // SET 0, (HL)
    assert_eq!(mmu.read_byte(0xC000), 0x5B);
    assert_eq!(cpu.step(&mut mmu), Ok(4));
    assert_eq!(cpu.step(&mut mmu), Ok(16)); // RES 0, (HL)
    assert_eq!(mmu.read_byte(0xC000), 0x5A);
}

#[test]
fn the_prefix_holds_for_one_decode_only() {
    let (mut cpu, mut mmu) = machine(&[0xCB, 0xCB, 0xD3]);
    assert_eq!(cpu.step(&mut mmu), Ok(4));
    assert!(!cpu.is_default_map());
    // 0xCB in the prefixed table is SET 1, E.
    assert_eq!(cpu.step(&mut mmu), Ok(8));
    assert_eq!(cpu.registers.e, 0x02);
    assert!(cpu.is_default_map());
}

#[test]
fn handlers_report_what_they_did() {
    let mut registers = Registers::new();
    let mut mmu = MMU::new();
    let nop = Instruction::new(Operation::Nop, Cycles::new(4), 1);
    let result = nop.execute(&mut registers, &mut mmu);
    assert!(result.update_pc && result.action_taken);
    assert_eq!(registers, Registers::new());
    let jump = Instruction::new(Operation::JumpHl, Cycles::new(4), 1);
    let result = jump.execute(&mut registers, &mut mmu);
    assert!(!result.update_pc && result.action_taken);
    let bit = Instruction::new(Operation::TestBit(3, Operand8::A), Cycles::new(8), 2);
    let before = registers;
    let result = bit.execute(&mut registers, &mut mmu);
    assert!(result.update_pc && result.action_taken);
    assert_eq!(registers.a, before.a);
    assert!(registers.f.z);
    jp_execute(&mut registers, 0x4242);
    assert_eq!(registers.pc, 0x4242);
}

#[test]
fn cycles_take_their_time() {
    assert_eq!(cycles_to_time(0), 0);
    assert_eq!(cycles_to_time(4), 953);
    assert_eq!(cycles_to_time(8), 1907);
    assert_eq!(cycles_to_time(12), 2861);
    assert_eq!(cycles_to_time(16), 3814);
    assert_eq!(cycles_to_time(24), 5722);
    assert_eq!(cycles_to_time(255), 60796);
    for cycles in 0..=255u8 {
        let seconds = cycles as f64 / 4_194_304.0;
        assert_eq!(cycles_to_time(cycles), (seconds * 1_000_000_000.0) as u64);
    }
}

#[test]
fn a_step_is_paced_to_the_clock() {
    assert_eq!(pace(4, 0), Pace::Sleep(953));
    assert_eq!(pace(4, 900), Pace::Sleep(53));
    assert_eq!(pace(4, 953), Pace::Sleep(0));
    assert_eq!(pace(4, 954), Pace::Overshoot { elapsed: 954, target: 953 });
    assert_eq!(pace(16, u64::MAX), Pace::Overshoot { elapsed: u64::MAX, target: 3814 });
}
