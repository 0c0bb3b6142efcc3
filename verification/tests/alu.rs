use lr35902::cpu::instructions::arithmetic_logical::{
    adc8, add16, add8, add_sp_e8, alu, and8, ccf, cp8, cpl, daa, dec16, dec8, inc16, inc8, or8,
    sbc8, scf, sub8, xor8,
};
use lr35902::cpu::instructions::AluOp;
use lr35902::cpu::registers::Flags;

fn flags(z: bool, n: bool, h: bool, c: bool) -> Flags {
    Flags { z, n, h, c }
}

const CLEAR: Flags = Flags { z: false, n: false, h: false, c: false };
const ALL: Flags = Flags { z: true, n: true, h: true, c: true };

#[test]
fn inc8_values() {
    let mut f = ALL;
    assert_eq!(inc8(0x0F, &mut f), 0x10);
    assert_eq!(f, flags(false, false, true, true));
    let mut f = CLEAR;
    assert_eq!(inc8(0xFF, &mut f), 0x00);
    assert_eq!(f, flags(true, false, true, false));
    let mut f = CLEAR;
    assert_eq!(inc8(0x41, &mut f), 0x42);
    assert_eq!(f, CLEAR);
}

#[test]
fn dec8_values() {
    let mut f = CLEAR;
    assert_eq!(dec8(0x10, &mut f), 0x0F);
    assert_eq!(f, flags(false, true, true, false));
    let mut f = ALL;
    assert_eq!(dec8(0x01, &mut f), 0x00);
    assert_eq!(f, flags(true, true, false, true));
    let mut f = CLEAR;
    assert_eq!(dec8(0x00, &mut f), 0xFF);
    assert_eq!(f, flags(false, true, true, false));
}

#[test]
fn add8_values() {
    let mut f = ALL;
    assert_eq!(add8(0x3A, 0xC6, &mut f), 0x00);
    assert_eq!(f, flags(true, false, true, true));
    let mut f = ALL;
    assert_eq!(add8(0x45, 0x38, &mut f), 0x7D);
    assert_eq!(f, CLEAR);
    let mut f = CLEAR;
    assert_eq!(add8(0x08, 0x08, &mut f), 0x10);
    assert_eq!(f, flags(false, false, true, false));
    let mut f = CLEAR;
    assert_eq!(add8(0xF0, 0x20, &mut f), 0x10);
    assert_eq!(f, flags(false, false, false, true));
}

#[test]
fn adc8_values() {
    let mut f = flags(false, false, false, true);
    assert_eq!(adc8(0xE1, 0x0F, &mut f), 0xF1);
    assert_eq!(f, flags(false, false, true, false));
    let mut f = flags(false, false, false, true);
    assert_eq!(adc8(0xFF, 0x00, &mut f), 0x00);
    assert_eq!(f, flags(true, false, true, true));
    let mut f = CLEAR;
    assert_eq!(adc8(0x01, 0x02, &mut f), 0x03);
    assert_eq!(f, CLEAR);
}

#[test]
fn sub8_values() {
    let mut f = CLEAR;
    assert_eq!(sub8(0x3E, 0x3E, &mut f), 0x00);
    assert_eq!(f, flags(true, true, false, false));
    let mut f = CLEAR;
    assert_eq!(sub8(0x3E, 0x0F, &mut f), 0x2F);
    assert_eq!(f, flags(false, true, true, false));
    let mut f = CLEAR;
    assert_eq!(sub8(0x3E, 0x40, &mut f), 0xFE);
    assert_eq!(f, flags(false, true, false, true));
}

#[test]
fn sbc8_values() {
    let mut f = flags(false, false, false, true);
    assert_eq!(sbc8(0x3B, 0x2A, &mut f), 0x10);
    assert_eq!(f, flags(false, true, false, false));
    let mut f = flags(false, false, false, true);
    assert_eq!(sbc8(0x3B, 0x3A, &mut f), 0x00);
    assert_eq!(f, flags(true, true, false, false));
    let mut f = flags(false, false, false, true);
    assert_eq!(sbc8(0x3B, 0x4F, &mut f), 0xEB);
    assert_eq!(f, flags(false, true, true, true));
    let mut f = flags(false, false, false, true);
    assert_eq!(sbc8(0x00, 0xFF, &mut f), 0x00);
    assert_eq!(f, flags(true, true, true, true));
}

#[test]
fn logic_values() {
    let mut f = ALL;
    assert_eq!(and8(0x5A, 0x3F, &mut f), 0x1A);
    assert_eq!(f, flags(false, false, true, false));
    let mut f = CLEAR;
    assert_eq!(and8(0x5A, 0xA5, &mut f), 0x00);
    assert_eq!(f, flags(true, false, true, false));
    let mut f = ALL;
    assert_eq!(or8(0x5A, 0x0F, &mut f), 0x5F);
    assert_eq!(f, CLEAR);
    let mut f = ALL;
    assert_eq!(or8(0x00, 0x00, &mut f), 0x00);
    assert_eq!(f, flags(true, false, false, false));
    let mut f = ALL;
    assert_eq!(xor8(0xFF, 0x0F, &mut f), 0xF0);
    assert_eq!(f, CLEAR);
    let mut f = ALL;
    assert_eq!(xor8(0xFF, 0xFF, &mut f), 0x00);
    assert_eq!(f, flags(true, false, false, false));
}

#[test]
fn cp8_keeps_the_left_operand() {
    let mut f = CLEAR;
    assert_eq!(cp8(0x3C, 0x2F, &mut f), 0x3C);
    assert_eq!(f, flags(false, true, true, false));
    let mut f = CLEAR;
    assert_eq!(cp8(0x3C, 0x3C, &mut f), 0x3C);
    assert_eq!(f, flags(true, true, false, false));
    let mut f = CLEAR;
    assert_eq!(cp8(0x3C, 0x40, &mut f), 0x3C);
    assert_eq!(f, flags(false, true, false, true));
}

#[test]
fn alu_selects_the_operation() {
    let ops = [
        (AluOp::Add, 0x13u8),
        (AluOp::Adc, 0x14),
        (AluOp::Sub, 0x0D),
        (AluOp::Sbc, 0x0C),
        (AluOp::And, 0x00),
        (AluOp::Xor, 0x13),
        (AluOp::Or, 0x13),
        (AluOp::Cp, 0x10),
    ];
    for (op, expected) in ops {
        let mut f = flags(false, false, false, true);
        assert_eq!(alu(op, 0x10, 0x03, &mut f), expected);
    }
}

#[test]
fn daa_values() {
    let mut f = CLEAR;
    assert_eq!(daa(0x7D, &mut f), 0x83);
    assert_eq!(f, CLEAR);
    let mut f = flags(false, false, false, false);
    assert_eq!(daa(0x9A, &mut f), 0x00);
    assert_eq!(f, flags(true, false, false, true));
    let mut f = flags(false, false, true, false);
    assert_eq!(daa(0x12, &mut f), 0x18);
    assert_eq!(f, CLEAR);
    let mut f = flags(false, true, true, false);
    assert_eq!(daa(0x0F, &mut f), 0x09);
    assert_eq!(f, flags(false, true, false, false));
    let mut f = flags(false, true, false, true);
    assert_eq!(daa(0xA0, &mut f), 0x40);
    assert_eq!(f, flags(false, true, false, true));
    let mut f = flags(false, true, true, true);
    assert_eq!(daa(0x66, &mut f), 0x00);
    assert_eq!(f, flags(true, true, false, true));
}

fn bcd(n: u32) -> u8 {
    ((n / 10) * 16 + n % 10) as u8
}

#[test]
fn daa_makes_decimal_sums_and_differences() {
    for x in 0..100u32 {
        for y in 0..100u32 {
            let mut f = CLEAR;
            let sum = add8(bcd(x), bcd(y), &mut f);
            let adjusted = daa(sum, &mut f);
            assert_eq!(adjusted, bcd((x + y) % 100));
            assert_eq!(f.c, x + y >= 100);
            assert_eq!(f.z, adjusted == 0);
            assert!(!f.h);
            let mut f = CLEAR;
            let difference = sub8(bcd(x), bcd(y), &mut f);
            let adjusted = daa(difference, &mut f);
            assert_eq!(adjusted, bcd((100 + x - y) % 100));
            assert_eq!(f.c, x < y);
        }
    }
}

#[test]
fn daa_leaves_a_decimal_byte_alone() {
    for x in 0..100u32 {
        let mut f = CLEAR;
        assert_eq!(daa(bcd(x), &mut f), bcd(x));
        assert!(!f.c);
    }
}

#[test]
fn subtracting_what_was_added_gives_the_operand_back() {
    for a in 0..=255u8 {
        for b in 0..=255u8 {
            let mut f = CLEAR;
            let sum = add8(a, b, &mut f);
            let after_add = f;
            let back = sub8(sum, b, &mut f);
            assert_eq!(back, a);
            assert!(!after_add.n && f.n);
            assert_eq!(after_add.c, f.c);
            assert_eq!(after_add.h, f.h);
            assert_eq!(after_add.z, sum == 0);
            assert_eq!(f.z, a == 0);
        }
    }
}

#[test]
fn cpl_scf_ccf_values() {
    let mut f = flags(true, false, false, true);
    assert_eq!(cpl(0x35, &mut f), 0xCA);
    assert_eq!(f, flags(true, true, true, true));
    let mut f = flags(true, true, true, false);
    scf(&mut f);
    assert_eq!(f, flags(true, false, false, true));
    let mut f = flags(false, true, true, true);
    ccf(&mut f);
    assert_eq!(f, flags(false, false, false, false));
    ccf(&mut f);
    assert_eq!(f, flags(false, false, false, true));
}

#[test]
fn sixteen_bit_values() {
    assert_eq!(inc16(0xFFFF), 0x0000);
    assert_eq!(inc16(0x00FF), 0x0100);
    assert_eq!(dec16(0x0000), 0xFFFF);
    assert_eq!(dec16(0x0100), 0x00FF);
    let mut f = flags(true, true, false, false);
    assert_eq!(add16(0x8A23, 0x0605, &mut f), 0x9028);
    assert_eq!(f, flags(true, false, true, false));
    let mut f = flags(false, true, false, false);
    assert_eq!(add16(0x8A23, 0x8A23, &mut f), 0x1446);
    assert_eq!(f, flags(false, false, true, true));
    let mut f = CLEAR;
    assert_eq!(add16(0xF000, 0x1000, &mut f), 0x0000);
    assert_eq!(f, flags(false, false, false, true));
}

#[test]
fn add_sp_e8_values() {
    let mut f = ALL;
    assert_eq!(add_sp_e8(0xFFF8, 0x02, &mut f), 0xFFFA);
    assert_eq!(f, CLEAR);
    let mut f = ALL;
    assert_eq!(add_sp_e8(0x0000, 0xFF, &mut f), 0xFFFF);
    assert_eq!(f, CLEAR);
    let mut f = CLEAR;
    assert_eq!(add_sp_e8(0x0001, 0xFF, &mut f), 0x0000);
    assert_eq!(f, flags(false, false, true, true));
    let mut f = CLEAR;
    assert_eq!(add_sp_e8(0x00FF, 0x01, &mut f), 0x0100);
    assert_eq!(f, flags(false, false, true, true));
    let mut f = CLEAR;
    assert_eq!(add_sp_e8(0x000F, 0x01, &mut f), 0x0010);
    assert_eq!(f, flags(false, false, true, false));
    let mut f = CLEAR;
    assert_eq!(add_sp_e8(0x1000, 0x80, &mut f), 0x0F80);
    assert_eq!(f, CLEAR);
    let mut f = CLEAR;
    assert_eq!(add_sp_e8(0xFFFF, 0x7F, &mut f), 0x007E);
    assert_eq!(f, flags(false, false, true, true));
}
