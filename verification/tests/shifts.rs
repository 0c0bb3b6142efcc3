use lr35902::cpu::instructions::shift_rot_bit;
use lr35902::cpu::instructions::shift_rot_bit::{
    bit, res, rl, rlc, rotate, rr, rrc, sla, sra, srl, swap,
};
use lr35902::cpu::instructions::RotOp;
use lr35902::cpu::registers::Flags;

fn flags(z: bool, n: bool, h: bool, c: bool) -> Flags {
    Flags { z, n, h, c }
}

const CLEAR: Flags = Flags { z: false, n: false, h: false, c: false };
const ALL: Flags = Flags { z: true, n: true, h: true, c: true };

#[test]
fn rlc_values() {
    let mut f = ALL;
    assert_eq!(rlc(0x85, &mut f), 0x0B);
    assert_eq!(f, flags(false, false, false, true));
    let mut f = ALL;
    assert_eq!(rlc(0x00, &mut f), 0x00);
    assert_eq!(f, flags(true, false, false, false));
    let mut f = CLEAR;
    assert_eq!(rlc(0x40, &mut f), 0x80);
    assert_eq!(f, CLEAR);
}

#[test]
fn rrc_values() {
    let mut f = ALL;
    assert_eq!(rrc(0x01, &mut f), 0x80);
    assert_eq!(f, flags(false, false, false, true));
    let mut f = ALL;
    assert_eq!(rrc(0x3A, &mut f), 0x1D);
    assert_eq!(f, CLEAR);
    let mut f = ALL;
    assert_eq!(rrc(0x00, &mut f), 0x00);
    assert_eq!(f, flags(true, false, false, false));
}

#[test]
fn rl_values() {
    let mut f = CLEAR;
    assert_eq!(rl(0x80, &mut f), 0x00);
    assert_eq!(f, flags(true, false, false, true));
    let mut f = flags(false, false, false, true);
    assert_eq!(rl(0x95, &mut f), 0x2B);
    assert_eq!(f, flags(false, false, false, true));
    let mut f = flags(false, false, false, true);
    assert_eq!(rl(0x11, &mut f), 0x23);
    assert_eq!(f, CLEAR);
}

#[test]
fn rr_values() {
    let mut f = CLEAR;
    assert_eq!(rr(0x01, &mut f), 0x00);
    assert_eq!(f, flags(true, false, false, true));
    let mut f = flags(false, false, false, true);
    assert_eq!(rr(0x8A, &mut f), 0xC5);
    assert_eq!(f, CLEAR);
    let mut f = CLEAR;
    assert_eq!(rr(0x81, &mut f), 0x40);
    assert_eq!(f, flags(false, false, false, true));
}

#[test]
fn sla_sra_srl_values() {
    let mut f = ALL;
    assert_eq!(sla(0x80, &mut f), 0x00);
    assert_eq!(f, flags(true, false, false, true));
    let mut f = ALL;
    assert_eq!(sla(0xFF, &mut f), 0xFE);
    assert_eq!(f, flags(false, false, false, true));
    let mut f = ALL;
    assert_eq!(sra(0x8A, &mut f), 0xC5);
    assert_eq!(f, CLEAR);
    let mut f = ALL;
    assert_eq!(sra(0x01, &mut f), 0x00);
    assert_eq!(f, flags(true, false, false, true));
    let mut f = ALL;
    assert_eq!(srl(0x01, &mut f), 0x00);
    assert_eq!(f, flags(true, false, false, true));
    let mut f = ALL;
    assert_eq!(srl(0xFF, &mut f), 0x7F);
    assert_eq!(f, flags(false, false, false, true));
}

#[test]
fn swap_values() {
    let mut f = ALL;
    assert_eq!(swap(0xF1, &mut f), 0x1F);
    assert_eq!(f, CLEAR);
    let mut f = ALL;
    assert_eq!(swap(0x00, &mut f), 0x00);
    assert_eq!(f, flags(true, false, false, false));
}

#[test]
fn rotate_selects_the_operation() {
    let expected = [
        (RotOp::Rlc, 0x0Bu8),
        (RotOp::Rrc, 0xC2),
        (RotOp::Rl, 0x0A),
        (RotOp::Rr, 0x42),
        (RotOp::Sla, 0x0A),
        (RotOp::Sra, 0xC2),
        (RotOp::Swap, 0x58),
        (RotOp::Srl, 0x42),
    ];
    for (op, value) in expected {
        let mut f = CLEAR;
        assert_eq!(rotate(op, 0x85, &mut f), value);
    }
}

#[test]
fn rlc_undoes_rrc() {
    for x in 0..=255u8 {
        for start in [CLEAR, ALL] {
            let mut f = start;
            let right = rrc(x, &mut f);
            assert_eq!(rlc(right, &mut f), x);
        }
    }
}

#[test]
fn rl_undoes_rr_through_the_carry() {
    for x in 0..=255u8 {
        for carry in [false, true] {
            let mut f = flags(false, false, false, carry);
            let right = rr(x, &mut f);
            assert_eq!(rl(right, &mut f), x);
            assert_eq!(f.c, carry);
        }
    }
}

#[test]
fn bit_sets_z_when_the_bit_is_zero() {
    for x in [0x00u8, 0xFF, 0x80, 0x01, 0x5A] {
        for n in 0..8u8 {
            for carry in [false, true] {
                let mut f = flags(false, true, false, carry);
                bit(n, x, &mut f);
                assert_eq!(f, flags((x >> n) & 1 == 0, false, true, carry));
            }
        }
    }
}

#[test]
fn res_and_set_values() {
    assert_eq!(res(7, 0x80), 0x00);
    assert_eq!(res(1, 0x3B), 0x39);
    assert_eq!(res(0, 0xFE), 0xFE);
    assert_eq!(shift_rot_bit::set(3, 0x80), 0x88);
    assert_eq!(shift_rot_bit::set(7, 0x3B), 0xBB);
    assert_eq!(shift_rot_bit::set(0, 0x01), 0x01);
}

#[test]
fn set_after_res_and_res_after_set() {
    for x in 0..=255u8 {
        for n in 0..8u8 {
            assert_eq!(shift_rot_bit::set(n, res(n, x)), x | (1 << n));
            assert_eq!(res(n, shift_rot_bit::set(n, x)), x & !(1 << n));
        }
    }
}
