//! The register file and the flag word.

use vstd::prelude::*;

verus! {

/// The four condition flags, held in the high nibble of register F.
#[derive(Copy, Clone, Debug, PartialEq, Eq, Structural)]
pub struct Flags {
    /// Zero (bit 7 of F).
    pub z: bool,
    /// Subtract-last (bit 6 of F).
    pub n: bool,
    /// Half-carry (bit 5 of F).
    pub h: bool,
    /// Carry (bit 4 of F).
    pub c: bool,
}

/// The byte that register F holds for the given flags: the low nibble is always zero.
pub open spec fn flags_byte(f: Flags) -> u8 {
    ((if f.z { 0x80int } else { 0 }) + (if f.n { 0x40int } else { 0 }) + (if f.h { 0x20int } else { 0 }) + (if f.c { 0x10int } else { 0 })) as u8
}

/// The flags that a byte written to F selects: bits 7 to 4, the low nibble ignored.
pub open spec fn flags_of_byte(value: u8) -> Flags {
    Flags {
        z: value / 0x80 % 2 == 1,
        n: value / 0x40 % 2 == 1,
        h: value / 0x20 % 2 == 1,
        c: value / 0x10 % 2 == 1,
    }
}

proof fn lemma_flag_masks(value: u8)
    by (bit_vector)
    ensures
        (value & 0x80 != 0) == (value / 0x80 % 2 == 1),
        (value & 0x40 != 0) == (value / 0x40 % 2 == 1),
        (value & 0x20 != 0) == (value / 0x20 % 2 == 1),
        (value & 0x10 != 0) == (value / 0x10 % 2 == 1),
{
}

proof fn lemma_flag_bits(z: bool, n: bool, h: bool, c: bool)
    by (bit_vector)
    ensures
        ((if z { 0x80u8 } else { 0 }) | (if n { 0x40u8 } else { 0 }) | (if h { 0x20u8 } else { 0 }) | (if c { 0x10u8 } else { 0 }))
            == (if z { 0x80u8 } else { 0 }) + (if n { 0x40u8 } else { 0 }) + (if h { 0x20u8 } else { 0 }) + (if c { 0x10u8 } else { 0 }),
{
}

impl Flags {
    /// The flags packed into the layout of register F.
    pub fn as_u8(&self) -> (value: u8)
        ensures
            value == flags_byte(*self),
    {
        let z: u8 = if self.z { 0b1000_0000 } else { 0 };
        let n: u8 = if self.n { 0b0100_0000 } else { 0 };
        let h: u8 = if self.h { 0b0010_0000 } else { 0 };
        let c: u8 = if self.c { 0b0001_0000 } else { 0 };
        proof {
            lemma_flag_bits(self.z, self.n, self.h, self.c);
        }
        z | n | h | c
    }

    /// The flags selected by a byte in the layout of register F.
    pub fn from_u8(value: u8) -> (f: Flags)
        ensures
            f == flags_of_byte(value),
    {
        proof {
            lemma_flag_masks(value);
        }
        Flags {
            z: (value & 0b1000_0000) != 0,
            n: (value & 0b0100_0000) != 0,
            h: (value & 0b0010_0000) != 0,
            c: (value & 0b0001_0000) != 0,
        }
    }
}

/// Whether the processor fetches instructions or waits for a wake signal.
#[derive(Copy, Clone, Debug, PartialEq, Eq, Structural)]
pub enum CpuState {
    Running,
    Halted,
    Stopped,
}

/// The architectural registers, the interrupt master-enable latch and the run state.
#[derive(Copy, Clone, Debug, PartialEq, Eq, Structural)]
pub struct Registers {
    pub a: u8,
    pub f: Flags,
    pub b: u8,
    pub c: u8,
    pub d: u8,
    pub e: u8,
    pub h: u8,
    pub l: u8,
    pub pc: u16,
    pub sp: u16,
    pub interrupts_enabled: bool,
    pub cpu_state: CpuState,
}

/// The 16-bit value of a register pair: `high` is the upper byte.
pub open spec fn pair(high: u8, low: u8) -> u16 {
    (high * 256 + low) as u16
}

/// The upper byte of a 16-bit value.
pub open spec fn high_byte(value: u16) -> u8 {
    (value / 256) as u8
}

/// The lower byte of a 16-bit value.
pub open spec fn low_byte(value: u16) -> u8 {
    (value % 256) as u8
}

proof fn lemma_pair_bits(high: u8, low: u8)
    by (bit_vector)
    ensures
        ((high as u16) << 8) | (low as u16) == high * 256 + low,
{
}

proof fn lemma_split_bits(value: u16)
    by (bit_vector)
    ensures
        ((value >> 8) & 0xFF) as u8 == value / 256,
        (value & 0xFF) as u8 == value % 256,
        (value >> 8) as u8 == value / 256,
{
}

/// Joins two bytes into a 16-bit value, `high` first.
pub fn make_word(high: u8, low: u8) -> (value: u16)
    ensures
        value == pair(high, low),
{
    proof {
        lemma_pair_bits(high, low);
    }
    ((high as u16) << 8) | (low as u16)
}

/// Splits a 16-bit value into its upper and lower byte.
pub fn split_word(value: u16) -> (bytes: (u8, u8))
    ensures
        bytes.0 == high_byte(value),
        bytes.1 == low_byte(value),
{
    proof {
        lemma_split_bits(value);
    }
    (((value >> 8) & 0xFF) as u8, (value & 0xFF) as u8)
}

impl Registers {
    /// The register file at reset.
    pub fn new() -> (r: Registers)
        ensures
            r == Self::spec_new(),
    {
        Registers {
            a: 0,
            f: Flags { z: false, n: false, h: false, c: false },
            b: 0,
            c: 0,
            d: 0,
            e: 0,
            h: 0,
            l: 0,
            pc: 0x0100,
            sp: 0,
            interrupts_enabled: false,
            cpu_state: CpuState::Running,
        }
    }

    /// The reset state: every register and flag zero, PC at the cartridge entry point.
    pub open spec fn spec_new() -> Registers {
        Registers {
            a: 0,
            f: Flags { z: false, n: false, h: false, c: false },
            b: 0,
            c: 0,
            d: 0,
            e: 0,
            h: 0,
            l: 0,
            pc: 0x0100,
            sp: 0,
            interrupts_enabled: false,
            cpu_state: CpuState::Running,
        }
    }

    /// The pair AF: the flags are the low byte.
    pub open spec fn spec_af(self) -> u16 {
        pair(self.a, flags_byte(self.f))
    }

    /// The pair BC.
    pub open spec fn spec_bc(self) -> u16 {
        pair(self.b, self.c)
    }

    /// The pair DE.
    pub open spec fn spec_de(self) -> u16 {
        pair(self.d, self.e)
    }

    /// The pair HL.
    pub open spec fn spec_hl(self) -> u16 {
        pair(self.h, self.l)
    }

    /// The registers after AF is written: the low nibble of the value is dropped.
    pub open spec fn spec_set_af(self, value: u16) -> Registers {
        Registers { a: high_byte(value), f: flags_of_byte(low_byte(value)), ..self }
    }

    /// The registers after BC is written.
    pub open spec fn spec_set_bc(self, value: u16) -> Registers {
        Registers { b: high_byte(value), c: low_byte(value), ..self }
    }

    /// The registers after DE is written.
    pub open spec fn spec_set_de(self, value: u16) -> Registers {
        Registers { d: high_byte(value), e: low_byte(value), ..self }
    }

    /// The registers after HL is written.
    pub open spec fn spec_set_hl(self, value: u16) -> Registers {
        Registers { h: high_byte(value), l: low_byte(value), ..self }
    }

    /// Reads the pair AF.
    pub fn get_af(&self) -> (value: u16)
        ensures
            value == self.spec_af(),
    {
        make_word(self.a, self.f.as_u8())
    }

    /// Writes the pair AF; the low nibble of F stays zero.
    pub fn set_af(&mut self, value: u16)
        ensures
            *final(self) == old(self).spec_set_af(value),
    {
        let (high, low) = split_word(value);
        self.a = high;
        self.f = Flags::from_u8(low);
    }

    /// Reads the pair BC.
    pub fn get_bc(&self) -> (value: u16)
        ensures
            value == self.spec_bc(),
    {
        make_word(self.b, self.c)
    }

    /// Writes the pair BC.
    pub fn set_bc(&mut self, value: u16)
        ensures
            *final(self) == old(self).spec_set_bc(value),
    {
        let (high, low) = split_word(value);
        self.b = high;
        self.c = low;
    }

    /// Reads the pair DE.
    pub fn get_de(&self) -> (value: u16)
        ensures
            value == self.spec_de(),
    {
        make_word(self.d, self.e)
    }

    /// Writes the pair DE.
    pub fn set_de(&mut self, value: u16)
        ensures
            *final(self) == old(self).spec_set_de(value),
    {
        let (high, low) = split_word(value);
        self.d = high;
        self.e = low;
    }

    /// Reads the pair HL.
    pub fn get_hl(&self) -> (value: u16)
        ensures
            value == self.spec_hl(),
    {
        make_word(self.h, self.l)
    }

    /// Writes the pair HL.
    pub fn set_hl(&mut self, value: u16)
        ensures
            *final(self) == old(self).spec_set_hl(value),
    {
        let (high, low) = split_word(value);
        self.h = high;
        self.l = low;
    }

    /// Sets the interrupt master-enable latch.
    pub fn enable_interrupts(&mut self)
        ensures
            *final(self) == (Registers { interrupts_enabled: true, ..*old(self) }),
    {
        self.interrupts_enabled = true
    }

    /// Clears the interrupt master-enable latch.
    pub fn disable_interrupts(&mut self)
        ensures
            *final(self) == (Registers { interrupts_enabled: false, ..*old(self) }),
    {
        self.interrupts_enabled = false
    }
}

/// Writing AF and reading it back keeps the upper twelve bits and clears the low nibble of F.
pub proof fn lemma_set_af_get_af(r: Registers, value: u16)
    ensures
        r.spec_set_af(value).spec_af() == value & 0xFFF0,
        r.spec_set_af(value).spec_af() == value - value % 16,
{
    assert(value & 0xFFF0 == value - value % 16) by (bit_vector);
}

/// Writing back the value read from BC, DE or HL changes nothing.
pub proof fn lemma_set_pair_of_get_pair(r: Registers)
    ensures
        r.spec_set_bc(r.spec_bc()) == r,
        r.spec_set_de(r.spec_de()) == r,
        r.spec_set_hl(r.spec_hl()) == r,
{
}

/// A pair that was written is the pair that is read.
pub proof fn lemma_get_pair_of_set_pair(r: Registers, value: u16)
    ensures
        r.spec_set_bc(value).spec_bc() == value,
        r.spec_set_de(value).spec_de() == value,
        r.spec_set_hl(value).spec_hl() == value,
{
}

} // verus!
