//! The memory management unit: routes 16-bit addresses to the section that backs them.

use vstd::prelude::*;
use crate::cpu::registers::{high_byte, low_byte, make_word, pair, split_word};
use crate::rom::Rom;
use crate::types::{Memory, MemorySection};

verus! {

/// What the bus holds: a byte for every backed address. An address outside the
/// domain is not backed by storage.
pub type MemoryImage = Map<u16, u8>;

/// Whether `addr` is backed by storage when the ROM buffer holds `rom_len` bytes.
///
/// The echo region, the prohibited region and the address 0xFFFF are never backed,
/// nor is an address of the ROM section past the end of the ROM buffer.
pub open spec fn is_backed(rom_len: nat, addr: u16) -> bool {
    if MemorySection::Rom.spec_contains(addr) {
        addr < rom_len
    } else {
        MemorySection::VRam.spec_contains(addr) || MemorySection::ExternalRam.spec_contains(addr)
            || MemorySection::InternalRam.spec_contains(addr) || MemorySection::Oam.spec_contains(
            addr,
        ) || MemorySection::IoPorts.spec_contains(addr) || MemorySection::HRam.spec_contains(addr)
    }
}

/// The address after `addr`, modulo 2^16.
pub open spec fn next_addr(addr: u16) -> u16 {
    if addr == 0xFFFF {
        0
    } else {
        (addr + 1) as u16
    }
}

/// The byte read at `addr`: 0x00 where nothing backs the address.
pub open spec fn read_byte_spec(mem: MemoryImage, addr: u16) -> u8 {
    if mem.dom().contains(addr) {
        mem[addr]
    } else {
        0
    }
}

/// The image after a byte is written at `addr`: unchanged where nothing backs the address.
pub open spec fn write_byte_spec(mem: MemoryImage, addr: u16, value: u8) -> MemoryImage {
    if mem.dom().contains(addr) {
        mem.insert(addr, value)
    } else {
        mem
    }
}

/// The little-endian word at `addr`: the low byte at `addr`, the high byte at the
/// next address modulo 2^16.
pub open spec fn read_word_spec(mem: MemoryImage, addr: u16) -> u16 {
    pair(read_byte_spec(mem, next_addr(addr)), read_byte_spec(mem, addr))
}

/// The image after a little-endian word is written at `addr`: first the low byte at
/// `addr`, then the high byte at the next address modulo 2^16.
pub open spec fn write_word_spec(mem: MemoryImage, addr: u16, value: u16) -> MemoryImage {
    write_byte_spec(write_byte_spec(mem, addr, low_byte(value)), next_addr(addr), high_byte(value))
}

/// The bus: one buffer for each backed section of the address space.
pub struct MMU {
    rom: Memory,
    vram: Memory,
    external_ram: Memory,
    internal_ram: Memory,
    oam: Memory,
    io_ports: Memory,
    hram: Memory,
}

impl MMU {
    /// Every section but the ROM has a buffer of exactly its size.
    pub closed spec fn wf(&self) -> bool {
        &&& self.vram.data.len() == MemorySection::VRam.spec_size()
        &&& self.external_ram.data.len() == MemorySection::ExternalRam.spec_size()
        &&& self.internal_ram.data.len() == MemorySection::InternalRam.spec_size()
        &&& self.oam.data.len() == MemorySection::Oam.spec_size()
        &&& self.io_ports.data.len() == MemorySection::IoPorts.spec_size()
        &&& self.hram.data.len() == MemorySection::HRam.spec_size()
    }

    /// The number of bytes in the ROM buffer.
    pub closed spec fn rom_len(&self) -> nat {
        self.rom.data.len() as nat
    }

    spec fn cell(&self, addr: u16) -> u8 {
        if MemorySection::Rom.spec_contains(addr) {
            self.rom.data@[addr as int]
        } else if MemorySection::VRam.spec_contains(addr) {
            self.vram.data@[addr - 0x8000]
        } else if MemorySection::ExternalRam.spec_contains(addr) {
            self.external_ram.data@[addr - 0xA000]
        } else if MemorySection::InternalRam.spec_contains(addr) {
            self.internal_ram.data@[addr - 0xC000]
        } else if MemorySection::Oam.spec_contains(addr) {
            self.oam.data@[addr - 0xFE00]
        } else if MemorySection::IoPorts.spec_contains(addr) {
            self.io_ports.data@[addr - 0xFF00]
        } else {
            self.hram.data@[addr - 0xFF80]
        }
    }

    /// The bytes on the bus, by address.
    pub closed spec fn view(&self) -> MemoryImage {
        Map::new(|addr: u16| is_backed(self.rom_len(), addr), |addr: u16| self.cell(addr))
    }

    /// The backed addresses are fixed by the length of the ROM buffer.
    pub proof fn lemma_domain(&self)
        ensures
            forall|addr: u16|
                #[trigger] self@.dom().contains(addr) == is_backed(self.rom_len(), addr),
    {
    }

    /// Every address of a section is backed, but for those of the ROM section
    /// past the end of the image. So a byte written inside a section is read
    /// back, and so is a word whose two addresses lie in one section.
    pub proof fn lemma_sections_are_backed(&self, section: MemorySection, addr: u16)
        requires
            section.spec_contains(addr),
            section == MemorySection::Rom ==> addr < self.rom_len(),
        ensures
            self@.dom().contains(addr),
            forall|value: u8| read_byte_spec(write_byte_spec(self@, addr, value), addr) == value,
            section.spec_contains(next_addr(addr)) && (section == MemorySection::Rom ==> addr + 1
                < self.rom_len()) ==> forall|value: u16|
                read_word_spec(write_word_spec(self@, addr, value), addr) == value,
    {
    }

    /// A bus whose sections, a 32 KiB ROM included, are all zero.
    pub fn new() -> (mmu: MMU)
        ensures
            mmu.wf(),
            mmu.rom_len() == 0x8000,
            forall|addr: u16| #[trigger] mmu@.dom().contains(addr) == is_backed(0x8000, addr),
            forall|addr: u16| read_byte_spec(mmu@, addr) == 0,
    {
        MMU {
            rom: Memory { data: vec![0u8; MemorySection::Rom.size()] },
            vram: Memory { data: vec![0u8; MemorySection::VRam.size()] },
            external_ram: Memory { data: vec![0u8; MemorySection::ExternalRam.size()] },
            internal_ram: Memory { data: vec![0u8; MemorySection::InternalRam.size()] },
            oam: Memory { data: vec![0u8; MemorySection::Oam.size()] },
            io_ports: Memory { data: vec![0u8; MemorySection::IoPorts.size()] },
            hram: Memory { data: vec![0u8; MemorySection::HRam.size()] },
        }
    }

    /// The same bus with the buffer of `rom` as the ROM section, used as it is:
    /// an image shorter than the section leaves the rest of the section
    /// unbacked, and of a longer one only the first 32 KiB are on the bus.
    pub fn with_rom(self, rom: Rom) -> (mmu: MMU)
        requires
            self.wf(),
        ensures
            mmu.wf(),
            mmu.rom_len() == rom@.len(),
            forall|addr: u16| #[trigger] mmu@.dom().contains(addr) == is_backed(rom@.len(), addr),
            forall|addr: u16|
                MemorySection::Rom.spec_contains(addr) && addr < rom@.len() ==> mmu@[addr]
                    == rom@[addr as int],
            forall|addr: u16|
                !MemorySection::Rom.spec_contains(addr) ==> read_byte_spec(mmu@, addr)
                    == read_byte_spec(self@, addr),
    {
        MMU {
            rom: rom.into_memory(),
            vram: self.vram,
            external_ram: self.external_ram,
            internal_ram: self.internal_ram,
            oam: self.oam,
            io_ports: self.io_ports,
            hram: self.hram,
        }
    }

    /// Reads the byte at `addr`: 0x00 where nothing backs the address.
    pub fn read_byte(&self, addr: u16) -> (value: u8)
        requires
            self.wf(),
        ensures
            value == read_byte_spec(self@, addr),
    {
        if MemorySection::Rom.contains(addr) {
            if (addr as usize) < self.rom.data.len() {
                self.rom.data[addr as usize]
            } else {
                0
            }
        } else if MemorySection::VRam.contains(addr) {
            self.vram.data[(addr - 0x8000) as usize]
        } else if MemorySection::ExternalRam.contains(addr) {
            self.external_ram.data[(addr - 0xA000) as usize]
        } else if MemorySection::InternalRam.contains(addr) {
            self.internal_ram.data[(addr - 0xC000) as usize]
        } else if MemorySection::Oam.contains(addr) {
            self.oam.data[(addr - 0xFE00) as usize]
        } else if MemorySection::IoPorts.contains(addr) {
            self.io_ports.data[(addr - 0xFF00) as usize]
        } else if MemorySection::HRam.contains(addr) {
            self.hram.data[(addr - 0xFF80) as usize]
        } else {
            0
        }
    }

    /// Reads the little-endian word at `addr`.
    pub fn read_word(&self, addr: u16) -> (value: u16)
        requires
            self.wf(),
        ensures
            value == read_word_spec(self@, addr),
    {
        let low = self.read_byte(addr);
        let high = self.read_byte(addr.wrapping_add(1));
        make_word(high, low)
    }

    /// Writes a byte at `addr`: nothing happens where nothing backs the address.
    pub fn write_byte(&mut self, addr: u16, value: u8)
        requires
            old(self).wf(),
        ensures
            final(self).wf(),
            final(self).rom_len() == old(self).rom_len(),
            final(self)@ == write_byte_spec(old(self)@, addr, value),
            final(self)@.dom() == old(self)@.dom(),
    {
        if MemorySection::Rom.contains(addr) {
            if (addr as usize) < self.rom.data.len() {
                self.rom.data.set(addr as usize, value);
            }
        } else if MemorySection::VRam.contains(addr) {
            self.vram.data.set((addr - 0x8000) as usize, value);
        } else if MemorySection::ExternalRam.contains(addr) {
            self.external_ram.data.set((addr - 0xA000) as usize, value);
        } else if MemorySection::InternalRam.contains(addr) {
            self.internal_ram.data.set((addr - 0xC000) as usize, value);
        } else if MemorySection::Oam.contains(addr) {
            self.oam.data.set((addr - 0xFE00) as usize, value);
        } else if MemorySection::IoPorts.contains(addr) {
            self.io_ports.data.set((addr - 0xFF00) as usize, value);
        } else if MemorySection::HRam.contains(addr) {
            self.hram.data.set((addr - 0xFF80) as usize, value);
        }
        assert(self@ =~= write_byte_spec(old(self)@, addr, value));
    }

    /// Writes a little-endian word at `addr`.
    pub fn write_word(&mut self, addr: u16, value: u16)
        requires
            old(self).wf(),
        ensures
            final(self).wf(),
            final(self).rom_len() == old(self).rom_len(),
            final(self)@ == write_word_spec(old(self)@, addr, value),
            final(self)@.dom() == old(self)@.dom(),
    {
        let (high, low) = split_word(value);
        self.write_byte(addr, low);
        self.write_byte(addr.wrapping_add(1), high);
    }
}

/// A byte written at a backed address is the byte read there.
pub proof fn lemma_write_byte_read_byte(mem: MemoryImage, addr: u16, value: u8)
    requires
        mem.dom().contains(addr),
    ensures
        read_byte_spec(write_byte_spec(mem, addr, value), addr) == value,
{
}

/// A write leaves every other address as it was, and never changes which addresses are backed.
pub proof fn lemma_write_byte_frame(mem: MemoryImage, addr: u16, value: u8, other: u16)
    ensures
        write_byte_spec(mem, addr, value).dom() == mem.dom(),
        other != addr ==> read_byte_spec(write_byte_spec(mem, addr, value), other)
            == read_byte_spec(mem, other),
        !mem.dom().contains(addr) ==> write_byte_spec(mem, addr, value) == mem,
{
    assert(write_byte_spec(mem, addr, value).dom() =~= mem.dom());
}

/// A word written where both of its addresses are backed is the word read there.
pub proof fn lemma_write_word_read_word(mem: MemoryImage, addr: u16, value: u16)
    requires
        mem.dom().contains(addr),
        mem.dom().contains(next_addr(addr)),
    ensures
        read_word_spec(write_word_spec(mem, addr, value), addr) == value,
{
}

/// The word at the last address takes its high byte from address 0x0000.
pub proof fn lemma_read_word_wraps(mem: MemoryImage)
    ensures
        read_word_spec(mem, 0xFFFF) == pair(read_byte_spec(mem, 0x0000), read_byte_spec(mem, 0xFFFF)),
        read_word_spec(mem, 0xFFFF) == ((read_byte_spec(mem, 0x0000) as u16) << 8) | (read_byte_spec(
            mem,
            0xFFFF,
        ) as u16),
{
    let high = read_byte_spec(mem, 0x0000);
    let low = read_byte_spec(mem, 0xFFFF);
    assert(((high as u16) << 8) | (low as u16) == high * 256 + low) by (bit_vector);
}

} // verus!
