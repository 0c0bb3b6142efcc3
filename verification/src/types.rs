//! Backing storage and the named sections of the 16-bit address space.

use vstd::prelude::*;

verus! {

/// A contiguous byte buffer that backs one section of the address space.
#[derive(Clone, Debug)]
pub struct Memory {
    pub data: Vec<u8>,
}

/// The sections of the address space that are backed by storage.
#[derive(Copy, Clone, Debug, PartialEq, Eq, Structural)]
pub enum MemorySection {
    Rom,
    VRam,
    ExternalRam,
    InternalRam,
    Oam,
    IoPorts,
    HRam,
}

impl MemorySection {
    /// Number of addresses the section spans.
    pub open spec fn spec_size(self) -> nat {
        match self {
            MemorySection::Rom => 0x8000,
            MemorySection::VRam => 0x2000,
            MemorySection::ExternalRam => 0x2000,
            MemorySection::InternalRam => 0x2000,
            MemorySection::Oam => 0xA0,
            MemorySection::IoPorts => 0x80,
            MemorySection::HRam => 0x7F,
        }
    }

    /// First address of the section.
    pub open spec fn spec_start(self) -> nat {
        match self {
            MemorySection::Rom => 0x0000,
            MemorySection::VRam => 0x8000,
            MemorySection::ExternalRam => 0xA000,
            MemorySection::InternalRam => 0xC000,
            MemorySection::Oam => 0xFE00,
            MemorySection::IoPorts => 0xFF00,
            MemorySection::HRam => 0xFF80,
        }
    }

    /// Whether `addr` lies inside the section.
    pub open spec fn spec_contains(self, addr: u16) -> bool {
        self.spec_start() <= addr < self.spec_start() + self.spec_size()
    }

    /// Number of addresses the section spans.
    pub fn size(&self) -> (n: usize)
        ensures
            n == self.spec_size(),
    {
        match self {
            MemorySection::Rom => 0x8000,
            MemorySection::VRam => 0x2000,
            MemorySection::ExternalRam => 0x2000,
            MemorySection::InternalRam => 0x2000,
            MemorySection::Oam => 0xA0,
            MemorySection::IoPorts => 0x80,
            MemorySection::HRam => 0x7F,
        }
    }

    /// The inclusive address range `(first, last)` of the section.
    pub fn range(&self) -> (r: (u16, u16))
        ensures
            r.0 == self.spec_start(),
            r.1 == self.spec_start() + self.spec_size() - 1,
    {
        let start: u16 = match self {
            MemorySection::Rom => 0x0000,
            MemorySection::VRam => 0x8000,
            MemorySection::ExternalRam => 0xA000,
            MemorySection::InternalRam => 0xC000,
            MemorySection::Oam => 0xFE00,
            MemorySection::IoPorts => 0xFF00,
            MemorySection::HRam => 0xFF80,
        };
        let end: u16 = start + (self.size() as u16 - 1);
        (start, end)
    }

    /// Whether `addr` lies inside the section.
    pub fn contains(&self, addr: u16) -> (b: bool)
        ensures
            b == self.spec_contains(addr),
    {
        let (start, end) = self.range();
        addr >= start && addr <= end
    }
}

} // verus!
