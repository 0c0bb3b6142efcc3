//! The cartridge header: the metadata at 0x0100 to 0x014F of a ROM image.

use vstd::prelude::*;
use vstd::string::*;
use crate::text::{append_decimal, append_hex16, append_hex8, decimal_text, hex_text16, hex_text8};

verus! {

/// Whether the cartridge uses the functions of the colour model.
#[derive(Copy, Clone, Debug, PartialEq, Eq, Structural)]
pub enum CGBFlag {
    /// Works on both models.
    Supported,
    /// Works on the colour model only.
    Required,
}

impl CGBFlag {
    /// The name of the value in a report.
    pub open spec fn name_text(self) -> Seq<char> {
        match self {
            CGBFlag::Supported => "Supported"@,
            CGBFlag::Required => "Required"@,
        }
    }

    /// The name of the value in a report.
    pub fn name(&self) -> (text: &'static str)
        ensures
            text@ == self.name_text(),
    {
        match self {
            CGBFlag::Supported => "Supported",
            CGBFlag::Required => "Required",
        }
    }

    /// The value that a header byte stands for: `None` for a byte that stands
    /// for none.
    pub open spec fn decode(value: u8) -> Option<Self> {
        if value == 0x80 {
            Some(CGBFlag::Supported)
        } else if value == 0xC0 {
            Some(CGBFlag::Required)
        } else {
            None
        }
    }

    /// A value is what its own code stands for, and no other byte stands for it.
    pub proof fn lemma_decode_inverts_code(value: CGBFlag, byte: u8)
        ensures
            Self::decode(value.code()) == Some(value),
            Self::decode(byte) == Some(value) ==> byte == value.code(),
    {
    }

    /// The header byte that stands for the value.
    pub open spec fn code(self) -> u8 {
        match self {
            CGBFlag::Supported => 0x80,
            CGBFlag::Required => 0xC0,
        }
    }

    /// The value that a header byte stands for, if it stands for one.
    pub fn from_u8(value: u8) -> (r: Option<Self>)
        ensures
            r == Self::decode(value),
    {
        match value {
            0x80 => Some(CGBFlag::Supported),
            0xC0 => Some(CGBFlag::Required),
            _ => None,
        }
    }
}

/// Whether the cartridge uses the functions of the Super console adapter.
#[derive(Copy, Clone, Debug, PartialEq, Eq, Structural)]
pub enum SGBFlag {
    NotSupported,
    Supported,
}

impl SGBFlag {
    /// The name of the value in a report.
    pub open spec fn name_text(self) -> Seq<char> {
        match self {
            SGBFlag::NotSupported => "NotSupported"@,
            SGBFlag::Supported => "Supported"@,
        }
    }

    /// The name of the value in a report.
    pub fn name(&self) -> (text: &'static str)
        ensures
            text@ == self.name_text(),
    {
        match self {
            SGBFlag::NotSupported => "NotSupported",
            SGBFlag::Supported => "Supported",
        }
    }

    /// The value that a header byte stands for: `None` for a byte that stands
    /// for none.
    pub open spec fn decode(value: u8) -> Option<Self> {
        if value == 0x00 {
            Some(SGBFlag::NotSupported)
        } else if value == 0x03 {
            Some(SGBFlag::Supported)
        } else {
            None
        }
    }

    /// A value is what its own code stands for, and no other byte stands for it.
    pub proof fn lemma_decode_inverts_code(value: SGBFlag, byte: u8)
        ensures
            Self::decode(value.code()) == Some(value),
            Self::decode(byte) == Some(value) ==> byte == value.code(),
    {
    }

    /// The header byte that stands for the value.
    pub open spec fn code(self) -> u8 {
        match self {
            SGBFlag::NotSupported => 0x00,
            SGBFlag::Supported => 0x03,
        }
    }

    /// The value that a header byte stands for, if it stands for one.
    pub fn from_u8(value: u8) -> (r: Option<Self>)
        ensures
            r == Self::decode(value),
    {
        match value {
            0x00 => Some(SGBFlag::NotSupported),
            0x03 => Some(SGBFlag::Supported),
            _ => None,
        }
    }
}

/// The memory bank controller and the other hardware on the cartridge.
#[derive(Copy, Clone, Debug, PartialEq, Eq, Structural)]
pub enum CartridgeType {
    RomOnly,
    Mbc1,
    Mbc1Ram,
    Mbc1RamBattery,
    Mbc2,
    Mbc2Battery,
    RomRam,
    RomRamBattery,
    Mmm01,
    Mbc5RumbleRam,
    Mmm01Ram,
    Mmm01RamBattery,
    Mbc3TimerBattery,
    Mbc3TimerRamBattery,
    Mbc3,
    Mbc3Ram,
    Mbc3RamBattery,
    Mbc4,
    Mbc4Ram,
    Mbc4RamBattery,
    Mbc5,
    Mbc5Ram,
    Mbc5RamBattery,
    Mbc5Rumble,
    Mbc5RumbleRamBattery,
    PocketCamera,
    BandaiTama5,
    Huc3,
    Huc1RamBattery,
}

impl CartridgeType {
    /// The name of the value in a report.
    pub open spec fn name_text(self) -> Seq<char> {
        match self {
            CartridgeType::RomOnly => "RomOnly"@,
            CartridgeType::Mbc1 => "Mbc1"@,
            CartridgeType::Mbc1Ram => "Mbc1Ram"@,
            CartridgeType::Mbc1RamBattery => "Mbc1RamBattery"@,
            CartridgeType::Mbc2 => "Mbc2"@,
            CartridgeType::Mbc2Battery => "Mbc2Battery"@,
            CartridgeType::RomRam => "RomRam"@,
            CartridgeType::RomRamBattery => "RomRamBattery"@,
            CartridgeType::Mmm01 => "Mmm01"@,
            CartridgeType::Mbc5RumbleRam => "Mbc5RumbleRam"@,
            CartridgeType::Mmm01Ram => "Mmm01Ram"@,
            CartridgeType::Mmm01RamBattery => "Mmm01RamBattery"@,
            CartridgeType::Mbc3TimerBattery => "Mbc3TimerBattery"@,
            CartridgeType::Mbc3TimerRamBattery => "Mbc3TimerRamBattery"@,
            CartridgeType::Mbc3 => "Mbc3"@,
            CartridgeType::Mbc3Ram => "Mbc3Ram"@,
            CartridgeType::Mbc3RamBattery => "Mbc3RamBattery"@,
            CartridgeType::Mbc4 => "Mbc4"@,
            CartridgeType::Mbc4Ram => "Mbc4Ram"@,
            CartridgeType::Mbc4RamBattery => "Mbc4RamBattery"@,
            CartridgeType::Mbc5 => "Mbc5"@,
            CartridgeType::Mbc5Ram => "Mbc5Ram"@,
            CartridgeType::Mbc5RamBattery => "Mbc5RamBattery"@,
            CartridgeType::Mbc5Rumble => "Mbc5Rumble"@,
            CartridgeType::Mbc5RumbleRamBattery => "Mbc5RumbleRamBattery"@,
            CartridgeType::PocketCamera => "PocketCamera"@,
            CartridgeType::BandaiTama5 => "BandaiTama5"@,
            CartridgeType::Huc3 => "Huc3"@,
            CartridgeType::Huc1RamBattery => "Huc1RamBattery"@,
        }
    }

    /// The name of the value in a report.
    pub fn name(&self) -> (text: &'static str)
        ensures
            text@ == self.name_text(),
    {
        match self {
            CartridgeType::RomOnly => "RomOnly",
            CartridgeType::Mbc1 => "Mbc1",
            CartridgeType::Mbc1Ram => "Mbc1Ram",
            CartridgeType::Mbc1RamBattery => "Mbc1RamBattery",
            CartridgeType::Mbc2 => "Mbc2",
            CartridgeType::Mbc2Battery => "Mbc2Battery",
            CartridgeType::RomRam => "RomRam",
            CartridgeType::RomRamBattery => "RomRamBattery",
            CartridgeType::Mmm01 => "Mmm01",
            CartridgeType::Mbc5RumbleRam => "Mbc5RumbleRam",
            CartridgeType::Mmm01Ram => "Mmm01Ram",
            CartridgeType::Mmm01RamBattery => "Mmm01RamBattery",
            CartridgeType::Mbc3TimerBattery => "Mbc3TimerBattery",
            CartridgeType::Mbc3TimerRamBattery => "Mbc3TimerRamBattery",
            CartridgeType::Mbc3 => "Mbc3",
            CartridgeType::Mbc3Ram => "Mbc3Ram",
            CartridgeType::Mbc3RamBattery => "Mbc3RamBattery",
            CartridgeType::Mbc4 => "Mbc4",
            CartridgeType::Mbc4Ram => "Mbc4Ram",
            CartridgeType::Mbc4RamBattery => "Mbc4RamBattery",
            CartridgeType::Mbc5 => "Mbc5",
            CartridgeType::Mbc5Ram => "Mbc5Ram",
            CartridgeType::Mbc5RamBattery => "Mbc5RamBattery",
            CartridgeType::Mbc5Rumble => "Mbc5Rumble",
            CartridgeType::Mbc5RumbleRamBattery => "Mbc5RumbleRamBattery",
            CartridgeType::PocketCamera => "PocketCamera",
            CartridgeType::BandaiTama5 => "BandaiTama5",
            CartridgeType::Huc3 => "Huc3",
            CartridgeType::Huc1RamBattery => "Huc1RamBattery",
        }
    }

    /// The value that a header byte stands for: `None` for a byte that stands
    /// for none.
    pub open spec fn decode(value: u8) -> Option<Self> {
        if value == 0x00 {
            Some(CartridgeType::RomOnly)
        } else if value == 0x01 {
            Some(CartridgeType::Mbc1)
        } else if value == 0x02 {
            Some(CartridgeType::Mbc1Ram)
        } else if value == 0x03 {
            Some(CartridgeType::Mbc1RamBattery)
        } else if value == 0x05 {
            Some(CartridgeType::Mbc2)
        } else if value == 0x06 {
            Some(CartridgeType::Mbc2Battery)
        } else if value == 0x08 {
            Some(CartridgeType::RomRam)
        } else if value == 0x09 {
            Some(CartridgeType::RomRamBattery)
        } else if value == 0x0B {
            Some(CartridgeType::Mmm01)
        } else if value == 0x1D {
            Some(CartridgeType::Mbc5RumbleRam)
        } else if value == 0x0C {
            Some(CartridgeType::Mmm01Ram)
        } else if value == 0x0D {
            Some(CartridgeType::Mmm01RamBattery)
        } else if value == 0x0F {
            Some(CartridgeType::Mbc3TimerBattery)
        } else if value == 0x10 {
            Some(CartridgeType::Mbc3TimerRamBattery)
        } else if value == 0x11 {
            Some(CartridgeType::Mbc3)
        } else if value == 0x12 {
            Some(CartridgeType::Mbc3Ram)
        } else if value == 0x13 {
            Some(CartridgeType::Mbc3RamBattery)
        } else if value == 0x15 {
            Some(CartridgeType::Mbc4)
        } else if value == 0x16 {
            Some(CartridgeType::Mbc4Ram)
        } else if value == 0x17 {
            Some(CartridgeType::Mbc4RamBattery)
        } else if value == 0x19 {
            Some(CartridgeType::Mbc5)
        } else if value == 0x1A {
            Some(CartridgeType::Mbc5Ram)
        } else if value == 0x1B {
            Some(CartridgeType::Mbc5RamBattery)
        } else if value == 0x1C {
            Some(CartridgeType::Mbc5Rumble)
        } else if value == 0x1E {
            Some(CartridgeType::Mbc5RumbleRamBattery)
        } else if value == 0xFC {
            Some(CartridgeType::PocketCamera)
        } else if value == 0xFD {
            Some(CartridgeType::BandaiTama5)
        } else if value == 0xFE {
            Some(CartridgeType::Huc3)
        } else if value == 0xFF {
            Some(CartridgeType::Huc1RamBattery)
        } else {
            None
        }
    }

    /// A value is what its own code stands for, and no other byte stands for it.
    pub proof fn lemma_decode_inverts_code(value: CartridgeType, byte: u8)
        ensures
            Self::decode(value.code()) == Some(value),
            Self::decode(byte) == Some(value) ==> byte == value.code(),
    {
    }

    /// The header byte that stands for the value.
    pub open spec fn code(self) -> u8 {
        match self {
            CartridgeType::RomOnly => 0x00,
            CartridgeType::Mbc1 => 0x01,
            CartridgeType::Mbc1Ram => 0x02,
            CartridgeType::Mbc1RamBattery => 0x03,
            CartridgeType::Mbc2 => 0x05,
            CartridgeType::Mbc2Battery => 0x06,
            CartridgeType::RomRam => 0x08,
            CartridgeType::RomRamBattery => 0x09,
            CartridgeType::Mmm01 => 0x0B,
            CartridgeType::Mbc5RumbleRam => 0x1D,
            CartridgeType::Mmm01Ram => 0x0C,
            CartridgeType::Mmm01RamBattery => 0x0D,
            CartridgeType::Mbc3TimerBattery => 0x0F,
            CartridgeType::Mbc3TimerRamBattery => 0x10,
            CartridgeType::Mbc3 => 0x11,
            CartridgeType::Mbc3Ram => 0x12,
            CartridgeType::Mbc3RamBattery => 0x13,
            CartridgeType::Mbc4 => 0x15,
            CartridgeType::Mbc4Ram => 0x16,
            CartridgeType::Mbc4RamBattery => 0x17,
            CartridgeType::Mbc5 => 0x19,
            CartridgeType::Mbc5Ram => 0x1A,
            CartridgeType::Mbc5RamBattery => 0x1B,
            CartridgeType::Mbc5Rumble => 0x1C,
            CartridgeType::Mbc5RumbleRamBattery => 0x1E,
            CartridgeType::PocketCamera => 0xFC,
            CartridgeType::BandaiTama5 => 0xFD,
            CartridgeType::Huc3 => 0xFE,
            CartridgeType::Huc1RamBattery => 0xFF,
        }
    }

    /// The value that a header byte stands for, if it stands for one.
    pub fn from_u8(value: u8) -> (r: Option<Self>)
        ensures
            r == Self::decode(value),
    {
        match value {
            0x00 => Some(CartridgeType::RomOnly),
            0x01 => Some(CartridgeType::Mbc1),
            0x02 => Some(CartridgeType::Mbc1Ram),
            0x03 => Some(CartridgeType::Mbc1RamBattery),
            0x05 => Some(CartridgeType::Mbc2),
            0x06 => Some(CartridgeType::Mbc2Battery),
            0x08 => Some(CartridgeType::RomRam),
            0x09 => Some(CartridgeType::RomRamBattery),
            0x0B => Some(CartridgeType::Mmm01),
            0x1D => Some(CartridgeType::Mbc5RumbleRam),
            0x0C => Some(CartridgeType::Mmm01Ram),
            0x0D => Some(CartridgeType::Mmm01RamBattery),
            0x0F => Some(CartridgeType::Mbc3TimerBattery),
            0x10 => Some(CartridgeType::Mbc3TimerRamBattery),
            0x11 => Some(CartridgeType::Mbc3),
            0x12 => Some(CartridgeType::Mbc3Ram),
            0x13 => Some(CartridgeType::Mbc3RamBattery),
            0x15 => Some(CartridgeType::Mbc4),
            0x16 => Some(CartridgeType::Mbc4Ram),
            0x17 => Some(CartridgeType::Mbc4RamBattery),
            0x19 => Some(CartridgeType::Mbc5),
            0x1A => Some(CartridgeType::Mbc5Ram),
            0x1B => Some(CartridgeType::Mbc5RamBattery),
            0x1C => Some(CartridgeType::Mbc5Rumble),
            0x1E => Some(CartridgeType::Mbc5RumbleRamBattery),
            0xFC => Some(CartridgeType::PocketCamera),
            0xFD => Some(CartridgeType::BandaiTama5),
            0xFE => Some(CartridgeType::Huc3),
            0xFF => Some(CartridgeType::Huc1RamBattery),
            _ => None,
        }
    }
}

/// The size of the ROM on the cartridge.
#[derive(Copy, Clone, Debug, PartialEq, Eq, Structural)]
pub enum RomSize {
    Kb32,
    Kb64,
    Kb128,
    Kb256,
    Kb512,
    Mb1,
    Mb2,
    Mb4,
    Mb1_1,
    Mb1_2,
    Mb1_5,
}

impl RomSize {
    /// The name of the value in a report.
    pub open spec fn name_text(self) -> Seq<char> {
        match self {
            RomSize::Kb32 => "Kb32"@,
            RomSize::Kb64 => "Kb64"@,
            RomSize::Kb128 => "Kb128"@,
            RomSize::Kb256 => "Kb256"@,
            RomSize::Kb512 => "Kb512"@,
            RomSize::Mb1 => "Mb1"@,
            RomSize::Mb2 => "Mb2"@,
            RomSize::Mb4 => "Mb4"@,
            RomSize::Mb1_1 => "Mb1_1"@,
            RomSize::Mb1_2 => "Mb1_2"@,
            RomSize::Mb1_5 => "Mb1_5"@,
        }
    }

    /// The name of the value in a report.
    pub fn name(&self) -> (text: &'static str)
        ensures
            text@ == self.name_text(),
    {
        match self {
            RomSize::Kb32 => "Kb32",
            RomSize::Kb64 => "Kb64",
            RomSize::Kb128 => "Kb128",
            RomSize::Kb256 => "Kb256",
            RomSize::Kb512 => "Kb512",
            RomSize::Mb1 => "Mb1",
            RomSize::Mb2 => "Mb2",
            RomSize::Mb4 => "Mb4",
            RomSize::Mb1_1 => "Mb1_1",
            RomSize::Mb1_2 => "Mb1_2",
            RomSize::Mb1_5 => "Mb1_5",
        }
    }

    /// The value that a header byte stands for: `None` for a byte that stands
    /// for none.
    pub open spec fn decode(value: u8) -> Option<Self> {
        if value == 0x00 {
            Some(RomSize::Kb32)
        } else if value == 0x01 {
            Some(RomSize::Kb64)
        } else if value == 0x02 {
            Some(RomSize::Kb128)
        } else if value == 0x03 {
            Some(RomSize::Kb256)
        } else if value == 0x04 {
            Some(RomSize::Kb512)
        } else if value == 0x05 {
            Some(RomSize::Mb1)
        } else if value == 0x06 {
            Some(RomSize::Mb2)
        } else if value == 0x07 {
            Some(RomSize::Mb4)
        } else if value == 0x52 {
            Some(RomSize::Mb1_1)
        } else if value == 0x53 {
            Some(RomSize::Mb1_2)
        } else if value == 0x54 {
            Some(RomSize::Mb1_5)
        } else {
            None
        }
    }

    /// A value is what its own code stands for, and no other byte stands for it.
    pub proof fn lemma_decode_inverts_code(value: RomSize, byte: u8)
        ensures
            Self::decode(value.code()) == Some(value),
            Self::decode(byte) == Some(value) ==> byte == value.code(),
    {
    }

    /// The header byte that stands for the value.
    pub open spec fn code(self) -> u8 {
        match self {
            RomSize::Kb32 => 0x00,
            RomSize::Kb64 => 0x01,
            RomSize::Kb128 => 0x02,
            RomSize::Kb256 => 0x03,
            RomSize::Kb512 => 0x04,
            RomSize::Mb1 => 0x05,
            RomSize::Mb2 => 0x06,
            RomSize::Mb4 => 0x07,
            RomSize::Mb1_1 => 0x52,
            RomSize::Mb1_2 => 0x53,
            RomSize::Mb1_5 => 0x54,
        }
    }

    /// The value that a header byte stands for, if it stands for one.
    pub fn from_u8(value: u8) -> (r: Option<Self>)
        ensures
            r == Self::decode(value),
    {
        match value {
            0x00 => Some(RomSize::Kb32),
            0x01 => Some(RomSize::Kb64),
            0x02 => Some(RomSize::Kb128),
            0x03 => Some(RomSize::Kb256),
            0x04 => Some(RomSize::Kb512),
            0x05 => Some(RomSize::Mb1),
            0x06 => Some(RomSize::Mb2),
            0x07 => Some(RomSize::Mb4),
            0x52 => Some(RomSize::Mb1_1),
            0x53 => Some(RomSize::Mb1_2),
            0x54 => Some(RomSize::Mb1_5),
            _ => None,
        }
    }
}

/// The size of the external RAM on the cartridge.
#[derive(Copy, Clone, Debug, PartialEq, Eq, Structural)]
pub enum RamSize {
    NoRam,
    Kb2,
    Kb8,
    Kb32,
}

impl RamSize {
    /// The name of the value in a report.
    pub open spec fn name_text(self) -> Seq<char> {
        match self {
            RamSize::NoRam => "None"@,
            RamSize::Kb2 => "Kb2"@,
            RamSize::Kb8 => "Kb8"@,
            RamSize::Kb32 => "Kb32"@,
        }
    }

    /// The name of the value in a report.
    pub fn name(&self) -> (text: &'static str)
        ensures
            text@ == self.name_text(),
    {
        match self {
            RamSize::NoRam => "None",
            RamSize::Kb2 => "Kb2",
            RamSize::Kb8 => "Kb8",
            RamSize::Kb32 => "Kb32",
        }
    }

    /// The value that a header byte stands for: `None` for a byte that stands
    /// for none.
    pub open spec fn decode(value: u8) -> Option<Self> {
        if value == 0x00 {
            Some(RamSize::NoRam)
        } else if value == 0x01 {
            Some(RamSize::Kb2)
        } else if value == 0x02 {
            Some(RamSize::Kb8)
        } else if value == 0x03 {
            Some(RamSize::Kb32)
        } else {
            None
        }
    }

    /// A value is what its own code stands for, and no other byte stands for it.
    pub proof fn lemma_decode_inverts_code(value: RamSize, byte: u8)
        ensures
            Self::decode(value.code()) == Some(value),
            Self::decode(byte) == Some(value) ==> byte == value.code(),
    {
    }

    /// The header byte that stands for the value.
    pub open spec fn code(self) -> u8 {
        match self {
            RamSize::NoRam => 0x00,
            RamSize::Kb2 => 0x01,
            RamSize::Kb8 => 0x02,
            RamSize::Kb32 => 0x03,
        }
    }

    /// The value that a header byte stands for, if it stands for one.
    pub fn from_u8(value: u8) -> (r: Option<Self>)
        ensures
            r == Self::decode(value),
    {
        match value {
            0x00 => Some(RamSize::NoRam),
            0x01 => Some(RamSize::Kb2),
            0x02 => Some(RamSize::Kb8),
            0x03 => Some(RamSize::Kb32),
            _ => None,
        }
    }
}

/// Where the cartridge is meant to be sold.
#[derive(Copy, Clone, Debug, PartialEq, Eq, Structural)]
pub enum DestinationCode {
    Japanese,
    NonJapanese,
}

impl DestinationCode {
    /// The name of the value in a report.
    pub open spec fn name_text(self) -> Seq<char> {
        match self {
            DestinationCode::Japanese => "Japanese"@,
            DestinationCode::NonJapanese => "NonJapanese"@,
        }
    }

    /// The name of the value in a report.
    pub fn name(&self) -> (text: &'static str)
        ensures
            text@ == self.name_text(),
    {
        match self {
            DestinationCode::Japanese => "Japanese",
            DestinationCode::NonJapanese => "NonJapanese",
        }
    }

    /// The value that a header byte stands for: `None` for a byte that stands
    /// for none.
    pub open spec fn decode(value: u8) -> Option<Self> {
        if value == 0x00 {
            Some(DestinationCode::Japanese)
        } else if value == 0x01 {
            Some(DestinationCode::NonJapanese)
        } else {
            None
        }
    }

    /// A value is what its own code stands for, and no other byte stands for it.
    pub proof fn lemma_decode_inverts_code(value: DestinationCode, byte: u8)
        ensures
            Self::decode(value.code()) == Some(value),
            Self::decode(byte) == Some(value) ==> byte == value.code(),
    {
    }

    /// The header byte that stands for the value.
    pub open spec fn code(self) -> u8 {
        match self {
            DestinationCode::Japanese => 0x00,
            DestinationCode::NonJapanese => 0x01,
        }
    }

    /// The value that a header byte stands for, if it stands for one.
    pub fn from_u8(value: u8) -> (r: Option<Self>)
        ensures
            r == Self::decode(value),
    {
        match value {
            0x00 => Some(DestinationCode::Japanese),
            0x01 => Some(DestinationCode::NonJapanese),
            _ => None,
        }
    }
}

impl CartridgeType {
    /// Whether the cartridge carries the MBC2 controller, which has its own RAM of
    /// 512 half-bytes and takes no external RAM.
    pub open spec fn spec_is_mbc2(self) -> bool {
        self == CartridgeType::Mbc2 || self == CartridgeType::Mbc2Battery
    }

    /// Whether the cartridge carries the MBC2 controller.
    pub fn is_mbc2(&self) -> (b: bool)
        ensures
            b == self.spec_is_mbc2(),
    {
        match self {
            CartridgeType::Mbc2 | CartridgeType::Mbc2Battery => true,
            _ => false,
        }
    }
}

/// The parsed header of a cartridge.
pub struct CartridgeHeader {
    pub title: String,
    pub manufacturer_code: Option<String>,
    pub cgb_flag: Option<CGBFlag>,
    pub new_licensee_code: String,
    pub sgb_flag: SGBFlag,
    pub cartridge_type: CartridgeType,
    pub rom_size: RomSize,
    pub ram_size: RamSize,
    pub destination_code: DestinationCode,
    pub old_licensee_code: u8,
    pub rom_version: u8,
    pub header_checksum: u8,
    pub global_checksum: u16,
}

/// How a report writes the colour flag, which a cartridge may lack.
pub open spec fn cgb_text(flag: Option<CGBFlag>) -> Seq<char> {
    match flag {
        Some(f) => "Some("@ + f.name_text() + ")"@,
        None => "None"@,
    }
}

/// The lines of the report on a header.
pub open spec fn header_lines(header: CartridgeHeader) -> Seq<Seq<char>> {
    seq!["ROM Header Information:"@, "-----------------------"@, "Title: "@ + header.title@] + (
    match header.manufacturer_code {
        Some(code) => seq!["Manufacturer Code: "@ + code@],
        None => seq![],
    }) + seq![
        "CGB Support: "@ + cgb_text(header.cgb_flag),
        "New Licensee Code: "@ + header.new_licensee_code@,
        "SGB Support: "@ + header.sgb_flag.name_text(),
        "Cartridge Type: "@ + header.cartridge_type.name_text(),
        "ROM Size: "@ + header.rom_size.name_text(),
        "RAM Size: "@ + header.ram_size.name_text(),
        "Destination Code: "@ + header.destination_code.name_text(),
        "Old Licensee Code: "@ + decimal_text(header.old_licensee_code as nat),
        "ROM Version: "@ + decimal_text(header.rom_version as nat),
        "Header Checksum: "@ + hex_text8(header.header_checksum),
        "Global Checksum: "@ + hex_text16(header.global_checksum),
    ]
}

/// Whether `lines` holds the texts `texts`, line by line.
pub open spec fn lines_are(lines: Seq<String>, texts: Seq<Seq<char>>) -> bool {
    &&& lines.len() == texts.len()
    &&& forall|i: int| 0 <= i < lines.len() ==> (#[trigger] lines[i])@ == texts[i]
}

/// A line made of a label and a value.
pub fn labelled(label: &str, value: &str) -> (line: String)
    ensures
        line@ == label@ + value@,
{
    let mut line = String::from_str(label);
    line.append(value);
    line
}

impl CartridgeHeader {
    /// The report on the header, line by line, for the caller to log.
    pub fn print_info(&self) -> (lines: Vec<String>)
        ensures
            lines_are(lines@, header_lines(*self)),
    {
        let mut lines: Vec<String> = Vec::new();
        lines.push(String::from_str("ROM Header Information:"));
        lines.push(String::from_str("-----------------------"));
        lines.push(labelled("Title: ", self.title.as_str()));
        if let Some(code) = &self.manufacturer_code {
            lines.push(labelled("Manufacturer Code: ", code.as_str()));
        }
        let mut cgb = String::from_str("CGB Support: ");
        match &self.cgb_flag {
            Some(flag) => {
                cgb.append("Some(");
                cgb.append(flag.name());
                cgb.append(")");
            },
            None => {
                cgb.append("None");
            },
        }
        assert(cgb@ =~= "CGB Support: "@ + cgb_text(self.cgb_flag));
        lines.push(cgb);
        lines.push(labelled("New Licensee Code: ", self.new_licensee_code.as_str()));
        lines.push(labelled("SGB Support: ", self.sgb_flag.name()));
        lines.push(labelled("Cartridge Type: ", self.cartridge_type.name()));
        lines.push(labelled("ROM Size: ", self.rom_size.name()));
        lines.push(labelled("RAM Size: ", self.ram_size.name()));
        lines.push(labelled("Destination Code: ", self.destination_code.name()));
        let mut old_licensee = String::from_str("Old Licensee Code: ");
        append_decimal(&mut old_licensee, self.old_licensee_code);
        lines.push(old_licensee);
        let mut version = String::from_str("ROM Version: ");
        append_decimal(&mut version, self.rom_version);
        lines.push(version);
        let mut header_checksum = String::from_str("Header Checksum: ");
        append_hex8(&mut header_checksum, self.header_checksum);
        lines.push(header_checksum);
        let mut global_checksum = String::from_str("Global Checksum: ");
        append_hex16(&mut global_checksum, self.global_checksum);
        lines.push(global_checksum);
        lines
    }
}

} // verus!
