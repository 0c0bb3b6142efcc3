//! A ROM image: its bytes, its parsed header and the check of its boot logo.

use vstd::prelude::*;
use vstd::utf8::{decode_utf8, valid_utf8};
use vstd::string::*;
use crate::cartridge::{
    header_lines, lines_are, CGBFlag, CartridgeHeader, CartridgeType, DestinationCode, RamSize,
    RomSize, SGBFlag,
};
use crate::cpu::registers::{make_word, pair};
use crate::types::Memory;

verus! {

/// The number of bytes that an image needs to hold a whole header.
pub const HEADER_END: usize = 0x0150;

/// The logo that the boot program compares with the bytes at 0x0104 to 0x0133.
pub const NINTENDO_LOGO: [u8; 48] = [
    0xCE, 0xED, 0x66, 0x66, 0xCC, 0x0D, 0x00, 0x0B,
    0x03, 0x73, 0x00, 0x83, 0x00, 0x0C, 0x00, 0x0D,
    0x00, 0x08, 0x11, 0x1F, 0x88, 0x89, 0x00, 0x0E,
    0xDC, 0xCC, 0x6E, 0xE6, 0xDD, 0xDD, 0xD9, 0x99,
    0xBB, 0xBB, 0x67, 0x63, 0x6E, 0x0E, 0xEC, 0xCC,
    0xDD, 0xDC, 0x99, 0x9F, 0xBB, 0xB9, 0x33, 0x3E,
];

/// What the lossy UTF-8 decoder of the standard library makes of a byte string.
pub uninterp spec fn lossy_text(bytes: Seq<u8>) -> Seq<char>;

/// Whether every byte is an ASCII code.
pub open spec fn is_ascii_bytes(bytes: Seq<u8>) -> bool {
    forall|i: int| 0 <= i < bytes.len() ==> bytes[i] < 0x80
}

/// The characters that ASCII bytes stand for, one for one.
pub open spec fn ascii_text(bytes: Seq<u8>) -> Seq<char> {
    bytes.map_values(|b: u8| b as char)
}

/// Calls `String::from_utf8_lossy`. The text is a function of the bytes alone; for
/// ASCII bytes it is, as the decoder's documentation says of valid UTF-8, the
/// characters that the bytes encode, here one for each byte.
#[verifier::external_body]
fn decode_lossy(bytes: &Vec<u8>) -> (text: String)
    ensures
        text@ == lossy_text(bytes@),
        is_ascii_bytes(bytes@) ==> text@ == ascii_text(bytes@),
{
    String::from_utf8_lossy(bytes).into_owned()
}

/// Calls `String::from_utf8`. It gives a string exactly for valid UTF-8, and the
/// string then holds the characters that the bytes encode.
#[verifier::external_body]
fn decode_checked(bytes: Vec<u8>) -> (text: Option<String>)
    ensures
        text is Some <==> valid_utf8(bytes@),
        text matches Some(s) ==> s@ == decode_utf8(bytes@),
{
    String::from_utf8(bytes).ok()
}

/// The length of a byte string without its trailing NUL bytes.
pub open spec fn trimmed_len(bytes: Seq<u8>) -> nat
    decreases bytes.len(),
{
    if bytes.len() > 0 && bytes.last() == 0 {
        trimmed_len(bytes.drop_last())
    } else {
        bytes.len()
    }
}

/// A byte string without its trailing NUL bytes.
pub open spec fn trimmed(bytes: Seq<u8>) -> Seq<u8> {
    bytes.subrange(0, trimmed_len(bytes) as int)
}

proof fn lemma_trimmed_len_bound(bytes: Seq<u8>)
    ensures
        trimmed_len(bytes) <= bytes.len(),
    decreases bytes.len(),
{
    if bytes.len() > 0 && bytes.last() == 0 {
        lemma_trimmed_len_bound(bytes.drop_last());
    }
}

/// The bytes `from..to` of `data`, with the trailing NUL bytes left out.
fn copy_trimmed(data: &Vec<u8>, from: usize, to: usize) -> (out: Vec<u8>)
    requires
        from <= to <= data.len(),
    ensures
        out@ == trimmed(data@.subrange(from as int, to as int)),
{
    let ghost field = data@.subrange(from as int, to as int);
    let mut end = to;
    assert(field.subrange(0, to - from) =~= field);
    while end > from && data[end - 1] == 0
        invariant
            from <= end <= to <= data.len(),
            field == data@.subrange(from as int, to as int),
            trimmed_len(field) == trimmed_len(field.subrange(0, end - from)),
        decreases end,
    {
        proof {
            let current = field.subrange(0, end - from);
            assert(current.last() == data@[end - 1]);
            assert(current.drop_last() =~= field.subrange(0, end - 1 - from));
        }
        end = end - 1;
    }
    proof {
        let current = field.subrange(0, end - from);
        assert(field.subrange(0, to - from) =~= field);
        if end > from {
            assert(current.last() == data@[end - 1]);
        }
        assert(trimmed_len(field) == end - from);
    }
    let mut out: Vec<u8> = Vec::new();
    let mut i = from;
    while i < end
        invariant
            from <= i <= end <= to <= data.len(),
            out@ == data@.subrange(from as int, i as int),
        decreases end - i,
    {
        out.push(data[i]);
        assert(out@ =~= data@.subrange(from as int, i + 1));
        i = i + 1;
    }
    assert(out@ =~= trimmed(field));
    out
}

/// The bytes `from..to` of `data`.
fn copy_range(data: &Vec<u8>, from: usize, to: usize) -> (out: Vec<u8>)
    requires
        from <= to <= data.len(),
    ensures
        out@ == data@.subrange(from as int, to as int),
{
    let mut out: Vec<u8> = Vec::new();
    let mut i = from;
    while i < to
        invariant
            from <= i <= to <= data.len(),
            out@ == data@.subrange(from as int, i as int),
        decreases to - i,
    {
        out.push(data[i]);
        assert(out@ =~= data@.subrange(from as int, i + 1));
        i = i + 1;
    }
    out
}

/// Why an image was rejected.
#[derive(Copy, Clone, Debug, PartialEq, Eq, Structural)]
pub enum HeaderError {
    /// The image is shorter than 0x0150 bytes.
    TooShort,
    /// The byte at 0x0146 is neither 0x00 nor 0x03.
    SgbFlag,
    /// The byte at 0x0147 names no cartridge type.
    CartridgeType,
    /// The byte at 0x0148 names no ROM size.
    RomSize,
    /// The byte at 0x0149 names no RAM size.
    RamSize,
    /// The cartridge has an MBC2 controller and yet declares external RAM.
    Mbc2WithRam,
    /// The byte at 0x014A is neither 0 nor 1.
    DestinationCode,
}

/// Why an image is not run.
#[derive(Copy, Clone, Debug, PartialEq, Eq, Structural)]
pub enum RomError {
    /// A header field does not decode, or the fields contradict each other.
    InvalidHeader(HeaderError),
    /// The bytes at 0x0104 to 0x0133 are not the boot logo.
    InvalidLogo,
}

/// The first reason, in the order of the checks, for which an image is rejected:
/// `None` for an image that is accepted.
pub open spec fn header_error(data: Seq<u8>) -> Option<HeaderError> {
    if data.len() < HEADER_END {
        Some(HeaderError::TooShort)
    } else if SGBFlag::decode(data[0x0146]) is None {
        Some(HeaderError::SgbFlag)
    } else if CartridgeType::decode(data[0x0147]) is None {
        Some(HeaderError::CartridgeType)
    } else if RomSize::decode(data[0x0148]) is None {
        Some(HeaderError::RomSize)
    } else if RamSize::decode(data[0x0149]) is None {
        Some(HeaderError::RamSize)
    } else if CartridgeType::decode(data[0x0147])->0.spec_is_mbc2() && RamSize::decode(
        data[0x0149],
    ) != Some(RamSize::NoRam) {
        Some(HeaderError::Mbc2WithRam)
    } else if DestinationCode::decode(data[0x014A]) is None {
        Some(HeaderError::DestinationCode)
    } else {
        None
    }
}

/// Whether `header` holds what the header fields of the image `data` say.
pub open spec fn header_matches(header: CartridgeHeader, data: Seq<u8>) -> bool {
    let manufacturer = data.subrange(0x013F, 0x0143);
    let licensee = data.subrange(0x0144, 0x0146);
    &&& header.title@ == lossy_text(trimmed(data.subrange(0x0134, 0x0143)))
    &&& is_ascii_bytes(data.subrange(0x0134, 0x0143)) ==> header.title@ == ascii_text(
        trimmed(data.subrange(0x0134, 0x0143)),
    )
    &&& match header.manufacturer_code {
        Some(code) => valid_utf8(manufacturer) && code@ == decode_utf8(manufacturer),
        None => !valid_utf8(manufacturer),
    }
    &&& header.cgb_flag == CGBFlag::decode(data[0x0143])
    &&& header.new_licensee_code@ == if valid_utf8(licensee) {
        decode_utf8(licensee)
    } else {
        Seq::<char>::empty()
    }
    &&& Some(header.sgb_flag) == SGBFlag::decode(data[0x0146])
    &&& Some(header.cartridge_type) == CartridgeType::decode(data[0x0147])
    &&& Some(header.rom_size) == RomSize::decode(data[0x0148])
    &&& Some(header.ram_size) == RamSize::decode(data[0x0149])
    &&& Some(header.destination_code) == DestinationCode::decode(data[0x014A])
    &&& header.old_licensee_code == data[0x014B]
    &&& header.rom_version == data[0x014C]
    &&& header.header_checksum == data[0x014D]
    &&& header.global_checksum == pair(data[0x014E], data[0x014F])
}

/// Whether the bytes at 0x0104 to 0x0133 of an image are the boot logo.
pub open spec fn logo_matches(data: Seq<u8>) -> bool {
    data.len() >= 0x0134 && data.subrange(0x0104, 0x0134) == NINTENDO_LOGO@
}

/// The lines of the report on an image: the report on its header between a
/// heading and a rule.
pub open spec fn rom_lines(header: CartridgeHeader) -> Seq<Seq<char>> {
    seq!["ROM Information:"@, "----------------"@] + header_lines(header) + seq![
        "----------------"@,
    ]
}

/// A ROM image whose header was parsed.
pub struct Rom {
    memory: Memory,
    header: CartridgeHeader,
}

impl Rom {
    /// The image holds a whole header, and the parsed header is the one it holds.
    pub closed spec fn wf(&self) -> bool {
        &&& header_error(self.memory.data@) is None
        &&& header_matches(self.header, self.memory.data@)
    }

    /// The bytes of the image.
    pub closed spec fn view(&self) -> Seq<u8> {
        self.memory.data@
    }

    /// The parsed header.
    pub closed spec fn spec_header(&self) -> CartridgeHeader {
        self.header
    }

    /// What holds of every well-formed ROM.
    pub proof fn lemma_wf(&self)
        requires
            self.wf(),
        ensures
            header_error(self@) is None,
            header_matches(self.spec_header(), self@),
            self@.len() >= HEADER_END,
    {
    }

    /// Parses the header of an image. The image is rejected for the first check
    /// that fails, and accepted when none does.
    pub fn from_bytes(data: Vec<u8>) -> (r: Result<Rom, HeaderError>)
        ensures
            match r {
                Ok(rom) => rom.wf() && rom@ == data@ && header_error(data@) is None,
                Err(e) => header_error(data@) == Some(e),
            },
    {
        let memory = Memory { data };
        match Rom::extract_header(&memory) {
            Ok(header) => Ok(Rom { memory, header }),
            Err(e) => Err(e),
        }
    }

    /// Parses the header of an image and checks its boot logo: the image is
    /// accepted exactly when the header is and the logo is in its place.
    pub fn from_image(data: Vec<u8>) -> (r: Result<Rom, RomError>)
        ensures
            match r {
                Ok(rom) => rom.wf() && rom@ == data@ && header_error(data@) is None
                    && logo_matches(data@),
                Err(RomError::InvalidHeader(e)) => header_error(data@) == Some(e),
                Err(RomError::InvalidLogo) => header_error(data@) is None && !logo_matches(data@),
            },
    {
        match Rom::from_bytes(data) {
            Ok(rom) => {
                if rom.validate() {
                    Ok(rom)
                } else {
                    Err(RomError::InvalidLogo)
                }
            },
            Err(e) => Err(RomError::InvalidHeader(e)),
        }
    }

    /// Reads the header fields of an image.
    pub fn extract_header(memory: &Memory) -> (r: Result<CartridgeHeader, HeaderError>)
        ensures
            match r {
                Ok(header) => header_error(memory.data@) is None && header_matches(
                    header,
                    memory.data@,
                ),
                Err(e) => header_error(memory.data@) == Some(e),
            },
    {
        if memory.data.len() < HEADER_END {
            return Err(HeaderError::TooShort);
        }
        let sgb_flag = match SGBFlag::from_u8(memory.data[0x0146]) {
            Some(sgb_flag) => sgb_flag,
            None => {
                return Err(HeaderError::SgbFlag);
            },
        };
        let cartridge_type = match CartridgeType::from_u8(memory.data[0x0147]) {
            Some(cartridge_type) => cartridge_type,
            None => {
                return Err(HeaderError::CartridgeType);
            },
        };
        let rom_size = match RomSize::from_u8(memory.data[0x0148]) {
            Some(rom_size) => rom_size,
            None => {
                return Err(HeaderError::RomSize);
            },
        };
        let ram_size = match RamSize::from_u8(memory.data[0x0149]) {
            Some(ram_size) => ram_size,
            None => {
                return Err(HeaderError::RamSize);
            },
        };
        if cartridge_type.is_mbc2() {
            if ram_size != RamSize::NoRam {
                return Err(HeaderError::Mbc2WithRam);
            }
        }
        let destination_code = match DestinationCode::from_u8(memory.data[0x014A]) {
            Some(destination_code) => destination_code,
            None => {
                return Err(HeaderError::DestinationCode);
            },
        };
        let title_bytes = copy_trimmed(&memory.data, 0x0134, 0x0143);
        proof {
            let field = memory.data@.subrange(0x0134, 0x0143);
            lemma_trimmed_len_bound(field);
            if is_ascii_bytes(field) {
                assert(is_ascii_bytes(trimmed(field)));
            }
        }
        let new_licensee_code = match decode_checked(copy_range(&memory.data, 0x0144, 0x0146)) {
            Some(code) => code,
            None => String::new(),
        };
        Ok(
            CartridgeHeader {
                title: decode_lossy(&title_bytes),
                manufacturer_code: decode_checked(copy_range(&memory.data, 0x013F, 0x0143)),
                cgb_flag: CGBFlag::from_u8(memory.data[0x0143]),
                new_licensee_code,
                sgb_flag,
                cartridge_type,
                rom_size,
                ram_size,
                destination_code,
                old_licensee_code: memory.data[0x014B],
                rom_version: memory.data[0x014C],
                header_checksum: memory.data[0x014D],
                global_checksum: make_word(memory.data[0x014E], memory.data[0x014F]),
            },
        )
    }

    /// The parsed header.
    pub fn header(&self) -> (header: &CartridgeHeader)
        ensures
            *header == self.spec_header(),
    {
        &self.header
    }

    /// The bytes of the image.
    pub fn bytes(&self) -> (bytes: &Vec<u8>)
        ensures
            bytes@ == self@,
    {
        &self.memory.data
    }

    /// Hands the buffer of the image over.
    pub fn into_memory(self) -> (memory: Memory)
        ensures
            memory.data@ == self@,
    {
        self.memory
    }

    /// The report on the image, line by line, for the caller to log.
    pub fn print_info(&self) -> (lines: Vec<String>)
        ensures
            lines_are(lines@, rom_lines(self.spec_header())),
    {
        let mut lines: Vec<String> = Vec::new();
        lines.push(String::from_str("ROM Information:"));
        lines.push(String::from_str("----------------"));
        let mut header_report = self.header.print_info();
        let ghost before = lines@;
        let ghost report = header_report@;
        lines.append(&mut header_report);
        lines.push(String::from_str("----------------"));
        assert(lines@ =~= before + report + seq![lines@.last()]);
        lines
    }

    /// Whether the image carries the boot logo.
    pub fn validate(&self) -> (valid: bool)
        requires
            self.wf(),
        ensures
            valid == logo_matches(self@),
    {
        let mut i: usize = 0;
        while i < 48
            invariant
                0 <= i <= 48,
                self.memory.data.len() >= HEADER_END,
                forall|k: int| 0 <= k < i ==> self.memory.data@[0x0104 + k] == NINTENDO_LOGO@[k],
            decreases 48 - i,
        {
            if self.memory.data[0x0104 + i] != NINTENDO_LOGO[i] {
                proof {
                    assert(self@.subrange(0x0104, 0x0134)[i as int] == self.memory.data@[0x0104 + i]);
                }
                return false;
            }
            i = i + 1;
        }
        assert(self@.subrange(0x0104, 0x0134) =~= NINTENDO_LOGO@);
        true
    }
}

} // verus!
