use lr35902::cartridge::{
    labelled, CGBFlag, CartridgeType, DestinationCode, RamSize, RomSize, SGBFlag,
};
use lr35902::rom::{HeaderError, Rom, RomError, HEADER_END, NINTENDO_LOGO};
use lr35902::text::{append_decimal, append_hex16, append_hex8, digit_str};
use lr35902::types::Memory;

fn image() -> Vec<u8> {
    let mut data = vec![0u8; 0x8000];
    data[0x0104..0x0134].copy_from_slice(&NINTENDO_LOGO);
    data[0x0134..0x013A].copy_from_slice(b"TETRIS");
    data[0x0147] = 0x00;
    data[0x0148] = 0x00;
    data[0x0149] = 0x00;
    data[0x014A] = 0x01;
    data[0x014B] = 0x01;
    data[0x014C] = 0x02;
    data[0x014D] = 0x0A;
    data[0x014E] = 0x16;
    data[0x014F] = 0xBF;
    data
}

#[test]
fn flags_and_sizes_decode() {
    assert_eq!(CGBFlag::from_u8(0x80), Some(CGBFlag::Supported));
    assert_eq!(CGBFlag::from_u8(0xC0), Some(CGBFlag::Required));
    assert_eq!(CGBFlag::from_u8(0x00), None);
    assert_eq!(SGBFlag::from_u8(0x00), Some(SGBFlag::NotSupported));
    assert_eq!(SGBFlag::from_u8(0x03), Some(SGBFlag::Supported));
    assert_eq!(SGBFlag::from_u8(0x01), None);
    assert_eq!(RomSize::from_u8(0x00), Some(RomSize::Kb32));
    assert_eq!(RomSize::from_u8(0x07), Some(RomSize::Mb4));
    assert_eq!(RomSize::from_u8(0x52), Some(RomSize::Mb1_1));
    assert_eq!(RomSize::from_u8(0x54), Some(RomSize::Mb1_5));
    assert_eq!(RomSize::from_u8(0x08), None);
    assert_eq!(RamSize::from_u8(0x00), Some(RamSize::NoRam));
    assert_eq!(RamSize::from_u8(0x03), Some(RamSize::Kb32));
    assert_eq!(RamSize::from_u8(0x04), None);
    assert_eq!(DestinationCode::from_u8(0x00), Some(DestinationCode::Japanese));
    assert_eq!(DestinationCode::from_u8(0x01), Some(DestinationCode::NonJapanese));
    assert_eq!(DestinationCode::from_u8(0x02), None);
}

#[test]
fn cartridge_types_decode() {
    let known = [
        (0x00u8, CartridgeType::RomOnly),
        (0x01, CartridgeType::Mbc1),
        (0x02, CartridgeType::Mbc1Ram),
        (0x03, CartridgeType::Mbc1RamBattery),
        (0x05, CartridgeType::Mbc2),
        (0x06, CartridgeType::Mbc2Battery),
        (0x08, CartridgeType::RomRam),
        (0x09, CartridgeType::RomRamBattery),
        (0x0B, CartridgeType::Mmm01),
        (0x0C, CartridgeType::Mmm01Ram),
        (0x0D, CartridgeType::Mmm01RamBattery),
        (0x0F, CartridgeType::Mbc3TimerBattery),
        (0x10, CartridgeType::Mbc3TimerRamBattery),
        (0x11, CartridgeType::Mbc3),
        (0x12, CartridgeType::Mbc3Ram),
        (0x13, CartridgeType::Mbc3RamBattery),
        (0x15, CartridgeType::Mbc4),
        (0x16, CartridgeType::Mbc4Ram),
        (0x17, CartridgeType::Mbc4RamBattery),
        (0x19, CartridgeType::Mbc5),
        (0x1A, CartridgeType::Mbc5Ram),
        (0x1B, CartridgeType::Mbc5RamBattery),
        (0x1C, CartridgeType::Mbc5Rumble),
        (0x1D, CartridgeType::Mbc5RumbleRam),
        (0x1E, CartridgeType::Mbc5RumbleRamBattery),
        (0xFC, CartridgeType::PocketCamera),
        (0xFD, CartridgeType::BandaiTama5),
        (0xFE, CartridgeType::Huc3),
        (0xFF, CartridgeType::Huc1RamBattery),
    ];
    for byte in 0..=255u8 {
        let expected = known.iter().find(|(code, _)| *code == byte).map(|(_, t)| *t);
        assert_eq!(CartridgeType::from_u8(byte), expected);
    }
    assert!(CartridgeType::Mbc2.is_mbc2());
    assert!(CartridgeType::Mbc2Battery.is_mbc2());
    assert!(!CartridgeType::Mbc1.is_mbc2());
}

#[test]
fn a_header_is_parsed() {
    let rom = Rom::from_bytes(image()).unwrap();
    let header = rom.header();
    assert_eq!(header.title, "TETRIS");
    assert_eq!(header.manufacturer_code, Some(String::from("\0\0\0\0")));
    assert_eq!(header.cgb_flag, None);
    assert_eq!(header.new_licensee_code, "\0\0");
    assert_eq!(header.sgb_flag, SGBFlag::NotSupported);
    assert_eq!(header.cartridge_type, CartridgeType::RomOnly);
    assert_eq!(header.rom_size, RomSize::Kb32);
    assert_eq!(header.ram_size, RamSize::NoRam);
    assert_eq!(header.destination_code, DestinationCode::NonJapanese);
    assert_eq!(header.old_licensee_code, 0x01);
    assert_eq!(header.rom_version, 0x02);
    assert_eq!(header.header_checksum, 0x0A);
    assert_eq!(header.global_checksum, 0x16BF);
    assert_eq!(rom.bytes(), &image());
    assert_eq!(rom.into_memory().data, image());
}

#[test]
fn the_text_fields_of_a_header() {
    let mut data = image();
    data[0x0134..0x0143].copy_from_slice(b"POKEMON\0YELLOW\0");
    data[0x0143] = 0xC0;
    data[0x0144] = b'0';
    data[0x0145] = b'1';
    data[0x0146] = 0x03;
    let header = Rom::extract_header(&Memory { data: data.clone() }).unwrap();
    assert_eq!(header.title, "POKEMON\0YELLOW");
    assert_eq!(header.manufacturer_code, Some(String::from("LOW\0")));
    assert_eq!(header.cgb_flag, Some(CGBFlag::Required));
    assert_eq!(header.new_licensee_code, "01");
    assert_eq!(header.sgb_flag, SGBFlag::Supported);

    data[0x0134..0x0143].copy_from_slice(b"ABCDEFGHIJKLMNO");
    data[0x0143] = 0x80;
    let header = Rom::extract_header(&Memory { data: data.clone() }).unwrap();
    assert_eq!(header.title, "ABCDEFGHIJKLMNO");
    assert_eq!(header.manufacturer_code, Some(String::from("LMNO")));
    assert_eq!(header.cgb_flag, Some(CGBFlag::Supported));

    data[0x0134..0x0143].copy_from_slice(&[0u8; 15]);
    data[0x0134] = b'A';
    data[0x0135] = 0xFF;
    data[0x0142] = 0x80;
    data[0x0144] = 0xFF;
    let header = Rom::extract_header(&Memory { data }).unwrap();
    assert_eq!(header.title, "A\u{FFFD}\0\0\0\0\0\0\0\0\0\0\0\0\u{FFFD}");
    assert_eq!(header.manufacturer_code, None);
    assert_eq!(header.new_licensee_code, "");
}

#[test]
fn an_empty_title() {
    let mut data = image();
    data[0x0134..0x0143].copy_from_slice(&[0u8; 15]);
    let header = Rom::extract_header(&Memory { data }).unwrap();
    assert_eq!(header.title, "");
}

fn error_of(data: Vec<u8>) -> Option<HeaderError> {
    Rom::from_bytes(data).err()
}

#[test]
fn images_are_rejected_for_the_first_check_that_fails() {
    assert_eq!(error_of(image()), None);
    assert_eq!(error_of(vec![]), Some(HeaderError::TooShort));
    assert_eq!(error_of(vec![0; HEADER_END - 1]), Some(HeaderError::TooShort));
    assert_eq!(error_of(image()[..HEADER_END].to_vec()), None);

    let mut data = image();
    data[0x0146] = 0x01;
    assert_eq!(error_of(data.clone()), Some(HeaderError::SgbFlag));
    data[0x0147] = 0x04;
    assert_eq!(error_of(data.clone()), Some(HeaderError::SgbFlag));

    let mut data = image();
    data[0x0147] = 0x04;
    data[0x0148] = 0x08;
    assert_eq!(error_of(data), Some(HeaderError::CartridgeType));

    let mut data = image();
    data[0x0148] = 0x08;
    data[0x0149] = 0x04;
    assert_eq!(error_of(data), Some(HeaderError::RomSize));

    let mut data = image();
    data[0x0149] = 0x04;
    data[0x014A] = 0x02;
    assert_eq!(error_of(data), Some(HeaderError::RamSize));

    let mut data = image();
    data[0x014A] = 0x02;
    assert_eq!(error_of(data), Some(HeaderError::DestinationCode));
}

#[test]
fn mbc2_takes_no_external_ram() {
    for cartridge_type in [0x05u8, 0x06] {
        let mut data = image();
        data[0x0147] = cartridge_type;
        assert_eq!(error_of(data.clone()), None);
        for ram in [0x01u8, 0x02, 0x03] {
            data[0x0149] = ram;
            data[0x014A] = 0x02;
            assert_eq!(error_of(data.clone()), Some(HeaderError::Mbc2WithRam));
        }
    }
    let mut data = image();
    data[0x0147] = 0x01;
    data[0x0149] = 0x03;
    assert_eq!(error_of(data), None);
}

#[test]
fn the_logo_is_checked() {
    assert!(Rom::from_bytes(image()).unwrap().validate());
    for at in [0x0104usize, 0x0120, 0x0133] {
        let mut data = image();
        data[at] ^= 0x01;
        assert!(!Rom::from_bytes(data).unwrap().validate());
    }
    for at in [0x0103usize, 0x0134] {
        let mut data = image();
        data[at] ^= 0x01;
        assert!(Rom::from_bytes(data).unwrap().validate());
    }
    assert_eq!(NINTENDO_LOGO[0], 0xCE);
    assert_eq!(NINTENDO_LOGO[47], 0x3E);
}

#[test]
fn the_report_on_a_header() {
    let mut data = image();
    data[0x013F..0x0143].copy_from_slice(b"ABCD");
    data[0x0143] = 0x80;
    data[0x0144] = b'0';
    data[0x0145] = b'1';
    data[0x0147] = 0x13;
    data[0x0148] = 0x52;
    data[0x0149] = 0x03;
    data[0x014B] = 0x33;
    data[0x014C] = 200;
    let rom = Rom::from_bytes(data).unwrap();
    let expected = vec![
        "ROM Header Information:",
        "-----------------------",
        "Title: TETRIS\0\0\0\0\0ABCD",
        "Manufacturer Code: ABCD",
        "CGB Support: Some(Supported)",
        "New Licensee Code: 01",
        "SGB Support: NotSupported",
        "Cartridge Type: Mbc3RamBattery",
        "ROM Size: Mb1_1",
        "RAM Size: Kb32",
        "Destination Code: NonJapanese",
        "Old Licensee Code: 51",
        "ROM Version: 200",
        "Header Checksum: 0A",
        "Global Checksum: 16BF",
    ];
    assert_eq!(rom.header().print_info(), expected);
    let mut all = vec!["ROM Information:", "----------------"];
    all.extend(expected);
    all.push("----------------");
    assert_eq!(rom.print_info(), all);
}

#[test]
fn the_report_leaves_out_a_missing_manufacturer_code() {
    let mut data = image();
    data[0x0140] = 0xFF;
    let lines = Rom::from_bytes(data).unwrap().header().print_info();
    assert_eq!(lines.len(), 14);
    assert_eq!(lines[2], "Title: TETRIS\0\0\0\0\0\0\u{FFFD}");
    assert_eq!(lines[3], "CGB Support: None");
    assert_eq!(lines[8], "RAM Size: None");
    assert_eq!(lines[10], "Old Licensee Code: 1");
}

#[test]
fn numbers_as_text() {
    let decimal = |n: u8| {
        let mut text = String::from("n=");
        append_decimal(&mut text, n);
        text
    };
    for n in 0..=255u8 {
        assert_eq!(decimal(n), format!("n={}", n));
    }
    let mut text = String::new();
    append_hex8(&mut text, 0x0A);
    append_hex8(&mut text, 0xF0);
    append_hex16(&mut text, 0x01BC);
    assert_eq!(text, "0AF001BC");
    for n in 0..=255u8 {
        let mut text = String::new();
        append_hex8(&mut text, n);
        assert_eq!(text, format!("{:02X}", n));
    }
    assert_eq!(digit_str(0), "0");
    assert_eq!(digit_str(9), "9");
    assert_eq!(digit_str(10), "A");
    assert_eq!(digit_str(15), "F");
    assert_eq!(labelled("Title: ", "X"), "Title: X");
}

#[test]
fn names_of_header_values() {
    assert_eq!(CGBFlag::Required.name(), "Required");
    assert_eq!(SGBFlag::Supported.name(), "Supported");
    assert_eq!(CartridgeType::PocketCamera.name(), "PocketCamera");
    assert_eq!(RomSize::Kb512.name(), "Kb512");
    assert_eq!(RamSize::NoRam.name(), "None");
    assert_eq!(DestinationCode::Japanese.name(), "Japanese");
}

#[test]
fn an_image_is_run_only_with_a_header_and_the_logo() {
    assert!(Rom::from_image(image()).is_ok());
    let mut data = image();
    data[0x0110] = 0xFF;
    assert_eq!(Rom::from_image(data.clone()).err(), Some(RomError::InvalidLogo));
    data[0x0147] = 0x04;
    assert_eq!(
        Rom::from_image(data).err(),
        Some(RomError::InvalidHeader(HeaderError::CartridgeType))
    );
    assert_eq!(
        Rom::from_image(vec![0; 16]).err(),
        Some(RomError::InvalidHeader(HeaderError::TooShort))
    );
}
