use cartridge_header::errors::HeaderError;
use cartridge_header::header::CartdrigeHeader;

fn blank_rom() -> Vec<u8> {
    vec![0u8; 0x0150]
}

#[test]
fn decode_rejects_short_buffer() {
    let rom = vec![0u8; 0x014F];
    match CartdrigeHeader::decode(&rom) {
        Err(HeaderError::TruncatedInput) => {}
        _ => panic!("a buffer one byte short must be rejected as truncated"),
    }
    let empty: Vec<u8> = Vec::new();
    match CartdrigeHeader::decode(&empty) {
        Err(HeaderError::TruncatedInput) => {}
        _ => panic!("an empty buffer must be rejected as truncated"),
    }
}

#[test]
fn decode_accepts_all_zero_buffer() {
    let rom = blank_rom();
    let header = CartdrigeHeader::decode(&rom).unwrap();
    assert_eq!(header.old_licensee_code, 0x00);
    assert_eq!(header.version_number, 0x00);
    assert_eq!(header.global_checksum, 0x0000);
}

#[test]
fn decode_accepts_all_ff_buffer() {
    let rom = vec![0xFFu8; 0x0150];
    let header = CartdrigeHeader::decode(&rom).unwrap();
    assert_eq!(header.old_licensee_code, 0xFF);
    assert_eq!(header.licensee.as_str(), "LJN");
    assert_eq!(header.global_checksum, 0xFFFF);
}

#[test]
fn decode_accepts_oversized_buffer() {
    let rom = vec![0u8; 0x8000];
    assert!(CartdrigeHeader::decode(&rom).is_ok());
}

#[test]
fn decode_is_deterministic() {
    let mut rom = blank_rom();
    for (i, b) in rom.iter_mut().enumerate() {
        *b = (i * 7 + 3) as u8;
    }
    let h1 = CartdrigeHeader::decode(&rom).unwrap();
    let h2 = CartdrigeHeader::decode(&rom).unwrap();
    assert_eq!(h1.entry_point, h2.entry_point);
    assert_eq!(h1.nintendo_logo, h2.nintendo_logo);
    assert_eq!(h1.title, h2.title);
    assert_eq!(h1.manufacturer_code, h2.manufacturer_code);
    assert_eq!(h1.cgb_flag, h2.cgb_flag);
    assert_eq!(h1.licensee, h2.licensee);
    assert_eq!(h1.sgb_flag, h2.sgb_flag);
    assert_eq!(h1.new_licensee_code, h2.new_licensee_code);
    assert_eq!(h1.old_licensee_code, h2.old_licensee_code);
    assert_eq!(h1.cartridge_type, h2.cartridge_type);
    assert_eq!(h1.rom_size, h2.rom_size);
    assert_eq!(h1.ram_size, h2.ram_size);
    assert_eq!(h1.destination_code, h2.destination_code);
    assert_eq!(h1.version_number, h2.version_number);
    assert_eq!(h1.header_checksum, h2.header_checksum);
    assert_eq!(h1.global_checksum, h2.global_checksum);
}

#[test]
fn entry_point_and_raw_fields_are_copied() {
    let mut rom = blank_rom();
    rom[0x0100] = 0x00;
    rom[0x0101] = 0xC3;
    rom[0x0102] = 0x50;
    rom[0x0103] = 0x01;
    rom[0x0147] = 0x1B;
    rom[0x0148] = 0x05;
    rom[0x0149] = 0x03;
    rom[0x014C] = 0x02;
    rom[0x014D] = 0x66;
    rom[0x014E] = 0x12;
    rom[0x014F] = 0x34;
    let header = CartdrigeHeader::decode(&rom).unwrap();
    assert_eq!(header.entry_point, [0x00, 0xC3, 0x50, 0x01]);
    assert_eq!(header.cartridge_type, 0x1B);
    assert_eq!(header.rom_size, 0x05);
    assert_eq!(header.ram_size, 0x03);
    assert_eq!(header.version_number, 0x02);
    assert_eq!(header.header_checksum, 0x66);
    assert_eq!(header.global_checksum, 0x1234);
}

#[test]
fn title_is_decoded_from_its_region() {
    let mut rom = blank_rom();
    rom[0x0134..0x0144].copy_from_slice(b"ABCDEFGHIJKLMNOP");
    let header = CartdrigeHeader::decode(&rom).unwrap();
    assert_eq!(header.title.as_str(), "ABCDEFGHIJKLMNOP");
    assert_eq!(header.manufacturer_code.as_str(), "LMNO");
}

#[test]
fn title_decoding_is_lossy_not_failing() {
    let mut rom = blank_rom();
    rom[0x0134] = 0x41;
    rom[0x0135] = 0xFF;
    rom[0x0136] = 0x42;
    let header = CartdrigeHeader::decode(&rom).unwrap();
    let expected = "A\u{FFFD}B\0\0\0\0\0\0\0\0\0\0\0\0\0";
    assert_eq!(header.title.as_str(), expected);
}

#[test]
fn cgb_flag_labels() {
    let mut rom = blank_rom();
    rom[0x0143] = 0x80;
    let header = CartdrigeHeader::decode(&rom).unwrap();
    assert_eq!(
        header.cgb_flag.as_str(),
        "The game supports CGB enhancements, but is backwards compatible with monochrome Game Boys"
    );
    rom[0x0143] = 0xC0;
    let header = CartdrigeHeader::decode(&rom).unwrap();
    assert_eq!(header.cgb_flag.as_str(), "The game works on CGB only");
    rom[0x0143] = 0x00;
    let header = CartdrigeHeader::decode(&rom).unwrap();
    assert_eq!(header.cgb_flag.as_str(), "No flags");
    rom[0x0143] = 0x42;
    let header = CartdrigeHeader::decode(&rom).unwrap();
    assert_eq!(header.cgb_flag.as_str(), "No flags");
}

#[test]
fn sgb_flag_labels() {
    let mut rom = blank_rom();
    rom[0x0146] = 0x03;
    let header = CartdrigeHeader::decode(&rom).unwrap();
    assert_eq!(header.sgb_flag.as_str(), "Support SGB functions");
    rom[0x0146] = 0x00;
    let header = CartdrigeHeader::decode(&rom).unwrap();
    assert_eq!(header.sgb_flag.as_str(), "Does not support SGB functions");
}

#[test]
fn destination_labels() {
    let mut rom = blank_rom();
    let header = CartdrigeHeader::decode(&rom).unwrap();
    assert_eq!(
        header.destination_code.as_str(),
        "Japan (and possibly overseas)"
    );
    rom[0x014A] = 0x01;
    let header = CartdrigeHeader::decode(&rom).unwrap();
    assert_eq!(header.destination_code.as_str(), "Overseas only");
    rom[0x014A] = 0x05;
    let header = CartdrigeHeader::decode(&rom).unwrap();
    assert_eq!(header.destination_code.as_str(), "Unknown");
}

#[test]
fn licensee_old_code_resolves() {
    let mut rom = blank_rom();
    rom[0x014B] = 0x01;
    let header = CartdrigeHeader::decode(&rom).unwrap();
    assert_eq!(header.licensee.as_str(), "Nintendo");
}

#[test]
fn licensee_sentinel_uses_new_table() {
    let mut rom = blank_rom();
    rom[0x014B] = 0x33;
    rom[0x0144] = b'0';
    rom[0x0145] = b'1';
    let header = CartdrigeHeader::decode(&rom).unwrap();
    assert_eq!(
        header.licensee.as_str(),
        "Nintendo Research & Development 1"
    );
    assert_eq!(header.new_licensee_code.as_str(), "01");
    assert_eq!(header.old_licensee_code, 0x33);
}

#[test]
fn licensee_unknown_codes_resolve_to_unknown() {
    let mut rom = blank_rom();
    rom[0x014B] = 0xFE;
    let header = CartdrigeHeader::decode(&rom).unwrap();
    assert_eq!(header.licensee.as_str(), "Unknown");

    rom[0x014B] = 0x33;
    rom[0x0144] = b'Z';
    rom[0x0145] = b'Z';
    let header = CartdrigeHeader::decode(&rom).unwrap();
    assert_eq!(header.licensee.as_str(), "Unknown");

    rom[0x0144] = 0xC3;
    rom[0x0145] = 0xA9;
    let header = CartdrigeHeader::decode(&rom).unwrap();
    assert_eq!(header.licensee.as_str(), "Unknown");
}

#[test]
fn licensee_two_character_codes_resolve() {
    let mut rom = blank_rom();
    rom[0x014B] = 0x33;
    rom[0x0144] = b'9';
    rom[0x0145] = b'H';
    let header = CartdrigeHeader::decode(&rom).unwrap();
    assert_eq!(header.licensee.as_str(), "Bottom Up");
    rom[0x0144] = b'A';
    rom[0x0145] = b'4';
    let header = CartdrigeHeader::decode(&rom).unwrap();
    assert_eq!(header.licensee.as_str(), "Konami (Yu-Gi-Oh!)");
}
