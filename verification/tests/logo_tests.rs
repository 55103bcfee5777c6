use cartridge_header::errors::HeaderError;
use cartridge_header::header::{canonical_logo_bytes, CartdrigeHeader};
use cartridge_header::hexfmt::{bytes_to_hex, hex_to_bytes};

const CANONICAL_LOGO_HEX: &str = "CE ED 66 66 CC 0D 00 0B 03 73 00 83 00 0C 00 0D 00 08 11 1F 88 89 00 0E DC CC 6E E6 DD DD D9 99 BB BB 67 63 6E 0E EC CC DD DC 99 9F BB B9 33 3E";

fn rom_with_canonical_logo() -> Vec<u8> {
    let mut rom = vec![0u8; 0x0150];
    rom[0x0104..0x0134].copy_from_slice(&canonical_logo_bytes());
    rom
}

#[test]
fn canonical_logo_passes_validation() {
    let rom = rom_with_canonical_logo();
    let header = CartdrigeHeader::decode(&rom).unwrap();
    assert!(header.is_valid().is_ok());
    assert_eq!(header.logo_hex().as_str(), CANONICAL_LOGO_HEX);
}

#[test]
fn any_single_bit_flip_fails_validation() {
    for byte in 0..48usize {
        for bit in 0..8u8 {
            let mut rom = rom_with_canonical_logo();
            rom[0x0104 + byte] ^= 1 << bit;
            let header = CartdrigeHeader::decode(&rom).unwrap();
            match header.is_valid() {
                Err(HeaderError::LogoMismatch) => {}
                _ => panic!("flipping bit {} of logo byte {} must fail", bit, byte),
            }
        }
    }
}

#[test]
fn blank_logo_fails_validation() {
    let rom = vec![0u8; 0x0150];
    let header = CartdrigeHeader::decode(&rom).unwrap();
    match header.is_valid() {
        Err(HeaderError::LogoMismatch) => {}
        _ => panic!("an all-zero logo region must fail validation"),
    }
}

#[test]
fn logo_hex_round_trips() {
    let mut rom = vec![0u8; 0x0150];
    for i in 0..48usize {
        rom[0x0104 + i] = (i * 5 + 1) as u8;
    }
    let header = CartdrigeHeader::decode(&rom).unwrap();
    let text = header.logo_hex();
    let parsed = hex_to_bytes(text.as_str()).unwrap();
    assert_eq!(parsed.as_slice(), &rom[0x0104..0x0134]);
}

#[test]
fn canonical_hex_text_round_trips() {
    let parsed = hex_to_bytes(CANONICAL_LOGO_HEX).unwrap();
    assert_eq!(parsed, canonical_logo_bytes());
    assert_eq!(bytes_to_hex(&parsed).as_str(), CANONICAL_LOGO_HEX);
}

#[test]
fn hex_rendering_of_small_inputs() {
    assert_eq!(bytes_to_hex(&[]).as_str(), "");
    assert_eq!(bytes_to_hex(&[0x00]).as_str(), "00");
    assert_eq!(bytes_to_hex(&[0xAB, 0x09]).as_str(), "AB 09");
    assert_eq!(bytes_to_hex(&[0xFF, 0x00, 0x10]).as_str(), "FF 00 10");
}

#[test]
fn hex_parsing_of_small_inputs() {
    assert_eq!(hex_to_bytes(""), Some(Vec::new()));
    assert_eq!(hex_to_bytes("00"), Some(vec![0x00]));
    assert_eq!(hex_to_bytes("AB 09"), Some(vec![0xAB, 0x09]));
    assert_eq!(hex_to_bytes("FF 00 10"), Some(vec![0xFF, 0x00, 0x10]));
}

#[test]
fn hex_parsing_rejects_malformed_text() {
    assert_eq!(hex_to_bytes("0"), None);
    assert_eq!(hex_to_bytes("0G"), None);
    assert_eq!(hex_to_bytes("ab"), None);
    assert_eq!(hex_to_bytes("AB "), None);
    assert_eq!(hex_to_bytes("AB C"), None);
    assert_eq!(hex_to_bytes("AB  CD"), None);
    assert_eq!(hex_to_bytes("AB-CD"), None);
    assert_eq!(hex_to_bytes(" AB"), None);
}
