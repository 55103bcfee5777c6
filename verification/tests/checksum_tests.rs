use cartridge_header::errors::HeaderError;
use cartridge_header::header::{
    compute_global_checksum, compute_header_checksum, validate_global_checksum,
    validate_header_checksum,
};

#[test]
fn header_checksum_of_all_zero_region() {
    let rom = vec![0u8; 0x0150];
    // 25 steps of subtracting 0 and 1 from 0: -25 mod 256.
    assert_eq!(compute_header_checksum(&rom), 0xE7);
}

#[test]
fn header_checksum_of_counting_region() {
    let mut rom = vec![0u8; 0x0150];
    for i in 0..25usize {
        rom[0x0134 + i] = (i + 1) as u8;
    }
    // Subtracts (1 + 2 + ... + 25) and 25 more from 0: -350 mod 256.
    assert_eq!(compute_header_checksum(&rom), 162);
}

#[test]
fn header_checksum_validation() {
    let mut rom = vec![0u8; 0x0150];
    rom[0x014D] = 0xE7;
    assert!(validate_header_checksum(&rom).is_ok());
    rom[0x014D] = 0xE8;
    match validate_header_checksum(&rom) {
        Err(HeaderError::HeaderChecksumMismatch) => {}
        _ => panic!("a wrong stored header checksum must be reported"),
    }
}

#[test]
fn global_checksum_of_blank_rom() {
    let rom = vec![0u8; 0x0150];
    assert_eq!(compute_global_checksum(&rom), 0);
    assert!(validate_global_checksum(&rom).is_ok());
}

#[test]
fn global_checksum_skips_its_own_bytes() {
    let mut rom = vec![0u8; 0x0150];
    rom[0x0000] = 0x05;
    rom[0x014E] = 0x00;
    rom[0x014F] = 0x05;
    // The stored bytes do not count towards the sum.
    assert_eq!(compute_global_checksum(&rom), 0x0005);
    assert!(validate_global_checksum(&rom).is_ok());
}

#[test]
fn global_checksum_wraps_at_16_bits() {
    let mut rom = vec![0xFFu8; 0x0150];
    // 0x14E bytes of 0xFF: 255 * 334 = 85170 = 0x14CB2, wrapped to 0x4CB2.
    assert_eq!(compute_global_checksum(&rom), 0x4CB2);
    match validate_global_checksum(&rom) {
        Err(HeaderError::GlobalChecksumMismatch) => {}
        _ => panic!("a wrong stored global checksum must be reported"),
    }
    rom[0x014E] = 0x4C;
    rom[0x014F] = 0xB2;
    assert!(validate_global_checksum(&rom).is_ok());
}

#[test]
fn global_checksum_covers_the_whole_image() {
    let mut rom = vec![0u8; 0x0400];
    rom[0x03FF] = 0x10;
    rom[0x0200] = 0x02;
    assert_eq!(compute_global_checksum(&rom), 0x0012);
}
