use cartridge_header::memory::Memory;

#[test]
fn memory_copies_rom_to_the_bottom() {
    let rom: Vec<u8> = vec![0x11, 0x22, 0x33];
    let memory = Memory::new(&rom);
    assert_eq!(memory.data[0], 0x11);
    assert_eq!(memory.data[1], 0x22);
    assert_eq!(memory.data[2], 0x33);
    assert_eq!(memory.data[3], 0x00);
    assert_eq!(memory.data[0xFFFF], 0x00);
}

#[test]
fn memory_accepts_a_full_image() {
    let rom = vec![0xABu8; 0x10000];
    let memory = Memory::new(&rom);
    assert_eq!(memory.data[0], 0xAB);
    assert_eq!(memory.data[0xFFFF], 0xAB);
}

#[test]
fn memory_of_empty_rom_is_all_zero() {
    let rom: Vec<u8> = Vec::new();
    let memory = Memory::new(&rom);
    assert_eq!(memory.data[0], 0x00);
    assert_eq!(memory.data[0xFFFF], 0x00);
}
