use chip8_emu::cartridge::Cartridge;
use chip8_emu::error::Chip8Error;

#[test]
fn a_loaded_image_holds_fonts_then_program() {
    let fonts = [0xf0, 0x90, 0x90, 0x90, 0xf0];
    let program = [0x12, 0x34, 0x56];
    let cartridge = Cartridge::new(&fonts, &program);
    assert_eq!(cartridge.start(), 0x200);
    assert_eq!(cartridge.len(), 0x203);
    assert_eq!(cartridge.get_memory(0), Ok(0xf0));
    assert_eq!(cartridge.get_memory(1), Ok(0x90));
    assert_eq!(cartridge.get_memory(4), Ok(0xf0));
    assert_eq!(cartridge.get_memory(5), Ok(0));
    assert_eq!(cartridge.get_memory(0x1ff), Ok(0));
    assert_eq!(cartridge.get_memory(0x200), Ok(0x12));
    assert_eq!(cartridge.get_memory(0x202), Ok(0x56));
}

#[test]
fn an_empty_program_leaves_only_the_font_area() {
    let cartridge = Cartridge::new(&[], &[]);
    assert_eq!(cartridge.len(), 0x200);
    assert_eq!(cartridge.get_memory(0x1ff), Ok(0));
    assert_eq!(cartridge.get_memory(0x200), Err(Chip8Error::AddressOutOfBounds(0x200)));
    assert_eq!(cartridge.get_opcode_from(0x200), Err(Chip8Error::AddressOutOfBounds(0x200)));
}

#[test]
fn fonts_beyond_the_font_area_are_left_out() {
    let fonts = vec![0xaa; 0x300];
    let program = [1, 2];
    let cartridge = Cartridge::new(&fonts, &program);
    assert_eq!(cartridge.get_memory(0x1ff), Ok(0xaa));
    assert_eq!(cartridge.get_memory(0x200), Ok(1));
    assert_eq!(cartridge.get_memory(0x201), Ok(2));
    assert_eq!(cartridge.memory[0x202], 0);
}

#[test]
fn a_program_beyond_the_last_cell_is_cut() {
    let program = vec![0x77; 0x1000];
    let cartridge = Cartridge::new(&[], &program);
    assert_eq!(cartridge.len(), 0x1000);
    assert_eq!(cartridge.get_memory(0xfff), Ok(0x77));
    assert_eq!(cartridge.get_memory(0x1000), Err(Chip8Error::AddressOutOfBounds(0x1000)));
}

#[test]
fn reads_beyond_the_end_fail() {
    let cartridge = Cartridge::new(&[], &[1, 2, 3, 4]);
    assert_eq!(cartridge.get_memory(0x203), Ok(4));
    assert_eq!(cartridge.get_memory(0x204), Err(Chip8Error::AddressOutOfBounds(0x204)));
    assert_eq!(cartridge.get_memory(0xffff), Err(Chip8Error::AddressOutOfBounds(0xffff)));
}

#[test]
fn writes_are_bounds_checked() {
    let mut cartridge = Cartridge::new(&[], &[1, 2, 3, 4]);
    assert_eq!(cartridge.set_memory(0x203, 9), Ok(()));
    assert_eq!(cartridge.get_memory(0x203), Ok(9));
    assert_eq!(cartridge.set_memory(0x10, 8), Ok(()));
    assert_eq!(cartridge.get_memory(0x10), Ok(8));
    assert_eq!(cartridge.set_memory(0x204, 7), Err(Chip8Error::AddressOutOfBounds(0x204)));
    assert_eq!(cartridge.memory[0x204], 0);
    assert_eq!(cartridge.len(), 0x204);
}

#[test]
fn opcodes_are_big_endian() {
    let cartridge = Cartridge::new(&[], &[0x6a, 0x3b, 0x80, 0x01]);
    assert_eq!(cartridge.get_opcode_from(0x200), Ok(0x6a3b));
    assert_eq!(cartridge.get_opcode_from(0x201), Ok(0x3b80));
    assert_eq!(cartridge.get_opcode_from(0x202), Ok(0x8001));
}

#[test]
fn a_fetch_needs_both_bytes_below_the_end() {
    let cartridge = Cartridge::new(&[], &[0x6a, 0x3b, 0x80, 0x01]);
    assert_eq!(cartridge.get_opcode_from(0x203), Err(Chip8Error::AddressOutOfBounds(0x203)));
    assert_eq!(cartridge.get_opcode_from(0x204), Err(Chip8Error::AddressOutOfBounds(0x204)));
    assert_eq!(cartridge.get_opcode_from(0xffff), Err(Chip8Error::AddressOutOfBounds(0xffff)));
}

#[test]
fn a_block_is_borrowed_whole_or_not_at_all() {
    let cartridge = Cartridge::new(&[], &[1, 2, 3, 4]);
    assert_eq!(cartridge.block(0x201, 3), Ok(&[2u8, 3, 4][..]));
    assert_eq!(cartridge.block(0x204, 0), Ok(&[][..]));
    assert_eq!(cartridge.block(0xffff, 0), Ok(&[][..]));
    assert_eq!(cartridge.block(0x202, 3), Err(Chip8Error::AddressOutOfBounds(0x204)));
    assert_eq!(cartridge.block(0x300, 1), Err(Chip8Error::AddressOutOfBounds(0x300)));
    assert_eq!(cartridge.check_range(0x200, 4), None);
    assert_eq!(cartridge.check_range(0x200, 5), Some(Chip8Error::AddressOutOfBounds(0x204)));
    assert_eq!(cartridge.check_range(0xffff, 0xffff), Some(Chip8Error::AddressOutOfBounds(0xffff)));
}
