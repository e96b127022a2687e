use chip8_emu::cartridge::Cartridge;
use chip8_emu::display::{Position, TermDisplay};
use chip8_emu::error::Chip8Error;
use chip8_emu::instruction::{from_opcode, Instruction, Operation, Varset};
use chip8_emu::state::Chip8State;
use chip8_emu::text::{hex_digit, push_decimal, push_hex, push_prefixed_hex};

fn hex(n: u16, width: u8, upper: bool) -> String {
    let mut s = String::new();
    push_hex(&mut s, n, width, upper);
    s
}

fn decimal(n: u16) -> String {
    let mut s = String::from("n=");
    push_decimal(&mut s, n);
    s
}

#[test]
fn hex_digits_in_both_cases() {
    assert_eq!(hex_digit(0, false), "0");
    assert_eq!(hex_digit(9, true), "9");
    assert_eq!(hex_digit(10, false), "a");
    assert_eq!(hex_digit(10, true), "A");
    assert_eq!(hex_digit(15, false), "f");
    assert_eq!(hex_digit(15, true), "F");
}

#[test]
fn hex_is_padded_to_the_width_and_never_cut() {
    assert_eq!(hex(0, 0, false), "0");
    assert_eq!(hex(0, 1, false), "0");
    assert_eq!(hex(0, 3, false), "000");
    assert_eq!(hex(0x2f0, 3, false), "2f0");
    assert_eq!(hex(0x1234, 3, false), "1234");
    assert_eq!(hex(0xab, 1, true), "AB");
    assert_eq!(hex(0xffff, 4, false), "ffff");
    assert_eq!(hex(0x0f, 4, true), "000F");
    for n in [0u16, 1, 15, 16, 255, 256, 4095, 4096, 65535] {
        assert_eq!(hex(n, 3, false), format!("{:03x}", n));
        assert_eq!(hex(n, 1, true), format!("{:X}", n));
    }
}

#[test]
fn prefixed_hex_matches_the_alternate_form() {
    for n in [0u16, 0x3b, 0x200, 0xfff, 0x1000, 0xffff] {
        let mut s = String::new();
        push_prefixed_hex(&mut s, n, 3);
        assert_eq!(s, format!("{:#05x}", n));
        let mut s = String::new();
        push_prefixed_hex(&mut s, n, 4);
        assert_eq!(s, format!("{:#06x}", n));
    }
}

#[test]
fn decimal_is_appended_without_padding() {
    assert_eq!(decimal(0), "n=0");
    assert_eq!(decimal(9), "n=9");
    assert_eq!(decimal(10), "n=10");
    assert_eq!(decimal(255), "n=255");
    assert_eq!(decimal(4095), "n=4095");
    assert_eq!(decimal(65535), "n=65535");
}

#[test]
fn operand_references_read_as_in_a_listing() {
    assert_eq!(Varset::V(0).to_string(), "V0");
    assert_eq!(Varset::V(10).to_string(), "VA");
    assert_eq!(Varset::V(15).to_string(), "VF");
    assert_eq!(Varset::V(0x1c).to_string(), "V1C");
    assert_eq!(Varset::Keyboard.to_string(), "Keyboard");
    assert_eq!(Varset::DelayTimer.to_string(), "DelayTimer");
    assert_eq!(Varset::SoundTimer.to_string(), "SoundTimer");
}

fn words(opcode: u16) -> String {
    from_opcode(opcode).unwrap().to_string()
}

#[test]
fn instructions_read_as_in_a_listing() {
    assert_eq!(words(0x0123), "RCA routine 0x123");
    assert_eq!(words(0x00e0), "clear display");
    assert_eq!(words(0x00ee), "return from subroutine");
    assert_eq!(words(0x12f0), "goto address 0x2f0");
    assert_eq!(words(0x2300), "run subroutine at 0x300");
    assert_eq!(words(0x3a10), "if (VA == 0x10) skip next");
    assert_eq!(words(0x4b07), "if (VB != 0x07) skip next");
    assert_eq!(words(0x6a3b), "set VA to 0x3b");
    assert_eq!(words(0x7c01), "increment VC by 0x01 ignoring carry");
    assert_eq!(words(0x9120), "if (V1 != V2) skip next");
    assert_eq!(words(0xa123), "set I to 291");
    assert_eq!(words(0xc50f), "randomize V5 using 0x0f");
    assert_eq!(words(0xd12f), "draw sprite at V1,V2 with height 15");
    assert_eq!(words(0xe39e), "if (V3 == Keyboard) skip next");
    assert_eq!(words(0xe4a1), "if (V4 != Keyboard) skip next");
}

#[test]
fn arithmetic_instructions_read_as_in_a_listing() {
    assert_eq!(words(0x8120), "set V1 to V2");
    assert_eq!(words(0x8121), "bitwise Or on V1 using V2 as second input");
    assert_eq!(words(0x8122), "bitwise And on V1 using V2 as second input");
    assert_eq!(words(0x8123), "bitwise XOr on V1 using V2 as second input");
    assert_eq!(words(0x8ab4), "increment VA by VB using carry");
    assert_eq!(words(0x8125), "decrement V1 by V2 using borrow");
    assert_eq!(words(0x8126), "bitshift V1 and store carry on V2");
    assert_eq!(words(0x8127), "decrement V1 by V2 ignoring carry, then flip its sign");
}

#[test]
fn special_instructions_read_as_in_a_listing() {
    assert_eq!(words(0xf707), "set V7 to DelayTimer");
    assert_eq!(words(0xf715), "set DelayTimer to V7");
    assert_eq!(words(0xf718), "set SoundTimer to V7");
    assert_eq!(words(0xf71e), "increment I by V7");
    assert_eq!(words(0xf729), "set I to address for sprite V7");
    assert_eq!(words(0xf733), "store V7 at decimal starting from memory position I");
    assert_eq!(words(0xf755), "dump V0--V7 to memory position I");
    assert_eq!(words(0xf765), "load V0--V7 from memory position I");
}

#[test]
fn shapes_without_a_decoder_form_still_read() {
    let x = Varset::V(1);
    let y = Varset::V(2);
    assert_eq!(
        Instruction::VariableOnVariable(x, y, Operation::IncrementNoCarry).to_string(),
        "increment V1 by V2 ignoring carry"
    );
    assert_eq!(
        Instruction::VariableOnVariable(x, y, Operation::Randomize).to_string(),
        "randomize V1 using V2"
    );
    assert_eq!(
        Instruction::VariableOnVariable(x, y, Operation::SpriteMultiply).to_string(),
        "display of operation not supported"
    );
    assert_eq!(
        Instruction::VariableOnValue(x, 1, Operation::BitOr).to_string(),
        "display of operation not supported"
    );
    assert_eq!(
        Instruction::IOnVariable(x, Operation::Assign).to_string(),
        "display of operation not supported"
    );
}

#[test]
fn failures_read_with_their_opcode_or_address() {
    assert_eq!(Chip8Error::InvalidOpcode(0x5120).to_string(), "opcode 0x5120 not implemented");
    assert_eq!(
        Chip8Error::UnimplementedOpcode(0x812f).to_string(),
        "opcode 0x812f not implemented in its family"
    );
    assert_eq!(Chip8Error::AddressOutOfBounds(0x204).to_string(), "address 0x0204 out of bounds");
    assert_eq!(Chip8Error::StackUnderflow.to_string(), "return with an empty call stack");
    assert_eq!(
        Chip8Error::ReservedOperandMisuse(0xff1e).to_string(),
        "opcode 0xff1e: vf not allowed here"
    );
}

#[test]
fn the_display_reads_as_rows_of_blocks() {
    let mut display = TermDisplay::new();
    let dark = display.to_string();
    assert_eq!(dark, format!("{}\n", format!("{}\n", " ".repeat(128)).repeat(32)));
    display.set_pixel(Position { x: 0, y: 0 }, true);
    display.set_pixel(Position { x: 63, y: 1 }, true);
    let text = display.to_string();
    let lines: Vec<&str> = text.split('\n').collect();
    assert_eq!(lines.len(), 34);
    assert_eq!(lines[0], format!("██{}", " ".repeat(126)));
    assert_eq!(lines[1], format!("{}██", " ".repeat(126)));
    assert_eq!(lines[2], " ".repeat(128));
    assert_eq!(lines[32], "");
    assert_eq!(lines[33], "");
}

#[test]
fn the_machine_reads_as_counter_and_call_depth() {
    let mut m = Chip8State::new(Cartridge::new(&[], &[0; 8]));
    assert_eq!(m.to_string(), "pc:0x0200 subr:");
    m.run_instruction(Instruction::RunSubroutineAtAdress(0x2f0)).unwrap();
    assert_eq!(m.to_string(), "pc:0x02f0 subr:♥");
    m.run_instruction(Instruction::RunSubroutineAtAdress(0xabc)).unwrap();
    assert_eq!(m.to_string(), "pc:0x0abc subr:♥♥");
}
