use chip8_emu::cartridge::Cartridge;
use chip8_emu::display::{PixelEvent, Position};
use chip8_emu::error::Chip8Error;
use chip8_emu::instruction::{Instruction, Operation, Varset};
use chip8_emu::state::{Chip8State, RunState};

fn machine(program: &[u8]) -> Chip8State {
    Chip8State::new(Cartridge::new(&[], program))
}

fn blank(len: usize) -> Chip8State {
    machine(&vec![0u8; len])
}

fn set(machine: &mut Chip8State, n: u8, val: u8) {
    let res = machine.execute(Instruction::VariableOnValue(Varset::V(n), val, Operation::Assign), 0);
    assert_eq!(res, Ok(()));
}

fn on_vars(machine: &mut Chip8State, x: u8, y: u8, op: Operation) {
    let res =
        machine.run_instruction(Instruction::VariableOnVariable(Varset::V(x), Varset::V(y), op));
    assert_eq!(res, Ok(()));
}

#[test]
fn a_new_machine_starts_at_the_program() {
    let mut m = blank(16);
    assert_eq!(m.pc, 0x200);
    assert_eq!(m.i, 0);
    assert!(m.stack.is_empty());
    assert_eq!(m.state, RunState::Running);
    assert_eq!(m.get(Varset::V(0)), 0);
    assert_eq!(m.get(Varset::Keyboard), 0);
    assert!(m.display.flips.is_empty());
}

#[test]
fn call_then_return_resumes_after_the_call() {
    let mut m = blank(16);
    assert_eq!(m.run_instruction(Instruction::RunSubroutineAtAdress(0x300)), Ok(()));
    assert_eq!(m.pc, 0x300);
    assert_eq!(m.stack, vec![0x202]);
    assert_eq!(m.run_instruction(Instruction::ReturnFromSubroutine), Ok(()));
    assert_eq!(m.pc, 0x202);
    assert!(m.stack.is_empty());
}

#[test]
fn nested_calls_return_in_reverse_order() {
    let mut m = blank(16);
    m.run_instruction(Instruction::RunSubroutineAtAdress(0x300)).unwrap();
    m.run_instruction(Instruction::RunSubroutineAtAdress(0x400)).unwrap();
    assert_eq!(m.stack, vec![0x202, 0x302]);
    m.run_instruction(Instruction::ReturnFromSubroutine).unwrap();
    assert_eq!(m.pc, 0x302);
    m.run_instruction(Instruction::ReturnFromSubroutine).unwrap();
    assert_eq!(m.pc, 0x202);
}

#[test]
fn return_on_an_empty_stack_is_a_stack_underflow() {
    let mut m = blank(16);
    assert_eq!(
        m.run_instruction(Instruction::ReturnFromSubroutine),
        Err(Chip8Error::StackUnderflow)
    );
    assert_eq!(m.state, RunState::Halted(Chip8Error::StackUnderflow));
    assert_eq!(m.pc, 0x200);
    assert!(m.stack.is_empty());
}

#[test]
fn a_halted_machine_stays_halted() {
    let mut m = blank(16);
    assert_eq!(
        m.run_instruction(Instruction::ReturnFromSubroutine),
        Err(Chip8Error::StackUnderflow)
    );
    assert_eq!(m.run_instruction(Instruction::GotoAdress(0x300)), Err(Chip8Error::StackUnderflow));
    assert_eq!(m.cycle(), Err(Chip8Error::StackUnderflow));
    assert_eq!(m.pc, 0x200);
}

#[test]
fn jump_sets_the_program_counter() {
    let mut m = blank(16);
    assert_eq!(m.run_instruction(Instruction::GotoAdress(0x456)), Ok(()));
    assert_eq!(m.pc, 0x456);
    assert!(m.stack.is_empty());
}

#[test]
fn skip_if_equal_skips_when_equal() {
    let mut m = blank(16);
    m.register.set(Varset::V(4), 0x10);
    assert_eq!(m.run_instruction(Instruction::SkipNextIfVarEq(Varset::V(4), 0x10)), Ok(()));
    assert_eq!(m.pc, 0x204);
}

#[test]
fn skip_if_equal_moves_on_when_different() {
    let mut m = blank(16);
    m.register.set(Varset::V(4), 0x10);
    assert_eq!(m.run_instruction(Instruction::SkipNextIfVarEq(Varset::V(4), 0x11)), Ok(()));
    assert_eq!(m.pc, 0x202);
}

#[test]
fn the_other_skips_follow_their_predicates() {
    let mut m = blank(16);
    m.register.set(Varset::V(1), 7);
    m.register.set(Varset::V(2), 7);
    m.register.set(Varset::V(3), 8);
    m.run_instruction(Instruction::SkipNextIfVarNeq(Varset::V(1), 7)).unwrap();
    assert_eq!(m.pc, 0x202);
    m.run_instruction(Instruction::SkipNextIfVarNeq(Varset::V(1), 8)).unwrap();
    assert_eq!(m.pc, 0x206);
    m.run_instruction(Instruction::SkipNextIfVarsEq(Varset::V(1), Varset::V(2))).unwrap();
    assert_eq!(m.pc, 0x20a);
    m.run_instruction(Instruction::SkipNextIfVarsEq(Varset::V(1), Varset::V(3))).unwrap();
    assert_eq!(m.pc, 0x20c);
    m.run_instruction(Instruction::SkipNextIfVarsNeq(Varset::V(1), Varset::V(2))).unwrap();
    assert_eq!(m.pc, 0x20e);
    m.run_instruction(Instruction::SkipNextIfVarsNeq(Varset::V(1), Varset::V(3))).unwrap();
    assert_eq!(m.pc, 0x212);
}

#[test]
fn a_keyboard_skip_consumes_the_key() {
    let mut m = blank(16);
    m.register.set(Varset::V(1), 5);
    m.keyboard.push(5);
    m.run_instruction(Instruction::SkipNextIfVarsEq(Varset::V(1), Varset::Keyboard)).unwrap();
    assert_eq!(m.pc, 0x204);
    m.run_instruction(Instruction::SkipNextIfVarsEq(Varset::V(1), Varset::Keyboard)).unwrap();
    assert_eq!(m.pc, 0x206);
    m.keyboard.push(6);
    m.run_instruction(Instruction::SkipNextIfVarsNeq(Varset::V(1), Varset::Keyboard)).unwrap();
    assert_eq!(m.pc, 0x20a);
    assert_eq!(m.keyboard.consume(), None);
}

#[test]
fn reading_the_keyboard_takes_the_key() {
    let mut m = blank(16);
    m.keyboard.push(9);
    assert_eq!(m.get(Varset::Keyboard), 9);
    assert_eq!(m.get(Varset::Keyboard), 0);
    m.register.set(Varset::DelayTimer, 3);
    assert_eq!(m.get(Varset::DelayTimer), 3);
    assert_eq!(m.get(Varset::DelayTimer), 3);
}

#[test]
fn increment_with_carry_through_the_engine() {
    let mut m = blank(16);
    set(&mut m, 1, 0xff);
    set(&mut m, 2, 0x01);
    on_vars(&mut m, 1, 2, Operation::IncrementWithCarry);
    assert_eq!(m.get(Varset::V(1)), 0x00);
    assert_eq!(m.get(Varset::V(15)), 1);
    assert_eq!(m.pc, 0x206);
}

#[test]
fn decrement_and_flip_through_the_engine() {
    let mut m = blank(16);
    set(&mut m, 1, 0x01);
    set(&mut m, 2, 0x02);
    on_vars(&mut m, 1, 2, Operation::DecrementAndFlip);
    assert_eq!(m.get(Varset::V(1)), 0x01);
    assert_eq!(m.get(Varset::V(15)), 0);
}

#[test]
fn bitshift_through_the_engine() {
    let mut m = blank(16);
    set(&mut m, 1, 0x03);
    on_vars(&mut m, 1, 2, Operation::BitshiftAndStore);
    assert_eq!(m.get(Varset::V(15)), 1);
    assert_eq!(m.get(Varset::V(1)), 0x01);
}

#[test]
fn bitwise_operations_leave_the_flag_register_alone() {
    let mut m = blank(16);
    set(&mut m, 15, 0x5a);
    set(&mut m, 1, 0b1100);
    set(&mut m, 2, 0b1010);
    on_vars(&mut m, 1, 2, Operation::BitOr);
    assert_eq!(m.get(Varset::V(1)), 0b1110);
    assert_eq!(m.get(Varset::V(15)), 0x5a);
    set(&mut m, 1, 0b1100);
    on_vars(&mut m, 1, 2, Operation::BitAnd);
    assert_eq!(m.get(Varset::V(1)), 0b1000);
    assert_eq!(m.get(Varset::V(15)), 0x5a);
    set(&mut m, 1, 0b1100);
    on_vars(&mut m, 1, 2, Operation::BitXor);
    assert_eq!(m.get(Varset::V(1)), 0b0110);
    assert_eq!(m.get(Varset::V(15)), 0x5a);
}

#[test]
fn the_remaining_register_operations() {
    let mut m = blank(16);
    set(&mut m, 1, 0xf0);
    set(&mut m, 2, 0x20);
    on_vars(&mut m, 1, 2, Operation::IncrementNoCarry);
    assert_eq!(m.get(Varset::V(1)), 0x10);
    assert_eq!(m.get(Varset::V(15)), 0);
    on_vars(&mut m, 1, 2, Operation::DecrementWithBorrow);
    assert_eq!(m.get(Varset::V(1)), 0xf0);
    assert_eq!(m.get(Varset::V(15)), 1);
    on_vars(&mut m, 3, 1, Operation::Assign);
    assert_eq!(m.get(Varset::V(3)), 0xf0);
    m.run_instruction(Instruction::VariableOnValue(Varset::V(3), 0x20, Operation::IncrementNoCarry))
        .unwrap();
    assert_eq!(m.get(Varset::V(3)), 0x10);
}

#[test]
fn timers_are_set_and_read_through_registers() {
    let mut m = blank(16);
    set(&mut m, 1, 0x33);
    m.run_instruction(Instruction::VariableOnVariable(
        Varset::DelayTimer,
        Varset::V(1),
        Operation::Assign,
    ))
    .unwrap();
    m.run_instruction(Instruction::VariableOnVariable(
        Varset::SoundTimer,
        Varset::V(1),
        Operation::Assign,
    ))
    .unwrap();
    m.tick();
    m.run_instruction(Instruction::VariableOnVariable(
        Varset::V(2),
        Varset::DelayTimer,
        Operation::Assign,
    ))
    .unwrap();
    assert_eq!(m.get(Varset::V(2)), 0x32);
    assert_eq!(m.get(Varset::SoundTimer), 0x32);
    assert_eq!(m.pc, 0x208);
}

#[test]
fn tick_stops_at_zero() {
    let mut m = blank(16);
    m.register.set(Varset::DelayTimer, 1);
    m.tick();
    m.tick();
    assert_eq!(m.get(Varset::DelayTimer), 0);
    assert_eq!(m.get(Varset::SoundTimer), 0);
    assert_eq!(m.pc, 0x200);
}

#[test]
fn randomize_masks_the_random_byte() {
    let mut m = blank(16);
    let ins = Instruction::VariableOnValue(Varset::V(1), 0x3c, Operation::Randomize);
    assert_eq!(m.execute(ins, 0xff), Ok(()));
    assert_eq!(m.get(Varset::V(1)), 0x3c);
    assert_eq!(m.execute(ins, 0xa5), Ok(()));
    assert_eq!(m.get(Varset::V(1)), 0x24);
    assert_eq!(m.execute(ins, 0x00), Ok(()));
    assert_eq!(m.get(Varset::V(1)), 0x00);
    assert_eq!(m.pc, 0x206);
}

#[test]
fn randomize_from_the_generator_stays_under_the_mask() {
    let mut m = blank(16);
    let mut seen = [false; 16];
    for _ in 0..2000 {
        m.pc = 0x200;
        m.run_instruction(Instruction::VariableOnValue(Varset::V(1), 0x0f, Operation::Randomize))
            .unwrap();
        let val = m.get(Varset::V(1));
        assert!(val <= 0x0f);
        seen[val as usize] = true;
    }
    assert!(seen.iter().filter(|s| **s).count() > 1);
    m.run_instruction(Instruction::VariableOnValue(Varset::V(1), 0, Operation::Randomize)).unwrap();
    assert_eq!(m.get(Varset::V(1)), 0);
}

#[test]
fn the_random_byte_matters_only_to_randomize() {
    let mut a = blank(16);
    let mut b = blank(16);
    let ins = Instruction::VariableOnValue(Varset::V(1), 0x3c, Operation::IncrementNoCarry);
    a.execute(ins, 0x00).unwrap();
    b.execute(ins, 0xff).unwrap();
    assert_eq!(a.get(Varset::V(1)), 0x3c);
    assert_eq!(b.get(Varset::V(1)), 0x3c);
}

#[test]
fn index_register_operations() {
    let mut m = blank(16);
    m.run_instruction(Instruction::SetITo(0x345)).unwrap();
    assert_eq!(m.i, 0x345);
    set(&mut m, 1, 0x10);
    m.run_instruction(Instruction::IOnVariable(Varset::V(1), Operation::IncrementNoCarry)).unwrap();
    assert_eq!(m.i, 0x355);
    set(&mut m, 2, 0x0a);
    m.run_instruction(Instruction::IOnVariable(Varset::V(2), Operation::SpriteMultiply)).unwrap();
    assert_eq!(m.i, 50);
    m.run_instruction(Instruction::IOnVariable(Varset::V(1), Operation::Assign)).unwrap();
    assert_eq!(m.i, 0x10);
    set(&mut m, 3, 0xff);
    m.run_instruction(Instruction::IOnVariable(Varset::V(3), Operation::SpriteMultiply)).unwrap();
    assert_eq!(m.i, 1275);
}

#[test]
fn index_increment_wraps_in_sixteen_bits() {
    let mut m = blank(16);
    m.run_instruction(Instruction::SetITo(0xffff)).unwrap();
    set(&mut m, 1, 2);
    m.run_instruction(Instruction::IOnVariable(Varset::V(1), Operation::IncrementNoCarry)).unwrap();
    assert_eq!(m.i, 1);
}

#[test]
fn decimal_digits_are_stored_at_the_index() {
    let mut m = blank(16);
    set(&mut m, 1, 254);
    m.run_instruction(Instruction::SetITo(0x208)).unwrap();
    m.run_instruction(Instruction::StoreVarAsDecimalInPositionI(Varset::V(1))).unwrap();
    assert_eq!(m.cartridge.get_memory(0x208), Ok(2));
    assert_eq!(m.cartridge.get_memory(0x209), Ok(5));
    assert_eq!(m.cartridge.get_memory(0x20a), Ok(4));
    assert_eq!(m.cartridge.get_memory(0x20b), Ok(0));
    assert_eq!(m.pc, 0x206);
    set(&mut m, 1, 7);
    m.run_instruction(Instruction::StoreVarAsDecimalInPositionI(Varset::V(1))).unwrap();
    assert_eq!(m.cartridge.get_memory(0x208), Ok(0));
    assert_eq!(m.cartridge.get_memory(0x209), Ok(0));
    assert_eq!(m.cartridge.get_memory(0x20a), Ok(7));
}

#[test]
fn decimal_store_beyond_the_end_fails_and_writes_nothing() {
    let mut m = blank(16);
    set(&mut m, 1, 254);
    m.run_instruction(Instruction::SetITo(0x20e)).unwrap();
    assert_eq!(
        m.run_instruction(Instruction::StoreVarAsDecimalInPositionI(Varset::V(1))),
        Err(Chip8Error::AddressOutOfBounds(0x210))
    );
    assert_eq!(m.cartridge.get_memory(0x20e), Ok(0));
    assert_eq!(m.cartridge.get_memory(0x20f), Ok(0));
    assert_eq!(m.pc, 0x204);
    assert_eq!(m.state, RunState::Halted(Chip8Error::AddressOutOfBounds(0x210)));
}

#[test]
fn registers_are_dumped_and_loaded() {
    let mut m = blank(32);
    for n in 0..16 {
        set(&mut m, n, 0x10 + n);
    }
    m.run_instruction(Instruction::SetITo(0x210)).unwrap();
    m.run_instruction(Instruction::DumpVariablesUptoInPositionI(Varset::V(3))).unwrap();
    assert_eq!(m.cartridge.block(0x210, 5), Ok(&[0x10u8, 0x11, 0x12, 0x13, 0][..]));
    assert_eq!(m.i, 0x210);
    for n in 0..16 {
        set(&mut m, n, 0);
    }
    m.run_instruction(Instruction::LoadVariablesUptoFromPositionI(Varset::V(2))).unwrap();
    assert_eq!(m.get(Varset::V(0)), 0x10);
    assert_eq!(m.get(Varset::V(1)), 0x11);
    assert_eq!(m.get(Varset::V(2)), 0x12);
    assert_eq!(m.get(Varset::V(3)), 0);
    m.run_instruction(Instruction::DumpVariablesUptoInPositionI(Varset::V(15))).unwrap();
    assert_eq!(m.cartridge.get_memory(0x21f), Ok(0));
    assert_eq!(m.cartridge.get_memory(0x212), Ok(0x12));
}

#[test]
fn dump_and_load_beyond_the_end_fail() {
    let mut m = blank(16);
    set(&mut m, 0, 9);
    m.run_instruction(Instruction::SetITo(0x20f)).unwrap();
    m.run_instruction(Instruction::DumpVariablesUptoInPositionI(Varset::V(0))).unwrap();
    assert_eq!(m.cartridge.get_memory(0x20f), Ok(9));
    assert_eq!(
        m.run_instruction(Instruction::DumpVariablesUptoInPositionI(Varset::V(1))),
        Err(Chip8Error::AddressOutOfBounds(0x210))
    );
    let mut m = blank(16);
    m.run_instruction(Instruction::SetITo(0x300)).unwrap();
    assert_eq!(
        m.run_instruction(Instruction::LoadVariablesUptoFromPositionI(Varset::V(0))),
        Err(Chip8Error::AddressOutOfBounds(0x300))
    );
    assert_eq!(m.pc, 0x202);
}

#[test]
fn draw_collision_sets_the_flag_register() {
    let mut m = machine(&[0x80, 0x00]);
    m.display.set_pixel(Position { x: 0, y: 0 }, true);
    m.run_instruction(Instruction::SetITo(0x200)).unwrap();
    m.run_instruction(Instruction::DrawSpriteXYH(Varset::V(0), Varset::V(1), 1)).unwrap();
    assert_eq!(m.get(Varset::V(15)), 1);
    assert!(!m.display.get_pixel(Position { x: 0, y: 0 }));
    assert_eq!(m.display.flips.len(), 1);
    assert_eq!(
        m.display.pop_event(),
        Some(PixelEvent { x: 0, y: 0, on: false, clear_all: false })
    );
    assert_eq!(m.pc, 0x204);
}

#[test]
fn draw_without_collision_clears_the_flag_register() {
    let mut m = machine(&[0xf0, 0x90]);
    set(&mut m, 15, 1);
    set(&mut m, 1, 4);
    set(&mut m, 2, 6);
    m.run_instruction(Instruction::SetITo(0x200)).unwrap();
    m.run_instruction(Instruction::DrawSpriteXYH(Varset::V(1), Varset::V(2), 2)).unwrap();
    assert_eq!(m.get(Varset::V(15)), 0);
    for x in 4..8 {
        assert!(m.display.get_pixel(Position { x, y: 6 }));
    }
    assert!(m.display.get_pixel(Position { x: 4, y: 7 }));
    assert!(!m.display.get_pixel(Position { x: 5, y: 7 }));
    assert!(m.display.get_pixel(Position { x: 7, y: 7 }));
    assert_eq!(m.display.flips.len(), 6);
}

#[test]
fn draw_beyond_the_end_fails_and_draws_nothing() {
    let mut m = machine(&[0xff, 0xff]);
    m.run_instruction(Instruction::SetITo(0x201)).unwrap();
    assert_eq!(
        m.run_instruction(Instruction::DrawSpriteXYH(Varset::V(0), Varset::V(0), 2)),
        Err(Chip8Error::AddressOutOfBounds(0x202))
    );
    assert!(m.display.flips.is_empty());
    assert_eq!(m.pc, 0x202);
    let mut m = machine(&[0xff, 0xff]);
    m.run_instruction(Instruction::SetITo(0xfff)).unwrap();
    assert_eq!(
        m.run_instruction(Instruction::DrawSpriteXYH(Varset::V(0), Varset::V(0), 0)),
        Ok(())
    );
    assert_eq!(m.get(Varset::V(15)), 0);
}

#[test]
fn clear_display_reports_one_event_and_spares_the_flag() {
    let mut m = machine(&[0xff, 0xff]);
    set(&mut m, 15, 1);
    m.display.set_pixel(Position { x: 5, y: 5 }, true);
    m.run_instruction(Instruction::ClearDraw).unwrap();
    assert!(!m.display.get_pixel(Position { x: 5, y: 5 }));
    assert_eq!(m.display.pop_event(), Some(PixelEvent { x: 0, y: 0, on: false, clear_all: true }));
    assert_eq!(m.display.pop_event(), None);
    assert_eq!(m.get(Varset::V(15)), 1);
}

#[test]
fn a_machine_routine_cannot_be_run() {
    let mut m = blank(16);
    assert_eq!(
        m.run_instruction(Instruction::RCARoutine(0x123)),
        Err(Chip8Error::UnimplementedOpcode(0x123))
    );
    assert_eq!(m.pc, 0x200);
}

#[test]
fn a_cycle_fetches_decodes_and_runs() {
    let mut m = machine(&[0x6a, 0x3b, 0x7a, 0x01, 0x12, 0x00]);
    assert_eq!(m.cycle(), Ok(()));
    assert_eq!(m.get(Varset::V(10)), 0x3b);
    assert_eq!(m.pc, 0x202);
    assert_eq!(m.cycle(), Ok(()));
    assert_eq!(m.get(Varset::V(10)), 0x3c);
    assert_eq!(m.cycle(), Ok(()));
    assert_eq!(m.pc, 0x200);
}

#[test]
fn a_cycle_past_the_program_is_out_of_bounds() {
    let mut m = machine(&[0x6a, 0x3b, 0x7a]);
    assert_eq!(m.cycle(), Ok(()));
    assert_eq!(m.cycle(), Err(Chip8Error::AddressOutOfBounds(0x202)));
    assert_eq!(m.cycle(), Err(Chip8Error::AddressOutOfBounds(0x202)));
    assert_eq!(m.pc, 0x202);
}

#[test]
fn a_cycle_reports_what_the_decoder_refuses() {
    let mut m = machine(&[0x51, 0x20]);
    assert_eq!(m.cycle(), Err(Chip8Error::InvalidOpcode(0x5120)));
    let mut m = machine(&[0x81, 0x2f]);
    assert_eq!(m.cycle(), Err(Chip8Error::UnimplementedOpcode(0x812f)));
    let mut m = machine(&[0xff, 0x1e]);
    assert_eq!(m.cycle(), Err(Chip8Error::ReservedOperandMisuse(0xff1e)));
    let mut m = machine(&[0x00, 0x00]);
    assert_eq!(m.cycle(), Err(Chip8Error::UnimplementedOpcode(0)));
    assert_eq!(m.state, RunState::Halted(Chip8Error::UnimplementedOpcode(0)));
}

#[test]
fn a_small_program_runs_to_its_loop() {
    // V0 = 3; loop: V1 += V0; V0 -= 1 (through V2 = 1); skip the jump when V0 == 0.
    let program = [
        0x60, 0x03, 0x62, 0x01, 0x81, 0x04, 0x80, 0x25, 0x30, 0x00, 0x12, 0x04, 0x12, 0x0c,
    ];
    let mut m = machine(&program);
    for _ in 0..40 {
        assert_eq!(m.cycle(), Ok(()));
    }
    assert_eq!(m.get(Varset::V(1)), 6);
    assert_eq!(m.get(Varset::V(0)), 0);
    assert_eq!(m.pc, 0x20c);
}
