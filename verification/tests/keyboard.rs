use chip8_emu::keyboard::HexKeyboard;

#[test]
fn a_pushed_key_is_read_once() {
    let mut keyboard = HexKeyboard::new();
    keyboard.push(5);
    assert_eq!(keyboard.consume(), Some(5));
    assert_eq!(keyboard.consume(), None);
}

#[test]
fn a_new_latch_holds_no_key() {
    let mut keyboard = HexKeyboard::new();
    assert_eq!(keyboard.consume(), None);
}

#[test]
fn the_last_key_pushed_wins() {
    let mut keyboard = HexKeyboard::new();
    keyboard.push(1);
    keyboard.push(0xf);
    assert_eq!(keyboard.consume(), Some(0xf));
    assert_eq!(keyboard.consume(), None);
}

#[test]
fn key_zero_is_a_key() {
    let mut keyboard = HexKeyboard::new();
    keyboard.push(0);
    assert_eq!(keyboard.consume(), Some(0));
}

#[test]
fn a_release_empties_the_latch() {
    let mut keyboard = HexKeyboard::new();
    keyboard.push(7);
    keyboard.release();
    assert_eq!(keyboard.consume(), None);
}
