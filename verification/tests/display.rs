use chip8_emu::display::{PixelEvent, Position, TermDisplay};

fn events(display: &TermDisplay) -> Vec<PixelEvent> {
    display.flips.iter().copied().collect()
}

fn lit_pixels(display: &TermDisplay) -> Vec<(u8, u8)> {
    let mut lit = Vec::new();
    for y in 0..32u8 {
        for x in 0..64u8 {
            if display.get_pixel(Position { x, y }) {
                lit.push((x, y));
            }
        }
    }
    lit
}

#[test]
fn a_new_display_is_dark_and_silent() {
    let display = TermDisplay::new();
    assert!(lit_pixels(&display).is_empty());
    assert!(display.flips.is_empty());
    assert_eq!(TermDisplay::WIDTH_PX, 64);
    assert_eq!(TermDisplay::HEIGHT_PX, 32);
}

#[test]
fn positions_wrap_around_the_grid() {
    assert_eq!(TermDisplay::get_idx(Position { x: 0, y: 0 }), 0);
    assert_eq!(TermDisplay::get_idx(Position { x: 63, y: 31 }), 2047);
    assert_eq!(TermDisplay::get_idx(Position { x: 64, y: 32 }), 0);
    assert_eq!(TermDisplay::get_idx(Position { x: 65, y: 33 }), 65);
    assert_eq!(TermDisplay::get_idx(Position { x: 255, y: 255 }), 2047);
    assert_eq!(TermDisplay::get_idx(Position { x: 3, y: 2 }), 131);
}

#[test]
fn set_pixel_changes_one_pixel_and_reports_nothing() {
    let mut display = TermDisplay::new();
    display.set_pixel(Position { x: 70, y: 33 }, true);
    assert_eq!(lit_pixels(&display), vec![(6, 1)]);
    assert!(display.get_pixel(Position { x: 6, y: 1 }));
    assert!(display.flips.is_empty());
    assert_eq!(display.get_character(Position { x: 6, y: 1 }), "██");
    assert_eq!(display.get_character(Position { x: 7, y: 1 }), "  ");
}

#[test]
fn clear_turns_everything_off_and_reports_once() {
    let mut display = TermDisplay::new();
    display.set_pixel(Position { x: 1, y: 1 }, true);
    display.set_pixel(Position { x: 9, y: 30 }, true);
    display.clear();
    assert!(lit_pixels(&display).is_empty());
    assert_eq!(events(&display), vec![PixelEvent { x: 0, y: 0, on: false, clear_all: true }]);
}

#[test]
fn flip_pixel_reports_the_new_state_under_wrapped_coordinates() {
    let mut display = TermDisplay::new();
    assert!(!display.flip_pixel(Position { x: 66, y: 35 }));
    assert!(display.get_pixel(Position { x: 2, y: 3 }));
    assert!(display.flip_pixel(Position { x: 2, y: 3 }));
    assert!(!display.get_pixel(Position { x: 2, y: 3 }));
    assert_eq!(
        events(&display),
        vec![
            PixelEvent { x: 2, y: 3, on: true, clear_all: false },
            PixelEvent { x: 2, y: 3, on: false, clear_all: false },
        ]
    );
}

#[test]
fn draw_collision_turns_the_pixel_off() {
    let mut display = TermDisplay::new();
    display.set_pixel(Position { x: 0, y: 0 }, true);
    let collision = display.draw_sprite(0, 0, &[0x80]);
    assert!(collision);
    assert!(!display.get_pixel(Position { x: 0, y: 0 }));
    assert_eq!(events(&display), vec![PixelEvent { x: 0, y: 0, on: false, clear_all: false }]);
}

#[test]
fn the_highest_bit_is_the_leftmost_pixel() {
    let mut display = TermDisplay::new();
    let collision = display.draw_sprite(10, 5, &[0b1100_0001]);
    assert!(!collision);
    assert_eq!(lit_pixels(&display), vec![(10, 5), (11, 5), (17, 5)]);
}

#[test]
fn events_come_row_by_row_from_bit_zero_up() {
    let mut display = TermDisplay::new();
    display.draw_sprite(10, 5, &[0b1000_0001, 0b0100_0000]);
    assert_eq!(
        events(&display),
        vec![
            PixelEvent { x: 17, y: 5, on: true, clear_all: false },
            PixelEvent { x: 10, y: 5, on: true, clear_all: false },
            PixelEvent { x: 11, y: 6, on: true, clear_all: false },
        ]
    );
}

#[test]
fn a_sprite_wraps_around_both_edges() {
    let mut display = TermDisplay::new();
    let collision = display.draw_sprite(62, 31, &[0b1111_0000, 0b1000_0000]);
    assert!(!collision);
    assert_eq!(lit_pixels(&display), vec![(62, 0), (0, 31), (1, 31), (62, 31), (63, 31)]);
    for e in events(&display) {
        assert!(e.x < 64 && e.y < 32);
    }
}

#[test]
fn start_coordinates_beyond_the_grid_wrap() {
    let mut display = TermDisplay::new();
    display.draw_sprite(250, 100, &[0x80]);
    assert_eq!(lit_pixels(&display), vec![(58, 4)]);
    assert_eq!(events(&display), vec![PixelEvent { x: 58, y: 4, on: true, clear_all: false }]);
}

#[test]
fn drawing_twice_restores_the_display() {
    let mut display = TermDisplay::new();
    display.set_pixel(Position { x: 3, y: 3 }, true);
    let sprite = [0xff, 0x81, 0xff];
    assert!(!display.draw_sprite(8, 8, &sprite));
    assert!(display.draw_sprite(8, 8, &sprite));
    assert_eq!(lit_pixels(&display), vec![(3, 3)]);
    assert_eq!(display.flips.len(), 36);
}

#[test]
fn an_empty_sprite_changes_nothing() {
    let mut display = TermDisplay::new();
    assert!(!display.draw_sprite(1, 1, &[]));
    assert!(!display.draw_sprite(1, 1, &[0, 0, 0]));
    assert!(lit_pixels(&display).is_empty());
    assert!(display.flips.is_empty());
}

#[test]
fn events_are_drained_oldest_first() {
    let mut display = TermDisplay::new();
    display.clear();
    display.draw_sprite(0, 0, &[0x80]);
    assert_eq!(display.pop_event(), Some(PixelEvent { x: 0, y: 0, on: false, clear_all: true }));
    assert_eq!(display.pop_event(), Some(PixelEvent { x: 0, y: 0, on: true, clear_all: false }));
    assert_eq!(display.pop_event(), None);
    assert!(display.get_pixel(Position { x: 0, y: 0 }));
}
