//! The text-screen model and the interrupt-line numbering.

use ruost::interrupts::InterruptIndex;
use ruost::keyboard::{handle_scancode, Keyboard};
use ruost::vga_buffer::{Color, ColorCode, Writer, BUFFER_HEIGHT, BUFFER_WIDTH};

fn fresh_writer() -> Writer {
    Writer::new(ColorCode::new(Color::Magenta, Color::Black))
}

#[test]
fn color_codes_pack_background_high() {
    // magenta (5) on black (0)
    let mut writer = fresh_writer();
    writer.write_byte(b'x');
    let cell = writer.char_at(BUFFER_HEIGHT - 1, 0);
    assert_eq!(cell.ascii_character, b'x');
    assert_eq!(cell.color_code, ColorCode::new(Color::Magenta, Color::Black));
    // yellow (14) on blue (1) differs from blue on yellow
    assert_ne!(
        ColorCode::new(Color::Yellow, Color::Blue),
        ColorCode::new(Color::Blue, Color::Yellow)
    );
}

#[test]
fn writing_lands_on_the_bottom_row() {
    let mut writer = fresh_writer();
    writer.write_string("Some test string that fits on a single line");
    let expected = "Some test string that fits on a single line";
    for (i, c) in expected.chars().enumerate() {
        let cell = writer.char_at(BUFFER_HEIGHT - 1, i);
        assert_eq!(char::from(cell.ascii_character), c);
    }
}

#[test]
fn newline_scrolls_everything_one_row_up() {
    let mut writer = fresh_writer();
    writer.write_string("first\nsecond");
    for (i, c) in "first".chars().enumerate() {
        assert_eq!(char::from(writer.char_at(BUFFER_HEIGHT - 2, i).ascii_character), c);
    }
    for (i, c) in "second".chars().enumerate() {
        assert_eq!(char::from(writer.char_at(BUFFER_HEIGHT - 1, i).ascii_character), c);
    }
}

#[test]
fn long_lines_wrap_at_the_right_edge() {
    let mut writer = fresh_writer();
    for _ in 0..BUFFER_WIDTH {
        writer.write_byte(b'.');
    }
    writer.write_byte(b'!');
    // the 81st byte wrapped: the dots scrolled up, the bang starts the new
    // bottom row
    assert_eq!(writer.char_at(BUFFER_HEIGHT - 2, BUFFER_WIDTH - 1).ascii_character, b'.');
    assert_eq!(writer.char_at(BUFFER_HEIGHT - 1, 0).ascii_character, b'!');
}

#[test]
fn unprintable_bytes_show_as_blocks() {
    let mut writer = fresh_writer();
    writer.write_string("a\u{7f}b");
    assert_eq!(writer.char_at(BUFFER_HEIGHT - 1, 0).ascii_character, b'a');
    assert_eq!(writer.char_at(BUFFER_HEIGHT - 1, 1).ascii_character, 0xfe);
    assert_eq!(writer.char_at(BUFFER_HEIGHT - 1, 2).ascii_character, b'b');
}

#[test]
fn keypresses_decode_through_the_layout() {
    let mut keyboard = Keyboard::new();
    let mut writer = fresh_writer();
    // scancode set 1: 0x1E is the make code of the key that types 'a'
    handle_scancode(&mut keyboard, &mut writer, 0x1E);
    assert_eq!(writer.char_at(BUFFER_HEIGHT - 1, 0).ascii_character, b'a');
    // its break code (0x9E) types nothing further
    handle_scancode(&mut keyboard, &mut writer, 0x9E);
    assert_eq!(writer.char_at(BUFFER_HEIGHT - 1, 1).ascii_character, b' ');
}

#[test]
fn interrupt_lines_follow_the_controller_offset() {
    assert_eq!(InterruptIndex::Timer.as_u8(), 32);
    assert_eq!(InterruptIndex::Keyboard.as_u8(), 33);
    assert_eq!(InterruptIndex::Keyboard.as_usize(), 33);
}
