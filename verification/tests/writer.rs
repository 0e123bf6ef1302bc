use core::fmt::Write;
use vga_buffer::buffer::Grid;
use vga_buffer::buffer::BUFFER_HEIGHT;
use vga_buffer::buffer::BUFFER_WIDTH;
use vga_buffer::Buffer;
use vga_buffer::Color;
use vga_buffer::ColorCode;
use vga_buffer::Writer;
use volatile::Volatile;

const BOTTOM: usize = BUFFER_HEIGHT - 1;

fn empty_surface(attribute: u8) -> Buffer {
    let grid: Grid =
        core::array::from_fn(|_| core::array::from_fn(|_| Volatile::new([b' ', attribute])));
    Buffer::new(Box::leak(Box::new(grid)))
}

fn numbered_surface() -> Buffer {
    let grid: Grid = core::array::from_fn(|row| {
        core::array::from_fn(|col| Volatile::new([b'A' + row as u8, col as u8]))
    });
    Buffer::new(Box::leak(Box::new(grid)))
}

fn symbols_of_row(writer: &Writer, row: usize) -> Vec<u8> {
    (0..BUFFER_WIDTH).map(|col| writer.buffer().read(row, col).ascii_character).collect()
}

fn attributes_of_row(writer: &Writer, row: usize) -> Vec<u8> {
    (0..BUFFER_WIDTH).map(|col| writer.buffer().read(row, col).color_code.bits()).collect()
}

fn line(text: &[u8]) -> Vec<u8> {
    let mut symbols = text.to_vec();
    symbols.resize(BUFFER_WIDTH, b' ');
    symbols
}

#[test]
fn new_writer_starts_at_the_left_edge_and_leaves_the_surface() {
    let attribute = ColorCode::new(Color::White, Color::Blue);
    let writer = Writer::new(attribute, numbered_surface());
    assert_eq!(writer.column_position(), 0);
    assert_eq!(writer.color_code(), attribute);
    for row in 0..BUFFER_HEIGHT {
        assert_eq!(symbols_of_row(&writer, row), vec![b'A' + row as u8; BUFFER_WIDTH]);
    }
}

#[test]
fn console_writer_is_yellow_on_black() {
    let writer = Writer::console(empty_surface(0x0e));
    assert_eq!(writer.color_code().bits(), 0x0e);
    assert_eq!(writer.color_code(), ColorCode::new(Color::Yellow, Color::Black));
    assert_eq!(writer.column_position(), 0);
}

#[test]
fn write_byte_places_the_symbol_at_the_cursor_in_the_current_attribute() {
    let mut writer = Writer::new(ColorCode::from_bits(0x4f), empty_surface(0x07));
    writer.write_byte(b'H');
    assert_eq!(writer.column_position(), 1);
    let cell = writer.buffer().read(BOTTOM, 0);
    assert_eq!(cell.ascii_character, b'H');
    assert_eq!(cell.color_code.bits(), 0x4f);
    let untouched = writer.buffer().read(BOTTOM, 1);
    assert_eq!(untouched.ascii_character, b' ');
    assert_eq!(untouched.color_code.bits(), 0x07);
    writer.write_byte(b'i');
    assert_eq!(writer.column_position(), 2);
    assert_eq!(writer.buffer().read(BOTTOM, 1).ascii_character, b'i');
    assert_eq!(symbols_of_row(&writer, BOTTOM - 1), line(b""));
}

#[test]
fn write_byte_places_any_byte_but_the_line_feed_unchanged() {
    for byte in 0..=255u8 {
        if byte == b'\n' {
            continue;
        }
        let mut writer = Writer::console(empty_surface(0x0e));
        writer.write_byte(byte);
        assert_eq!(writer.buffer().read(BOTTOM, 0).ascii_character, byte);
        assert_eq!(writer.column_position(), 1);
    }
}

#[test]
fn write_string_keeps_printable_bytes_and_substitutes_the_others() {
    for code in 0..128u8 {
        if code == b'\n' {
            continue;
        }
        let text = String::from(code as char);
        let mut writer = Writer::console(empty_surface(0x0e));
        writer.write_string(&text);
        let expected = if (0x20..=0x7e).contains(&code) { code } else { 0xfe };
        assert_eq!(writer.buffer().read(BOTTOM, 0).ascii_character, expected);
        assert_eq!(writer.column_position(), 1);
    }
}

#[test]
fn write_string_shows_each_byte_of_a_wide_character_as_unprintable() {
    let mut writer = Writer::console(empty_surface(0x0e));
    writer.write_string("a\u{e9}\u{20ac}\tz\u{7f}");
    let mut expected = vec![b'a', 0xfe, 0xfe, 0xfe, 0xfe, 0xfe, 0xfe, b'z', 0xfe];
    expected.resize(BUFFER_WIDTH, b' ');
    assert_eq!(symbols_of_row(&writer, BOTTOM), expected);
    assert_eq!(writer.column_position(), 9);
}

#[test]
fn write_string_of_nothing_changes_nothing() {
    let mut writer = Writer::console(numbered_surface());
    writer.write_string("ab");
    writer.write_string("");
    assert_eq!(writer.column_position(), 2);
    assert_eq!(writer.buffer().read(BOTTOM, 0).ascii_character, b'a');
    assert_eq!(writer.buffer().read(BOTTOM, 2).ascii_character, b'A' + BOTTOM as u8);
    assert_eq!(symbols_of_row(&writer, 0), vec![b'A'; BUFFER_WIDTH]);
}

#[test]
fn a_full_row_of_symbols_fills_the_bottom_row_without_a_scroll() {
    let mut writer = Writer::console(numbered_surface());
    let text: Vec<u8> = (0..BUFFER_WIDTH).map(|col| b'0' + (col % 10) as u8).collect();
    for (count, byte) in text.iter().enumerate() {
        writer.write_byte(*byte);
        assert_eq!(writer.column_position(), count + 1);
    }
    assert_eq!(writer.column_position(), BUFFER_WIDTH);
    assert_eq!(symbols_of_row(&writer, BOTTOM), text);
    assert_eq!(attributes_of_row(&writer, BOTTOM), vec![0x0e; BUFFER_WIDTH]);
    for row in 0..BOTTOM {
        assert_eq!(symbols_of_row(&writer, row), vec![b'A' + row as u8; BUFFER_WIDTH]);
    }
}

#[test]
fn the_symbol_after_a_full_row_scrolls_once_and_lands_at_the_left_edge() {
    let mut writer = Writer::console(numbered_surface());
    let text: String = (0..BUFFER_WIDTH).map(|col| (b'a' + (col % 26) as u8) as char).collect();
    writer.write_string(&text);
    writer.write_byte(b'#');
    assert_eq!(writer.column_position(), 1);
    assert_eq!(symbols_of_row(&writer, BOTTOM), line(b"#"));
    assert_eq!(attributes_of_row(&writer, BOTTOM), vec![0x0e; BUFFER_WIDTH]);
    assert_eq!(symbols_of_row(&writer, BOTTOM - 1), text.as_bytes().to_vec());
    for row in 0..BOTTOM - 1 {
        assert_eq!(symbols_of_row(&writer, row), vec![b'A' + row as u8 + 1; BUFFER_WIDTH]);
    }
}

#[test]
fn a_line_feed_moves_every_row_up_and_clears_the_bottom_row() {
    let mut writer = Writer::new(ColorCode::from_bits(0x31), numbered_surface());
    writer.write_byte(b'\n');
    assert_eq!(writer.column_position(), 0);
    for row in 0..BOTTOM {
        assert_eq!(symbols_of_row(&writer, row), vec![b'A' + row as u8 + 1; BUFFER_WIDTH]);
        let attributes: Vec<u8> = (0..BUFFER_WIDTH).map(|col| col as u8).collect();
        assert_eq!(attributes_of_row(&writer, row), attributes);
    }
    assert_eq!(symbols_of_row(&writer, BOTTOM), line(b""));
    assert_eq!(attributes_of_row(&writer, BOTTOM), vec![0x31; BUFFER_WIDTH]);
}

#[test]
fn a_line_feed_scrolls_even_when_the_row_is_not_full() {
    let mut writer = Writer::console(empty_surface(0x0e));
    writer.write_string("abc");
    assert_eq!(writer.column_position(), 3);
    writer.write_byte(b'\n');
    assert_eq!(writer.column_position(), 0);
    assert_eq!(symbols_of_row(&writer, BOTTOM - 1), line(b"abc"));
    assert_eq!(symbols_of_row(&writer, BOTTOM), line(b""));
    writer.write_string("\n\n");
    assert_eq!(writer.column_position(), 0);
    assert_eq!(symbols_of_row(&writer, BOTTOM - 3), line(b"abc"));
    assert_eq!(symbols_of_row(&writer, BOTTOM - 2), line(b""));
}

#[test]
fn a_line_feed_on_a_full_row_scrolls_once() {
    let mut writer = Writer::console(empty_surface(0x0e));
    let text: String = (0..BUFFER_WIDTH).map(|_| 'x').collect();
    writer.write_string(&text);
    writer.write_byte(b'\n');
    assert_eq!(writer.column_position(), 0);
    assert_eq!(symbols_of_row(&writer, BOTTOM - 1), vec![b'x'; BUFFER_WIDTH]);
    assert_eq!(symbols_of_row(&writer, BOTTOM), line(b""));
    assert_eq!(symbols_of_row(&writer, BOTTOM - 2), line(b""));
}

#[test]
fn the_top_row_is_lost_after_as_many_scrolls_as_there_are_rows() {
    let mut writer = Writer::console(numbered_surface());
    for _ in 0..BUFFER_HEIGHT {
        writer.write_byte(b'\n');
    }
    for row in 0..BUFFER_HEIGHT {
        assert_eq!(symbols_of_row(&writer, row), line(b""));
        assert_eq!(attributes_of_row(&writer, row), vec![0x0e; BUFFER_WIDTH]);
    }
}

#[test]
fn hi_line_feed_ok_on_an_empty_surface() {
    let mut writer = Writer::console(empty_surface(0x0e));
    writer.write_string("HI");
    writer.write_byte(b'\n');
    writer.write_string("OK");
    assert_eq!(symbols_of_row(&writer, BUFFER_HEIGHT - 2), line(b"HI"));
    assert_eq!(symbols_of_row(&writer, BUFFER_HEIGHT - 1), line(b"OK"));
    assert_eq!(writer.column_position(), 2);
    for row in 0..BUFFER_HEIGHT - 2 {
        assert_eq!(symbols_of_row(&writer, row), line(b""));
    }
}

#[test]
fn hi_line_feed_ok_in_one_text() {
    let mut writer = Writer::console(empty_surface(0x0e));
    writer.write_string("HI\nOK");
    assert_eq!(symbols_of_row(&writer, BUFFER_HEIGHT - 2), line(b"HI"));
    assert_eq!(symbols_of_row(&writer, BUFFER_HEIGHT - 1), line(b"OK"));
    assert_eq!(writer.column_position(), 2);
}

#[test]
fn two_texts_in_a_row_are_their_concatenation() {
    let mut split = Writer::console(numbered_surface());
    split.write_string("first\nsec");
    split.write_string("ond\tline");
    let mut whole = Writer::console(numbered_surface());
    whole.write_string("first\nsecond\tline");
    assert_eq!(split.column_position(), whole.column_position());
    for row in 0..BUFFER_HEIGHT {
        assert_eq!(symbols_of_row(&split, row), symbols_of_row(&whole, row));
        assert_eq!(attributes_of_row(&split, row), attributes_of_row(&whole, row));
    }
}

#[test]
fn a_long_text_wraps_onto_the_next_row() {
    let mut writer = Writer::console(empty_surface(0x0e));
    let text: String = (0..BUFFER_WIDTH + 5).map(|col| (b'a' + (col % 26) as u8) as char).collect();
    writer.write_string(&text);
    assert_eq!(writer.column_position(), 5);
    assert_eq!(symbols_of_row(&writer, BOTTOM - 1), text.as_bytes()[..BUFFER_WIDTH].to_vec());
    assert_eq!(symbols_of_row(&writer, BOTTOM), line(&text.as_bytes()[BUFFER_WIDTH..]));
}

#[test]
fn write_str_emits_the_text_and_reports_success() {
    let mut writer = Writer::console(empty_surface(0x0e));
    assert!(writer.write_str("sink\n\u{1}!").is_ok());
    assert_eq!(symbols_of_row(&writer, BOTTOM - 1), line(b"sink"));
    assert_eq!(symbols_of_row(&writer, BOTTOM), line(&[0xfe, b'!']));
    assert_eq!(writer.column_position(), 2);
    assert!(writer.write_str("").is_ok());
    assert_eq!(writer.column_position(), 2);
}

#[test]
fn write_char_goes_through_the_sink() {
    let mut writer = Writer::console(empty_surface(0x0e));
    assert!(writer.write_char('Z').is_ok());
    assert!(writer.write_char('\u{e9}').is_ok());
    assert_eq!(symbols_of_row(&writer, BOTTOM), line(&[b'Z', 0xfe, 0xfe]));
}
