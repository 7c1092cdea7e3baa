use snakian_kernel::buffer::{Buffer, FrameBufferConfig};
use snakian_kernel::char_writer::{CharWriter, MAX_COLS};
use snakian_kernel::color::{ColorCode, PixelFormat};
use snakian_kernel::screen_char::ScreenChar;
use snakian_kernel::terminal::TerminalWriter;

// 10 active columns, 3 active rows at scale 1
fn term() -> (TerminalWriter, CharWriter, Buffer) {
    let config = FrameBufferConfig {
        width: 88,
        height: 32,
        stride: 88,
        bytes_per_pixel: 3,
        pixel_format: PixelFormat::Rgb,
    };
    let buf = Buffer::new(config);
    let chars = CharWriter::new(config);
    let writer = TerminalWriter::new();
    (writer, chars, buf)
}

fn cell(chars: &CharWriter, row: usize, col: usize) -> u8 {
    chars.char_buffer[row * MAX_COLS + col].ascii_character
}

fn row_text(chars: &CharWriter, row: usize, len: usize) -> Vec<u8> {
    (0..len).map(|c| cell(chars, row, c)).collect()
}

#[test]
fn writer_starts_on_second_row() {
    let (writer, _, _) = term();
    assert_eq!(writer.row_pos, 1);
    assert_eq!(writer.col_pos, 0);
    assert_eq!(writer.color_code, ColorCode::default());
}

#[test]
fn write_byte_places_and_advances() {
    let (mut writer, mut chars, mut buf) = term();
    writer.set_pos(&chars, 0, 0);
    writer.write_byte(&mut chars, &mut buf, b'H');
    writer.write_byte(&mut chars, &mut buf, b'i');
    assert_eq!(cell(&chars, 0, 0), b'H');
    assert_eq!(cell(&chars, 0, 1), b'i');
    assert_eq!((writer.row_pos, writer.col_pos), (0, 2));
}

#[test]
fn newline_moves_cursor() {
    let (mut writer, mut chars, mut buf) = term();
    writer.set_pos(&chars, 0, 4);
    writer.write_byte(&mut chars, &mut buf, b'\n');
    assert_eq!((writer.row_pos, writer.col_pos), (1, 0));
}

#[test]
fn wrap_splits_at_width() {
    let (mut writer, mut chars, mut buf) = term();
    writer.set_pos(&chars, 0, 0);
    // 10 columns, write 13 printable bytes: expect cursor at (1, 3)
    writer.write_string(&mut chars, &mut buf, "abcdefghijklm");
    assert_eq!((writer.row_pos, writer.col_pos), (1, 3));
    assert_eq!(row_text(&chars, 0, 10), b"abcdefghij".to_vec());
    assert_eq!(row_text(&chars, 1, 3), b"klm".to_vec());
    assert_eq!(cell(&chars, 1, 3), 0);
}

#[test]
fn three_rows_then_one_more_scrolls() {
    let (mut writer, mut chars, mut buf) = term();
    writer.set_pos(&chars, 0, 0);
    writer.write_string(&mut chars, &mut buf, "AAAAAAAAAA");
    writer.write_string(&mut chars, &mut buf, "BBBBBBBBBB");
    writer.write_string(&mut chars, &mut buf, "CCCCCCCCCC");
    assert_eq!(row_text(&chars, 0, 10), vec![b'A'; 10]);
    assert_eq!(row_text(&chars, 1, 10), vec![b'B'; 10]);
    assert_eq!(row_text(&chars, 2, 10), vec![b'C'; 10]);
    // one more character: the grid shifts up by one row
    writer.write_byte(&mut chars, &mut buf, b'D');
    assert_eq!(row_text(&chars, 0, 10), vec![b'B'; 10]);
    assert_eq!(row_text(&chars, 1, 10), vec![b'C'; 10]);
    assert_eq!(cell(&chars, 2, 0), b'D');
    for c in 1..10 {
        assert_eq!(cell(&chars, 2, c), b' ');
    }
    assert_eq!((writer.row_pos, writer.col_pos), (2, 1));
}

#[test]
fn backspace_erases_previous_cell() {
    let (mut writer, mut chars, mut buf) = term();
    writer.set_pos(&chars, 0, 0);
    writer.write_string(&mut chars, &mut buf, "HI");
    writer.backspace(&mut chars, &mut buf);
    assert_eq!((writer.row_pos, writer.col_pos), (0, 1));
    assert_eq!(cell(&chars, 0, 1), 0);
    assert_eq!(cell(&chars, 0, 0), b'H');
}

#[test]
fn backspace_at_line_start_finds_content_end() {
    let (mut writer, mut chars, mut buf) = term();
    writer.set_pos(&chars, 0, 0);
    writer.write_string(&mut chars, &mut buf, "HI");
    // cursor at the start of the next row; row 0 holds "HI" then blanks
    writer.set_pos(&chars, 1, 0);
    writer.backspace(&mut chars, &mut buf);
    // just past "HI", not at the grid edge
    assert_eq!((writer.row_pos, writer.col_pos), (0, 2));
}

#[test]
fn backspace_at_line_start_of_empty_row() {
    let (mut writer, mut chars, mut buf) = term();
    writer.set_pos(&chars, 1, 0);
    writer.backspace(&mut chars, &mut buf);
    assert_eq!((writer.row_pos, writer.col_pos), (0, 0));
}

#[test]
fn backspace_at_origin_does_nothing() {
    let (mut writer, mut chars, mut buf) = term();
    writer.set_pos(&chars, 0, 0);
    writer.backspace(&mut chars, &mut buf);
    assert_eq!((writer.row_pos, writer.col_pos), (0, 0));
}

#[test]
fn unprintable_bytes_become_placeholder() {
    let (mut writer, mut chars, mut buf) = term();
    writer.set_pos(&chars, 0, 0);
    writer.write_string(&mut chars, &mut buf, "\ta");
    assert_eq!(cell(&chars, 0, 0), 0xfe);
    assert_eq!(cell(&chars, 0, 1), b'a');
}

#[test]
fn write_byte_at_updates_model_only() {
    let (mut writer, mut chars, mut buf) = term();
    let before = buf.display.clone();
    writer.write_byte_at(&mut chars, b'Q', 2, 7);
    assert_eq!(cell(&chars, 2, 7), b'Q');
    assert_eq!(buf.display, before);
}

#[test]
fn write_string_at_without_wrap() {
    let (mut writer, mut chars, mut buf) = term();
    writer.write_string_at(&mut chars, &mut buf, "hello", 1, 2, false);
    assert_eq!(row_text(&chars, 1, 2), vec![0, 0]);
    assert_eq!(&row_text(&chars, 1, 7)[2..], b"hello");
    // the cursor does not move on positioned writes
    assert_eq!((writer.row_pos, writer.col_pos), (1, 0));
}

#[test]
fn write_string_at_wraps_to_next_row() {
    let (mut writer, mut chars, mut buf) = term();
    writer.write_string_at(&mut chars, &mut buf, "abcdef", 0, 8, true);
    assert_eq!(cell(&chars, 0, 8), b'a');
    assert_eq!(cell(&chars, 0, 9), b'b');
    assert_eq!(row_text(&chars, 1, 4), b"cdef".to_vec());
}

#[test]
fn fill_sets_active_region_and_repaints() {
    let (mut writer, mut chars, mut buf) = term();
    writer.color_code = ColorCode::new_with_bg((1, 1, 1), (2, 2, 2));
    writer.fill(&mut chars, &mut buf, b'*');
    assert_eq!(cell(&chars, 0, 0), b'*');
    assert_eq!(cell(&chars, 2, 9), b'*');
    // background of the glyph box was painted
    assert_ne!(buf.display[0], (0, 0, 0));
}

#[test]
fn reset_restores_origin_and_clears() {
    let (mut writer, mut chars, mut buf) = term();
    writer.set_pos(&chars, 0, 0);
    writer.color_code = ColorCode::new(9, 9, 9);
    writer.write_string(&mut chars, &mut buf, "junk");
    writer.reset(&mut chars, &mut buf);
    assert_eq!((writer.row_pos, writer.col_pos), (0, 0));
    assert_eq!(writer.color_code, ColorCode::default());
    for col in 0..10 {
        assert_eq!(cell(&chars, 0, col), 0);
    }
    assert!(buf.display.iter().all(|p| *p == (0, 0, 0)));
}

#[test]
fn clear_repaints_from_model() {
    let (mut writer, mut chars, mut buf) = term();
    writer.set_pos(&chars, 0, 0);
    writer.write_string(&mut chars, &mut buf, "x");
    let painted = buf.display.clone();
    writer.clear(&chars, &mut buf);
    // the grid still holds the character and was repainted identically
    assert_eq!(cell(&chars, 0, 0), b'x');
    assert_eq!(buf.display, painted);
}

#[test]
fn shift_up_copies_rows_and_clears_last() {
    let (mut writer, mut chars, mut buf) = term();
    writer.write_byte_at(&mut chars, b'1', 0, 0);
    writer.write_byte_at(&mut chars, b'2', 1, 0);
    writer.write_byte_at(&mut chars, b'3', 2, 0);
    writer.shift_up(&mut chars, &mut buf);
    assert_eq!(cell(&chars, 0, 0), b'2');
    assert_eq!(cell(&chars, 1, 0), b'3');
    assert_eq!(cell(&chars, 2, 0), b' ');
}
