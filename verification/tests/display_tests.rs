use snakian_kernel::buffer::{Buffer, FrameBufferConfig};
use snakian_kernel::char_writer::{CharWriter, MAX_COLS, MAX_ROWS};
use snakian_kernel::chars::{get_char_sprite, glyph_bits, FALLBACK_GLYPH};
use snakian_kernel::color::{conv_rgb_tuple, Color, ColorCode, PixelFormat};
use snakian_kernel::screen_char::ScreenChar;
use snakian_kernel::vector::Vector;

fn small_config() -> FrameBufferConfig {
    FrameBufferConfig {
        width: 88,
        height: 32,
        stride: 88,
        bytes_per_pixel: 3,
        pixel_format: PixelFormat::Rgb,
    }
}

#[test]
fn glyph_total_over_ascii() {
    for c in 0u8..128 {
        let s = get_char_sprite(c);
        assert_eq!(s.len(), 64);
    }
}

#[test]
fn glyph_fallback_past_ascii() {
    let fallback = get_char_sprite(255);
    for c in 128u8..=255 {
        assert_eq!(glyph_bits(c), FALLBACK_GLYPH);
        assert_eq!(get_char_sprite(c), fallback);
    }
    // the placeholder byte written for unprintable input draws the box
    assert_eq!(glyph_bits(0xfe), FALLBACK_GLYPH);
}

#[test]
fn glyph_exact_values() {
    // 'A' row bitmaps packed little end first
    assert_eq!(glyph_bits(b'A'), 0x0033333F33331E0Cu64);
    // control bytes and space draw nothing
    assert_eq!(glyph_bits(0), 0);
    assert_eq!(glyph_bits(b' '), 0);
    assert_eq!(glyph_bits(127), 0);
    // sprite unpacking: bit (x, y) sits at index y * 8 + x
    let a = get_char_sprite(b'A');
    assert!(a[8 + 1]); // row 1 is 0x1E: bit 1 set
    assert!(!a[8]); // row 1 bit 0 clear
}

#[test]
fn conv_rgb_orders_channels() {
    assert_eq!(conv_rgb_tuple((1, 2, 3), PixelFormat::Rgb), (1, 2, 3));
    assert_eq!(conv_rgb_tuple((1, 2, 3), PixelFormat::Bgr), (3, 2, 1));
    assert_eq!(
        conv_rgb_tuple(
            (1, 2, 3),
            PixelFormat::Custom { red_position: 2, green_position: 0, blue_position: 1 }
        ),
        (2, 3, 1)
    );
    // a collision is won by the later channel
    assert_eq!(
        conv_rgb_tuple(
            (1, 2, 3),
            PixelFormat::Custom { red_position: 0, green_position: 0, blue_position: 2 }
        ),
        (2, 0, 3)
    );
}

#[test]
fn color_code_constructors() {
    let c = ColorCode::new(10, 20, 30);
    assert_eq!(c.char_color, (10, 20, 30));
    assert_eq!(c.bg_color, None);
    assert!(!c.has_bg);
    let d = ColorCode::new_with_bg((1, 2, 3), (4, 5, 6));
    assert_eq!(d.char_color, (1, 2, 3));
    assert_eq!(d.bg_color, Some((4, 5, 6)));
    assert!(d.has_bg);
    let def = ColorCode::default();
    assert_eq!(def.char_color, (255, 255, 255));
    assert_eq!(def.bg_color, Some((0, 0, 0)));
    assert_eq!(d.to_format(PixelFormat::Bgr), (3, 2, 1));
    assert_eq!(d.format_bg(PixelFormat::Bgr), Some((6, 5, 4)));
    assert_eq!(c.format_bg(PixelFormat::Rgb), None);
}

#[test]
fn palette_colors() {
    assert_eq!(Color::Black.rgb(), (0, 0, 0));
    assert_eq!(Color::White.rgb(), (255, 255, 255));
    assert_eq!(Color::Red.rgb(), (170, 0, 0));
    assert_eq!(Color::LightBlue.rgb(), (85, 85, 255));
}

#[test]
fn screen_char_constructors() {
    let s = ScreenChar::from_u8(b'x');
    assert_eq!(s.ascii_character, b'x');
    assert_eq!(s.color_code, ColorCode::default());
    let t = ScreenChar::new(b'y', ColorCode::new(1, 1, 1));
    assert_eq!(t.ascii_character, b'y');
    let n = ScreenChar::none();
    assert_eq!(n.ascii_character, 0);
}

#[test]
fn vector_componentwise() {
    let a = Vector::new(3, 4);
    let b = Vector::new(1, 2);
    assert_eq!(a.add(b), Vector::new(4, 6));
    assert_eq!(a.sub(b), Vector::new(2, 2));
    assert_eq!(a.mul(b), Vector::new(3, 8));
    assert_eq!(Vector::default(), Vector::new(0, 0));
}

#[test]
fn buffer_set_px_and_clear() {
    let mut buf = Buffer::new(small_config());
    assert_eq!(buf.display.len(), 88 * 32);
    assert!(buf.display.iter().all(|p| *p == (0, 0, 0)));
    buf.set_px(5, 2, (9, 9, 9));
    assert_eq!(buf.display[2 * 88 + 5], (9, 9, 9));
    buf.clear();
    assert_eq!(buf.display[2 * 88 + 5], (0, 0, 0));
}

#[test]
fn buffer_scaled_block() {
    let mut buf = Buffer::new(small_config());
    buf.draw_px_scaled(4, 6, (1, 2, 3), 2);
    for y in 6..8 {
        for x in 4..6 {
            assert_eq!(buf.display[y * 88 + x], (1, 2, 3));
        }
    }
    assert_eq!(buf.display[6 * 88 + 3], (0, 0, 0));
    assert_eq!(buf.display[6 * 88 + 6], (0, 0, 0));
    assert_eq!(buf.display[5 * 88 + 4], (0, 0, 0));
    assert_eq!(buf.display[8 * 88 + 4], (0, 0, 0));
}

#[test]
fn char_writer_active_size() {
    let w = CharWriter::new(small_config());
    // 88 / 8 = 11 columns fit, 32 / 8 = 4 rows fit, one margin each
    assert_eq!(w.char_buff_size.x, 10);
    assert_eq!(w.char_buff_size.y, 3);
    assert_eq!(w.char_scale, 1);
    assert_eq!(w.char_buffer.len(), MAX_COLS * MAX_ROWS);
}

#[test]
fn resize_scale_invariant() {
    let config = FrameBufferConfig {
        width: 640,
        height: 480,
        stride: 640,
        bytes_per_pixel: 3,
        pixel_format: PixelFormat::Bgr,
    };
    let mut w = CharWriter::new(config);
    for scale in 1usize..=4 {
        w.set_scale(scale);
        assert!(w.char_buff_size.x * 8 * scale <= config.width);
        assert!(w.char_buff_size.y * 8 * scale <= config.height);
        let fit_x = (config.width / (8 * scale)).min(MAX_COLS) - 1;
        let fit_y = (config.height / (8 * scale)).min(MAX_ROWS) - 1;
        assert_eq!(w.char_buff_size.x, fit_x);
        assert_eq!(w.char_buff_size.y, fit_y);
    }
}

#[test]
fn flush_twice_same_pixels() {
    let mut buf = Buffer::new(small_config());
    let mut w = CharWriter::new(small_config());
    w.char_buffer[0 * MAX_COLS + 2] = ScreenChar::new(b'A', ColorCode::new_with_bg((255, 0, 0), (0, 0, 255)));
    w.flush_char_at(&mut buf, 0, 2);
    let once = buf.display.clone();
    w.flush_char_at(&mut buf, 0, 2);
    assert_eq!(buf.display, once);
    w.flush_row(&mut buf, 0);
    assert_eq!(buf.display, once);
    w.flush_char_buf(&mut buf);
    assert_eq!(buf.display, once);
}

#[test]
fn flush_renders_foreground_and_background() {
    let mut buf = Buffer::new(small_config());
    let mut w = CharWriter::new(small_config());
    // a full box glyph (fallback) with red on blue shows both colors
    w.char_buffer[0] = ScreenChar::new(0xfe, ColorCode::new_with_bg((255, 0, 0), (0, 0, 255)));
    w.flush_char_at(&mut buf, 0, 0);
    // top row of the box glyph is all set: red
    for x in 0..8 {
        assert_eq!(buf.display[x], (255, 0, 0));
    }
    // row 1 has only the side bits set
    assert_eq!(buf.display[88], (255, 0, 0));
    assert_eq!(buf.display[88 + 1], (0, 0, 255));
    // outside the glyph box nothing was painted
    assert_eq!(buf.display[8], (0, 0, 0));
}

#[test]
fn fill_and_clear_row() {
    let mut w = CharWriter::new(small_config());
    let color = ColorCode::new(1, 2, 3);
    w.fill(b'#', color);
    for row in 0..3 {
        for col in 0..10 {
            assert_eq!(w.char_buffer[row * MAX_COLS + col], ScreenChar::new(b'#', color));
        }
    }
    // outside the active region untouched
    assert_eq!(w.char_buffer[0 * MAX_COLS + 10], ScreenChar::none());
    assert_eq!(w.char_buffer[3 * MAX_COLS], ScreenChar::none());
    w.clear_row(1);
    for col in 0..10 {
        assert_eq!(
            w.char_buffer[1 * MAX_COLS + col],
            ScreenChar::new(b' ', ColorCode::default())
        );
    }
    assert_eq!(w.char_buffer[0 * MAX_COLS + 3], ScreenChar::new(b'#', color));
    w.fill_row(2, b'!', color);
    assert_eq!(w.char_buffer[2 * MAX_COLS + 9], ScreenChar::new(b'!', color));
}
