use snakian_kernel::buffer::{Buffer, FrameBufferConfig};
use snakian_kernel::char_writer::{CharWriter, MAX_COLS};
use snakian_kernel::color::{ColorCode, PixelFormat};
use snakian_kernel::display;
use snakian_kernel::hardware_interrupts::{init_hardware, sleep_done, InterruptIndex, TickCounter};
use snakian_kernel::interrupts::{
    DescriptorTable, IdtError, IdtLoader, InterruptHandler, IDT_SLOTS, PIC_1_OFFSET, PIC_2_OFFSET,
};
use snakian_kernel::keyboard_driver::KeyboardDriver;
use snakian_kernel::log::{Level, LogHandler};
use snakian_kernel::panic_screen::{panic_colors, PanicFlasher};
use snakian_kernel::rand::RandState;
use snakian_kernel::terminal::TerminalWriter;
use snakian_kernel::testing::QemuExitCode;

#[test]
fn interrupt_index_vectors() {
    assert_eq!(PIC_1_OFFSET, 32);
    assert_eq!(PIC_2_OFFSET, 40);
    assert_eq!(InterruptIndex::Timer.as_u8(), 32);
    assert_eq!(InterruptIndex::Keyboard.as_u8(), 33);
    assert_eq!(InterruptIndex::Keyboard.as_usize(), 33);
}

#[test]
fn idt_load_applies_handlers_and_loaders() {
    let mut loader = IdtLoader::new();
    let mut idt = DescriptorTable::new();
    init_hardware(&mut loader, 101, 102);
    loader.add_raw_unchecked(3, 55);
    loader.add_handler_fn(900);
    loader.add_handler_fn(901);
    loader.load(&mut idt);
    assert!(loader.is_loaded);
    assert_eq!(idt.entries[32], Some(101));
    assert_eq!(idt.entries[33], Some(102));
    assert_eq!(idt.entries[3], Some(55));
    assert_eq!(idt.entries[4], None);
    assert_eq!(idt.applied_loaders, vec![900, 901]);
}

#[test]
fn idt_second_load_is_a_no_op() {
    let mut loader = IdtLoader::new();
    let mut idt = DescriptorTable::new();
    loader.add_raw(InterruptIndex::Timer, 7);
    loader.load(&mut idt);
    let entries = idt.entries.clone();
    let loaders = idt.applied_loaders.clone();
    loader.load(&mut idt);
    assert_eq!(idt.entries, entries);
    assert_eq!(idt.applied_loaders, loaders);
}

#[test]
fn idt_registration_after_load_is_refused() {
    let mut loader = IdtLoader::new();
    let mut idt = DescriptorTable::new();
    let h = InterruptHandler::new_unchecked(5, 77);
    assert_eq!(loader.try_add_handler(h), Ok(()));
    loader.load(&mut idt);
    let r = loader.try_add_handler(InterruptHandler::new_unchecked(6, 78));
    assert_eq!(r, Err(IdtError::AlreadyLoaded));
    // the refused registration left the slots alone
    assert_eq!(loader.handlers[6], None);
    assert_eq!(loader.handlers[5], Some(h));
    assert_eq!(loader.handlers.len(), IDT_SLOTS);
}

#[test]
fn ticks_count_up_and_sleep_waits() {
    let mut t = TickCounter::new();
    assert_eq!(t.get(), 0);
    let mut readings = Vec::new();
    readings.push(t.get());
    for _ in 0..5 {
        t.tick();
        readings.push(t.get());
    }
    assert_eq!(t.get(), 5);
    // the readings never decrease
    for w in readings.windows(2) {
        assert!(w[0] <= w[1]);
    }
    // a sleep of 3 from snapshot 0 is not done until the counter reads 3
    assert!(!sleep_done(2, 0, 3));
    assert!(sleep_done(3, 0, 3));
    assert!(sleep_done(5, 0, 3));
}

#[test]
fn keyboard_last_write_wins() {
    let mut kbd = KeyboardDriver::new();
    // scancode set 1: key-down A, then key-down B, with no read between
    kbd.handle_byte(0x1E);
    kbd.handle_byte(0x30);
    assert_eq!(kbd.current_char, Some('b'));
    assert_eq!(kbd.current_char_as_key, Some(pc_keyboard::KeyCode::B));
    // A was never released: its pressed bit is still set
    assert!(kbd.pressed_keys[pc_keyboard::KeyCode::A as u8 as usize]);
    assert!(kbd.pressed_keys[pc_keyboard::KeyCode::B as u8 as usize]);
}

#[test]
fn keyboard_release_clears_current() {
    let mut kbd = KeyboardDriver::new();
    kbd.handle_byte(0x1E); // A down
    assert_eq!(kbd.current_char, Some('a'));
    kbd.handle_byte(0x9E); // A up
    assert_eq!(kbd.current_char, None);
    assert_eq!(kbd.current_key, None);
    assert!(!kbd.pressed_keys[pc_keyboard::KeyCode::A as u8 as usize]);
}

#[test]
fn keyboard_raw_key_has_no_character() {
    let mut kbd = KeyboardDriver::new();
    kbd.handle_byte(0x3B); // F1 down
    assert_eq!(kbd.current_char, None);
    assert_eq!(kbd.current_key, Some(pc_keyboard::KeyCode::F1));
    assert!(!kbd.is_unicode);
}

#[test]
fn rand_follows_xorshift() {
    let mut r = RandState::new(0xdeadbeef);
    let mut x: u64 = 0xdeadbeef;
    x ^= x << 13;
    x ^= x >> 7;
    x ^= x << 17;
    assert_eq!(r.rand(), x);
    let mut r2 = RandState::new(0xdeadbeef);
    assert_eq!(r2.rand_byte(), (x & 0xff) as u8);
    let mut r3 = RandState::new(0xdeadbeef);
    let v = r3.rand_range(10, 20);
    assert_eq!(v, x % 10 + 10);
    assert!((10..20).contains(&v));
}

#[test]
fn log_filter_levels() {
    let mut h = LogHandler::new(Level::Info, Level::Warn);
    assert!(h.enabled(Level::Error));
    assert!(h.enabled(Level::Info));
    assert!(!h.enabled(Level::Debug));
    // nothing reaches the display before it is up
    assert!(!h.should_display(Level::Error));
    h.init_display();
    assert!(h.should_display(Level::Warn));
    assert!(!h.should_display(Level::Info));
}

#[test]
fn panic_flasher_paces_by_tens() {
    let mut f = PanicFlasher::new();
    // tick 0 matches the stored reading: nothing yet
    assert_eq!(f.on_tick(0), None);
    assert_eq!(f.on_tick(7), None);
    let first = f.on_tick(10);
    assert_eq!(first, Some(panic_colors(1)));
    // same reading again: no second repaint
    assert_eq!(f.on_tick(10), None);
    let second = f.on_tick(20);
    assert_eq!(second, Some(panic_colors(2)));
    assert_ne!(first, second);
    assert_eq!(panic_colors(2), ColorCode::new_with_bg((255, 0, 0), (255, 255, 255)));
    assert_eq!(panic_colors(1), ColorCode::new_with_bg((255, 255, 255), (255, 0, 0)));
}

#[test]
fn panic_frame_renders_message_at_origin() {
    let config = FrameBufferConfig {
        width: 160,
        height: 40,
        stride: 160,
        bytes_per_pixel: 3,
        pixel_format: PixelFormat::Rgb,
    };
    let mut buf = Buffer::new(config);
    let mut chars = CharWriter::new(config);
    let mut writer = TerminalWriter::new();
    writer.set_pos(&chars, 0, 0);
    let color = panic_colors(0);
    snakian_kernel::panic_screen::render_panic_frame(
        &mut writer,
        &mut chars,
        &mut buf,
        color,
        "kernel main",
        "oops",
    );
    assert_eq!((writer.row_pos, writer.col_pos), (0, 0));
    assert_eq!(writer.color_code, color);
    let row0: Vec<u8> =
        (0..11).map(|c| chars.char_buffer[c].ascii_character).collect();
    assert_eq!(row0, b"kernel main".to_vec());
    let row1: Vec<u8> =
        (0..4).map(|c| chars.char_buffer[MAX_COLS + c].ascii_character).collect();
    assert_eq!(row1, b"oops".to_vec());
}

#[test]
fn display_init_checked_accepts_and_refuses() {
    let good = FrameBufferConfig {
        width: 88,
        height: 32,
        stride: 88,
        bytes_per_pixel: 3,
        pixel_format: PixelFormat::Rgb,
    };
    let d = display::init_checked(good);
    assert!(d.is_some());
    let d = d.unwrap();
    assert_eq!(d.chars.char_buff_size.x, 10);
    assert_eq!(d.chars.char_buff_size.y, 3);
    assert!(d.buffer.display.iter().all(|p| *p == (0, 0, 0)));

    let narrow = FrameBufferConfig { width: 8, ..good };
    assert!(display::init_checked(narrow).is_none());
    let short = FrameBufferConfig { height: 16, ..good };
    assert!(display::init_checked(short).is_none());
    let bad_stride = FrameBufferConfig { stride: 50, ..good };
    assert!(display::init_checked(bad_stride).is_none());
    let bad_custom = FrameBufferConfig {
        pixel_format: PixelFormat::Custom {
            red_position: 0,
            green_position: 8,
            blue_position: 16,
        },
        ..good
    };
    assert!(display::init_checked(bad_custom).is_none());
}

#[test]
fn config_from_boot_info() {
    let info = bootloader_api::info::FrameBufferInfo {
        byte_len: 88 * 32 * 3,
        width: 88,
        height: 32,
        pixel_format: bootloader_api::info::PixelFormat::Bgr,
        bytes_per_pixel: 3,
        stride: 88,
    };
    let config = display::config_from_info(&info).unwrap();
    assert_eq!(config.width, 88);
    assert_eq!(config.height, 32);
    assert_eq!(config.stride, 88);
    assert_eq!(config.bytes_per_pixel, 3);
    assert_eq!(config.pixel_format, PixelFormat::Bgr);

    let gray = bootloader_api::info::FrameBufferInfo {
        pixel_format: bootloader_api::info::PixelFormat::U8,
        ..info
    };
    assert!(display::config_from_info(&gray).is_none());

    let scattered = bootloader_api::info::FrameBufferInfo {
        pixel_format: bootloader_api::info::PixelFormat::Unknown {
            red_position: 2,
            green_position: 1,
            blue_position: 0,
        },
        ..info
    };
    let c = display::config_from_info(&scattered).unwrap();
    assert_eq!(
        c.pixel_format,
        PixelFormat::Custom { red_position: 2, green_position: 1, blue_position: 0 }
    );

    // positions that name bits rather than bytes cannot carry a pixel
    let bit_offsets = bootloader_api::info::FrameBufferInfo {
        pixel_format: bootloader_api::info::PixelFormat::Unknown {
            red_position: 0,
            green_position: 8,
            blue_position: 16,
        },
        ..info
    };
    assert!(display::config_from_info(&bit_offsets).is_none());
}

#[test]
fn qemu_exit_codes() {
    assert_eq!(QemuExitCode::Success.value(), 0x10);
    assert_eq!(QemuExitCode::Failed.value(), 0x11);
    assert_ne!(QemuExitCode::Success, QemuExitCode::Failed);
}
