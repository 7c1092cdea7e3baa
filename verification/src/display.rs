use vstd::prelude::*;
use crate::buffer::{black_pixels, Buffer, FrameBufferConfig};
use crate::char_writer::{CharWriter, MAX_COLS, MAX_ROWS};
use crate::color::PixelFormat;
use crate::screen_char::ScreenChar;
use crate::terminal::TerminalWriter;
use bootloader_api::info::FrameBufferInfo;
use bootloader_api::info::PixelFormat as BootPixelFormat;

verus! {

// The framebuffer descriptor arrives from the boot environment as
// bootloader_api types; its plain fields are read directly, and the pixel
// format is classified into the library's own model at the wrapper below.

#[verifier::external_type_specification]
pub struct ExBootPixelFormat(BootPixelFormat);

#[verifier::external_type_specification]
pub struct ExFrameBufferInfo(FrameBufferInfo);

/// The model of a reported pixel format: the red/green/blue byte orders
/// map to their models, an unknown layout carries its channel positions
/// over, and the 8-bit grayscale format (or any future variant) yields
/// nothing, since no RGB triple can be written through it.
pub open spec fn classify_spec(f: BootPixelFormat) -> Option<PixelFormat> {
    match f {
        BootPixelFormat::Rgb => Some(PixelFormat::Rgb),
        BootPixelFormat::Bgr => Some(PixelFormat::Bgr),
        BootPixelFormat::Unknown { red_position, green_position, blue_position } => Some(
            PixelFormat::Custom { red_position, green_position, blue_position },
        ),
        _ => None,
    }
}

/// Classifies a reported pixel format into the library's model.
fn classify_pixel_format(f: &BootPixelFormat) -> (r: Option<PixelFormat>)
    ensures
        r == classify_spec(*f),
{
    match f {
        BootPixelFormat::Rgb => Some(PixelFormat::Rgb),
        BootPixelFormat::Bgr => Some(PixelFormat::Bgr),
        BootPixelFormat::Unknown { red_position, green_position, blue_position } => Some(
            PixelFormat::Custom {
                red_position: *red_position,
                green_position: *green_position,
                blue_position: *blue_position,
            },
        ),
        _ => None,
    }
}

/// The display subsystem: the pixel surface, the character grid over it,
/// and the terminal writer driving both. Built once at start of day from
/// the framebuffer hand-off; the runtime shell owns it for the life of the
/// process.
pub struct Display {
    /// The pixel surface.
    pub buffer: Buffer,
    /// The character grid rendered onto the surface.
    pub chars: CharWriter,
    /// The cursor-based writer over the grid.
    pub writer: TerminalWriter,
}

impl Display {
    /// The display invariant: surface and grid agree on the geometry and
    /// the cursor sits inside the active region.
    pub open spec fn wf(self) -> bool {
        &&& self.buffer.wf()
        &&& self.chars.wf()
        &&& self.chars.config == self.buffer.config
        &&& self.writer.cursor_wf(self.chars)
    }
}

/// Whether a configuration can carry the display: sane geometry, room for
/// at least two active rows and one active column at scale 1, and a
/// writable 24-bit pixel format.
pub open spec fn config_supported_spec(config: FrameBufferConfig) -> bool {
    &&& config.width <= config.stride
    &&& config.stride * config.height <= usize::MAX
    &&& config.pixel_format.wf()
    &&& 16 <= config.width
    &&& 24 <= config.height
}

/// Builds the display over the given geometry: a black surface, an empty
/// grid at scale 1, and the writer in the default color at the start of
/// the second row.
pub fn init(config: FrameBufferConfig) -> (d: Display)
    requires
        config_supported_spec(config),
    ensures
        d.wf(),
        d.buffer.config == config,
        d.chars.char_scale == 1,
        d.chars.char_buff_size.x == crate::char_writer::active_dim(
            config.width as int,
            1,
            MAX_COLS as int,
        ),
        d.chars.char_buff_size.y == crate::char_writer::active_dim(
            config.height as int,
            1,
            MAX_ROWS as int,
        ),
        d.buffer.display@ == black_pixels((config.stride * config.height) as nat),
        forall|i: int|
            0 <= i < MAX_COLS * MAX_ROWS ==> d.chars.char_buffer@[i] == ScreenChar::none_spec(),
        d.writer.row_pos == 1,
        d.writer.col_pos == 0,
        d.writer.color_code == crate::color::ColorCode::default_spec(),
{
    let buffer = Buffer::new(config);
    let chars = CharWriter::new(config);
    let writer = TerminalWriter::new();
    proof {
        crate::char_writer::lemma_div_bounds(config.height as int, 8);
        assert(chars.char_buff_size.y >= 2) by {
            assert(config.height as int / 8 >= 3) by (nonlinear_arith)
                requires
                    24 <= config.height,
                    (config.height as int / 8) * 8 <= config.height as int,
                    (config.height as int) < (config.height as int / 8) * 8 + 8,
            ;
        }
    }
    Display { buffer, chars, writer }
}

/// Builds the display from the geometry the library's caller can check:
/// the result exists exactly when the configuration is supported, and is
/// then the freshly initialized display: black surface, empty grid at
/// scale 1, writer in the default color at the start of the second row.
pub fn init_checked(config: FrameBufferConfig) -> (r: Option<Display>)
    ensures
        r is Some <==> config_supported_spec(config),
        r matches Some(d) ==> {
            &&& d.wf()
            &&& d.buffer.config == config
            &&& d.chars.char_scale == 1
            &&& d.chars.char_buff_size.x == crate::char_writer::active_dim(
                config.width as int,
                1,
                MAX_COLS as int,
            )
            &&& d.chars.char_buff_size.y == crate::char_writer::active_dim(
                config.height as int,
                1,
                MAX_ROWS as int,
            )
            &&& d.buffer.display@ == black_pixels((config.stride * config.height) as nat)
            &&& forall|i: int|
                0 <= i < MAX_COLS * MAX_ROWS ==> d.chars.char_buffer@[i]
                    == ScreenChar::none_spec()
            &&& d.writer.row_pos == 1
            &&& d.writer.col_pos == 0
            &&& d.writer.color_code == crate::color::ColorCode::default_spec()
        },
{
    let format_ok = match config.pixel_format {
        PixelFormat::Rgb => true,
        PixelFormat::Bgr => true,
        PixelFormat::Custom { red_position, green_position, blue_position } => red_position < 3
            && green_position < 3 && blue_position < 3,
    };
    if format_ok && config.width <= config.stride && 16 <= config.width && 24 <= config.height
        && (config.height == 0 || config.stride <= usize::MAX / config.height) {
        proof {
            if config.height > 0 {
                crate::char_writer::lemma_div_bounds(usize::MAX as int, config.height as int);
                assert(config.stride * config.height <= usize::MAX) by (nonlinear_arith)
                    requires
                        config.stride <= usize::MAX as int / (config.height as int),
                        (usize::MAX as int / (config.height as int)) * (config.height as int)
                            <= usize::MAX as int,
                        config.height >= 1,
                ;
            }
        }
        Some(init(config))
    } else {
        proof {
            if config.width <= config.stride && 16 <= config.width && 24 <= config.height
                && format_ok {
                assert(config.stride > usize::MAX / config.height);
                crate::char_writer::lemma_div_bounds(usize::MAX as int, config.height as int);
                assert(config.stride * config.height > usize::MAX) by (nonlinear_arith)
                    requires
                        config.stride as int >= usize::MAX as int / (config.height as int) + 1,
                        (usize::MAX as int) < (usize::MAX as int / (config.height as int)) * (
                        config.height as int) + config.height,
                        config.height >= 1,
                ;
            }
        }
        None
    }
}

/// Reads the plain geometry out of the boot hand-off descriptor and
/// classifies its pixel format. The result exists exactly when the
/// reported format classifies to a well-formed 24-bit layout; it then
/// carries the descriptor's geometry and that classified format.
pub fn config_from_info(info: &FrameBufferInfo) -> (r: Option<
    FrameBufferConfig,
>)
    ensures
        r is Some <==> (classify_spec(info.pixel_format) matches Some(pf) && pf.wf()),
        r matches Some(config) ==> {
            &&& config.width == info.width
            &&& config.height == info.height
            &&& config.stride == info.stride
            &&& config.bytes_per_pixel == info.bytes_per_pixel
            &&& Some(config.pixel_format) == classify_spec(info.pixel_format)
            &&& config.pixel_format.wf()
        },
{
    let format = classify_pixel_format(&info.pixel_format);
    match format {
        Some(pf) => {
            let format_ok = match pf {
                PixelFormat::Rgb => true,
                PixelFormat::Bgr => true,
                PixelFormat::Custom { red_position, green_position, blue_position } =>
                    red_position < 3 && green_position < 3 && blue_position < 3,
            };
            if format_ok {
                Some(
                    FrameBufferConfig {
                        width: info.width,
                        height: info.height,
                        stride: info.stride,
                        bytes_per_pixel: info.bytes_per_pixel,
                        pixel_format: pf,
                    },
                )
            } else {
                None
            }
        },
        None => None,
    }
}

} // verus!
