use vstd::prelude::*;

verus! {

/// One pixel: a red, green and blue channel, one byte each.
pub type ColorTuple = (u8, u8, u8);

/// Physical channel order of the framebuffer, as reported by the boot
/// environment. Only one-byte-per-channel 24-bit layouts are representable;
/// the 8-bit indexed format has no value here because the display code
/// refuses to run on it.
#[derive(Debug, Clone, Copy, PartialEq, Eq, Structural)]
pub enum PixelFormat {
    /// Red, then green, then blue.
    Rgb,
    /// Blue, then green, then red.
    Bgr,
    /// Channels scattered to the given byte positions (each below 3).
    Custom { red_position: u8, green_position: u8, blue_position: u8 },
}

impl PixelFormat {
    /// A format the conversion code can act on: custom positions must name
    /// one of the three bytes of a pixel.
    pub open spec fn wf(self) -> bool {
        match self {
            PixelFormat::Rgb => true,
            PixelFormat::Bgr => true,
            PixelFormat::Custom { red_position, green_position, blue_position } =>
                red_position < 3 && green_position < 3 && blue_position < 3,
        }
    }
}

/// The channel triple that lands in memory when `rgb` is written under
/// `format`: red/green/blue scattered into the byte positions the format
/// names, later writes winning on a collision.
pub open spec fn conv_rgb_spec(rgb: ColorTuple, format: PixelFormat) -> ColorTuple {
    match format {
        PixelFormat::Rgb => rgb,
        PixelFormat::Bgr => (rgb.2, rgb.1, rgb.0),
        PixelFormat::Custom { red_position, green_position, blue_position } => {
            let buf = seq![0u8, 0u8, 0u8]
                .update(red_position as int, rgb.0)
                .update(green_position as int, rgb.1)
                .update(blue_position as int, rgb.2);
            (buf[0], buf[1], buf[2])
        },
    }
}

/// Converts an RGB triple into the channel order of the given pixel format.
pub fn conv_rgb_tuple(rgb: ColorTuple, format: PixelFormat) -> (r: ColorTuple)
    requires
        format.wf(),
    ensures
        r == conv_rgb_spec(rgb, format),
{
    match format {
        PixelFormat::Rgb => rgb,
        PixelFormat::Bgr => (rgb.2, rgb.1, rgb.0),
        PixelFormat::Custom { red_position, green_position, blue_position } => {
            let mut buf: [u8; 3] = [0u8, 0u8, 0u8];
            buf[red_position as usize] = rgb.0;
            buf[green_position as usize] = rgb.1;
            buf[blue_position as usize] = rgb.2;
            (buf[0], buf[1], buf[2])
        },
    }
}

/// The classic 16-entry palette, kept as named colors for callers that do
/// not want to spell out channel values.
#[derive(Debug, Clone, Copy, PartialEq, Eq, Structural)]
pub enum Color {
    Black,
    Blue,
    Green,
    Cyan,
    Red,
    Magenta,
    Brown,
    LightGray,
    DarkGray,
    LightBlue,
    LightGreen,
    LightCyan,
    LightRed,
    Pink,
    Yellow,
    White,
}

impl Color {
    /// The RGB value of this palette entry.
    pub open spec fn rgb_spec(self) -> ColorTuple {
        match self {
            Color::Black => (0u8, 0u8, 0u8),
            Color::Blue => (0u8, 0u8, 170u8),
            Color::Green => (0u8, 170u8, 0u8),
            Color::Cyan => (0u8, 170u8, 170u8),
            Color::Red => (170u8, 0u8, 0u8),
            Color::Magenta => (170u8, 0u8, 170u8),
            Color::Brown => (170u8, 85u8, 0u8),
            Color::LightGray => (170u8, 170u8, 170u8),
            Color::DarkGray => (85u8, 85u8, 85u8),
            Color::LightBlue => (85u8, 85u8, 255u8),
            Color::LightGreen => (85u8, 255u8, 85u8),
            Color::LightCyan => (85u8, 255u8, 255u8),
            Color::LightRed => (255u8, 85u8, 85u8),
            Color::Pink => (255u8, 85u8, 255u8),
            Color::Yellow => (255u8, 255u8, 85u8),
            Color::White => (255u8, 255u8, 255u8),
        }
    }

    /// Returns the RGB value of this palette entry.
    pub fn rgb(self) -> (r: ColorTuple)
        ensures
            r == self.rgb_spec(),
    {
        match self {
            Color::Black => (0u8, 0u8, 0u8),
            Color::Blue => (0u8, 0u8, 170u8),
            Color::Green => (0u8, 170u8, 0u8),
            Color::Cyan => (0u8, 170u8, 170u8),
            Color::Red => (170u8, 0u8, 0u8),
            Color::Magenta => (170u8, 0u8, 170u8),
            Color::Brown => (170u8, 85u8, 0u8),
            Color::LightGray => (170u8, 170u8, 170u8),
            Color::DarkGray => (85u8, 85u8, 85u8),
            Color::LightBlue => (85u8, 85u8, 255u8),
            Color::LightGreen => (85u8, 255u8, 85u8),
            Color::LightCyan => (85u8, 255u8, 255u8),
            Color::LightRed => (255u8, 85u8, 85u8),
            Color::Pink => (255u8, 85u8, 255u8),
            Color::Yellow => (255u8, 255u8, 85u8),
            Color::White => (255u8, 255u8, 255u8),
        }
    }
}

/// Foreground color of a character, with an optional background fill.
#[derive(Debug, Clone, Copy, PartialEq, Eq)]
pub struct ColorCode {
    /// The color of the character itself.
    pub char_color: ColorTuple,
    /// The background color, where one is set.
    pub bg_color: Option<ColorTuple>,
    /// Whether the character has a background color.
    pub has_bg: bool,
}

impl ColorCode {
    /// A color code agrees with itself: the flag mirrors the option.
    pub open spec fn wf(self) -> bool {
        self.has_bg == self.bg_color is Some
    }

    /// The default color: white foreground on a black background.
    pub open spec fn default_spec() -> ColorCode {
        ColorCode {
            char_color: (255u8, 255u8, 255u8),
            bg_color: Some((0u8, 0u8, 0u8)),
            has_bg: true,
        }
    }

    /// Creates a color code with the given channel values as the character
    /// color and no background.
    pub fn new(r: u8, g: u8, b: u8) -> (c: ColorCode)
        ensures
            c == (ColorCode { char_color: (r, g, b), bg_color: None::<ColorTuple>, has_bg: false }),
            c.wf(),
    {
        ColorCode { char_color: (r, g, b), has_bg: false, bg_color: None }
    }

    /// Creates a color code with the given character and background colors.
    pub fn new_with_bg(for_char: ColorTuple, bg: ColorTuple) -> (c: ColorCode)
        ensures
            c == (ColorCode { char_color: for_char, bg_color: Some(bg), has_bg: true }),
            c.wf(),
    {
        ColorCode { char_color: for_char, has_bg: true, bg_color: Some(bg) }
    }

    /// Returns the foreground color in the given pixel format.
    pub fn to_format(&self, format: PixelFormat) -> (r: ColorTuple)
        requires
            format.wf(),
        ensures
            r == conv_rgb_spec(self.char_color, format),
    {
        conv_rgb_tuple(self.char_color, format)
    }

    /// Returns the background color in the given pixel format, where one is
    /// set.
    pub fn format_bg(&self, format: PixelFormat) -> (r: Option<ColorTuple>)
        requires
            format.wf(),
        ensures
            r is Some <==> self.bg_color is Some,
            self.bg_color matches Some(b) ==> r == Some(conv_rgb_spec(b, format)),
    {
        match self.bg_color {
            Some(bg) => Some(conv_rgb_tuple(bg, format)),
            None => None,
        }
    }
}

impl Default for ColorCode {
    /// The default color: white foreground on a black background.
    fn default() -> (c: ColorCode)
        ensures
            c == ColorCode::default_spec(),
            c.wf(),
    {
        ColorCode::new_with_bg((255, 255, 255), (0, 0, 0))
    }
}

} // verus!
