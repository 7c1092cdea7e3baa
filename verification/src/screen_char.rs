use vstd::prelude::*;
use crate::color::ColorCode;

verus! {

/// One cell of the character grid: an ASCII byte and the color it is drawn
/// with. An empty cell carries the byte 0.
#[derive(Debug, Clone, Copy, PartialEq, Eq)]
pub struct ScreenChar {
    /// The ASCII byte to display.
    pub ascii_character: u8,
    /// The color the character is displayed with.
    pub color_code: ColorCode,
}

impl ScreenChar {
    /// A cell is well formed when its color code is.
    pub open spec fn wf(self) -> bool {
        self.color_code.wf()
    }

    /// The empty cell: byte 0 in the default color.
    pub open spec fn none_spec() -> ScreenChar {
        ScreenChar { ascii_character: 0u8, color_code: ColorCode::default_spec() }
    }

    /// Creates a cell holding the given byte in the default color.
    pub fn from_u8(c: u8) -> (s: ScreenChar)
        ensures
            s == (ScreenChar { ascii_character: c, color_code: ColorCode::default_spec() }),
            s.wf(),
    {
        ScreenChar { ascii_character: c, color_code: ColorCode::default() }
    }

    /// Creates a cell holding the given byte and color.
    pub fn new(c: u8, color_code: ColorCode) -> (s: ScreenChar)
        ensures
            s == (ScreenChar { ascii_character: c, color_code }),
    {
        ScreenChar { ascii_character: c, color_code }
    }

    /// Creates an empty cell in the default color.
    pub fn none() -> (s: ScreenChar)
        ensures
            s == ScreenChar::none_spec(),
            s.wf(),
    {
        ScreenChar { ascii_character: 0, color_code: ColorCode::default() }
    }
}

} // verus!
