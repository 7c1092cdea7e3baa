use vstd::prelude::*;
use crate::buffer::Buffer;
use crate::char_writer::{same_frame, CharWriter};
use crate::color::ColorCode;
use crate::terminal::{term_write_byte_spec, term_write_bytes_spec, TerminalWriter};
use vstd::string::StringSliceAdditionalSpecFns;

verus! {

/// The color of the panic banner in the given phase: the two
/// high-visibility combinations alternate so the message keeps flashing.
pub open spec fn panic_colors_spec(phase: u64) -> ColorCode {
    if phase % 2 == 0 {
        ColorCode {
            char_color: (255u8, 0u8, 0u8),
            bg_color: Some((255u8, 255u8, 255u8)),
            has_bg: true,
        }
    } else {
        ColorCode {
            char_color: (255u8, 255u8, 255u8),
            bg_color: Some((255u8, 0u8, 0u8)),
            has_bg: true,
        }
    }
}

/// Returns the banner color of the given phase.
pub fn panic_colors(phase: u64) -> (c: ColorCode)
    ensures
        c == panic_colors_spec(phase),
{
    if phase % 2 == 0 {
        ColorCode::new_with_bg((255, 0, 0), (255, 255, 255))
    } else {
        ColorCode::new_with_bg((255, 255, 255), (255, 0, 0))
    }
}

/// The pacing state of the panic banner: when the banner last advanced and
/// how often it has. Pacing reads the raw tick counter alone, so the
/// banner keeps flashing even with interrupts disabled.
pub struct PanicFlasher {
    /// The tick reading the banner last acted on.
    pub ticks: u64,
    /// How many times the banner has toggled.
    pub color_timer: u64,
}

impl PanicFlasher {
    /// Creates the pacing state for a banner that has not yet drawn.
    pub fn new() -> (f: PanicFlasher)
        ensures
            f.ticks == 0,
            f.color_timer == 0,
    {
        PanicFlasher { ticks: 0, color_timer: 0 }
    }

    /// One pass of the flashing loop: every tenth tick, and only once per
    /// tick value, the phase advances and the banner color for the new
    /// phase is handed back for repainting; at any other reading nothing
    /// happens.
    pub fn on_tick(&mut self, now: u64) -> (r: Option<ColorCode>)
        requires
            old(self).color_timer < u64::MAX,
        ensures
            (now % 10 == 0 && now != old(self).ticks) ==> {
                &&& final(self).ticks == now
                &&& final(self).color_timer == old(self).color_timer + 1
                &&& r == Some(panic_colors_spec((old(self).color_timer + 1) as u64))
            },
            !(now % 10 == 0 && now != old(self).ticks) ==> r is None && *final(self) == *old(
                self,
            ),
    {
        if now % 10 == 0 && now != self.ticks {
            self.ticks = now;
            self.color_timer = self.color_timer + 1;
            Some(panic_colors(self.color_timer))
        } else {
            None
        }
    }
}

/// Paints one frame of the panic banner: in the given color, the location
/// line, a line break, then the message, with the cursor pinned back to
/// the origin so the next frame overwrites this one.
pub fn render_panic_frame(
    writer: &mut TerminalWriter,
    chars: &mut CharWriter,
    surface: &mut Buffer,
    color: ColorCode,
    location: &str,
    message: &str,
)
    requires
        old(chars).wf(),
        old(surface).wf(),
        old(chars).config == old(surface).config,
        old(writer).cursor_wf(*old(chars)),
    ensures
        final(chars).wf(),
        final(surface).wf(),
        same_frame(*final(chars), *old(chars)),
        final(surface).config == old(surface).config,
        final(writer).color_code == color,
        final(writer).row_pos == 0,
        final(writer).col_pos == 0,
        ({
            let stride = old(surface).config.stride as int;
            let fmt = old(surface).config.pixel_format;
            let scale = old(chars).char_scale as int;
            let cols = old(chars).char_buff_size.x as int;
            let rows = old(chars).char_buff_size.y as int;
            let st0 = old(writer).view_with(*old(chars), *old(surface));
            let st1 = term_write_bytes_spec(
                st0,
                stride,
                fmt,
                scale,
                cols,
                rows,
                location.spec_bytes(),
                color,
            );
            let st2 = term_write_byte_spec(st1, stride, fmt, scale, cols, rows, 10u8, color);
            let st3 = term_write_bytes_spec(
                st2,
                stride,
                fmt,
                scale,
                cols,
                rows,
                message.spec_bytes(),
                color,
            );
            final(chars).char_buffer@ == st3.grid && final(surface).display@ == st3.pixels
        }),
{
    writer.color_code = color;
    writer.write_string(chars, surface, location);
    writer.write_byte(chars, surface, 10);
    writer.write_string(chars, surface, message);
    writer.set_pos(chars, 0, 0);
}

} // verus!
