use vstd::prelude::*;
use vstd::arithmetic::div_mod::lemma_fundamental_div_mod_converse;
use crate::color::{ColorTuple, PixelFormat};

verus! {

/// Geometry and pixel format of the framebuffer, as handed over once at
/// start of day.
#[derive(Debug, Clone, Copy, PartialEq, Eq)]
pub struct FrameBufferConfig {
    /// Visible width in pixels.
    pub width: usize,
    /// Visible height in pixels.
    pub height: usize,
    /// Pixels between the start of one line and the start of the next; at
    /// least `width`.
    pub stride: usize,
    /// Bytes each pixel occupies in display memory.
    pub bytes_per_pixel: usize,
    /// Channel order of a pixel.
    pub pixel_format: PixelFormat,
}

impl FrameBufferConfig {
    /// A configuration the pixel surface can be built on: sane geometry and
    /// a 24-bit channel order (the 8-bit indexed format is refused at
    /// initialization, before a surface exists).
    pub open spec fn wf(self) -> bool {
        &&& self.width <= self.stride
        &&& self.stride * self.height <= usize::MAX
        &&& self.pixel_format.wf()
    }
}

/// The coordinates of flat pixel index `p` under the given stride.
pub open spec fn px_of(p: int, stride: int) -> int {
    p % stride
}

/// The row of flat pixel index `p` under the given stride.
pub open spec fn py_of(p: int, stride: int) -> int {
    p / stride
}

/// Whether flat index `p` lies in the `w` by `h` pixel rectangle whose top
/// left corner is `(x, y)`.
pub open spec fn pixel_in_block(p: int, stride: int, x: int, y: int, w: int, h: int) -> bool {
    &&& x <= px_of(p, stride) < x + w
    &&& y <= py_of(p, stride) < y + h
}

/// The pixel sequence after the `w` by `h` rectangle at `(x, y)` is filled
/// with `color` and everything else left alone.
pub open spec fn block_write_spec<T>(
    s: Seq<T>,
    stride: int,
    x: int,
    y: int,
    w: int,
    h: int,
    color: T,
) -> Seq<T> {
    Seq::new(s.len(), |p: int| if pixel_in_block(p, stride, x, y, w, h) { color } else { s[p] })
}

/// The pixel sequence part way through filling a block: the first `i`
/// columns of the block at `(x, y)` are filled to the block's full height
/// `h`, and of column `x + i` the first `j` rows are filled.
pub open spec fn block_write_partial_spec<T>(
    s: Seq<T>,
    stride: int,
    x: int,
    y: int,
    i: int,
    j: int,
    h: int,
    color: T,
) -> Seq<T> {
    Seq::new(
        s.len(),
        |p: int|
            if pixel_in_block(p, stride, x, y, i, h)
                || (px_of(p, stride) == x + i && y <= py_of(p, stride) < y + j) {
                color
            } else {
                s[p]
            },
    )
}

/// All pixels black: the cleared surface.
pub open spec fn black_pixels(n: nat) -> Seq<ColorTuple> {
    Seq::new(n, |p: int| (0u8, 0u8, 0u8))
}

/// A flat index addresses exactly one coordinate pair: `(x, y)` maps to
/// `y * stride + x`, and that index maps back to `(x, y)`.
pub proof fn lemma_pixel_coords(x: int, y: int, stride: int)
    requires
        0 <= x < stride,
        0 <= y,
    ensures
        px_of(y * stride + x, stride) == x,
        py_of(y * stride + x, stride) == y,
{
    lemma_fundamental_div_mod_converse(y * stride + x, stride, y, x);
}

/// A pixel inside the visible area has a flat index inside the buffer.
pub proof fn lemma_pixel_index_in_range(x: int, y: int, stride: int, height: int)
    requires
        0 <= x < stride,
        0 <= y < height,
    ensures
        0 <= y * stride + x < stride * height,
{
    assert(y * stride + x < stride * height) by (nonlinear_arith)
        requires
            0 <= x < stride,
            0 <= y < height,
    ;
    assert(0 <= y * stride) by (nonlinear_arith)
        requires
            0 <= y,
            0 <= stride,
    ;
}

/// The pixel surface: the raw color buffer of the display, one
/// red/green/blue triple per pixel, `stride` entries per line.
pub struct Buffer {
    /// The pixel contents, row by row.
    pub display: Vec<ColorTuple>,
    /// The hardware-reported geometry the buffer was built for.
    pub config: FrameBufferConfig,
}

impl Buffer {
    /// The surface invariant: the buffer holds exactly one entry per
    /// configured pixel.
    pub open spec fn wf(self) -> bool {
        &&& self.config.wf()
        &&& self.display@.len() == self.config.stride * self.config.height
    }

    /// Creates a surface of the given geometry with all pixels black.
    pub fn new(config: FrameBufferConfig) -> (b: Buffer)
        requires
            config.wf(),
        ensures
            b.wf(),
            b.config == config,
            b.display@ == black_pixels((config.stride * config.height) as nat),
    {
        let n: usize = config.stride * config.height;
        let mut display: Vec<ColorTuple> = Vec::new();
        let mut i: usize = 0;
        while i < n
            invariant
                i <= n,
                display@.len() == i,
                forall|p: int| 0 <= p < i ==> display@[p] == (0u8, 0u8, 0u8),
            decreases n - i,
        {
            display.push((0, 0, 0));
            i = i + 1;
        }
        assert(display@ =~= black_pixels(n as nat));
        Buffer { display, config }
    }

    /// Clears the whole surface to black.
    pub fn clear(&mut self)
        requires
            old(self).wf(),
        ensures
            final(self).wf(),
            final(self).config == old(self).config,
            final(self).display@ == black_pixels(old(self).display@.len()),
    {
        let n: usize = self.display.len();
        let mut i: usize = 0;
        while i < n
            invariant
                i <= n,
                self.display@.len() == n,
                self.config == old(self).config,
                forall|p: int| 0 <= p < i ==> self.display@[p] == (0u8, 0u8, 0u8),
            decreases n - i,
        {
            self.display[i] = (0, 0, 0);
            i = i + 1;
        }
        assert(self.display@ =~= black_pixels(old(self).display@.len()));
    }

    /// Writes one pixel at `(x, y)`. The coordinates must already be
    /// validated: an out-of-range pixel is a defect in the caller, not a
    /// recoverable error.
    pub fn set_px(&mut self, x: usize, y: usize, color: ColorTuple)
        requires
            old(self).wf(),
            x < old(self).config.width,
            y < old(self).config.height,
        ensures
            final(self).wf(),
            final(self).config == old(self).config,
            final(self).display@ == old(self).display@.update(
                y as int * old(self).config.stride as int + x as int,
                color,
            ),
    {
        proof {
            lemma_pixel_index_in_range(
                x as int,
                y as int,
                self.config.stride as int,
                self.config.height as int,
            );
        }
        let idx: usize = y * self.config.stride + x;
        self.display[idx] = color;
    }

    /// Fills the `scale` by `scale` pixel block whose top left corner is
    /// `(x, y)`, used to draw one upscaled glyph pixel.
    pub fn draw_px_scaled(&mut self, x: usize, y: usize, color: ColorTuple, scale: u8)
        requires
            old(self).wf(),
            x + scale <= old(self).config.width,
            y + scale <= old(self).config.height,
        ensures
            final(self).wf(),
            final(self).config == old(self).config,
            final(self).display@ == block_write_spec(
                old(self).display@,
                old(self).config.stride as int,
                x as int,
                y as int,
                scale as int,
                scale as int,
                color,
            ),
    {
        let ghost stride = self.config.stride as int;
        let ghost orig = self.display@;
        let mut i: usize = 0;
        while i < scale as usize
            invariant
                i <= scale,
                self.wf(),
                self.config == old(self).config,
                stride == self.config.stride as int,
                x + scale <= self.config.width,
                y + scale <= self.config.height,
                orig == old(self).display@,
                self.display@ == block_write_partial_spec(
                    orig,
                    stride,
                    x as int,
                    y as int,
                    i as int,
                    0,
                    scale as int,
                    color,
                ),
            decreases scale as usize - i,
        {
            let mut j: usize = 0;
            while j < scale as usize
                invariant
                    i < scale,
                    j <= scale,
                    self.wf(),
                    self.config == old(self).config,
                    stride == self.config.stride as int,
                    x + scale <= self.config.width,
                    y + scale <= self.config.height,
                    orig == old(self).display@,
                    self.display@ == block_write_partial_spec(
                        orig,
                        stride,
                        x as int,
                        y as int,
                        i as int,
                        j as int,
                        scale as int,
                        color,
                    ),
                decreases scale as usize - j,
            {
                self.set_px(x + i, y + j, color);
                proof {
                    lemma_pixel_coords(x as int + i, y as int + j, stride);
                    lemma_pixel_index_in_range(
                        x as int + i,
                        y as int + j,
                        stride,
                        self.config.height as int,
                    );
                    let before = block_write_partial_spec(
                        orig, stride, x as int, y as int, i as int, j as int, scale as int, color);
                    let after = block_write_partial_spec(
                        orig, stride, x as int, y as int, i as int, j as int + 1, scale as int, color);
                    let idx = (y as int + j) * stride + (x as int + i as int);
                    assert(px_of(idx, stride) == x as int + i as int);
                    assert(py_of(idx, stride) == y as int + j as int);
                    assert(0 <= idx < before.len());
                    assert forall|p: int| 0 <= p < before.len() implies
                        before.update(idx, color)[p] == after[p] by {
                        if p == idx {
                            assert(after[p] == color);
                        } else {
                            if px_of(p, stride) == x as int + i as int
                                && py_of(p, stride) == y as int + j as int {
                                vstd::arithmetic::div_mod::lemma_fundamental_div_mod(p, stride);
                                assert(p == stride * py_of(p, stride) + px_of(p, stride));
                                assert(p == idx) by (nonlinear_arith)
                                    requires
                                        p == stride * py_of(p, stride) + px_of(p, stride),
                                        px_of(p, stride) == x as int + i as int,
                                        py_of(p, stride) == y as int + j as int,
                                        idx == (y as int + j) * stride + (x as int + i as int),
                                ;
                            }
                            assert(before[p] == after[p]);
                        }
                    }
                    assert(self.display@ =~= after);
                }
                j = j + 1;
            }
            proof {
                assert(self.display@ =~= block_write_partial_spec(
                    orig,
                    stride,
                    x as int,
                    y as int,
                    i as int + 1,
                    0,
                    scale as int,
                    color,
                ));
            }
            i = i + 1;
        }
        proof {
            assert(block_write_spec(orig, stride, x as int, y as int, scale as int, scale as int, color)
                =~= self.display@);
        }
    }
}

} // verus!
