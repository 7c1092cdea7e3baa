use vstd::prelude::*;
use vstd::arithmetic::div_mod::{
    lemma_fundamental_div_mod, lemma_fundamental_div_mod_converse,
    lemma_mod_division_less_than_divisor, lemma_div_pos_is_pos,
};
use crate::buffer::{
    Buffer, FrameBufferConfig, block_write_spec, pixel_in_block, px_of, py_of,
    lemma_pixel_coords, lemma_pixel_index_in_range,
};
use crate::chars::{CharSprite, get_char_sprite, sprite_spec};
use crate::color::{ColorCode, ColorTuple, PixelFormat, conv_rgb_spec};
use crate::screen_char::ScreenChar;
use crate::vector::Vector;

verus! {

/// Fixed capacity of the character grid, in cells per row.
pub const MAX_COLS: usize = 128;

/// Fixed capacity of the character grid, in rows.
pub const MAX_ROWS: usize = 64;

/// For positive divisors, a value between two consecutive multiples of `s`
/// divides to exactly that multiplier.
pub proof fn lemma_div_unique(v: int, s: int, q: int)
    requires
        s >= 1,
        q * s <= v < (q + 1) * s,
    ensures
        v / s == q,
{
    assert(0 <= v - q * s < s) by (nonlinear_arith)
        requires
            s >= 1,
            q * s <= v < (q + 1) * s,
    ;
    lemma_fundamental_div_mod_converse(v, s, q, v - q * s);
}

/// Division of a nonnegative value by a positive divisor lands between two
/// consecutive multiples.
pub proof fn lemma_div_bounds(v: int, s: int)
    requires
        s >= 1,
        0 <= v,
    ensures
        (v / s) * s <= v < (v / s) * s + s,
        0 <= v / s,
{
    lemma_fundamental_div_mod(v, s);
    lemma_mod_division_less_than_divisor(v, s);
    lemma_div_pos_is_pos(v, s);
    assert((v / s) * s == s * (v / s)) by (nonlinear_arith);
}

/// Whether flat pixel index `p` lies in the 8 by 8 glyph box, scaled by
/// `scale`, whose top left corner is `(x, y)`.
pub open spec fn in_glyph_box(p: int, stride: int, x: int, y: int, scale: int) -> bool {
    &&& x <= px_of(p, stride) < x + 8 * scale
    &&& y <= py_of(p, stride) < y + 8 * scale
}

/// The sprite column a pixel in the glyph box belongs to.
pub open spec fn glyph_cell_col(p: int, stride: int, x: int, scale: int) -> int {
    (px_of(p, stride) - x) / scale
}

/// The sprite row a pixel in the glyph box belongs to.
pub open spec fn glyph_cell_row(p: int, stride: int, y: int, scale: int) -> int {
    (py_of(p, stride) - y) / scale
}

/// The flat sprite index (row major) a pixel in the glyph box belongs to.
pub open spec fn glyph_cell_index(p: int, stride: int, x: int, y: int, scale: int) -> int {
    glyph_cell_row(p, stride, y, scale) * 8 + glyph_cell_col(p, stride, x, scale)
}

/// The color a glyph leaves on one pixel: the foreground where the sprite
/// bit is set, else the background where there is one, else the pixel as it
/// was.
pub open spec fn glyph_target(
    prev: ColorTuple,
    sprite: Seq<bool>,
    ci: int,
    fg: ColorTuple,
    bg: Option<ColorTuple>,
) -> ColorTuple {
    if sprite[ci] {
        fg
    } else {
        match bg {
            Some(b) => b,
            None => prev,
        }
    }
}

/// The pixel sequence part way through blitting a glyph: sprite cells with
/// flat index below `k` have been drawn, the rest of the surface is
/// untouched.
pub open spec fn glyph_write_partial_spec(
    s: Seq<ColorTuple>,
    stride: int,
    x: int,
    y: int,
    scale: int,
    sprite: Seq<bool>,
    fg: ColorTuple,
    bg: Option<ColorTuple>,
    k: int,
) -> Seq<ColorTuple> {
    Seq::new(
        s.len(),
        |p: int|
            if in_glyph_box(p, stride, x, y, scale) && glyph_cell_index(p, stride, x, y, scale)
                < k {
                glyph_target(s[p], sprite, glyph_cell_index(p, stride, x, y, scale), fg, bg)
            } else {
                s[p]
            },
    )
}

/// The pixel sequence after a whole glyph is blitted at `(x, y)`.
pub open spec fn glyph_write_spec(
    s: Seq<ColorTuple>,
    stride: int,
    x: int,
    y: int,
    scale: int,
    sprite: Seq<bool>,
    fg: ColorTuple,
    bg: Option<ColorTuple>,
) -> Seq<ColorTuple> {
    glyph_write_partial_spec(s, stride, x, y, scale, sprite, fg, bg, 64)
}

/// The background color a color code paints unset sprite bits with, in the
/// given pixel format.
pub open spec fn bg_of(color_code: ColorCode, fmt: PixelFormat) -> Option<ColorTuple> {
    match color_code.bg_color {
        Some(b) => Some(conv_rgb_spec(b, fmt)),
        None => None,
    }
}

/// A pixel lies in the scaled block of sprite cell `(sy, sx)` exactly when
/// it lies in the glyph box and belongs to that sprite row and column.
pub proof fn lemma_glyph_block_coords(
    p: int,
    stride: int,
    x: int,
    y: int,
    scale: int,
    sy: int,
    sx: int,
)
    requires
        stride >= 1,
        scale >= 1,
        0 <= x,
        0 <= y,
        0 <= sx < 8,
        0 <= sy < 8,
    ensures
        pixel_in_block(p, stride, x + sx * scale, y + sy * scale, scale, scale) <==> (in_glyph_box(
            p,
            stride,
            x,
            y,
            scale,
        ) && glyph_cell_row(p, stride, y, scale) == sy && glyph_cell_col(p, stride, x, scale)
            == sx),
{
    let px = px_of(p, stride);
    let py = py_of(p, stride);
    if pixel_in_block(p, stride, x + sx * scale, y + sy * scale, scale, scale) {
        assert(sx * scale <= px - x < (sx + 1) * scale) by (nonlinear_arith)
            requires
                x + sx * scale <= px < x + sx * scale + scale,
        ;
        assert(sy * scale <= py - y < (sy + 1) * scale) by (nonlinear_arith)
            requires
                y + sy * scale <= py < y + sy * scale + scale,
        ;
        lemma_div_unique(px - x, scale, sx);
        lemma_div_unique(py - y, scale, sy);
        assert((sx + 1) * scale <= 8 * scale) by (nonlinear_arith)
            requires
                sx + 1 <= 8,
                scale >= 1,
        ;
        assert((sy + 1) * scale <= 8 * scale) by (nonlinear_arith)
            requires
                sy + 1 <= 8,
                scale >= 1,
        ;
        assert(0 <= sx * scale) by (nonlinear_arith)
            requires
                0 <= sx,
                1 <= scale,
        ;
        assert(0 <= sy * scale) by (nonlinear_arith)
            requires
                0 <= sy,
                1 <= scale,
        ;
    }
    if in_glyph_box(p, stride, x, y, scale) && glyph_cell_row(p, stride, y, scale) == sy
        && glyph_cell_col(p, stride, x, scale) == sx {
        lemma_div_bounds(px - x, scale);
        lemma_div_bounds(py - y, scale);
    }
}

/// Every pixel of the glyph box belongs to a sprite cell with index in
/// `[0, 64)`.
pub proof fn lemma_glyph_cell_index_bounds(p: int, stride: int, x: int, y: int, scale: int)
    requires
        stride >= 1,
        scale >= 1,
        0 <= x,
        0 <= y,
        in_glyph_box(p, stride, x, y, scale),
    ensures
        0 <= glyph_cell_row(p, stride, y, scale) < 8,
        0 <= glyph_cell_col(p, stride, x, scale) < 8,
        0 <= glyph_cell_index(p, stride, x, y, scale) < 64,
{
    let px = px_of(p, stride);
    let py = py_of(p, stride);
    let sx = glyph_cell_col(p, stride, x, scale);
    let sy = glyph_cell_row(p, stride, y, scale);
    lemma_div_bounds(px - x, scale);
    lemma_div_bounds(py - y, scale);
    assert(sx < 8) by (nonlinear_arith)
        requires
            scale >= 1,
            sx * scale <= px - x,
            px - x < 8 * scale,
            0 <= sx,
    ;
    assert(sy < 8) by (nonlinear_arith)
        requires
            scale >= 1,
            sy * scale <= py - y,
            py - y < 8 * scale,
            0 <= sy,
    ;
}

/// Drawing the block of sprite cell `sy * 8 + sx` advances a partial glyph
/// blit by exactly that cell; a transparent cell advances it with no write.
pub proof fn lemma_glyph_advance(
    s: Seq<ColorTuple>,
    stride: int,
    x: int,
    y: int,
    scale: int,
    sprite: Seq<bool>,
    fg: ColorTuple,
    bg: Option<ColorTuple>,
    sy: int,
    sx: int,
)
    requires
        stride >= 1,
        scale >= 1,
        0 <= x,
        0 <= y,
        0 <= sx < 8,
        0 <= sy < 8,
    ensures
        sprite[sy * 8 + sx] ==> glyph_write_partial_spec(
            s,
            stride,
            x,
            y,
            scale,
            sprite,
            fg,
            bg,
            sy * 8 + sx + 1,
        ) == block_write_spec(
            glyph_write_partial_spec(s, stride, x, y, scale, sprite, fg, bg, sy * 8 + sx),
            stride,
            x + sx * scale,
            y + sy * scale,
            scale,
            scale,
            fg,
        ),
        !sprite[sy * 8 + sx] && bg is Some ==> glyph_write_partial_spec(
            s,
            stride,
            x,
            y,
            scale,
            sprite,
            fg,
            bg,
            sy * 8 + sx + 1,
        ) == block_write_spec(
            glyph_write_partial_spec(s, stride, x, y, scale, sprite, fg, bg, sy * 8 + sx),
            stride,
            x + sx * scale,
            y + sy * scale,
            scale,
            scale,
            bg->Some_0,
        ),
        !sprite[sy * 8 + sx] && bg is None ==> glyph_write_partial_spec(
            s,
            stride,
            x,
            y,
            scale,
            sprite,
            fg,
            bg,
            sy * 8 + sx + 1,
        ) == glyph_write_partial_spec(s, stride, x, y, scale, sprite, fg, bg, sy * 8 + sx),
{
    let k = sy * 8 + sx;
    let cur = glyph_write_partial_spec(s, stride, x, y, scale, sprite, fg, bg, k);
    let next = glyph_write_partial_spec(s, stride, x, y, scale, sprite, fg, bg, k + 1);
    assert forall|p: int| 0 <= p < s.len() implies {
        &&& sprite[k] ==> next[p] == block_write_spec(
            cur,
            stride,
            x + sx * scale,
            y + sy * scale,
            scale,
            scale,
            fg,
        )[p]
        &&& (!sprite[k] && bg is Some) ==> next[p] == block_write_spec(
            cur,
            stride,
            x + sx * scale,
            y + sy * scale,
            scale,
            scale,
            bg->Some_0,
        )[p]
        &&& (!sprite[k] && bg is None) ==> next[p] == cur[p]
    } by {
        lemma_glyph_block_coords(p, stride, x, y, scale, sy, sx);
        if in_glyph_box(p, stride, x, y, scale) {
            lemma_glyph_cell_index_bounds(p, stride, x, y, scale);
        }
    }
    if sprite[k] {
        assert(next =~= block_write_spec(
            cur,
            stride,
            x + sx * scale,
            y + sy * scale,
            scale,
            scale,
            fg,
        ));
    } else if bg is Some {
        assert(next =~= block_write_spec(
            cur,
            stride,
            x + sx * scale,
            y + sy * scale,
            scale,
            scale,
            bg->Some_0,
        ));
    } else {
        assert(next =~= cur);
    }
}

/// The number of active cells in one grid dimension: how many scaled glyphs
/// fit in `pixels`, capped by the fixed capacity, less one as a safety
/// margin.
pub open spec fn active_dim(pixels: int, scale: int, cap: int) -> int {
    let fit = pixels / (8 * scale);
    if fit < cap {
        fit - 1
    } else {
        cap - 1
    }
}

/// Two grid states that differ at most in cell contents: scale, active
/// size, geometry and format all agree.
pub open spec fn same_frame(a: CharWriter, b: CharWriter) -> bool {
    &&& a.char_scale == b.char_scale
    &&& a.char_buff_size == b.char_buff_size
    &&& a.config == b.config
    &&& a.color_fmt == b.color_fmt
}

/// The character grid: a fixed-capacity array of cells overlaid on the
/// pixel surface, with the currently active sub-region and glyph scale.
pub struct CharWriter {
    /// Integer magnification applied when glyphs are blitted.
    pub char_scale: usize,
    /// The active grid size: `x` columns and `y` rows are in use.
    pub char_buff_size: Vector,
    /// The framebuffer geometry the grid renders to.
    pub config: FrameBufferConfig,
    /// The cells, row by row: the cell at `(row, col)` sits at index
    /// `row * MAX_COLS + col`. Capacity is fixed; only the active region is
    /// rendered.
    pub char_buffer: Vec<ScreenChar>,
    /// The pixel format glyphs are converted to when blitted.
    pub color_fmt: PixelFormat,
}

impl CharWriter {
    /// The grid invariant: full capacity allocated, and the active region
    /// leaves at least one glyph of margin inside the surface in both
    /// directions.
    pub open spec fn wf(self) -> bool {
        &&& self.config.wf()
        &&& self.color_fmt == self.config.pixel_format
        &&& self.char_buffer@.len() == MAX_COLS * MAX_ROWS
        &&& 1 <= self.char_scale <= 255
        &&& 1 <= self.char_buff_size.x
        &&& 1 <= self.char_buff_size.y
        &&& self.char_buff_size.x + 1 <= MAX_COLS
        &&& self.char_buff_size.y + 1 <= MAX_ROWS
        &&& (self.char_buff_size.x + 1) * 8 * self.char_scale <= self.config.width
        &&& (self.char_buff_size.y + 1) * 8 * self.char_scale <= self.config.height
    }

    /// The cell stored at `(row, col)`.
    pub open spec fn cell(self, row: int, col: int) -> ScreenChar {
        self.char_buffer@[row * (MAX_COLS as int) + col]
    }

    /// Computes the active grid size for the given geometry and scale.
    fn active_size(config: &FrameBufferConfig, scale: usize) -> (v: Vector)
        requires
            config.wf(),
            1 <= scale,
            16 * scale <= config.width,
            16 * scale <= config.height,
        ensures
            v.x == active_dim(config.width as int, scale as int, MAX_COLS as int),
            v.y == active_dim(config.height as int, scale as int, MAX_ROWS as int),
            1 <= v.x,
            1 <= v.y,
            v.x + 1 <= MAX_COLS,
            v.y + 1 <= MAX_ROWS,
            (v.x + 1) * 8 * scale <= config.width,
            (v.y + 1) * 8 * scale <= config.height,
    {
        let s8: usize = 8 * scale;
        let fit_x: usize = config.width / s8;
        let fit_y: usize = config.height / s8;
        proof {
            lemma_div_bounds(config.width as int, s8 as int);
            lemma_div_bounds(config.height as int, s8 as int);
            assert(fit_x >= 2) by (nonlinear_arith)
                requires
                    fit_x == config.width as int / (s8 as int),
                    s8 == 8 * scale,
                    16 * scale <= config.width,
                    (fit_x as int) * (s8 as int) <= config.width < (fit_x as int) * (s8 as int)
                        + s8,
                    scale >= 1,
            ;
            assert(fit_y >= 2) by (nonlinear_arith)
                requires
                    fit_y == config.height as int / (s8 as int),
                    s8 == 8 * scale,
                    16 * scale <= config.height,
                    (fit_y as int) * (s8 as int) <= config.height < (fit_y as int) * (s8 as int)
                        + s8,
                    scale >= 1,
            ;
        }
        let vx: usize = if fit_x < MAX_COLS {
            fit_x - 1
        } else {
            MAX_COLS - 1
        };
        let vy: usize = if fit_y < MAX_ROWS {
            fit_y - 1
        } else {
            MAX_ROWS - 1
        };
        proof {
            assert((vx + 1) * 8 * scale <= config.width) by (nonlinear_arith)
                requires
                    vx + 1 <= config.width as int / (8 * scale as int),
                    (config.width as int / (8 * scale as int)) * (8 * scale as int)
                        <= config.width,
                    scale >= 1,
            ;
            assert((vy + 1) * 8 * scale <= config.height) by (nonlinear_arith)
                requires
                    vy + 1 <= config.height as int / (8 * scale as int),
                    (config.height as int / (8 * scale as int)) * (8 * scale as int)
                        <= config.height,
                    scale >= 1,
            ;
        }
        Vector::new(vx, vy)
    }

    /// Creates a grid of empty cells over the given surface geometry, at
    /// scale 1.
    pub fn new(config: FrameBufferConfig) -> (w: CharWriter)
        requires
            config.wf(),
            16 <= config.width,
            16 <= config.height,
        ensures
            w.wf(),
            w.config == config,
            w.char_scale == 1,
            w.char_buff_size.x == active_dim(config.width as int, 1, MAX_COLS as int),
            w.char_buff_size.y == active_dim(config.height as int, 1, MAX_ROWS as int),
            forall|i: int|
                0 <= i < MAX_COLS * MAX_ROWS ==> w.char_buffer@[i] == ScreenChar::none_spec(),
    {
        let size = Self::active_size(&config, 1);
        let n: usize = MAX_COLS * MAX_ROWS;
        let mut char_buffer: Vec<ScreenChar> = Vec::new();
        let mut i: usize = 0;
        while i < n
            invariant
                i <= n,
                char_buffer@.len() == i,
                forall|p: int| 0 <= p < i ==> char_buffer@[p] == ScreenChar::none_spec(),
            decreases n - i,
        {
            char_buffer.push(ScreenChar::none());
            i = i + 1;
        }
        CharWriter {
            char_scale: 1,
            char_buff_size: size,
            config,
            char_buffer,
            color_fmt: config.pixel_format,
        }
    }

    /// Changes the glyph scale and recomputes the active grid size. Cells
    /// and on-screen pixels are left as they are; the caller must flush to
    /// repaint.
    ///
    /// At least two scaled glyphs must fit in each direction: the active
    /// size is the fitting count less one as a safety margin, and the
    /// region must not end up empty — the cursor always sits inside it.
    /// The scale is further capped by the one-byte scale of the pixel
    /// blitter.
    pub fn set_scale(&mut self, scale: usize)
        requires
            old(self).wf(),
            1 <= scale <= 255,
            16 * scale <= old(self).config.width,
            16 * scale <= old(self).config.height,
        ensures
            final(self).wf(),
            final(self).config == old(self).config,
            final(self).color_fmt == old(self).color_fmt,
            final(self).char_buffer == old(self).char_buffer,
            final(self).char_scale == scale,
            final(self).char_buff_size.x == active_dim(
                old(self).config.width as int,
                scale as int,
                MAX_COLS as int,
            ),
            final(self).char_buff_size.y == active_dim(
                old(self).config.height as int,
                scale as int,
                MAX_ROWS as int,
            ),
            final(self).char_buff_size.x * 8 * scale <= old(self).config.width,
            final(self).char_buff_size.y * 8 * scale <= old(self).config.height,
    {
        self.char_scale = scale;
        self.char_buff_size = Self::active_size(&self.config, scale);
        proof {
            assert(self.char_buff_size.x * 8 * scale <= (self.char_buff_size.x + 1) * 8 * scale)
                by (nonlinear_arith)
                requires
                    scale >= 1,
                    self.char_buff_size.x >= 0,
            ;
            assert(self.char_buff_size.y * 8 * scale <= (self.char_buff_size.y + 1) * 8 * scale)
                by (nonlinear_arith)
                requires
                    scale >= 1,
                    self.char_buff_size.y >= 0,
            ;
        }
    }

    /// Fills one row of the active region with the given character and
    /// color, in the grid model only.
    pub fn fill_row(&mut self, row: usize, c: u8, color_code: ColorCode)
        requires
            old(self).wf(),
            row < old(self).char_buff_size.y,
        ensures
            final(self).wf(),
            same_frame(*final(self), *old(self)),
            final(self).char_buffer@ == block_write_spec(
                old(self).char_buffer@,
                MAX_COLS as int,
                0,
                row as int,
                old(self).char_buff_size.x as int,
                1,
                ScreenChar { ascii_character: c, color_code },
            ),
    {
        let ghost orig = self.char_buffer@;
        let ghost w = self.char_buff_size.x as int;
        let cell = ScreenChar::new(c, color_code);
        let mut col: usize = 0;
        while col < self.char_buff_size.x
            invariant
                col <= self.char_buff_size.x,
                self.wf(),
                same_frame(*self, *old(self)),
                row < self.char_buff_size.y,
                w == self.char_buff_size.x as int,
                cell == (ScreenChar { ascii_character: c, color_code }),
                orig == old(self).char_buffer@,
                self.char_buffer@ == block_write_spec(
                    orig,
                    MAX_COLS as int,
                    0,
                    row as int,
                    col as int,
                    1,
                    cell,
                ),
            decreases self.char_buff_size.x - col,
        {
            proof {
                lemma_pixel_index_in_range(col as int, row as int, MAX_COLS as int, MAX_ROWS as int);
                lemma_pixel_coords(col as int, row as int, MAX_COLS as int);
            }
            let idx: usize = row * MAX_COLS + col;
            self.char_buffer[idx] = cell;
            proof {
                let before = block_write_spec(orig, MAX_COLS as int, 0, row as int, col as int, 1, cell);
                let after = block_write_spec(
                    orig, MAX_COLS as int, 0, row as int, col as int + 1, 1, cell);
                assert forall|p: int| 0 <= p < before.len() implies
                    before.update(idx as int, cell)[p] == after[p] by {
                    if p != idx as int {
                        if px_of(p, MAX_COLS as int) == col as int
                            && py_of(p, MAX_COLS as int) == row as int {
                            lemma_fundamental_div_mod(p, MAX_COLS as int);
                        }
                    }
                }
                assert(self.char_buffer@ =~= after);
            }
            col = col + 1;
        }
    }

    /// Clears one row of the active region to spaces in the default color,
    /// in the grid model only.
    pub fn clear_row(&mut self, row: usize)
        requires
            old(self).wf(),
            row < old(self).char_buff_size.y,
        ensures
            final(self).wf(),
            same_frame(*final(self), *old(self)),
            final(self).char_buffer@ == block_write_spec(
                old(self).char_buffer@,
                MAX_COLS as int,
                0,
                row as int,
                old(self).char_buff_size.x as int,
                1,
                ScreenChar { ascii_character: 32u8, color_code: ColorCode::default_spec() },
            ),
    {
        self.fill_row(row, 32u8, ColorCode::default());
    }

    /// Fills the whole active region with the given character and color, in
    /// the grid model only.
    pub fn fill(&mut self, c: u8, color_code: ColorCode)
        requires
            old(self).wf(),
        ensures
            final(self).wf(),
            same_frame(*final(self), *old(self)),
            final(self).char_buffer@ == block_write_spec(
                old(self).char_buffer@,
                MAX_COLS as int,
                0,
                0,
                old(self).char_buff_size.x as int,
                old(self).char_buff_size.y as int,
                ScreenChar { ascii_character: c, color_code },
            ),
    {
        let ghost orig = self.char_buffer@;
        let ghost cell = ScreenChar { ascii_character: c, color_code };
        let ghost w = self.char_buff_size.x as int;
        let mut row: usize = 0;
        while row < self.char_buff_size.y
            invariant
                row <= self.char_buff_size.y,
                self.wf(),
                same_frame(*self, *old(self)),
                w == self.char_buff_size.x as int,
                orig == old(self).char_buffer@,
                cell == (ScreenChar { ascii_character: c, color_code }),
                self.char_buffer@ == block_write_spec(
                    orig,
                    MAX_COLS as int,
                    0,
                    0,
                    w,
                    row as int,
                    cell,
                ),
            decreases self.char_buff_size.y - row,
        {
            let ghost prev = self.char_buffer@;
            self.fill_row(row, c, color_code);
            proof {
                let after = block_write_spec(orig, MAX_COLS as int, 0, 0, w, row as int + 1, cell);
                let rowblk = block_write_spec(prev, MAX_COLS as int, 0, row as int, w, 1, cell);
                assert(self.char_buffer@ == rowblk);
                assert forall|p: int| 0 <= p < after.len() implies rowblk[p] == after[p] by {
                }
                assert(rowblk =~= after);
            }
            row = row + 1;
        }
    }
}

impl CharWriter {
    /// Blits an 8 by 8 sprite to the surface at pixel position
    /// `(x_position, y_position)`, each sprite pixel drawn as a `scale` by
    /// `scale` block: foreground where the bit is set, background where the
    /// color has one, untouched pixels otherwise.
    pub fn write_8x8_buf_scaled(
        &self,
        surface: &mut Buffer,
        sprite: &CharSprite,
        y_position: usize,
        x_position: usize,
        color_code: ColorCode,
        scale: u8,
    )
        requires
            old(surface).wf(),
            self.color_fmt == old(surface).config.pixel_format,
            1 <= scale,
            x_position + 8 * scale <= old(surface).config.width,
            y_position + 8 * scale <= old(surface).config.height,
        ensures
            final(surface).wf(),
            final(surface).config == old(surface).config,
            final(surface).display@ == glyph_write_spec(
                old(surface).display@,
                old(surface).config.stride as int,
                x_position as int,
                y_position as int,
                scale as int,
                sprite@,
                conv_rgb_spec(color_code.char_color, old(surface).config.pixel_format),
                bg_of(color_code, old(surface).config.pixel_format),
            ),
    {
        let fill = match color_code.bg_color {
            Some(_) => true,
            None => false,
        };
        let bg_color = match color_code.format_bg(self.color_fmt) {
            Some(b) => b,
            None => (0, 0, 0),
        };
        let fg_color = color_code.to_format(self.color_fmt);
        let ghost stride = surface.config.stride as int;
        let ghost orig = surface.display@;
        let ghost fg_s = conv_rgb_spec(color_code.char_color, self.color_fmt);
        let ghost bg_s = bg_of(color_code, self.color_fmt);
        let scale_u: usize = scale as usize;
        let mut sy: usize = 0;
        while sy < 8
            invariant
                sy <= 8,
                surface.wf(),
                surface.config == old(surface).config,
                stride == surface.config.stride as int,
                orig == old(surface).display@,
                1 <= scale,
                scale_u == scale,
                self.color_fmt == surface.config.pixel_format,
                x_position + 8 * scale <= surface.config.width,
                y_position + 8 * scale <= surface.config.height,
                fg_s == conv_rgb_spec(color_code.char_color, self.color_fmt),
                bg_s == bg_of(color_code, self.color_fmt),
                fg_color == fg_s,
                fill <==> bg_s is Some,
                fill ==> bg_s == Some(bg_color),
                surface.display@ == glyph_write_partial_spec(
                    orig,
                    stride,
                    x_position as int,
                    y_position as int,
                    scale as int,
                    sprite@,
                    fg_s,
                    bg_s,
                    8 * sy as int,
                ),
            decreases 8 - sy,
        {
            let mut sx: usize = 0;
            while sx < 8
                invariant
                    sy < 8,
                    sx <= 8,
                    surface.wf(),
                    surface.config == old(surface).config,
                    stride == surface.config.stride as int,
                    orig == old(surface).display@,
                    1 <= scale,
                    scale_u == scale,
                    self.color_fmt == surface.config.pixel_format,
                    x_position + 8 * scale <= surface.config.width,
                    y_position + 8 * scale <= surface.config.height,
                    fg_s == conv_rgb_spec(color_code.char_color, self.color_fmt),
                    bg_s == bg_of(color_code, self.color_fmt),
                    fg_color == fg_s,
                    fill <==> bg_s is Some,
                    fill ==> bg_s == Some(bg_color),
                    surface.display@ == glyph_write_partial_spec(
                        orig,
                        stride,
                        x_position as int,
                        y_position as int,
                        scale as int,
                        sprite@,
                        fg_s,
                        bg_s,
                        8 * sy as int + sx as int,
                    ),
                decreases 8 - sx,
            {
                proof {
                    assert(sx * scale_u + scale_u <= 8 * scale_u) by (nonlinear_arith)
                        requires
                            sx + 1 <= 8,
                            scale_u >= 1,
                    ;
                    assert(sy * scale_u + scale_u <= 8 * scale_u) by (nonlinear_arith)
                        requires
                            sy + 1 <= 8,
                            scale_u >= 1,
                    ;
                }
                let scrx: usize = x_position + sx * scale_u;
                let scry: usize = y_position + sy * scale_u;
                let ghost before = surface.display@;
                let bit = sprite[sy * 8 + sx];
                if bit {
                    surface.draw_px_scaled(scrx, scry, fg_color, scale);
                } else if fill {
                    surface.draw_px_scaled(scrx, scry, bg_color, scale);
                }
                proof {
                    lemma_glyph_advance(
                        orig,
                        stride,
                        x_position as int,
                        y_position as int,
                        scale as int,
                        sprite@,
                        fg_s,
                        bg_s,
                        sy as int,
                        sx as int,
                    );
                    assert(sprite@[8 * sy as int + sx as int] == bit);
                }
                sx = sx + 1;
            }
            proof {
                assert(8 * sy as int + 8 == 8 * (sy as int + 1));
            }
            sy = sy + 1;
        }
    }

    /// Blits an 8 by 8 sprite at native size; the unscaled special case of
    /// the scaled blit.
    pub fn write_8x8_sprite(
        &self,
        surface: &mut Buffer,
        sprite: CharSprite,
        y: usize,
        x: usize,
        color_code: ColorCode,
    )
        requires
            old(surface).wf(),
            self.color_fmt == old(surface).config.pixel_format,
            x + 8 <= old(surface).config.width,
            y + 8 <= old(surface).config.height,
        ensures
            final(surface).wf(),
            final(surface).config == old(surface).config,
            final(surface).display@ == glyph_write_spec(
                old(surface).display@,
                old(surface).config.stride as int,
                x as int,
                y as int,
                1,
                sprite@,
                conv_rgb_spec(color_code.char_color, old(surface).config.pixel_format),
                bg_of(color_code, old(surface).config.pixel_format),
            ),
    {
        self.write_8x8_buf_scaled(surface, &sprite, y, x, color_code, 1);
    }

    /// Renders the cell at `(char_y, char_x)` of the grid onto the surface.
    pub fn flush_char_at(&self, surface: &mut Buffer, char_y: usize, char_x: usize)
        requires
            self.wf(),
            old(surface).wf(),
            self.config == old(surface).config,
            char_y < self.char_buff_size.y,
            char_x < self.char_buff_size.x,
        ensures
            final(surface).wf(),
            final(surface).config == old(surface).config,
            final(surface).display@ == render_cell_spec(
                old(surface).display@,
                *self,
                char_y as int,
                char_x as int,
            ),
    {
        proof {
            lemma_pixel_index_in_range(
                char_x as int,
                char_y as int,
                MAX_COLS as int,
                MAX_ROWS as int,
            );
            lemma_origin_bound(
                char_x as int,
                self.char_buff_size.x as int,
                self.char_scale as int,
                self.config.width as int,
            );
            lemma_origin_bound(
                char_y as int,
                self.char_buff_size.y as int,
                self.char_scale as int,
                self.config.height as int,
            );
        }
        let idx: usize = char_y * MAX_COLS + char_x;
        let c = self.char_buffer[idx];
        let char_sprite = get_char_sprite(c.ascii_character);
        let x_pos: usize = char_x * 8 * self.char_scale;
        let y_pos: usize = char_y * 8 * self.char_scale;
        self.write_8x8_buf_scaled(
            surface,
            &char_sprite,
            y_pos,
            x_pos,
            c.color_code,
            self.char_scale as u8,
        );
    }

    /// Renders one whole row of the active region onto the surface.
    pub fn flush_row(&self, surface: &mut Buffer, row: usize)
        requires
            self.wf(),
            old(surface).wf(),
            self.config == old(surface).config,
            row < self.char_buff_size.y,
        ensures
            final(surface).wf(),
            final(surface).config == old(surface).config,
            final(surface).display@ == render_row_spec(
                old(surface).display@,
                *self,
                row as int,
                self.char_buff_size.x as int,
            ),
    {
        let ghost orig = surface.display@;
        let mut col: usize = 0;
        while col < self.char_buff_size.x
            invariant
                col <= self.char_buff_size.x,
                self.wf(),
                surface.wf(),
                surface.config == old(surface).config,
                self.config == surface.config,
                row < self.char_buff_size.y,
                orig == old(surface).display@,
                surface.display@ == render_row_spec(orig, *self, row as int, col as int),
            decreases self.char_buff_size.x - col,
        {
            self.flush_char_at(surface, row, col);
            col = col + 1;
        }
    }

    /// Renders the whole active region onto the surface: the slow full
    /// repaint. Prefer `flush_char_at` or `flush_row` where only part of
    /// the grid changed.
    pub fn flush_char_buf(&self, surface: &mut Buffer)
        requires
            self.wf(),
            old(surface).wf(),
            self.config == old(surface).config,
        ensures
            final(surface).wf(),
            final(surface).config == old(surface).config,
            final(surface).display@ == render_screen_spec(
                old(surface).display@,
                *self,
                self.char_buff_size.y as int,
            ),
    {
        let ghost orig = surface.display@;
        let mut row: usize = 0;
        while row < self.char_buff_size.y
            invariant
                row <= self.char_buff_size.y,
                self.wf(),
                surface.wf(),
                surface.config == old(surface).config,
                self.config == surface.config,
                orig == old(surface).display@,
                surface.display@ == render_screen_spec(orig, *self, row as int),
            decreases self.char_buff_size.y - row,
        {
            self.flush_row(surface, row);
            row = row + 1;
        }
    }
}

/// A cell origin one step inside the active region stays one glyph short of
/// the surface edge.
pub proof fn lemma_origin_bound(c: int, n: int, scale: int, bound: int)
    requires
        0 <= c < n,
        0 <= scale,
        (n + 1) * 8 * scale <= bound,
    ensures
        c * 8 * scale + 8 * scale <= bound,
{
    assert(c * 8 * scale + 8 * scale <= (n + 1) * 8 * scale) by (nonlinear_arith)
        requires
            c + 1 <= n + 1,
            scale >= 0,
    ;
}

/// The pixels after one cell value is rendered at grid position
/// `(row, col)` onto `s`, with the given stride, pixel format and scale.
pub open spec fn render_cell_pix(
    s: Seq<ColorTuple>,
    stride: int,
    fmt: PixelFormat,
    scale: int,
    cell: ScreenChar,
    row: int,
    col: int,
) -> Seq<ColorTuple> {
    glyph_write_spec(
        s,
        stride,
        col * 8 * scale,
        row * 8 * scale,
        scale,
        sprite_spec(cell.ascii_character),
        conv_rgb_spec(cell.color_code.char_color, fmt),
        bg_of(cell.color_code, fmt),
    )
}

/// The pixels after the first `ncols` cells of row `row` of `grid` are
/// rendered onto `s`, left to right.
pub open spec fn render_row_pix(
    s: Seq<ColorTuple>,
    stride: int,
    fmt: PixelFormat,
    scale: int,
    grid: Seq<ScreenChar>,
    row: int,
    ncols: int,
) -> Seq<ColorTuple>
    decreases ncols,
{
    if ncols <= 0 {
        s
    } else {
        render_cell_pix(
            render_row_pix(s, stride, fmt, scale, grid, row, ncols - 1),
            stride,
            fmt,
            scale,
            grid[row * (MAX_COLS as int) + (ncols - 1)],
            row,
            ncols - 1,
        )
    }
}

/// The pixels after the first `nrows` rows of `grid` are rendered onto `s`,
/// top to bottom, `ncols` cells each.
pub open spec fn render_screen_pix(
    s: Seq<ColorTuple>,
    stride: int,
    fmt: PixelFormat,
    scale: int,
    grid: Seq<ScreenChar>,
    nrows: int,
    ncols: int,
) -> Seq<ColorTuple>
    decreases nrows,
{
    if nrows <= 0 {
        s
    } else {
        render_row_pix(
            render_screen_pix(s, stride, fmt, scale, grid, nrows - 1, ncols),
            stride,
            fmt,
            scale,
            grid,
            nrows - 1,
            ncols,
        )
    }
}

/// The pixels after the cell at `(row, col)` of the grid is rendered onto
/// `s`.
pub open spec fn render_cell_spec(s: Seq<ColorTuple>, w: CharWriter, row: int, col: int) -> Seq<
    ColorTuple,
> {
    render_cell_pix(
        s,
        w.config.stride as int,
        w.config.pixel_format,
        w.char_scale as int,
        w.cell(row, col),
        row,
        col,
    )
}

/// The pixels after the first `ncols` cells of a row are rendered onto `s`,
/// left to right.
pub open spec fn render_row_spec(s: Seq<ColorTuple>, w: CharWriter, row: int, ncols: int) -> Seq<
    ColorTuple,
> {
    render_row_pix(
        s,
        w.config.stride as int,
        w.config.pixel_format,
        w.char_scale as int,
        w.char_buffer@,
        row,
        ncols,
    )
}

/// The pixels after the first `nrows` active rows are rendered onto `s`,
/// top to bottom.
pub open spec fn render_screen_spec(s: Seq<ColorTuple>, w: CharWriter, nrows: int) -> Seq<
    ColorTuple,
> {
    render_screen_pix(
        s,
        w.config.stride as int,
        w.config.pixel_format,
        w.char_scale as int,
        w.char_buffer@,
        nrows,
        w.char_buff_size.x as int,
    )
}

/// Blitting one glyph is a projection: doing it twice with the same
/// arguments leaves the same pixels as doing it once.
pub proof fn lemma_glyph_write_idempotent(
    s: Seq<ColorTuple>,
    stride: int,
    x: int,
    y: int,
    scale: int,
    sprite: Seq<bool>,
    fg: ColorTuple,
    bg: Option<ColorTuple>,
)
    ensures
        glyph_write_spec(
            glyph_write_spec(s, stride, x, y, scale, sprite, fg, bg),
            stride,
            x,
            y,
            scale,
            sprite,
            fg,
            bg,
        ) == glyph_write_spec(s, stride, x, y, scale, sprite, fg, bg),
{
    let s1 = glyph_write_spec(s, stride, x, y, scale, sprite, fg, bg);
    let s2 = glyph_write_spec(s1, stride, x, y, scale, sprite, fg, bg);
    assert(s2 =~= s1);
}

/// Write/flush idempotence: rendering the cell at `(row, col)` a second
/// time, with the grid unchanged in between, leaves exactly the pixels of
/// the first rendering. A flush is a pure projection of the grid model, not
/// a toggle.
pub proof fn lemma_flush_cell_idempotent(s: Seq<ColorTuple>, w: CharWriter, row: int, col: int)
    ensures
        render_cell_spec(render_cell_spec(s, w, row, col), w, row, col) == render_cell_spec(
            s,
            w,
            row,
            col,
        ),
{
    let cell = w.cell(row, col);
    lemma_glyph_write_idempotent(
        s,
        w.config.stride as int,
        col * 8 * (w.char_scale as int),
        row * 8 * (w.char_scale as int),
        w.char_scale as int,
        sprite_spec(cell.ascii_character),
        conv_rgb_spec(cell.color_code.char_color, w.config.pixel_format),
        bg_of(cell.color_code, w.config.pixel_format),
    );
}


} // verus!
