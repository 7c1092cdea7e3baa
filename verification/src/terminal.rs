use vstd::prelude::*;
use vstd::arithmetic::div_mod::lemma_fundamental_div_mod;
use crate::buffer::{
    Buffer, black_pixels, block_write_spec, lemma_pixel_coords, lemma_pixel_index_in_range, px_of,
    py_of,
};
use crate::char_writer::{
    CharWriter, MAX_COLS, MAX_ROWS, lemma_div_bounds, render_cell_pix, render_row_pix,
    render_screen_pix, same_frame,
};
use crate::color::{ColorCode, ColorTuple, PixelFormat};
use crate::screen_char::ScreenChar;
use vstd::string::StringSliceAdditionalSpecFns;

verus! {

/// The cell a cleared position holds: a space in the default color.
pub open spec fn blank_cell_spec() -> ScreenChar {
    ScreenChar { ascii_character: 32u8, color_code: ColorCode::default_spec() }
}

/// The grid after scrolling up by one row: each active row takes the
/// contents of the row below it, the last active row is cleared to blanks,
/// and cells outside the active region stay put.
pub open spec fn shift_grid_spec(g: Seq<ScreenChar>, cols: int, rows: int) -> Seq<ScreenChar> {
    Seq::new(
        g.len(),
        |i: int|
            {
                let r = py_of(i, MAX_COLS as int);
                let c = px_of(i, MAX_COLS as int);
                if c < cols && r < rows - 1 {
                    g[(r + 1) * (MAX_COLS as int) + c]
                } else if c < cols && r == rows - 1 {
                    blank_cell_spec()
                } else {
                    g[i]
                }
            },
    )
}

/// The grid part way through scrolling: rows below `k` already hold the row
/// that was below them, and of row `k` the first `j` cells do.
pub open spec fn shift_partial_spec(g: Seq<ScreenChar>, cols: int, k: int, j: int) -> Seq<
    ScreenChar,
> {
    Seq::new(
        g.len(),
        |i: int|
            {
                let r = py_of(i, MAX_COLS as int);
                let c = px_of(i, MAX_COLS as int);
                if c < cols && r < k {
                    g[(r + 1) * (MAX_COLS as int) + c]
                } else if c < j && r == k {
                    g[(k + 1) * (MAX_COLS as int) + c]
                } else {
                    g[i]
                }
            },
    )
}

/// The spec-level state of the terminal: the cursor, the grid model, and
/// the visible pixels.
pub struct TermState {
    pub row: int,
    pub col: int,
    pub grid: Seq<ScreenChar>,
    pub pixels: Seq<ColorTuple>,
}

/// The state after a line feed: the cursor moves to the start of the next
/// row; at the bottom of the active region the grid scrolls up instead and
/// every active row is repainted.
pub open spec fn term_new_line_spec(
    st: TermState,
    stride: int,
    fmt: PixelFormat,
    scale: int,
    cols: int,
    rows: int,
) -> TermState {
    if st.row + 1 < rows {
        TermState { row: st.row + 1, col: 0, ..st }
    } else {
        let g = shift_grid_spec(st.grid, cols, rows);
        TermState {
            row: rows - 1,
            col: 0,
            grid: g,
            pixels: render_screen_pix(st.pixels, stride, fmt, scale, g, rows, cols),
        }
    }
}

/// The state after a byte is placed at the cursor: the cell is written and
/// repainted, and the cursor advances one column.
pub open spec fn term_put_spec(
    st: TermState,
    stride: int,
    fmt: PixelFormat,
    scale: int,
    byte: u8,
    color: ColorCode,
) -> TermState {
    let cell = ScreenChar { ascii_character: byte, color_code: color };
    TermState {
        row: st.row,
        col: st.col + 1,
        grid: st.grid.update(st.row * (MAX_COLS as int) + st.col, cell),
        pixels: render_cell_pix(st.pixels, stride, fmt, scale, cell, st.row, st.col),
    }
}

/// One step of the terminal state machine: a line feed starts a new line;
/// any other byte is placed at the cursor, moving to a new line first when
/// the cursor sits past the last active column.
pub open spec fn term_write_byte_spec(
    st: TermState,
    stride: int,
    fmt: PixelFormat,
    scale: int,
    cols: int,
    rows: int,
    byte: u8,
    color: ColorCode,
) -> TermState {
    if byte == 10 {
        term_new_line_spec(st, stride, fmt, scale, cols, rows)
    } else {
        let st1 = if st.col >= cols {
            term_new_line_spec(st, stride, fmt, scale, cols, rows)
        } else {
            st
        };
        term_put_spec(st1, stride, fmt, scale, byte, color)
    }
}

/// The byte a terminal write actually places: printable ASCII and line
/// feeds go through, everything else degrades to the placeholder byte.
pub open spec fn substitute_byte_spec(b: u8) -> u8 {
    if (0x20 <= b && b <= 0x7e) || b == 10 {
        b
    } else {
        0xfe
    }
}

/// The state after writing a whole byte string, one step per byte, with
/// unprintable bytes substituted.
pub open spec fn term_write_bytes_spec(
    st: TermState,
    stride: int,
    fmt: PixelFormat,
    scale: int,
    cols: int,
    rows: int,
    bytes: Seq<u8>,
    color: ColorCode,
) -> TermState
    decreases bytes.len(),
{
    if bytes.len() == 0 {
        st
    } else {
        term_write_bytes_spec(
            term_write_byte_spec(
                st,
                stride,
                fmt,
                scale,
                cols,
                rows,
                substitute_byte_spec(bytes[0]),
                color,
            ),
            stride,
            fmt,
            scale,
            cols,
            rows,
            bytes.drop_first(),
            color,
        )
    }
}

/// The column just past the rightmost non-empty cell among the first `c`
/// cells of a row; 0 when they are all empty.
pub open spec fn row_end_spec(g: Seq<ScreenChar>, row: int, c: int) -> int
    decreases c,
{
    if c <= 0 {
        0
    } else if g[row * (MAX_COLS as int) + (c - 1)].ascii_character != 0 {
        c
    } else {
        row_end_spec(g, row, c - 1)
    }
}

/// Rendering a row reads only that row's cells: grids that agree there
/// render alike.
pub proof fn lemma_render_row_congruence(
    s: Seq<ColorTuple>,
    stride: int,
    fmt: PixelFormat,
    scale: int,
    g1: Seq<ScreenChar>,
    g2: Seq<ScreenChar>,
    row: int,
    ncols: int,
)
    requires
        forall|c: int|
            0 <= c < ncols ==> #[trigger] g1[row * (MAX_COLS as int) + c] == g2[row * (
            MAX_COLS as int) + c],
    ensures
        render_row_pix(s, stride, fmt, scale, g1, row, ncols) == render_row_pix(
            s,
            stride,
            fmt,
            scale,
            g2,
            row,
            ncols,
        ),
    decreases ncols,
{
    if ncols > 0 {
        lemma_render_row_congruence(s, stride, fmt, scale, g1, g2, row, ncols - 1);
    }
}

/// Rendering the first `nrows` rows reads only those rows' active cells.
pub proof fn lemma_render_screen_congruence(
    s: Seq<ColorTuple>,
    stride: int,
    fmt: PixelFormat,
    scale: int,
    g1: Seq<ScreenChar>,
    g2: Seq<ScreenChar>,
    nrows: int,
    ncols: int,
)
    requires
        forall|r: int, c: int|
            0 <= r < nrows && 0 <= c < ncols ==> #[trigger] g1[r * (MAX_COLS as int) + c] == g2[
                r * (MAX_COLS as int) + c],
    ensures
        render_screen_pix(s, stride, fmt, scale, g1, nrows, ncols) == render_screen_pix(
            s,
            stride,
            fmt,
            scale,
            g2,
            nrows,
            ncols,
        ),
    decreases nrows,
{
    if nrows > 0 {
        lemma_render_screen_congruence(s, stride, fmt, scale, g1, g2, nrows - 1, ncols);
        lemma_render_row_congruence(
            render_screen_pix(s, stride, fmt, scale, g1, nrows - 1, ncols),
            stride,
            fmt,
            scale,
            g1,
            g2,
            nrows - 1,
            ncols,
        );
    }
}

/// Cursor-based text output over the character grid: byte and string
/// writes with wrapping and scrolling, backspace, positioning, and
/// full-screen fills.
pub struct TerminalWriter {
    /// The column the next byte lands in; may equal the active width just
    /// before a wrap.
    pub col_pos: usize,
    /// The row the next byte lands in.
    pub row_pos: usize,
    /// The color newly written cells get.
    pub color_code: ColorCode,
}

impl TerminalWriter {
    /// The cursor stays inside the active region; the column may sit one
    /// past the last cell, where the next printable byte wraps.
    pub open spec fn cursor_wf(self, chars: CharWriter) -> bool {
        &&& self.row_pos < chars.char_buff_size.y
        &&& self.col_pos <= chars.char_buff_size.x
    }

    /// The spec-level state this writer, grid and surface make up.
    pub open spec fn view_with(self, chars: CharWriter, surface: Buffer) -> TermState {
        TermState {
            row: self.row_pos as int,
            col: self.col_pos as int,
            grid: chars.char_buffer@,
            pixels: surface.display@,
        }
    }

    /// Creates a writer with the default color, positioned at the start of
    /// the second row.
    pub fn new() -> (t: TerminalWriter)
        ensures
            t.col_pos == 0,
            t.row_pos == 1,
            t.color_code == ColorCode::default_spec(),
    {
        TerminalWriter { col_pos: 0, row_pos: 1, color_code: ColorCode::default() }
    }

    /// Scrolls the grid up by one row and repaints the active region:
    /// each row takes the contents of the row below, top to bottom, and the
    /// last row is cleared.
    pub fn shift_up(&mut self, chars: &mut CharWriter, surface: &mut Buffer)
        requires
            old(chars).wf(),
            old(surface).wf(),
            old(chars).config == old(surface).config,
        ensures
            *final(self) == *old(self),
            final(chars).wf(),
            final(surface).wf(),
            same_frame(*final(chars), *old(chars)),
            final(chars).config == final(surface).config,
            final(surface).config == old(surface).config,
            final(chars).char_buffer@ == shift_grid_spec(
                old(chars).char_buffer@,
                old(chars).char_buff_size.x as int,
                old(chars).char_buff_size.y as int,
            ),
            final(surface).display@ == render_screen_pix(
                old(surface).display@,
                old(surface).config.stride as int,
                old(surface).config.pixel_format,
                old(chars).char_scale as int,
                final(chars).char_buffer@,
                old(chars).char_buff_size.y as int,
                old(chars).char_buff_size.x as int,
            ),
    {
        let ghost g0 = chars.char_buffer@;
        let ghost px0 = surface.display@;
        let ghost stride = surface.config.stride as int;
        let ghost fmt = surface.config.pixel_format;
        let ghost scale = chars.char_scale as int;
        let cols = chars.char_buff_size.x;
        let rows = chars.char_buff_size.y;
        let mut row: usize = 1;
        proof {
            assert(chars.char_buffer@ =~= shift_partial_spec(g0, cols as int, 0, 0));
        }
        while row < rows
            invariant
                1 <= row <= rows,
                chars.wf(),
                surface.wf(),
                same_frame(*chars, *old(chars)),
                chars.config == surface.config,
                surface.config == old(surface).config,
                cols == chars.char_buff_size.x,
                rows == chars.char_buff_size.y,
                stride == surface.config.stride as int,
                fmt == surface.config.pixel_format,
                scale == chars.char_scale as int,
                g0 == old(chars).char_buffer@,
                px0 == old(surface).display@,
                chars.char_buffer@ == shift_partial_spec(g0, cols as int, row as int - 1, 0),
                surface.display@ == render_screen_pix(
                    px0,
                    stride,
                    fmt,
                    scale,
                    chars.char_buffer@,
                    row as int - 1,
                    cols as int,
                ),
            decreases rows - row,
        {
            let ghost grid_at_head = chars.char_buffer@;
            let ghost k = row as int - 1;
            let mut c: usize = 0;
            while c < cols
                invariant
                    c <= cols,
                    1 <= row < rows,
                    chars.wf(),
                    same_frame(*chars, *old(chars)),
                    cols == chars.char_buff_size.x,
                    rows == chars.char_buff_size.y,
                    g0 == old(chars).char_buffer@,
                    k == row as int - 1,
                    chars.char_buffer@ == shift_partial_spec(g0, cols as int, k, c as int),
                decreases cols - c,
            {
                proof {
                    lemma_pixel_index_in_range(
                        c as int,
                        row as int,
                        MAX_COLS as int,
                        MAX_ROWS as int,
                    );
                    lemma_pixel_index_in_range(c as int, k, MAX_COLS as int, MAX_ROWS as int);
                    lemma_pixel_coords(c as int, row as int, MAX_COLS as int);
                    lemma_pixel_coords(c as int, k, MAX_COLS as int);
                }
                let src: usize = row * MAX_COLS + c;
                let dst: usize = (row - 1) * MAX_COLS + c;
                let v = chars.char_buffer[src];
                proof {
                    assert(v == g0[row as int * (MAX_COLS as int) + c as int]);
                }
                chars.char_buffer[dst] = v;
                proof {
                    let before = shift_partial_spec(g0, cols as int, k, c as int);
                    let after = shift_partial_spec(g0, cols as int, k, c as int + 1);
                    assert forall|p: int| 0 <= p < before.len() implies
                        before.update(dst as int, v)[p] == after[p] by {
                        if p != dst as int {
                            if px_of(p, MAX_COLS as int) == c as int && py_of(p, MAX_COLS as int)
                                == k {
                                lemma_fundamental_div_mod(p, MAX_COLS as int);
                            }
                        }
                    }
                    assert(chars.char_buffer@ =~= after);
                }
                c = c + 1;
            }
            proof {
                assert(chars.char_buffer@ =~= shift_partial_spec(g0, cols as int, row as int, 0));
                lemma_render_screen_congruence(
                    px0,
                    stride,
                    fmt,
                    scale,
                    grid_at_head,
                    chars.char_buffer@,
                    k,
                    cols as int,
                );
            }
            let ghost before_flush = surface.display@;
            chars.flush_row(surface, row - 1);
            proof {
                assert(surface.display@ == render_row_pix(
                    before_flush,
                    stride,
                    fmt,
                    scale,
                    chars.char_buffer@,
                    k,
                    cols as int,
                ));
                assert(surface.display@ == render_screen_pix(
                    px0,
                    stride,
                    fmt,
                    scale,
                    chars.char_buffer@,
                    row as int,
                    cols as int,
                ));
            }
            row = row + 1;
        }
        let ghost grid_before_clear = chars.char_buffer@;
        chars.clear_row(rows - 1);
        proof {
            let gfin = chars.char_buffer@;
            assert forall|p: int| 0 <= p < gfin.len() implies gfin[p] == shift_grid_spec(
                g0,
                cols as int,
                rows as int,
            )[p] by {
                if py_of(p, MAX_COLS as int) == rows as int - 1 && px_of(p, MAX_COLS as int)
                    < cols as int {
                }
            }
            assert(gfin =~= shift_grid_spec(g0, cols as int, rows as int));
            lemma_render_screen_congruence(
                px0,
                stride,
                fmt,
                scale,
                grid_before_clear,
                chars.char_buffer@,
                rows as int - 1,
                cols as int,
            );
        }
        let ghost before_flush = surface.display@;
        chars.flush_row(surface, rows - 1);
        proof {
            assert(surface.display@ == render_row_pix(
                before_flush,
                stride,
                fmt,
                scale,
                chars.char_buffer@,
                rows as int - 1,
                cols as int,
            ));
            assert(surface.display@ == render_screen_pix(
                px0,
                stride,
                fmt,
                scale,
                chars.char_buffer@,
                rows as int,
                cols as int,
            ));
        }
    }

    /// Moves the cursor to the start of the next row, scrolling when it
    /// already sits on the last active row.
    pub fn new_line(&mut self, chars: &mut CharWriter, surface: &mut Buffer)
        requires
            old(chars).wf(),
            old(surface).wf(),
            old(chars).config == old(surface).config,
            old(self).cursor_wf(*old(chars)),
        ensures
            final(chars).wf(),
            final(surface).wf(),
            same_frame(*final(chars), *old(chars)),
            final(chars).config == final(surface).config,
            final(surface).config == old(surface).config,
            final(self).color_code == old(self).color_code,
            final(self).cursor_wf(*final(chars)),
            final(self).col_pos < final(chars).char_buff_size.x,
            final(self).view_with(*final(chars), *final(surface)) == term_new_line_spec(
                old(self).view_with(*old(chars), *old(surface)),
                old(surface).config.stride as int,
                old(surface).config.pixel_format,
                old(chars).char_scale as int,
                old(chars).char_buff_size.x as int,
                old(chars).char_buff_size.y as int,
            ),
    {
        self.col_pos = 0;
        if self.row_pos + 1 >= chars.char_buff_size.y {
            self.shift_up(chars, surface);
            self.row_pos = chars.char_buff_size.y - 1;
        } else {
            self.row_pos = self.row_pos + 1;
        }
    }

    /// Writes one byte at the cursor: a line feed starts a new row; any
    /// other byte is placed in the current cell (wrapping first if the
    /// cursor sits past the last column), repainted, and the cursor
    /// advances.
    pub fn write_byte(&mut self, chars: &mut CharWriter, surface: &mut Buffer, byte: u8)
        requires
            old(chars).wf(),
            old(surface).wf(),
            old(chars).config == old(surface).config,
            old(self).cursor_wf(*old(chars)),
        ensures
            final(chars).wf(),
            final(surface).wf(),
            same_frame(*final(chars), *old(chars)),
            final(chars).config == final(surface).config,
            final(surface).config == old(surface).config,
            final(self).color_code == old(self).color_code,
            final(self).cursor_wf(*final(chars)),
            final(self).view_with(*final(chars), *final(surface)) == term_write_byte_spec(
                old(self).view_with(*old(chars), *old(surface)),
                old(surface).config.stride as int,
                old(surface).config.pixel_format,
                old(chars).char_scale as int,
                old(chars).char_buff_size.x as int,
                old(chars).char_buff_size.y as int,
                byte,
                old(self).color_code,
            ),
    {
        if byte == 10 {
            self.new_line(chars, surface);
        } else {
            if self.col_pos >= chars.char_buff_size.x {
                self.new_line(chars, surface);
            }
            let row = self.row_pos;
            let col = self.col_pos;
            proof {
                lemma_pixel_index_in_range(col as int, row as int, MAX_COLS as int, MAX_ROWS as int);
            }
            let idx: usize = row * MAX_COLS + col;
            chars.char_buffer[idx] = ScreenChar::new(byte, self.color_code);
            chars.flush_char_at(surface, row, col);
            self.col_pos = self.col_pos + 1;
        }
    }

    /// Writes one byte into the cell at `(row, col)` in the current color,
    /// in the grid model only; nothing is repainted.
    pub fn write_byte_at(&mut self, chars: &mut CharWriter, byte: u8, row: usize, col: usize)
        requires
            old(chars).wf(),
            row < old(chars).char_buff_size.y,
            col < old(chars).char_buff_size.x,
        ensures
            *final(self) == *old(self),
            final(chars).wf(),
            same_frame(*final(chars), *old(chars)),
            final(chars).char_buffer@ == old(chars).char_buffer@.update(
                row as int * (MAX_COLS as int) + col as int,
                ScreenChar { ascii_character: byte, color_code: old(self).color_code },
            ),
    {
        proof {
            lemma_pixel_index_in_range(col as int, row as int, MAX_COLS as int, MAX_ROWS as int);
        }
        let idx: usize = row * MAX_COLS + col;
        chars.char_buffer[idx] = ScreenChar::new(byte, self.color_code);
    }

    /// Moves the cursor to `(row, col)`.
    pub fn set_pos(&mut self, chars: &CharWriter, row: usize, col: usize)
        requires
            row < chars.char_buff_size.y,
            col <= chars.char_buff_size.x,
        ensures
            final(self).row_pos == row,
            final(self).col_pos == col,
            final(self).color_code == old(self).color_code,
            final(self).cursor_wf(*chars),
    {
        self.row_pos = row;
        self.col_pos = col;
    }

    /// Clears the visible surface to black and repaints the active region
    /// from the grid model, which is left as it is.
    pub fn clear(&mut self, chars: &CharWriter, surface: &mut Buffer)
        requires
            chars.wf(),
            old(surface).wf(),
            chars.config == old(surface).config,
        ensures
            *final(self) == *old(self),
            final(surface).wf(),
            final(surface).config == old(surface).config,
            final(surface).display@ == render_screen_pix(
                black_pixels(old(surface).display@.len()),
                old(surface).config.stride as int,
                old(surface).config.pixel_format,
                chars.char_scale as int,
                chars.char_buffer@,
                chars.char_buff_size.y as int,
                chars.char_buff_size.x as int,
            ),
    {
        surface.clear();
        chars.flush_char_buf(surface);
    }

    /// Fills the whole active region with one character in the current
    /// color and repaints it.
    pub fn fill(&mut self, chars: &mut CharWriter, surface: &mut Buffer, c: u8)
        requires
            old(chars).wf(),
            old(surface).wf(),
            old(chars).config == old(surface).config,
        ensures
            *final(self) == *old(self),
            final(chars).wf(),
            final(surface).wf(),
            same_frame(*final(chars), *old(chars)),
            final(surface).config == old(surface).config,
            final(chars).char_buffer@ == block_write_spec(
                old(chars).char_buffer@,
                MAX_COLS as int,
                0,
                0,
                old(chars).char_buff_size.x as int,
                old(chars).char_buff_size.y as int,
                ScreenChar { ascii_character: c, color_code: old(self).color_code },
            ),
            final(surface).display@ == render_screen_pix(
                old(surface).display@,
                old(surface).config.stride as int,
                old(surface).config.pixel_format,
                old(chars).char_scale as int,
                final(chars).char_buffer@,
                old(chars).char_buff_size.y as int,
                old(chars).char_buff_size.x as int,
            ),
    {
        chars.fill(c, self.color_code);
        chars.flush_char_buf(surface);
    }

    /// Resets the terminal: cursor to the origin, color to the default,
    /// every active cell emptied and the surface cleared to black.
    pub fn reset(&mut self, chars: &mut CharWriter, surface: &mut Buffer)
        requires
            old(chars).wf(),
            old(surface).wf(),
            old(chars).config == old(surface).config,
        ensures
            final(self).row_pos == 0,
            final(self).col_pos == 0,
            final(self).color_code == ColorCode::default_spec(),
            final(chars).wf(),
            final(surface).wf(),
            same_frame(*final(chars), *old(chars)),
            final(surface).config == old(surface).config,
            final(chars).char_buffer@ == block_write_spec(
                old(chars).char_buffer@,
                MAX_COLS as int,
                0,
                0,
                old(chars).char_buff_size.x as int,
                old(chars).char_buff_size.y as int,
                ScreenChar::none_spec(),
            ),
            final(surface).display@ == black_pixels(old(surface).display@.len()),
    {
        self.col_pos = 0;
        self.row_pos = 0;
        self.color_code = ColorCode::default();
        chars.fill(0, self.color_code);
        surface.clear();
    }

    /// Deletes backwards: with the cursor past the first column, the
    /// previous cell is blanked, repainted, and the cursor steps back one
    /// column. At the first column of a later row, the cursor moves to the
    /// end of the previous row's content: one past its rightmost non-empty
    /// cell, or its start when the row is empty. At the origin nothing
    /// happens.
    pub fn backspace(&mut self, chars: &mut CharWriter, surface: &mut Buffer)
        requires
            old(chars).wf(),
            old(surface).wf(),
            old(chars).config == old(surface).config,
            old(self).cursor_wf(*old(chars)),
        ensures
            final(chars).wf(),
            final(surface).wf(),
            same_frame(*final(chars), *old(chars)),
            final(surface).config == old(surface).config,
            final(self).color_code == old(self).color_code,
            final(self).cursor_wf(*final(chars)),
            old(self).col_pos > 0 ==> {
                &&& final(self).row_pos == old(self).row_pos
                &&& final(self).col_pos == old(self).col_pos - 1
                &&& final(chars).char_buffer@ == old(chars).char_buffer@.update(
                    old(self).row_pos as int * (MAX_COLS as int) + (old(self).col_pos - 1),
                    ScreenChar { ascii_character: 0u8, color_code: old(self).color_code },
                )
                &&& final(surface).display@ == render_cell_pix(
                    old(surface).display@,
                    old(surface).config.stride as int,
                    old(surface).config.pixel_format,
                    old(chars).char_scale as int,
                    ScreenChar { ascii_character: 0u8, color_code: old(self).color_code },
                    old(self).row_pos as int,
                    old(self).col_pos - 1,
                )
            },
            old(self).col_pos == 0 && old(self).row_pos > 0 ==> {
                &&& final(self).row_pos == old(self).row_pos - 1
                &&& final(self).col_pos == row_end_spec(
                    old(chars).char_buffer@,
                    old(self).row_pos - 1,
                    old(chars).char_buff_size.x as int,
                )
                &&& final(chars).char_buffer@ == old(chars).char_buffer@
                &&& final(surface).display@ == old(surface).display@
            },
            old(self).col_pos == 0 && old(self).row_pos == 0 ==> {
                &&& *final(self) == *old(self)
                &&& final(chars).char_buffer@ == old(chars).char_buffer@
                &&& final(surface).display@ == old(surface).display@
            },
    {
        if self.col_pos > 0 {
            let row = self.row_pos;
            let col = self.col_pos - 1;
            proof {
                lemma_pixel_index_in_range(col as int, row as int, MAX_COLS as int, MAX_ROWS as int);
            }
            let idx: usize = row * MAX_COLS + col;
            chars.char_buffer[idx] = ScreenChar::new(0, self.color_code);
            chars.flush_char_at(surface, row, col);
            self.col_pos = col;
        } else if self.row_pos > 0 {
            self.row_pos = self.row_pos - 1;
            let ghost g = chars.char_buffer@;
            let ghost row = self.row_pos as int;
            let cols = chars.char_buff_size.x;
            let mut c: usize = cols;
            while c > 0
                invariant
                    c <= cols,
                    chars.wf(),
                    cols == chars.char_buff_size.x,
                    row == self.row_pos as int,
                    self.row_pos < chars.char_buff_size.y,
                    g == chars.char_buffer@,
                    row_end_spec(g, row, cols as int) == row_end_spec(g, row, c as int),
                ensures
                    c <= cols,
                    chars.wf(),
                    cols == chars.char_buff_size.x,
                    row == self.row_pos as int,
                    self.row_pos < chars.char_buff_size.y,
                    g == chars.char_buffer@,
                    row_end_spec(g, row, cols as int) == c as int,
                decreases c,
            {
                proof {
                    lemma_pixel_index_in_range(
                        c as int - 1,
                        row,
                        MAX_COLS as int,
                        MAX_ROWS as int,
                    );
                }
                let idx: usize = self.row_pos * MAX_COLS + (c - 1);
                if chars.char_buffer[idx].ascii_character != 0 {
                    proof {
                        assert(g[row * (MAX_COLS as int) + (c as int - 1)].ascii_character != 0);
                        assert(row_end_spec(g, row, c as int) == c as int);
                    }
                    break;
                }
                proof {
                    assert(g[row * (MAX_COLS as int) + (c as int - 1)].ascii_character == 0);
                    assert(row_end_spec(g, row, c as int) == row_end_spec(g, row, c as int - 1));
                }
                c = c - 1;
            }
            self.col_pos = c;
        }
    }
}

/// Whether a byte is printable ASCII: placed as itself, never wrapped to a
/// new line by substitution.
pub open spec fn is_printable_spec(b: u8) -> bool {
    0x20 <= b && b <= 0x7e
}

/// Writing a concatenation is writing the parts in turn.
pub proof fn lemma_term_write_bytes_append(
    st: TermState,
    stride: int,
    fmt: PixelFormat,
    scale: int,
    cols: int,
    rows: int,
    a: Seq<u8>,
    b: Seq<u8>,
    color: ColorCode,
)
    ensures
        term_write_bytes_spec(st, stride, fmt, scale, cols, rows, a + b, color)
            == term_write_bytes_spec(
            term_write_bytes_spec(st, stride, fmt, scale, cols, rows, a, color),
            stride,
            fmt,
            scale,
            cols,
            rows,
            b,
            color,
        ),
    decreases a.len(),
{
    if a.len() == 0 {
        assert(a + b =~= b);
    } else {
        assert((a + b)[0] == a[0]);
        assert((a + b).drop_first() =~= a.drop_first() + b);
        lemma_term_write_bytes_append(
            term_write_byte_spec(
                st,
                stride,
                fmt,
                scale,
                cols,
                rows,
                substitute_byte_spec(a[0]),
                color,
            ),
            stride,
            fmt,
            scale,
            cols,
            rows,
            a.drop_first(),
            b,
            color,
        );
    }
}

/// Writing one more byte after a string is one more step.
pub proof fn lemma_term_write_bytes_snoc(
    st: TermState,
    stride: int,
    fmt: PixelFormat,
    scale: int,
    cols: int,
    rows: int,
    bytes: Seq<u8>,
    b: u8,
    color: ColorCode,
)
    ensures
        term_write_bytes_spec(st, stride, fmt, scale, cols, rows, bytes.push(b), color)
            == term_write_byte_spec(
            term_write_bytes_spec(st, stride, fmt, scale, cols, rows, bytes, color),
            stride,
            fmt,
            scale,
            cols,
            rows,
            substitute_byte_spec(b),
            color,
        ),
{
    assert(bytes.push(b) =~= bytes + seq![b]);
    lemma_term_write_bytes_append(st, stride, fmt, scale, cols, rows, bytes, seq![b], color);
    let mid = term_write_bytes_spec(st, stride, fmt, scale, cols, rows, bytes, color);
    let step1 = term_write_byte_spec(
        mid,
        stride,
        fmt,
        scale,
        cols,
        rows,
        substitute_byte_spec(b),
        color,
    );
    assert(seq![b][0] == b);
    assert(seq![b].drop_first() =~= Seq::<u8>::empty());
    assert(term_write_bytes_spec(mid, stride, fmt, scale, cols, rows, seq![b], color)
        == term_write_bytes_spec(step1, stride, fmt, scale, cols, rows, seq![b].drop_first(), color));
    assert(term_write_bytes_spec(step1, stride, fmt, scale, cols, rows, Seq::<u8>::empty(), color)
        == step1);
}

/// Writing printable bytes that fit in the current row fills its cells in
/// order, advances the column by the length, and touches nothing else.
pub proof fn lemma_write_fits(
    st: TermState,
    stride: int,
    fmt: PixelFormat,
    scale: int,
    cols: int,
    rows: int,
    bytes: Seq<u8>,
    color: ColorCode,
)
    requires
        0 <= st.col,
        st.col + bytes.len() <= cols,
        0 <= st.row < rows,
        rows <= MAX_ROWS as int,
        cols <= MAX_COLS as int,
        st.grid.len() == MAX_COLS * MAX_ROWS,
        forall|i: int| 0 <= i < bytes.len() ==> is_printable_spec(#[trigger] bytes[i]),
    ensures
        ({
            let end = term_write_bytes_spec(st, stride, fmt, scale, cols, rows, bytes, color);
            &&& end.row == st.row
            &&& end.col == st.col + bytes.len()
            &&& end.grid.len() == st.grid.len()
            &&& forall|i: int|
                0 <= i < bytes.len() ==> end.grid[st.row * (MAX_COLS as int) + st.col + i]
                    == (ScreenChar { ascii_character: bytes[i], color_code: color })
            &&& forall|p: int|
                0 <= p < st.grid.len() && !(st.row * (MAX_COLS as int) + st.col <= p < st.row * (
                MAX_COLS as int) + st.col + bytes.len()) ==> end.grid[p] == st.grid[p]
        }),
    decreases bytes.len(),
{
    if bytes.len() > 0 {
        let b = bytes[0];
        let st1 = term_write_byte_spec(st, stride, fmt, scale, cols, rows, b, color);
        assert(substitute_byte_spec(b) == b);
        let idx0 = st.row * (MAX_COLS as int) + st.col;
        let cell0 = ScreenChar { ascii_character: b, color_code: color };
        assert(st1.row == st.row && st1.col == st.col + 1);
        assert(st1.grid == st.grid.update(idx0, cell0));
        let rest = bytes.drop_first();
        lemma_write_fits(st1, stride, fmt, scale, cols, rows, rest, color);
        let end2 = term_write_bytes_spec(st1, stride, fmt, scale, cols, rows, rest, color);
        assert(term_write_bytes_spec(st, stride, fmt, scale, cols, rows, bytes, color) == end2);
        assert forall|i: int| 0 <= i < bytes.len() implies end2.grid[st.row * (MAX_COLS as int)
            + st.col + i] == (ScreenChar { ascii_character: bytes[i], color_code: color }) by {
            if i == 0 {
                assert(end2.grid[idx0] == st1.grid[idx0]);
                assert(st1.grid[idx0] == cell0);
            } else {
                assert(end2.grid[st1.row * (MAX_COLS as int) + st1.col + (i - 1)] == (ScreenChar {
                    ascii_character: rest[i - 1],
                    color_code: color,
                }));
                assert(rest[i - 1] == bytes[i]);
                assert(st1.row * (MAX_COLS as int) + st1.col + (i - 1) == st.row * (
                MAX_COLS as int) + st.col + i);
            }
        }
        assert forall|p: int|
            0 <= p < st.grid.len() && !(idx0 <= p < idx0 + bytes.len()) implies end2.grid[p]
            == st.grid[p] by {
            assert(end2.grid[p] == st1.grid[p]);
            assert(st1.grid[p] == st.grid[p]);
        }
    }
}

/// Wrap correctness: writing a printable string of length `cols + k`
/// (0 < k <= cols) from the start of a row that is not the last one fills
/// that row with the first `cols` bytes, wraps, puts the remaining `k`
/// bytes at the start of the next row, and leaves the cursor at column `k`
/// of that row.
pub proof fn lemma_wrap_correctness(
    st: TermState,
    stride: int,
    fmt: PixelFormat,
    scale: int,
    cols: int,
    rows: int,
    bytes: Seq<u8>,
    color: ColorCode,
    k: int,
)
    requires
        st.col == 0,
        0 <= st.row,
        st.row + 1 < rows,
        rows <= MAX_ROWS as int,
        1 <= cols <= MAX_COLS as int,
        st.grid.len() == MAX_COLS * MAX_ROWS,
        bytes.len() == cols + k,
        0 < k <= cols,
        forall|i: int| 0 <= i < bytes.len() ==> is_printable_spec(#[trigger] bytes[i]),
    ensures
        ({
            let end = term_write_bytes_spec(st, stride, fmt, scale, cols, rows, bytes, color);
            &&& end.row == st.row + 1
            &&& end.col == k
            &&& forall|c: int|
                0 <= c < cols ==> #[trigger] end.grid[st.row * (MAX_COLS as int) + c]
                    == (ScreenChar { ascii_character: bytes[c], color_code: color })
            &&& forall|c: int|
                0 <= c < k ==> #[trigger] end.grid[(st.row + 1) * (MAX_COLS as int) + c]
                    == (ScreenChar { ascii_character: bytes[cols + c], color_code: color })
        }),
{
    let first = bytes.take(cols);
    let rest = bytes.skip(cols);
    assert(bytes =~= first + rest);
    lemma_term_write_bytes_append(st, stride, fmt, scale, cols, rows, first, rest, color);
    lemma_write_fits(st, stride, fmt, scale, cols, rows, first, color);
    let mid = term_write_bytes_spec(st, stride, fmt, scale, cols, rows, first, color);
    assert(mid.row == st.row && mid.col == cols);
    let b0 = rest[0];
    assert(is_printable_spec(b0) && substitute_byte_spec(b0) == b0);
    let m2 = term_write_byte_spec(mid, stride, fmt, scale, cols, rows, b0, color);
    assert(m2.row == st.row + 1 && m2.col == 1);
    lemma_write_fits(m2, stride, fmt, scale, cols, rows, rest.drop_first(), color);
    assert(term_write_bytes_spec(mid, stride, fmt, scale, cols, rows, rest, color)
        == term_write_bytes_spec(m2, stride, fmt, scale, cols, rows, rest.drop_first(), color));
    let end = term_write_bytes_spec(st, stride, fmt, scale, cols, rows, bytes, color);
    assert forall|c: int| 0 <= c < cols implies #[trigger] end.grid[st.row * (MAX_COLS as int)
        + c] == (ScreenChar { ascii_character: bytes[c], color_code: color }) by {
        assert(mid.grid[st.row * (MAX_COLS as int) + c] == (ScreenChar {
            ascii_character: first[c],
            color_code: color,
        }));
        assert(first[c] == bytes[c]);
        assert(m2.grid[st.row * (MAX_COLS as int) + c] == mid.grid[st.row * (MAX_COLS as int)
            + c]);
    }
    assert forall|c: int| 0 <= c < k implies #[trigger] end.grid[(st.row + 1) * (
        MAX_COLS as int) + c] == (ScreenChar { ascii_character: bytes[cols + c], color_code: color })
        by {
        if c == 0 {
            assert(m2.grid[(st.row + 1) * (MAX_COLS as int)] == (ScreenChar {
                ascii_character: b0,
                color_code: color,
            }));
            assert(rest[0] == bytes[cols]);
        } else {
            assert(end.grid[(st.row + 1) * (MAX_COLS as int) + 1 + (c - 1)] == (ScreenChar {
                ascii_character: rest.drop_first()[c - 1],
                color_code: color,
            }));
            assert(rest.drop_first()[c - 1] == bytes[cols + c]);
        }
    }
}

impl TerminalWriter {
    /// Writes a whole string at the cursor, byte by byte: printable ASCII
    /// and line feeds as they are, anything else as the placeholder glyph.
    /// The writer never rejects input.
    pub fn write_string(&mut self, chars: &mut CharWriter, surface: &mut Buffer, s: &str)
        requires
            old(chars).wf(),
            old(surface).wf(),
            old(chars).config == old(surface).config,
            old(self).cursor_wf(*old(chars)),
        ensures
            final(chars).wf(),
            final(surface).wf(),
            same_frame(*final(chars), *old(chars)),
            final(chars).config == final(surface).config,
            final(surface).config == old(surface).config,
            final(self).color_code == old(self).color_code,
            final(self).cursor_wf(*final(chars)),
            final(self).view_with(*final(chars), *final(surface)) == term_write_bytes_spec(
                old(self).view_with(*old(chars), *old(surface)),
                old(surface).config.stride as int,
                old(surface).config.pixel_format,
                old(chars).char_scale as int,
                old(chars).char_buff_size.x as int,
                old(chars).char_buff_size.y as int,
                s.spec_bytes(),
                old(self).color_code,
            ),
    {
        let ghost st0 = old(self).view_with(*old(chars), *old(surface));
        let ghost stride = surface.config.stride as int;
        let ghost fmt = surface.config.pixel_format;
        let ghost scale = chars.char_scale as int;
        let ghost colsg = chars.char_buff_size.x as int;
        let ghost rowsg = chars.char_buff_size.y as int;
        let ghost color0 = self.color_code;
        let bytes = s.as_bytes();
        let n = bytes.len();
        let mut i: usize = 0;
        while i < n
            invariant
                i <= n,
                n == bytes@.len(),
                bytes@ == s.spec_bytes(),
                chars.wf(),
                surface.wf(),
                same_frame(*chars, *old(chars)),
                chars.config == surface.config,
                surface.config == old(surface).config,
                self.color_code == color0,
                self.cursor_wf(*chars),
                stride == surface.config.stride as int,
                fmt == surface.config.pixel_format,
                scale == chars.char_scale as int,
                colsg == chars.char_buff_size.x as int,
                rowsg == chars.char_buff_size.y as int,
                st0 == old(self).view_with(*old(chars), *old(surface)),
                color0 == old(self).color_code,
                self.view_with(*chars, *surface) == term_write_bytes_spec(
                    st0,
                    stride,
                    fmt,
                    scale,
                    colsg,
                    rowsg,
                    bytes@.take(i as int),
                    color0,
                ),
            decreases n - i,
        {
            let b = bytes[i];
            let wb: u8 = if (0x20 <= b && b <= 0x7e) || b == 10 {
                b
            } else {
                0xfe
            };
            proof {
                assert(wb == substitute_byte_spec(b));
                assert(substitute_byte_spec(wb) == wb);
            }
            self.write_byte(chars, surface, wb);
            proof {
                assert(bytes@.take(i as int + 1) =~= bytes@.take(i as int).push(b));
                lemma_term_write_bytes_snoc(
                    st0,
                    stride,
                    fmt,
                    scale,
                    colsg,
                    rowsg,
                    bytes@.take(i as int),
                    b,
                    color0,
                );
            }
            i = i + 1;
        }
        proof {
            assert(bytes@.take(n as int) =~= bytes@);
        }
    }

    /// The grid row the byte at offset `i` of a positioned write lands in,
    /// when wrapping at `cols` columns from start position `(row, col)`.
    pub open spec fn wrapped_row_spec(row: int, col: int, cols: int, i: int) -> int {
        if col + i < cols {
            row
        } else {
            row + 1 + (col + i - cols) / cols
        }
    }

    /// The grid column the byte at offset `i` of a positioned write lands
    /// in.
    pub open spec fn wrapped_col_spec(col: int, cols: int, i: int) -> int {
        if col + i < cols {
            col + i
        } else {
            (col + i - cols) % cols
        }
    }
}

/// The grid after the first `k` bytes of a positioned write are placed:
/// with `wrap` each byte sits at its wrapped position, without it all bytes
/// stay on the starting row.
pub open spec fn place_at_spec(
    g: Seq<ScreenChar>,
    bytes: Seq<u8>,
    row: int,
    col: int,
    cols: int,
    wrap: bool,
    color: ColorCode,
    k: int,
) -> Seq<ScreenChar>
    decreases k,
{
    if k <= 0 {
        g
    } else {
        let prev = place_at_spec(g, bytes, row, col, cols, wrap, color, k - 1);
        let r = if wrap {
            TerminalWriter::wrapped_row_spec(row, col, cols, k - 1)
        } else {
            row
        };
        let c = if wrap {
            TerminalWriter::wrapped_col_spec(col, cols, k - 1)
        } else {
            col + k - 1
        };
        prev.update(
            r * (MAX_COLS as int) + c,
            ScreenChar { ascii_character: bytes[k - 1], color_code: color },
        )
    }
}

/// Later bytes of a positioned write never land on an earlier row.
pub proof fn lemma_wrapped_row_monotone(row: int, col: int, cols: int, i1: int, i2: int)
    requires
        cols >= 1,
        0 <= col,
        0 <= i1 <= i2,
    ensures
        TerminalWriter::wrapped_row_spec(row, col, cols, i1) <= TerminalWriter::wrapped_row_spec(
            row,
            col,
            cols,
            i2,
        ),
{
    if col + i1 < cols {
        if col + i2 >= cols {
            vstd::arithmetic::div_mod::lemma_div_pos_is_pos(col + i2 - cols, cols);
        }
    } else {
        vstd::arithmetic::div_mod::lemma_div_is_ordered(col + i1 - cols, col + i2 - cols, cols);
    }
}

impl TerminalWriter {
    /// Writes a string directly at `(row, col)` in the current color and
    /// repaints the active region. With `wrap` set, bytes past the active
    /// width continue on following rows from column 0, split at the
    /// boundary with no word awareness; without it the whole string must
    /// fit in the row.
    pub fn write_string_at(
        &mut self,
        chars: &mut CharWriter,
        surface: &mut Buffer,
        s: &str,
        row: usize,
        col: usize,
        wrap: bool,
    )
        requires
            old(chars).wf(),
            old(surface).wf(),
            old(chars).config == old(surface).config,
            row < old(chars).char_buff_size.y,
            s.spec_bytes().len() <= MAX_COLS * MAX_ROWS,
            !wrap ==> col + s.spec_bytes().len() <= old(chars).char_buff_size.x,
            wrap ==> col <= old(chars).char_buff_size.x,
            wrap && s.spec_bytes().len() > 0 ==> TerminalWriter::wrapped_row_spec(
                row as int,
                col as int,
                old(chars).char_buff_size.x as int,
                s.spec_bytes().len() - 1,
            ) < old(chars).char_buff_size.y,
        ensures
            *final(self) == *old(self),
            final(chars).wf(),
            final(surface).wf(),
            same_frame(*final(chars), *old(chars)),
            final(chars).config == final(surface).config,
            final(surface).config == old(surface).config,
            final(chars).char_buffer@ == place_at_spec(
                old(chars).char_buffer@,
                s.spec_bytes(),
                row as int,
                col as int,
                old(chars).char_buff_size.x as int,
                wrap,
                old(self).color_code,
                s.spec_bytes().len() as int,
            ),
            final(surface).display@ == render_screen_pix(
                old(surface).display@,
                old(surface).config.stride as int,
                old(surface).config.pixel_format,
                old(chars).char_scale as int,
                final(chars).char_buffer@,
                old(chars).char_buff_size.y as int,
                old(chars).char_buff_size.x as int,
            ),
    {
        let ghost g0 = chars.char_buffer@;
        let ghost colsg = chars.char_buff_size.x as int;
        let ghost color0 = self.color_code;
        let cols = chars.char_buff_size.x;
        let rows = chars.char_buff_size.y;
        let bytes = s.as_bytes();
        let n = bytes.len();
        let mut i: usize = 0;
        while i < n
            invariant
                i <= n,
                n == bytes@.len(),
                bytes@ == s.spec_bytes(),
                n <= MAX_COLS * MAX_ROWS,
                chars.wf(),
                same_frame(*chars, *old(chars)),
                chars.config == old(chars).config,
                cols == chars.char_buff_size.x,
                rows == chars.char_buff_size.y,
                colsg == cols as int,
                row < rows,
                color0 == self.color_code,
                *self == *old(self),
                g0 == old(chars).char_buffer@,
                !wrap ==> col + n <= cols,
                wrap ==> col <= cols,
                wrap && n > 0 ==> TerminalWriter::wrapped_row_spec(
                    row as int,
                    col as int,
                    colsg,
                    n as int - 1,
                ) < rows,
                chars.char_buffer@ == place_at_spec(
                    g0,
                    bytes@,
                    row as int,
                    col as int,
                    colsg,
                    wrap,
                    color0,
                    i as int,
                ),
            decreases n - i,
        {
            let b = bytes[i];
            let r: usize;
            let c: usize;
            if wrap {
                let off = col + i;
                if off < cols {
                    r = row;
                    c = off;
                } else {
                    let j = off - cols;
                    proof {
                        lemma_div_bounds(j as int, colsg);
                        lemma_wrapped_row_monotone(
                            row as int,
                            col as int,
                            colsg,
                            i as int,
                            n as int - 1,
                        );
                    }
                    r = row + 1 + j / cols;
                    c = j % cols;
                    proof {
                        vstd::arithmetic::div_mod::lemma_mod_division_less_than_divisor(
                            j as int,
                            colsg,
                        );
                    }
                }
            } else {
                r = row;
                c = col + i;
            }
            proof {
                assert(r as int == TerminalWriter::wrapped_row_spec(
                    row as int,
                    col as int,
                    colsg,
                    i as int,
                ) || !wrap);
                if wrap {
                    lemma_wrapped_row_monotone(row as int, col as int, colsg, i as int, n as int - 1);
                }
                assert(r < rows);
                assert(c < cols);
                lemma_pixel_index_in_range(c as int, r as int, MAX_COLS as int, MAX_ROWS as int);
            }
            let idx: usize = r * MAX_COLS + c;
            chars.char_buffer[idx] = ScreenChar::new(b, self.color_code);
            i = i + 1;
        }
        chars.flush_char_buf(surface);
    }
}

} // verus!
