//! The 80 x 25 text console drawn onto the frame buffer.
//!
//! The console keeps its own character buffer next to the pixels: a
//! printable character is drawn at the cursor and recorded, a newline
//! moves the cursor down, and a newline on the last row scrolls — the
//! screen is cleared to the background colour, the buffer shifts up
//! one row, and every recorded glyph is drawn again. Only the one
//! glyph of the font ('A') and the newline are accepted.

use vstd::prelude::*;

use crate::font::{font_a_bit, in_glyph, spec_glyph_colored, spec_glyph_in_bounds, write_ascii};
use crate::frame_buffer::{PixelWriter, Rgb};
use crate::graphics::{
    Vector2D, fill_rectangle, in_rect, rect_index, spec_rect_colored, spec_unchanged_outside,
};
use crate::{KernelError, KernelResult};

verus! {

/// Text rows on the screen.
pub const CONSOLE_ROWS: usize = 25;

/// Text columns on the screen.
pub const CONSOLE_COLS: usize = 80;

/// Whether pixel index `i` lies in the console's footprint: the
/// 640 x 400 area its 80 x 25 glyph cells cover.
pub open spec fn in_console_area(stride: int, i: int) -> bool {
    in_rect(0, 0, 8 * CONSOLE_COLS, 16 * CONSOLE_ROWS, stride, i)
}

/// Every inked cell of a glyph drawn at text cell (`row`, `col`) lies
/// in the console's footprint.
proof fn lemma_glyph_within_console(row: int, col: int, stride: int, i: int)
    requires
        0 <= row < CONSOLE_ROWS,
        0 <= col < CONSOLE_COLS,
        in_glyph(8 * col, 16 * row, stride, i),
    ensures in_console_area(stride, i),
{
    let (dy, dx) = choose|dy: int, dx: int|
        0 <= dy < 16 && 0 <= dx < 8 && font_a_bit(dy, dx) && i == #[trigger] rect_index(
            8 * col,
            16 * row,
            stride,
            dy,
            dx,
        );
    assert(i == rect_index(0, 0, stride, 16 * row + dy, 8 * col + dx));
}

/// The console's state: colours, recorded characters, cursor.
pub struct Console {
    fg_color: Rgb,
    bg_color: Rgb,
    buffer: Vec<char>,
    cursor_row: usize,
    cursor_col: usize,
}

impl Console {
    /// The recorded characters, row-major: cell (`row`, `col`) is at
    /// `row * 80 + col`.
    pub closed spec fn chars(&self) -> Seq<char> {
        self.buffer@
    }

    pub closed spec fn spec_fg_color(&self) -> Rgb {
        self.fg_color
    }

    pub closed spec fn spec_bg_color(&self) -> Rgb {
        self.bg_color
    }

    pub closed spec fn spec_cursor_row(&self) -> int {
        self.cursor_row as int
    }

    pub closed spec fn spec_cursor_col(&self) -> int {
        self.cursor_col as int
    }

    /// Buffer shape, cursor bounds, and the one-glyph alphabet: every
    /// recorded cell is 'A' or blank.
    pub closed spec fn wf(&self) -> bool {
        &&& self.buffer@.len() == CONSOLE_ROWS * CONSOLE_COLS
        &&& self.cursor_row < CONSOLE_ROWS
        &&& self.cursor_col <= CONSOLE_COLS
        &&& forall|i: int|
            0 <= i < self.buffer@.len() ==> self.buffer@[i] == 'A' || self.buffer@[i] == '\0'
    }

    /// An empty console with the cursor at the top left.
    pub fn new(fg_color: Rgb, bg_color: Rgb) -> (r: Console)
        ensures
            r.wf(),
            r.spec_fg_color() == fg_color,
            r.spec_bg_color() == bg_color,
            r.spec_cursor_row() == 0,
            r.spec_cursor_col() == 0,
            forall|i: int| 0 <= i < CONSOLE_ROWS * CONSOLE_COLS ==> r.chars()[i] == '\0',
    {
        let mut buffer: Vec<char> = Vec::new();
        let mut i: usize = 0;
        while i < CONSOLE_ROWS * CONSOLE_COLS
            invariant
                i <= CONSOLE_ROWS * CONSOLE_COLS,
                buffer@.len() == i,
                forall|k: int| 0 <= k < i ==> buffer@[k] == '\0',
            decreases CONSOLE_ROWS * CONSOLE_COLS - i,
        {
            buffer.push('\0');
            i = i + 1;
        }
        Console { fg_color, bg_color, buffer, cursor_row: 0, cursor_col: 0 }
    }

    /// Moves the cursor to the start of the next line; on the last
    /// row, scrolls: the screen is repainted in the background colour,
    /// the buffer shifts up one row, and the kept glyphs are redrawn.
    pub fn new_line<W: PixelWriter>(&mut self, writer: &mut W) -> (r: KernelResult<()>)
        requires
            old(self).wf(),
            old(writer).wf(),
        ensures
            final(self).wf(),
            final(writer).wf(),
            final(writer).stride() == old(writer).stride(),
            final(writer).num_pixels() == old(writer).num_pixels(),
            final(self).spec_fg_color() == old(self).spec_fg_color(),
            final(self).spec_bg_color() == old(self).spec_bg_color(),
            final(self).spec_cursor_col() == 0,
            r is Err ==> r == KernelResult::<()>::Err(KernelError::OutOfBuffer),
            old(self).spec_cursor_row() < CONSOLE_ROWS - 1 ==> r is Ok && final(self).spec_cursor_row() == old(self).spec_cursor_row() + 1 && final(self).chars() == old(self).chars(),
            old(self).spec_cursor_row() == CONSOLE_ROWS - 1 ==> final(self).spec_cursor_row()
                == CONSOLE_ROWS - 1,
            old(self).spec_cursor_row() == CONSOLE_ROWS - 1 && r is Ok ==> (forall|i: int|
                0 <= i < (CONSOLE_ROWS - 1) * CONSOLE_COLS ==> final(self).chars()[i] == old(self).chars()[i + CONSOLE_COLS]) && (forall|i: int|
                (CONSOLE_ROWS - 1) * CONSOLE_COLS <= i < CONSOLE_ROWS * CONSOLE_COLS ==> final(self).chars()[i] == '\0'),
            old(self).spec_cursor_row() < CONSOLE_ROWS - 1 ==> *final(writer) == *old(writer),
            old(self).spec_cursor_row() == CONSOLE_ROWS - 1 && r is Ok ==> (forall|i: int|
                0 <= i < old(writer).num_pixels() && !in_console_area(
                    old(writer).stride() as int,
                    i,
                ) ==> final(writer).pixel(i) == old(writer).pixel(i)) && (forall|i: int|
                0 <= i < old(writer).num_pixels() && in_console_area(old(writer).stride() as int, i)
                    ==> final(writer).pixel(i) == (
                    old(self).spec_bg_color().r,
                    old(self).spec_bg_color().g,
                    old(self).spec_bg_color().b,
                ) || final(writer).pixel(i) == (
                    old(self).spec_fg_color().r,
                    old(self).spec_fg_color().g,
                    old(self).spec_fg_color().b,
                )),
    {
        self.cursor_col = 0;
        if self.cursor_row < CONSOLE_ROWS - 1 {
            self.cursor_row = self.cursor_row + 1;
            return Ok(());
        }

        let ghost stride = old(writer).stride() as int;
        let ghost num = old(writer).num_pixels() as int;
        let ghost bg3 = (
            old(self).spec_bg_color().r,
            old(self).spec_bg_color().g,
            old(self).spec_bg_color().b,
        );
        let ghost fg3 = (
            old(self).spec_fg_color().r,
            old(self).spec_fg_color().g,
            old(self).spec_fg_color().b,
        );
        let bg = self.bg_color;
        let cleared = fill_rectangle(
            writer,
            &Vector2D::new(0u32, 0u32),
            &Vector2D::new(8 * CONSOLE_COLS as u32, 16 * CONSOLE_ROWS as u32),
            bg,
        );
        if cleared.is_err() {
            return Err(KernelError::OutOfBuffer);
        }
        proof {
            assert(spec_rect_colored(
                writer,
                0,
                0,
                8 * CONSOLE_COLS,
                16 * CONSOLE_ROWS,
                stride,
                bg3,
            ));
            assert(spec_unchanged_outside(
                old(writer),
                writer,
                0,
                0,
                8 * CONSOLE_COLS,
                16 * CONSOLE_ROWS,
                stride,
            ));
            assert forall|i: int|
                0 <= i < num && in_console_area(stride, i) implies writer.pixel(i) == bg3 by {
                let (dy, dx) = choose|dy: int, dx: int|
                    0 <= dy < 16 * CONSOLE_ROWS && 0 <= dx < 8 * CONSOLE_COLS && i
                        == #[trigger] rect_index(0, 0, stride, dy, dx);
                assert(writer.pixel(rect_index(0, 0, stride, dy, dx)) == bg3);
            }
        }

        let ghost rotated_from = self.buffer@;
        let mut i: usize = 0;
        while i < (CONSOLE_ROWS - 1) * CONSOLE_COLS
            invariant
                old(self).wf(),
                old(self).spec_cursor_row() == CONSOLE_ROWS - 1,
                old(writer).wf(),
                writer.wf(),
                writer.stride() == old(writer).stride(),
                writer.num_pixels() == old(writer).num_pixels(),
                stride == old(writer).stride() as int,
                num == old(writer).num_pixels() as int,
                bg3 == (
                    old(self).spec_bg_color().r,
                    old(self).spec_bg_color().g,
                    old(self).spec_bg_color().b,
                ),
                fg3 == (
                    old(self).spec_fg_color().r,
                    old(self).spec_fg_color().g,
                    old(self).spec_fg_color().b,
                ),
                forall|i: int|
                    0 <= i < num && !in_console_area(stride, i) ==> writer.pixel(i) == old(writer).pixel(i),
                forall|i: int|
                    0 <= i < num && in_console_area(stride, i) ==> writer.pixel(i) == bg3
                        || writer.pixel(i) == fg3,
                self.fg_color == old(self).fg_color,
                self.bg_color == old(self).bg_color,
                self.cursor_row == CONSOLE_ROWS - 1,
                self.cursor_col == 0,
                self.buffer@.len() == CONSOLE_ROWS * CONSOLE_COLS,
                i <= (CONSOLE_ROWS - 1) * CONSOLE_COLS,
                rotated_from.len() == CONSOLE_ROWS * CONSOLE_COLS,
                forall|k: int| 0 <= k < i ==> self.buffer@[k] == rotated_from[k + CONSOLE_COLS],
                forall|k: int|
                    i <= k < CONSOLE_ROWS * CONSOLE_COLS ==> self.buffer@[k] == rotated_from[k],
                forall|k: int|
                    0 <= k < self.buffer@.len() ==> self.buffer@[k] == 'A' || self.buffer@[k]
                        == '\0',
            decreases (CONSOLE_ROWS - 1) * CONSOLE_COLS - i,
        {
            let shifted = self.buffer[i + CONSOLE_COLS];
            self.buffer.set(i, shifted);
            i = i + 1;
        }
        let mut j: usize = (CONSOLE_ROWS - 1) * CONSOLE_COLS;
        while j < CONSOLE_ROWS * CONSOLE_COLS
            invariant
                old(self).wf(),
                old(self).spec_cursor_row() == CONSOLE_ROWS - 1,
                old(writer).wf(),
                writer.wf(),
                writer.stride() == old(writer).stride(),
                writer.num_pixels() == old(writer).num_pixels(),
                stride == old(writer).stride() as int,
                num == old(writer).num_pixels() as int,
                bg3 == (
                    old(self).spec_bg_color().r,
                    old(self).spec_bg_color().g,
                    old(self).spec_bg_color().b,
                ),
                fg3 == (
                    old(self).spec_fg_color().r,
                    old(self).spec_fg_color().g,
                    old(self).spec_fg_color().b,
                ),
                forall|i: int|
                    0 <= i < num && !in_console_area(stride, i) ==> writer.pixel(i) == old(writer).pixel(i),
                forall|i: int|
                    0 <= i < num && in_console_area(stride, i) ==> writer.pixel(i) == bg3
                        || writer.pixel(i) == fg3,
                self.fg_color == old(self).fg_color,
                self.bg_color == old(self).bg_color,
                self.cursor_row == CONSOLE_ROWS - 1,
                self.cursor_col == 0,
                self.buffer@.len() == CONSOLE_ROWS * CONSOLE_COLS,
                (CONSOLE_ROWS - 1) * CONSOLE_COLS <= j <= CONSOLE_ROWS * CONSOLE_COLS,
                rotated_from.len() == CONSOLE_ROWS * CONSOLE_COLS,
                forall|k: int|
                    0 <= k < (CONSOLE_ROWS - 1) * CONSOLE_COLS ==> self.buffer@[k] == rotated_from[
                        k + CONSOLE_COLS
                    ],
                forall|k: int| (CONSOLE_ROWS - 1) * CONSOLE_COLS <= k < j ==> self.buffer@[k] == '\0',
                forall|k: int|
                    0 <= k < self.buffer@.len() ==> self.buffer@[k] == 'A' || self.buffer@[k]
                        == '\0',
            decreases CONSOLE_ROWS * CONSOLE_COLS - j,
        {
            self.buffer.set(j, '\0');
            j = j + 1;
        }

        let fg = self.fg_color;
        let mut row: usize = 0;
        while row < CONSOLE_ROWS
            invariant
                old(self).wf(),
                old(self).spec_cursor_row() == CONSOLE_ROWS - 1,
                self.wf(),
                self.fg_color == old(self).fg_color,
                self.bg_color == old(self).bg_color,
                self.cursor_row == CONSOLE_ROWS - 1,
                self.cursor_col == 0,
                fg == self.fg_color,
                row <= CONSOLE_ROWS,
                old(writer).wf(),
                writer.wf(),
                writer.stride() == old(writer).stride(),
                writer.num_pixels() == old(writer).num_pixels(),
                stride == old(writer).stride() as int,
                num == old(writer).num_pixels() as int,
                bg3 == (
                    old(self).spec_bg_color().r,
                    old(self).spec_bg_color().g,
                    old(self).spec_bg_color().b,
                ),
                fg3 == (
                    old(self).spec_fg_color().r,
                    old(self).spec_fg_color().g,
                    old(self).spec_fg_color().b,
                ),
                forall|i: int|
                    0 <= i < num && !in_console_area(stride, i) ==> writer.pixel(i) == old(writer).pixel(i),
                forall|i: int|
                    0 <= i < num && in_console_area(stride, i) ==> writer.pixel(i) == bg3
                        || writer.pixel(i) == fg3,
                forall|k: int|
                    0 <= k < (CONSOLE_ROWS - 1) * CONSOLE_COLS ==> self.buffer@[k] == rotated_from[
                        k + CONSOLE_COLS
                    ],
                forall|k: int|
                    (CONSOLE_ROWS - 1) * CONSOLE_COLS <= k < CONSOLE_ROWS * CONSOLE_COLS
                        ==> self.buffer@[k] == '\0',
            decreases CONSOLE_ROWS - row,
        {
            let mut col: usize = 0;
            while col < CONSOLE_COLS
                invariant
                    old(self).wf(),
                    old(self).spec_cursor_row() == CONSOLE_ROWS - 1,
                    self.wf(),
                    self.fg_color == old(self).fg_color,
                    self.bg_color == old(self).bg_color,
                    self.cursor_row == CONSOLE_ROWS - 1,
                    self.cursor_col == 0,
                    fg == self.fg_color,
                    row < CONSOLE_ROWS,
                    col <= CONSOLE_COLS,
                    old(writer).wf(),
                    writer.wf(),
                    writer.stride() == old(writer).stride(),
                    writer.num_pixels() == old(writer).num_pixels(),
                    stride == old(writer).stride() as int,
                    num == old(writer).num_pixels() as int,
                    bg3 == (
                        old(self).spec_bg_color().r,
                        old(self).spec_bg_color().g,
                        old(self).spec_bg_color().b,
                    ),
                    fg3 == (
                        old(self).spec_fg_color().r,
                        old(self).spec_fg_color().g,
                        old(self).spec_fg_color().b,
                    ),
                    forall|i: int|
                        0 <= i < num && !in_console_area(stride, i) ==> writer.pixel(i) == old(writer).pixel(i),
                    forall|i: int|
                        0 <= i < num && in_console_area(stride, i) ==> writer.pixel(i) == bg3
                            || writer.pixel(i) == fg3,
                    forall|k: int|
                        0 <= k < (CONSOLE_ROWS - 1) * CONSOLE_COLS ==> self.buffer@[k]
                            == rotated_from[k + CONSOLE_COLS],
                    forall|k: int|
                        (CONSOLE_ROWS - 1) * CONSOLE_COLS <= k < CONSOLE_ROWS * CONSOLE_COLS
                            ==> self.buffer@[k] == '\0',
                decreases CONSOLE_COLS - col,
            {
                let idx = row * CONSOLE_COLS + col;
                proof {
                    assert(row * 80 <= 24 * 80) by (nonlinear_arith)
                        requires row <= 24;
                }
                let c = self.buffer[idx];
                if c == 'A' {
                    let ghost pre = *writer;
                    let drawn = write_ascii(
                        writer,
                        (col as u32) * 8,
                        (row as u32) * 16,
                        c,
                        fg,
                    );
                    if drawn.is_err() {
                        return Err(KernelError::OutOfBuffer);
                    }
                    proof {
                        let cx = 8 * (col as int);
                        let cy = 16 * (row as int);
                        assert((((col as u32) * 8) as int) == cx);
                        assert((((row as u32) * 16) as int) == cy);
                        assert(spec_glyph_colored(writer, cx, cy, stride, fg3));
                        assert forall|i: int|
                            0 <= i < num && !in_console_area(stride, i) implies writer.pixel(i)
                            == old(writer).pixel(i) by {
                            if in_glyph(cx, cy, stride, i) {
                                lemma_glyph_within_console(row as int, col as int, stride, i);
                            }
                            assert(!in_glyph(cx, cy, stride, i));
                            assert(writer.pixel(i) == pre.pixel(i));
                        }
                        assert forall|i: int|
                            0 <= i < num && in_console_area(stride, i) implies writer.pixel(i)
                            == bg3 || writer.pixel(i) == fg3 by {
                            if in_glyph(cx, cy, stride, i) {
                                let (dy, dx) = choose|dy: int, dx: int|
                                    0 <= dy < 16 && 0 <= dx < 8 && font_a_bit(dy, dx) && i
                                        == #[trigger] rect_index(cx, cy, stride, dy, dx);
                                assert(writer.pixel(rect_index(cx, cy, stride, dy, dx)) == fg3);
                            } else {
                                assert(writer.pixel(i) == pre.pixel(i));
                            }
                        }
                    }
                }
                col = col + 1;
            }
            row = row + 1;
        }
        Ok(())
    }

    /// Handles one character at the cursor: a newline advances the
    /// line (scrolling from the last row), the glyph 'A' is drawn at
    /// the cursor cell and recorded — unless the cursor sits past the
    /// last column, where the character is dropped.
    pub fn put_char<W: PixelWriter>(&mut self, writer: &mut W, c: char) -> (r: KernelResult<()>)
        requires
            old(self).wf(),
            old(writer).wf(),
            c == 'A' || c == '\n',
        ensures
            final(self).wf(),
            final(writer).wf(),
            final(writer).stride() == old(writer).stride(),
            final(writer).num_pixels() == old(writer).num_pixels(),
            final(self).spec_fg_color() == old(self).spec_fg_color(),
            final(self).spec_bg_color() == old(self).spec_bg_color(),
            r is Err ==> r == KernelResult::<()>::Err(KernelError::OutOfBuffer),
            c == 'A' && old(self).spec_cursor_col() < CONSOLE_COLS ==> (r is Ok
                <==> spec_glyph_in_bounds(
                8 * old(self).spec_cursor_col(),
                16 * old(self).spec_cursor_row(),
                old(writer).stride() as int,
                old(writer).num_pixels() as int,
            )),
            c == 'A' && old(self).spec_cursor_col() < CONSOLE_COLS && r is Ok ==> final(self).chars() == old(self).chars().update(
                old(self).spec_cursor_row() * CONSOLE_COLS + old(self).spec_cursor_col(),
                'A',
            ) && final(self).spec_cursor_row() == old(self).spec_cursor_row() && final(self).spec_cursor_col() == old(self).spec_cursor_col() + 1,
            c == 'A' && old(self).spec_cursor_col() >= CONSOLE_COLS ==> r is Ok && *final(self)
                == *old(self),
            c == '\n' && old(self).spec_cursor_row() < CONSOLE_ROWS - 1 ==> r is Ok && final(self).spec_cursor_row() == old(self).spec_cursor_row() + 1 && final(self).spec_cursor_col()
                == 0 && final(self).chars() == old(self).chars(),
            c == '\n' && old(self).spec_cursor_row() == CONSOLE_ROWS - 1 ==> final(self).spec_cursor_row() == CONSOLE_ROWS - 1 && final(self).spec_cursor_col() == 0,
            c == '\n' && old(self).spec_cursor_row() == CONSOLE_ROWS - 1 && r is Ok ==> (forall|i: int|
                0 <= i < (CONSOLE_ROWS - 1) * CONSOLE_COLS ==> final(self).chars()[i] == old(self).chars()[i + CONSOLE_COLS]) && (forall|i: int|
                (CONSOLE_ROWS - 1) * CONSOLE_COLS <= i < CONSOLE_ROWS * CONSOLE_COLS ==> final(self).chars()[i] == '\0') && (forall|i: int|
                0 <= i < old(writer).num_pixels() && !in_console_area(
                    old(writer).stride() as int,
                    i,
                ) ==> final(writer).pixel(i) == old(writer).pixel(i)) && (forall|i: int|
                0 <= i < old(writer).num_pixels() && in_console_area(old(writer).stride() as int, i)
                    ==> final(writer).pixel(i) == (
                    old(self).spec_bg_color().r,
                    old(self).spec_bg_color().g,
                    old(self).spec_bg_color().b,
                ) || final(writer).pixel(i) == (
                    old(self).spec_fg_color().r,
                    old(self).spec_fg_color().g,
                    old(self).spec_fg_color().b,
                )),
    {
        if c == '\n' {
            return self.new_line(writer);
        }
        if self.cursor_col < CONSOLE_COLS {
            proof {
                let cr = self.cursor_row as int;
                assert(0 <= cr * 80 <= 24 * 80) by (nonlinear_arith)
                    requires 0 <= cr <= 24;
            }
            let drawn = write_ascii(
                writer,
                8 * (self.cursor_col as u32),
                16 * (self.cursor_row as u32),
                c,
                self.fg_color,
            );
            if drawn.is_err() {
                return Err(KernelError::OutOfBuffer);
            }
            let idx = self.cursor_row * CONSOLE_COLS + self.cursor_col;
            self.buffer.set(idx, c);
            self.cursor_col = self.cursor_col + 1;
        }
        Ok(())
    }
}

} // verus!
