//! Glyph rendering: the one 8 x 16 bitmap font this core ships.

use vstd::prelude::*;

use crate::frame_buffer::{PixelWriter, Rgb};
use crate::graphics::{lemma_rect_index_nonneg, rect_index};
use crate::{KernelError, KernelResult};

verus! {

/// Row `row` of the glyph for 'A', highest bit leftmost.
pub open spec fn spec_font_a(row: int) -> u8 {
    if row == 1 {
        0b00011000
    } else if row == 2 {
        0b00011000
    } else if row == 3 {
        0b00011000
    } else if row == 4 {
        0b00011000
    } else if row == 5 {
        0b00100100
    } else if row == 6 {
        0b00100100
    } else if row == 7 {
        0b00100100
    } else if row == 8 {
        0b00100100
    } else if row == 9 {
        0b01111110
    } else if row == 10 {
        0b01000010
    } else if row == 11 {
        0b01000010
    } else if row == 12 {
        0b01000010
    } else if row == 13 {
        0b11100111
    } else {
        0b00000000
    }
}

/// Row `row` of the glyph for 'A'.
pub fn font_a(row: usize) -> (r: u8)
    requires row < 16,
    ensures r == spec_font_a(row as int),
{
    match row {
        1 => 0b00011000,
        2 => 0b00011000,
        3 => 0b00011000,
        4 => 0b00011000,
        5 => 0b00100100,
        6 => 0b00100100,
        7 => 0b00100100,
        8 => 0b00100100,
        9 => 0b01111110,
        10 => 0b01000010,
        11 => 0b01000010,
        12 => 0b01000010,
        13 => 0b11100111,
        _ => 0b00000000,
    }
}

/// Whether the glyph for 'A' inks the cell `dx` columns into row `dy`.
pub open spec fn font_a_bit(dy: int, dx: int) -> bool {
    (spec_font_a(dy) << (dx as u8)) & 0x80 > 0
}

/// Every inked cell of the glyph at (`px`, `py`) lies below `num`.
pub open spec fn spec_glyph_in_bounds(px: int, py: int, stride: int, num: int) -> bool {
    forall|dy: int, dx: int|
        0 <= dy < 16 && 0 <= dx < 8 && font_a_bit(dy, dx) ==> #[trigger] rect_index(
            px,
            py,
            stride,
            dy,
            dx,
        ) < num
}

/// Every inked cell of the glyph carries colour `c` in `w`.
pub open spec fn spec_glyph_colored<W: PixelWriter>(
    w: &W,
    px: int,
    py: int,
    stride: int,
    c: (u8, u8, u8),
) -> bool {
    forall|dy: int, dx: int|
        0 <= dy < 16 && 0 <= dx < 8 && font_a_bit(dy, dx) ==> w.pixel(
            #[trigger] rect_index(px, py, stride, dy, dx),
        ) == c
}

/// Whether linear index `i` is an inked cell of the glyph at
/// (`px`, `py`).
pub open spec fn in_glyph(px: int, py: int, stride: int, i: int) -> bool {
    exists|dy: int, dx: int|
        0 <= dy < 16 && 0 <= dx < 8 && font_a_bit(dy, dx) && i == #[trigger] rect_index(
            px,
            py,
            stride,
            dy,
            dx,
        )
}

/// Whether `i` is an inked cell the row-major walk has already
/// visited, the walk standing at row `rdy`, column `rdx`.
pub open spec fn in_glyph_prefix(px: int, py: int, stride: int, rdy: int, rdx: int, i: int) -> bool {
    exists|dy: int, dx: int|
        0 <= dy < 16 && 0 <= dx < 8 && (dy < rdy || (dy == rdy && dx < rdx)) && font_a_bit(dy, dx)
            && i == #[trigger] rect_index(px, py, stride, dy, dx)
}

/// Draws the glyph for `c` — only 'A' exists — with its top-left cell
/// at (`x`, `y`). Succeeds exactly when every inked cell lies inside
/// the buffer; un-inked cells and pixels off the glyph are never
/// touched.
pub fn write_ascii<W: PixelWriter>(writer: &mut W, x: u32, y: u32, c: char, rgb: Rgb) -> (r:
    KernelResult<()>)
    requires
        old(writer).wf(),
        c == 'A',
        x + 8 <= u32::MAX + 1,
        y + 16 <= u32::MAX + 1,
    ensures
        final(writer).wf(),
        final(writer).stride() == old(writer).stride(),
        final(writer).num_pixels() == old(writer).num_pixels(),
        r is Err ==> r == KernelResult::<()>::Err(KernelError::OutOfBuffer),
        r is Ok <==> spec_glyph_in_bounds(
            x as int,
            y as int,
            old(writer).stride() as int,
            old(writer).num_pixels() as int,
        ),
        r is Ok ==> spec_glyph_colored(
            final(writer),
            x as int,
            y as int,
            old(writer).stride() as int,
            (rgb.r, rgb.g, rgb.b),
        ),
        forall|i: int|
            0 <= i < old(writer).num_pixels() && !in_glyph(
                x as int,
                y as int,
                old(writer).stride() as int,
                i,
            ) ==> final(writer).pixel(i) == old(writer).pixel(i),
{
    let ghost px = x as int;
    let ghost py = y as int;
    let ghost stride = old(writer).stride() as int;
    let ghost num = old(writer).num_pixels() as int;
    let mut dy: usize = 0;
    while dy < 16
        invariant
            old(writer).wf(),
            writer.wf(),
            writer.stride() == old(writer).stride(),
            writer.num_pixels() == old(writer).num_pixels(),
            stride == old(writer).stride() as int,
            num == old(writer).num_pixels() as int,
            px == x,
            py == y,
            dy <= 16,
            x + 8 <= u32::MAX + 1,
            y + 16 <= u32::MAX + 1,
            forall|v: int, u: int|
                0 <= v < dy && 0 <= u < 8 && font_a_bit(v, u) ==> #[trigger] rect_index(
                    px,
                    py,
                    stride,
                    v,
                    u,
                ) < num,
            forall|v: int, u: int|
                0 <= v < dy && 0 <= u < 8 && font_a_bit(v, u) ==> writer.pixel(
                    #[trigger] rect_index(px, py, stride, v, u),
                ) == (rgb.r, rgb.g, rgb.b),
            forall|i: int|
                0 <= i < num && !in_glyph_prefix(px, py, stride, dy as int, 0, i) ==> writer.pixel(
                    i,
                ) == old(writer).pixel(i),
        decreases 16 - dy,
    {
        let row = font_a(dy);
        let mut dx: usize = 0;
        while dx < 8
            invariant
                old(writer).wf(),
                writer.wf(),
                writer.stride() == old(writer).stride(),
                writer.num_pixels() == old(writer).num_pixels(),
                stride == old(writer).stride() as int,
                num == old(writer).num_pixels() as int,
                px == x,
                py == y,
                dy < 16,
                dx <= 8,
                x + 8 <= u32::MAX + 1,
                y + 16 <= u32::MAX + 1,
                row == spec_font_a(dy as int),
                forall|v: int, u: int|
                    0 <= v < dy && 0 <= u < 8 && font_a_bit(v, u) ==> #[trigger] rect_index(
                        px,
                        py,
                        stride,
                        v,
                        u,
                    ) < num,
                forall|u: int|
                    0 <= u < dx && font_a_bit(dy as int, u) ==> #[trigger] rect_index(
                        px,
                        py,
                        stride,
                        dy as int,
                        u,
                    ) < num,
                forall|v: int, u: int|
                    0 <= v < dy && 0 <= u < 8 && font_a_bit(v, u) ==> writer.pixel(
                        #[trigger] rect_index(px, py, stride, v, u),
                    ) == (rgb.r, rgb.g, rgb.b),
                forall|u: int|
                    0 <= u < dx && font_a_bit(dy as int, u) ==> writer.pixel(
                        #[trigger] rect_index(px, py, stride, dy as int, u),
                    ) == (rgb.r, rgb.g, rgb.b),
                forall|i: int|
                    0 <= i < num && !in_glyph_prefix(px, py, stride, dy as int, dx as int, i)
                        ==> writer.pixel(i) == old(writer).pixel(i),
            decreases 8 - dx,
        {
            if ((row << dx) & 0x80) > 0 {
                proof {
                    assert(row << dx == spec_font_a(dy as int) << ((dx as int) as u8));
                    assert(font_a_bit(dy as int, dx as int));
                }
                let ghost pre = *writer;
                let res = writer.write(x + (dx as u32), y + (dy as u32), rgb);
                proof {
                    let idx = rect_index(px, py, stride, dy as int, dx as int);
                    assert(((y + (dy as u32)) as int) * stride + ((x + (dx as u32)) as int) == idx);
                    lemma_rect_index_nonneg(px, py, stride, dy as int, dx as int);
                }
                if res.is_err() {
                    proof {
                        assert(rect_index(px, py, stride, dy as int, dx as int) >= num);
                    }
                    return Err(KernelError::OutOfBuffer);
                }
                proof {
                    let idx = rect_index(px, py, stride, dy as int, dx as int);
                    assert(idx < num);
                    assert(writer.pixel(idx) == (rgb.r, rgb.g, rgb.b));
                    assert forall|v: int, u: int|
                        0 <= v < dy && 0 <= u < 8 && font_a_bit(v, u) implies writer.pixel(
                        #[trigger] rect_index(px, py, stride, v, u),
                    ) == (rgb.r, rgb.g, rgb.b) by {
                        lemma_rect_index_nonneg(px, py, stride, v, u);
                        assert(pre.pixel(rect_index(px, py, stride, v, u)) == (
                            rgb.r,
                            rgb.g,
                            rgb.b,
                        ));
                    }
                    assert forall|u: int|
                        0 <= u < dx + 1 && font_a_bit(dy as int, u) implies writer.pixel(
                        #[trigger] rect_index(px, py, stride, dy as int, u),
                    ) == (rgb.r, rgb.g, rgb.b) by {
                        lemma_rect_index_nonneg(px, py, stride, dy as int, u);
                        if u < dx {
                            assert(pre.pixel(rect_index(px, py, stride, dy as int, u)) == (
                                rgb.r,
                                rgb.g,
                                rgb.b,
                            ));
                        }
                    }
                }
            } else {
                proof {
                    assert(row << dx == spec_font_a(dy as int) << ((dx as int) as u8));
                    assert(!font_a_bit(dy as int, dx as int));
                    assert forall|i: int|
                        0 <= i < num && !in_glyph_prefix(
                            px,
                            py,
                            stride,
                            dy as int,
                            dx as int + 1,
                            i,
                        ) implies writer.pixel(i) == old(writer).pixel(i) by {
                        assert(!in_glyph_prefix(px, py, stride, dy as int, dx as int, i));
                    }
                }
            }
            dx = dx + 1;
        }
        proof {
            assert forall|i: int|
                0 <= i < num && !in_glyph_prefix(px, py, stride, dy as int + 1, 0, i)
                    implies writer.pixel(i) == old(writer).pixel(i) by {
                assert(!in_glyph_prefix(px, py, stride, dy as int, 8, i));
            }
        }
        dy = dy + 1;
    }
    proof {
        assert forall|i: int|
            0 <= i < num && !in_glyph(px, py, stride, i) implies writer.pixel(i) == old(
            writer,
        ).pixel(i) by {
            assert(!in_glyph_prefix(px, py, stride, 16, 0, i));
        }
    }
    Ok(())
}

} // verus!
