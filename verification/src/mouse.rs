//! The mouse cursor: a 15 x 24 two-colour arrow drawn straight into
//! the frame buffer, erased by repainting its cells in a background
//! colour.

use vstd::prelude::*;

use crate::frame_buffer::{PixelWriter, Rgb};
use crate::graphics::{Vector2D, lemma_rect_index_nonneg, rect_index};
use crate::{KernelError, KernelResult};

verus! {

/// Width of the cursor shape in cells.
pub const MOUSE_CURSOR_WIDTH: usize = 15;

/// Height of the cursor shape in cells.
pub const MOUSE_CURSOR_HEIGHT: usize = 24;

/// Row `row` of the cursor's outline cells, bit `dx` for column `dx`.
pub open spec fn spec_mouse_black(row: int) -> u16 {
    if row == 0 {
        0x0001
    } else if row == 1 {
        0x0003
    } else if row == 2 {
        0x0005
    } else if row == 3 {
        0x0009
    } else if row == 4 {
        0x0011
    } else if row == 5 {
        0x0021
    } else if row == 6 {
        0x0041
    } else if row == 7 {
        0x0081
    } else if row == 8 {
        0x0101
    } else if row == 9 {
        0x0201
    } else if row == 10 {
        0x0401
    } else if row == 11 {
        0x0801
    } else if row == 12 {
        0x1001
    } else if row == 13 {
        0x2001
    } else if row == 14 {
        0x7f81
    } else if row == 15 {
        0x0081
    } else if row == 16 {
        0x0161
    } else if row == 17 {
        0x0151
    } else if row == 18 {
        0x0289
    } else if row == 19 {
        0x0285
    } else if row == 20 {
        0x0503
    } else if row == 21 {
        0x0501
    } else if row == 22 {
        0x0a00
    } else if row == 23 {
        0x0e00
    } else {
        0
    }
}

/// Row `row` of the cursor's filled interior cells.
pub open spec fn spec_mouse_white(row: int) -> u16 {
    if row == 2 {
        0x0002
    } else if row == 3 {
        0x0006
    } else if row == 4 {
        0x000e
    } else if row == 5 {
        0x001e
    } else if row == 6 {
        0x003e
    } else if row == 7 {
        0x007e
    } else if row == 8 {
        0x00fe
    } else if row == 9 {
        0x01fe
    } else if row == 10 {
        0x03fe
    } else if row == 11 {
        0x07fe
    } else if row == 12 {
        0x0ffe
    } else if row == 13 {
        0x1ffe
    } else if row == 14 {
        0x007e
    } else if row == 15 {
        0x007e
    } else if row == 16 {
        0x009e
    } else if row == 17 {
        0x008e
    } else if row == 18 {
        0x0106
    } else if row == 19 {
        0x0102
    } else if row == 20 {
        0x0200
    } else if row == 21 {
        0x0200
    } else if row == 22 {
        0x0400
    } else {
        0
    }
}

/// Row `row` of the cursor's outline cells.
pub fn mouse_black_mask(row: usize) -> (r: u16)
    requires row < MOUSE_CURSOR_HEIGHT,
    ensures r == spec_mouse_black(row as int),
{
    match row {
        0 => 0x0001,
        1 => 0x0003,
        2 => 0x0005,
        3 => 0x0009,
        4 => 0x0011,
        5 => 0x0021,
        6 => 0x0041,
        7 => 0x0081,
        8 => 0x0101,
        9 => 0x0201,
        10 => 0x0401,
        11 => 0x0801,
        12 => 0x1001,
        13 => 0x2001,
        14 => 0x7f81,
        15 => 0x0081,
        16 => 0x0161,
        17 => 0x0151,
        18 => 0x0289,
        19 => 0x0285,
        20 => 0x0503,
        21 => 0x0501,
        22 => 0x0a00,
        _ => 0x0e00,
    }
}

/// Row `row` of the cursor's filled interior cells.
pub fn mouse_white_mask(row: usize) -> (r: u16)
    requires row < MOUSE_CURSOR_HEIGHT,
    ensures r == spec_mouse_white(row as int),
{
    match row {
        2 => 0x0002,
        3 => 0x0006,
        4 => 0x000e,
        5 => 0x001e,
        6 => 0x003e,
        7 => 0x007e,
        8 => 0x00fe,
        9 => 0x01fe,
        10 => 0x03fe,
        11 => 0x07fe,
        12 => 0x0ffe,
        13 => 0x1ffe,
        14 => 0x007e,
        15 => 0x007e,
        16 => 0x009e,
        17 => 0x008e,
        18 => 0x0106,
        19 => 0x0102,
        20 => 0x0200,
        21 => 0x0200,
        22 => 0x0400,
        _ => 0,
    }
}

/// Whether the cursor's outline inks cell (`dy`, `dx`).
pub open spec fn mouse_black_bit(dy: int, dx: int) -> bool {
    (spec_mouse_black(dy) >> (dx as u16)) & 1 == 1
}

/// Whether the cursor's interior inks cell (`dy`, `dx`).
pub open spec fn mouse_white_bit(dy: int, dx: int) -> bool {
    (spec_mouse_white(dy) >> (dx as u16)) & 1 == 1
}

/// Whether cell (`dy`, `dx`) belongs to the cursor shape at all.
pub open spec fn mouse_shape_bit(dy: int, dx: int) -> bool {
    mouse_black_bit(dy, dx) || mouse_white_bit(dy, dx)
}

/// The colour a drawn cursor gives cell (`dy`, `dx`): black outline,
/// white interior.
pub open spec fn mouse_cell_color(dy: int, dx: int) -> (u8, u8, u8) {
    if mouse_black_bit(dy, dx) {
        (0, 0, 0)
    } else {
        (255, 255, 255)
    }
}

/// Every shape cell of a cursor at (`px`, `py`) lies below `num`.
pub open spec fn spec_mouse_in_bounds(px: int, py: int, stride: int, num: int) -> bool {
    forall|dy: int, dx: int|
        0 <= dy < 24 && 0 <= dx < 15 && mouse_shape_bit(dy, dx) ==> #[trigger] rect_index(
            px,
            py,
            stride,
            dy,
            dx,
        ) < num
}

/// Whether linear index `i` is a shape cell of a cursor at
/// (`px`, `py`).
pub open spec fn in_mouse_shape(px: int, py: int, stride: int, i: int) -> bool {
    exists|dy: int, dx: int|
        0 <= dy < 24 && 0 <= dx < 15 && mouse_shape_bit(dy, dx) && i == #[trigger] rect_index(
            px,
            py,
            stride,
            dy,
            dx,
        )
}

/// Whether `i` is a shape cell the row-major walk has already visited.
pub open spec fn in_mouse_prefix(px: int, py: int, stride: int, rdy: int, rdx: int, i: int) -> bool {
    exists|dy: int, dx: int|
        0 <= dy < 24 && 0 <= dx < 15 && (dy < rdy || (dy == rdy && dx < rdx)) && mouse_shape_bit(
            dy,
            dx,
        ) && i == #[trigger] rect_index(px, py, stride, dy, dx)
}

/// Every shape cell of the cursor at (`px`, `py`) shows its cursor
/// colour in `w`.
pub open spec fn spec_mouse_drawn<W: PixelWriter>(w: &W, px: int, py: int, stride: int) -> bool {
    forall|dy: int, dx: int|
        0 <= dy < 24 && 0 <= dx < 15 && mouse_shape_bit(dy, dx) ==> w.pixel(
            #[trigger] rect_index(px, py, stride, dy, dx),
        ) == mouse_cell_color(dy, dx)
}

/// Every shape cell of the cursor at (`px`, `py`) shows colour `c` in
/// `w`.
pub open spec fn spec_mouse_erased<W: PixelWriter>(
    w: &W,
    px: int,
    py: int,
    stride: int,
    c: (u8, u8, u8),
) -> bool {
    forall|dy: int, dx: int|
        0 <= dy < 24 && 0 <= dx < 15 && mouse_shape_bit(dy, dx) ==> w.pixel(
            #[trigger] rect_index(px, py, stride, dy, dx),
        ) == c
}

/// With a stride of at least the shape width, distinct cells of the
/// shape land on distinct linear indexes.
proof fn lemma_mouse_cell_distinct(px: int, py: int, stride: int, v: int, u: int, dy: int, dx: int)
    requires
        stride >= 15,
        0 <= u < 15,
        0 <= dx < 15,
        !(v == dy && u == dx),
    ensures rect_index(px, py, stride, v, u) != rect_index(px, py, stride, dy, dx),
{
    if rect_index(px, py, stride, v, u) == rect_index(px, py, stride, dy, dx) {
        assert((py + v) * stride - (py + dy) * stride == (v - dy) * stride) by (nonlinear_arith);
        assert((v - dy) * stride == dx - u);
        if v != dy {
            assert(v - dy >= 1 ==> (v - dy) * stride >= stride) by (nonlinear_arith)
                requires stride >= 15;
            assert(dy - v >= 1 ==> (dy - v) * stride >= stride) by (nonlinear_arith)
                requires stride >= 15;
            assert((dy - v) * stride == u - dx) by (nonlinear_arith)
                requires (v - dy) * stride == dx - u;
            assert(false);
        }
    }
}

/// Draws the cursor with its hotspot cell at `position`: black over
/// the outline cells, white over the interior ones. Succeeds exactly
/// when every shape cell lies inside the buffer; cells off the shape
/// are never touched.
pub fn draw_mouse_cursor<W: PixelWriter>(pixel_writer: &mut W, position: Vector2D<i32>) -> (r:
    KernelResult<()>)
    requires
        old(pixel_writer).wf(),
        0 <= position.x,
        0 <= position.y,
        position.x + 15 <= i32::MAX,
        position.y + 24 <= i32::MAX,
    ensures
        final(pixel_writer).wf(),
        final(pixel_writer).stride() == old(pixel_writer).stride(),
        final(pixel_writer).num_pixels() == old(pixel_writer).num_pixels(),
        r is Err ==> r == KernelResult::<()>::Err(KernelError::OutOfBuffer),
        r is Ok <==> spec_mouse_in_bounds(
            position.x as int,
            position.y as int,
            old(pixel_writer).stride() as int,
            old(pixel_writer).num_pixels() as int,
        ),
        r is Ok && old(pixel_writer).stride() >= 15 ==> spec_mouse_drawn(
            final(pixel_writer),
            position.x as int,
            position.y as int,
            old(pixel_writer).stride() as int,
        ),
        forall|i: int|
            0 <= i < old(pixel_writer).num_pixels() && !in_mouse_shape(
                position.x as int,
                position.y as int,
                old(pixel_writer).stride() as int,
                i,
            ) ==> final(pixel_writer).pixel(i) == old(pixel_writer).pixel(i),
{
    let ghost px = position.x as int;
    let ghost py = position.y as int;
    let ghost stride = old(pixel_writer).stride() as int;
    let ghost num = old(pixel_writer).num_pixels() as int;
    let mut dy: usize = 0;
    while dy < MOUSE_CURSOR_HEIGHT
        invariant
            old(pixel_writer).wf(),
            pixel_writer.wf(),
            pixel_writer.stride() == old(pixel_writer).stride(),
            pixel_writer.num_pixels() == old(pixel_writer).num_pixels(),
            stride == old(pixel_writer).stride() as int,
            num == old(pixel_writer).num_pixels() as int,
            px == position.x,
            py == position.y,
            dy <= 24,
            0 <= position.x,
            0 <= position.y,
            position.x + 15 <= i32::MAX,
            position.y + 24 <= i32::MAX,
            forall|v: int, u: int|
                0 <= v < dy && 0 <= u < 15 && mouse_shape_bit(v, u) ==> #[trigger] rect_index(
                    px,
                    py,
                    stride,
                    v,
                    u,
                ) < num,
            stride >= 15 ==> (forall|v: int, u: int|
                0 <= v < dy && 0 <= u < 15 && mouse_shape_bit(v, u) ==> pixel_writer.pixel(
                    #[trigger] rect_index(px, py, stride, v, u),
                ) == mouse_cell_color(v, u)),
            forall|i: int|
                0 <= i < num && !in_mouse_prefix(px, py, stride, dy as int, 0, i)
                    ==> pixel_writer.pixel(i) == old(pixel_writer).pixel(i),
        decreases 24 - dy,
    {
        let black = mouse_black_mask(dy);
        let white = mouse_white_mask(dy);
        let mut dx: usize = 0;
        while dx < MOUSE_CURSOR_WIDTH
            invariant
                old(pixel_writer).wf(),
                pixel_writer.wf(),
                pixel_writer.stride() == old(pixel_writer).stride(),
                pixel_writer.num_pixels() == old(pixel_writer).num_pixels(),
                stride == old(pixel_writer).stride() as int,
                num == old(pixel_writer).num_pixels() as int,
                px == position.x,
                py == position.y,
                dy < 24,
                dx <= 15,
                0 <= position.x,
                0 <= position.y,
                position.x + 15 <= i32::MAX,
                position.y + 24 <= i32::MAX,
                black == spec_mouse_black(dy as int),
                white == spec_mouse_white(dy as int),
                forall|v: int, u: int|
                    0 <= v < dy && 0 <= u < 15 && mouse_shape_bit(v, u) ==> #[trigger] rect_index(
                        px,
                        py,
                        stride,
                        v,
                        u,
                    ) < num,
                forall|u: int|
                    0 <= u < dx && mouse_shape_bit(dy as int, u) ==> #[trigger] rect_index(
                        px,
                        py,
                        stride,
                        dy as int,
                        u,
                    ) < num,
                stride >= 15 ==> (forall|v: int, u: int|
                    0 <= v < dy && 0 <= u < 15 && mouse_shape_bit(v, u) ==> pixel_writer.pixel(
                        #[trigger] rect_index(px, py, stride, v, u),
                    ) == mouse_cell_color(v, u)),
                stride >= 15 ==> (forall|u: int|
                    0 <= u < dx && mouse_shape_bit(dy as int, u) ==> pixel_writer.pixel(
                        #[trigger] rect_index(px, py, stride, dy as int, u),
                    ) == mouse_cell_color(dy as int, u)),
                forall|i: int|
                    0 <= i < num && !in_mouse_prefix(px, py, stride, dy as int, dx as int, i)
                        ==> pixel_writer.pixel(i) == old(pixel_writer).pixel(i),
            decreases 15 - dx,
        {
            let is_black = ((black >> (dx as u16)) & 1) == 1;
            let is_white = ((white >> (dx as u16)) & 1) == 1;
            proof {
                assert(black >> (dx as u16) == spec_mouse_black(dy as int) >> ((dx as int) as u16));
                assert(white >> (dx as u16) == spec_mouse_white(dy as int) >> ((dx as int) as u16));
                assert(is_black == mouse_black_bit(dy as int, dx as int));
                assert(is_white == mouse_white_bit(dy as int, dx as int));
            }
            if is_black || is_white {
                let color = if is_black {
                    Rgb::black()
                } else {
                    Rgb::white()
                };
                proof {
                    assert((color.r, color.g, color.b) == mouse_cell_color(dy as int, dx as int));
                }
                let ghost pre = *pixel_writer;
                let res = pixel_writer.write(
                    (position.x + (dx as i32)) as u32,
                    (position.y + (dy as i32)) as u32,
                    color,
                );
                proof {
                    let idx = rect_index(px, py, stride, dy as int, dx as int);
                    assert((((position.y + (dy as i32)) as u32) as int) * stride + (((position.x + (
                    dx as i32)) as u32) as int) == idx);
                    lemma_rect_index_nonneg(px, py, stride, dy as int, dx as int);
                }
                if res.is_err() {
                    proof {
                        assert(rect_index(px, py, stride, dy as int, dx as int) >= num);
                    }
                    return Err(KernelError::OutOfBuffer);
                }
                proof {
                    let idx = rect_index(px, py, stride, dy as int, dx as int);
                    assert(idx < num);
                    assert(pixel_writer.pixel(idx) == mouse_cell_color(dy as int, dx as int));
                    if stride >= 15 {
                        assert forall|v: int, u: int|
                            0 <= v < dy && 0 <= u < 15 && mouse_shape_bit(v, u)
                                implies pixel_writer.pixel(
                            #[trigger] rect_index(px, py, stride, v, u),
                        ) == mouse_cell_color(v, u) by {
                            lemma_rect_index_nonneg(px, py, stride, v, u);
                            lemma_mouse_cell_distinct(px, py, stride, v, u, dy as int, dx as int);
                            assert(pre.pixel(rect_index(px, py, stride, v, u)) == mouse_cell_color(
                                v,
                                u,
                            ));
                        }
                        assert forall|u: int|
                            0 <= u < dx + 1 && mouse_shape_bit(dy as int, u)
                                implies pixel_writer.pixel(
                            #[trigger] rect_index(px, py, stride, dy as int, u),
                        ) == mouse_cell_color(dy as int, u) by {
                            lemma_rect_index_nonneg(px, py, stride, dy as int, u);
                            if u < dx {
                                lemma_mouse_cell_distinct(
                                    px,
                                    py,
                                    stride,
                                    dy as int,
                                    u,
                                    dy as int,
                                    dx as int,
                                );
                                assert(pre.pixel(rect_index(px, py, stride, dy as int, u))
                                    == mouse_cell_color(dy as int, u));
                            }
                        }
                    }
                }
            } else {
                proof {
                    assert forall|i: int|
                        0 <= i < num && !in_mouse_prefix(
                            px,
                            py,
                            stride,
                            dy as int,
                            dx as int + 1,
                            i,
                        ) implies pixel_writer.pixel(i) == old(pixel_writer).pixel(i) by {
                        assert(!in_mouse_prefix(px, py, stride, dy as int, dx as int, i));
                    }
                }
            }
            dx = dx + 1;
        }
        proof {
            assert forall|i: int|
                0 <= i < num && !in_mouse_prefix(px, py, stride, dy as int + 1, 0, i)
                    implies pixel_writer.pixel(i) == old(pixel_writer).pixel(i) by {
                assert(!in_mouse_prefix(px, py, stride, dy as int, 15, i));
            }
        }
        dy = dy + 1;
    }
    proof {
        assert forall|i: int|
            0 <= i < num && !in_mouse_shape(px, py, stride, i) implies pixel_writer.pixel(i) == old(
            pixel_writer,
        ).pixel(i) by {
            assert(!in_mouse_prefix(px, py, stride, 24, 0, i));
        }
    }
    Ok(())
}

/// Repaints every shape cell of a cursor at `position` in
/// `erase_color`, removing it from the screen. Succeeds exactly when
/// every shape cell lies inside the buffer; cells off the shape are
/// never touched.
pub fn erace_mouse_cursor<W: PixelWriter>(
    pixel_writer: &mut W,
    position: Vector2D<i32>,
    erase_color: Rgb,
) -> (r: KernelResult<()>)
    requires
        old(pixel_writer).wf(),
        0 <= position.x,
        0 <= position.y,
        position.x + 15 <= i32::MAX,
        position.y + 24 <= i32::MAX,
    ensures
        final(pixel_writer).wf(),
        final(pixel_writer).stride() == old(pixel_writer).stride(),
        final(pixel_writer).num_pixels() == old(pixel_writer).num_pixels(),
        r is Err ==> r == KernelResult::<()>::Err(KernelError::OutOfBuffer),
        r is Ok <==> spec_mouse_in_bounds(
            position.x as int,
            position.y as int,
            old(pixel_writer).stride() as int,
            old(pixel_writer).num_pixels() as int,
        ),
        r is Ok ==> spec_mouse_erased(
            final(pixel_writer),
            position.x as int,
            position.y as int,
            old(pixel_writer).stride() as int,
            (erase_color.r, erase_color.g, erase_color.b),
        ),
        forall|i: int|
            0 <= i < old(pixel_writer).num_pixels() && !in_mouse_shape(
                position.x as int,
                position.y as int,
                old(pixel_writer).stride() as int,
                i,
            ) ==> final(pixel_writer).pixel(i) == old(pixel_writer).pixel(i),
{
    let ghost px = position.x as int;
    let ghost py = position.y as int;
    let ghost stride = old(pixel_writer).stride() as int;
    let ghost num = old(pixel_writer).num_pixels() as int;
    let ghost c3 = (erase_color.r, erase_color.g, erase_color.b);
    let mut dy: usize = 0;
    while dy < MOUSE_CURSOR_HEIGHT
        invariant
            old(pixel_writer).wf(),
            pixel_writer.wf(),
            pixel_writer.stride() == old(pixel_writer).stride(),
            pixel_writer.num_pixels() == old(pixel_writer).num_pixels(),
            stride == old(pixel_writer).stride() as int,
            num == old(pixel_writer).num_pixels() as int,
            px == position.x,
            py == position.y,
            c3 == (erase_color.r, erase_color.g, erase_color.b),
            dy <= 24,
            0 <= position.x,
            0 <= position.y,
            position.x + 15 <= i32::MAX,
            position.y + 24 <= i32::MAX,
            forall|v: int, u: int|
                0 <= v < dy && 0 <= u < 15 && mouse_shape_bit(v, u) ==> #[trigger] rect_index(
                    px,
                    py,
                    stride,
                    v,
                    u,
                ) < num,
            forall|v: int, u: int|
                0 <= v < dy && 0 <= u < 15 && mouse_shape_bit(v, u) ==> pixel_writer.pixel(
                    #[trigger] rect_index(px, py, stride, v, u),
                ) == c3,
            forall|i: int|
                0 <= i < num && !in_mouse_prefix(px, py, stride, dy as int, 0, i)
                    ==> pixel_writer.pixel(i) == old(pixel_writer).pixel(i),
        decreases 24 - dy,
    {
        let black = mouse_black_mask(dy);
        let white = mouse_white_mask(dy);
        let mut dx: usize = 0;
        while dx < MOUSE_CURSOR_WIDTH
            invariant
                old(pixel_writer).wf(),
                pixel_writer.wf(),
                pixel_writer.stride() == old(pixel_writer).stride(),
                pixel_writer.num_pixels() == old(pixel_writer).num_pixels(),
                stride == old(pixel_writer).stride() as int,
                num == old(pixel_writer).num_pixels() as int,
                px == position.x,
                py == position.y,
                c3 == (erase_color.r, erase_color.g, erase_color.b),
                dy < 24,
                dx <= 15,
                0 <= position.x,
                0 <= position.y,
                position.x + 15 <= i32::MAX,
                position.y + 24 <= i32::MAX,
                black == spec_mouse_black(dy as int),
                white == spec_mouse_white(dy as int),
                forall|v: int, u: int|
                    0 <= v < dy && 0 <= u < 15 && mouse_shape_bit(v, u) ==> #[trigger] rect_index(
                        px,
                        py,
                        stride,
                        v,
                        u,
                    ) < num,
                forall|u: int|
                    0 <= u < dx && mouse_shape_bit(dy as int, u) ==> #[trigger] rect_index(
                        px,
                        py,
                        stride,
                        dy as int,
                        u,
                    ) < num,
                forall|v: int, u: int|
                    0 <= v < dy && 0 <= u < 15 && mouse_shape_bit(v, u) ==> pixel_writer.pixel(
                        #[trigger] rect_index(px, py, stride, v, u),
                    ) == c3,
                forall|u: int|
                    0 <= u < dx && mouse_shape_bit(dy as int, u) ==> pixel_writer.pixel(
                        #[trigger] rect_index(px, py, stride, dy as int, u),
                    ) == c3,
                forall|i: int|
                    0 <= i < num && !in_mouse_prefix(px, py, stride, dy as int, dx as int, i)
                        ==> pixel_writer.pixel(i) == old(pixel_writer).pixel(i),
            decreases 15 - dx,
        {
            let is_black = ((black >> (dx as u16)) & 1) == 1;
            let is_white = ((white >> (dx as u16)) & 1) == 1;
            proof {
                assert(black >> (dx as u16) == spec_mouse_black(dy as int) >> ((dx as int) as u16));
                assert(white >> (dx as u16) == spec_mouse_white(dy as int) >> ((dx as int) as u16));
                assert(is_black == mouse_black_bit(dy as int, dx as int));
                assert(is_white == mouse_white_bit(dy as int, dx as int));
            }
            if is_black || is_white {
                let ghost pre = *pixel_writer;
                let res = pixel_writer.write(
                    (position.x + (dx as i32)) as u32,
                    (position.y + (dy as i32)) as u32,
                    erase_color,
                );
                proof {
                    let idx = rect_index(px, py, stride, dy as int, dx as int);
                    assert((((position.y + (dy as i32)) as u32) as int) * stride + (((position.x + (
                    dx as i32)) as u32) as int) == idx);
                    lemma_rect_index_nonneg(px, py, stride, dy as int, dx as int);
                }
                if res.is_err() {
                    proof {
                        assert(rect_index(px, py, stride, dy as int, dx as int) >= num);
                    }
                    return Err(KernelError::OutOfBuffer);
                }
                proof {
                    let idx = rect_index(px, py, stride, dy as int, dx as int);
                    assert(idx < num);
                    assert(pixel_writer.pixel(idx) == c3);
                    assert forall|v: int, u: int|
                        0 <= v < dy && 0 <= u < 15 && mouse_shape_bit(v, u)
                            implies pixel_writer.pixel(#[trigger] rect_index(px, py, stride, v, u))
                        == c3 by {
                        lemma_rect_index_nonneg(px, py, stride, v, u);
                        assert(pre.pixel(rect_index(px, py, stride, v, u)) == c3);
                    }
                    assert forall|u: int|
                        0 <= u < dx + 1 && mouse_shape_bit(dy as int, u)
                            implies pixel_writer.pixel(
                        #[trigger] rect_index(px, py, stride, dy as int, u),
                    ) == c3 by {
                        lemma_rect_index_nonneg(px, py, stride, dy as int, u);
                        if u < dx {
                            assert(pre.pixel(rect_index(px, py, stride, dy as int, u)) == c3);
                        }
                    }
                }
            } else {
                proof {
                    assert forall|i: int|
                        0 <= i < num && !in_mouse_prefix(
                            px,
                            py,
                            stride,
                            dy as int,
                            dx as int + 1,
                            i,
                        ) implies pixel_writer.pixel(i) == old(pixel_writer).pixel(i) by {
                        assert(!in_mouse_prefix(px, py, stride, dy as int, dx as int, i));
                    }
                }
            }
            dx = dx + 1;
        }
        proof {
            assert forall|i: int|
                0 <= i < num && !in_mouse_prefix(px, py, stride, dy as int + 1, 0, i)
                    implies pixel_writer.pixel(i) == old(pixel_writer).pixel(i) by {
                assert(!in_mouse_prefix(px, py, stride, dy as int, 15, i));
            }
        }
        dy = dy + 1;
    }
    proof {
        assert forall|i: int|
            0 <= i < num && !in_mouse_shape(px, py, stride, i) implies pixel_writer.pixel(i) == old(
            pixel_writer,
        ).pixel(i) by {
            assert(!in_mouse_prefix(px, py, stride, 24, 0, i));
        }
    }
    Ok(())
}

/// The cursor's state: where it stands and what colour wipes it away.
pub struct MouseCursor {
    pub erase_color: Rgb,
    pub position: Vector2D<i32>,
}

impl MouseCursor {
    /// Coordinates a cursor can be drawn at.
    pub open spec fn position_ok(x: int, y: int) -> bool {
        &&& 0 <= x
        &&& 0 <= y
        &&& x + 15 <= i32::MAX
        &&& y + 24 <= i32::MAX
    }

    /// Draws the cursor at its fixed first position (200, 100) and
    /// hands back the state that tracks it from `initial_position` on.
    pub fn new<W: PixelWriter>(
        pixel_writer: &mut W,
        erase_color: Rgb,
        initial_position: Vector2D<i32>,
    ) -> (r: KernelResult<MouseCursor>)
        requires old(pixel_writer).wf(),
        ensures
            final(pixel_writer).wf(),
            final(pixel_writer).stride() == old(pixel_writer).stride(),
            final(pixel_writer).num_pixels() == old(pixel_writer).num_pixels(),
            r matches Ok(m) ==> m.erase_color == erase_color && m.position.x
                == initial_position.x && m.position.y == initial_position.y,
            r is Ok <==> spec_mouse_in_bounds(
                200,
                100,
                old(pixel_writer).stride() as int,
                old(pixel_writer).num_pixels() as int,
            ),
            r is Err ==> r == KernelResult::<MouseCursor>::Err(KernelError::OutOfBuffer),
    {
        let draw_result = draw_mouse_cursor(pixel_writer, Vector2D::new(200, 100));
        if draw_result.is_err() {
            return Err(KernelError::OutOfBuffer);
        }
        Ok(Self { erase_color, position: initial_position })
    }

    /// Erases the cursor where it stands, shifts it by `displacement`,
    /// and draws it again. On failure the erase may be lost or the
    /// cursor may be half drawn, but the tracked position moves only
    /// once the erase succeeded.
    pub fn move_relative<W: PixelWriter>(
        &mut self,
        pixel_writer: &mut W,
        displacement: Vector2D<i32>,
    ) -> (r: KernelResult<()>)
        requires
            old(pixel_writer).wf(),
            MouseCursor::position_ok(old(self).position.x as int, old(self).position.y as int),
            MouseCursor::position_ok(
                old(self).position.x + displacement.x,
                old(self).position.y + displacement.y,
            ),
        ensures
            final(pixel_writer).wf(),
            final(pixel_writer).stride() == old(pixel_writer).stride(),
            final(pixel_writer).num_pixels() == old(pixel_writer).num_pixels(),
            final(self).erase_color == old(self).erase_color,
            r is Err ==> r == KernelResult::<()>::Err(KernelError::OutOfBuffer),
            !spec_mouse_in_bounds(
                old(self).position.x as int,
                old(self).position.y as int,
                old(pixel_writer).stride() as int,
                old(pixel_writer).num_pixels() as int,
            ) ==> r is Err && *final(self) == *old(self),
            spec_mouse_in_bounds(
                old(self).position.x as int,
                old(self).position.y as int,
                old(pixel_writer).stride() as int,
                old(pixel_writer).num_pixels() as int,
            ) ==> final(self).position.x == old(self).position.x + displacement.x
                && final(self).position.y == old(self).position.y + displacement.y && (r is Ok
                <==> spec_mouse_in_bounds(
                old(self).position.x + displacement.x,
                old(self).position.y + displacement.y,
                old(pixel_writer).stride() as int,
                old(pixel_writer).num_pixels() as int,
            )),
            r is Ok && old(pixel_writer).stride() >= 15 ==> spec_mouse_drawn(
                final(pixel_writer),
                old(self).position.x + displacement.x,
                old(self).position.y + displacement.y,
                old(pixel_writer).stride() as int,
            ),
            forall|i: int|
                0 <= i < old(pixel_writer).num_pixels() && !in_mouse_shape(
                    old(self).position.x as int,
                    old(self).position.y as int,
                    old(pixel_writer).stride() as int,
                    i,
                ) && !in_mouse_shape(
                    old(self).position.x + displacement.x,
                    old(self).position.y + displacement.y,
                    old(pixel_writer).stride() as int,
                    i,
                ) ==> final(pixel_writer).pixel(i) == old(pixel_writer).pixel(i),
    {
        let erased = erace_mouse_cursor(pixel_writer, self.position, self.erase_color);
        if erased.is_err() {
            return Err(KernelError::OutOfBuffer);
        }
        self.position = Vector2D::new(
            self.position.x + displacement.x,
            self.position.y + displacement.y,
        );
        let drawn = draw_mouse_cursor(pixel_writer, self.position);
        if drawn.is_err() {
            return Err(KernelError::OutOfBuffer);
        }
        Ok(())
    }
}

} // verus!
