//! Rectangle drawing over a pixel writer.

use vstd::prelude::*;

use crate::frame_buffer::{PixelWriter, Rgb};
use crate::{KernelError, KernelResult};

verus! {

/// A point or extent on the screen.
#[derive(Debug, Copy, Clone)]
pub struct Vector2D<T: Copy> {
    pub x: T,
    pub y: T,
}

impl<T: Copy> Vector2D<T> {
    pub fn new(x: T, y: T) -> (r: Self)
        ensures
            r.x == x,
            r.y == y,
    {
        Self { x, y }
    }
}

/// The linear pixel index of the cell `dy` rows below and `dx` columns
/// right of (`px`, `py`).
pub open spec fn rect_index(px: int, py: int, stride: int, dy: int, dx: int) -> int {
    (py + dy) * stride + px + dx
}

/// Whether linear index `i` lies in the `sx` by `sy` rectangle at
/// (`px`, `py`).
pub open spec fn in_rect(px: int, py: int, sx: int, sy: int, stride: int, i: int) -> bool {
    exists|dy: int, dx: int|
        0 <= dy < sy && 0 <= dx < sx && i == #[trigger] rect_index(px, py, stride, dy, dx)
}

/// Every cell of the `sx` by `sy` rectangle at (`px`, `py`) lies
/// below `num`.
pub open spec fn spec_rect_in_bounds(px: int, py: int, sx: int, sy: int, stride: int, num: int) -> bool {
    forall|dy: int, dx: int|
        0 <= dy < sy && 0 <= dx < sx ==> #[trigger] rect_index(px, py, stride, dy, dx) < num
}

/// Every cell of the rectangle carries colour `c` in `w`.
pub open spec fn spec_rect_colored<W: PixelWriter>(
    w: &W,
    px: int,
    py: int,
    sx: int,
    sy: int,
    stride: int,
    c: (u8, u8, u8),
) -> bool {
    forall|dy: int, dx: int|
        0 <= dy < sy && 0 <= dx < sx ==> w.pixel(#[trigger] rect_index(px, py, stride, dy, dx))
            == c
}

/// Indexes outside the rectangle hold the same pixel in `w1` as in
/// `w0`.
pub open spec fn spec_unchanged_outside<W: PixelWriter>(
    w0: &W,
    w1: &W,
    px: int,
    py: int,
    sx: int,
    sy: int,
    stride: int,
) -> bool {
    forall|i: int|
        0 <= i < w0.num_pixels() && !in_rect(px, py, sx, sy, stride, i) ==> w1.pixel(i)
            == w0.pixel(i)
}

/// With nonnegative coordinates and stride, every cell index is
/// nonnegative.
pub proof fn lemma_rect_index_nonneg(px: int, py: int, stride: int, dy: int, dx: int)
    requires
        0 <= px,
        0 <= py,
        0 <= stride,
        0 <= dy,
        0 <= dx,
    ensures rect_index(px, py, stride, dy, dx) >= 0,
{
    assert((py + dy) * stride >= 0) by (nonlinear_arith)
        requires 0 <= py + dy && 0 <= stride;
}

/// Fills the `size` rectangle at `pos` with `color`, row by row. The
/// fill succeeds exactly when every cell of the rectangle lies inside
/// the buffer; pixels outside the rectangle are never touched, and on
/// failure the pixels already visited keep the colour they were given.
pub fn fill_rectangle<W: PixelWriter>(
    writer: &mut W,
    pos: &Vector2D<u32>,
    size: &Vector2D<u32>,
    color: Rgb,
) -> (r: KernelResult<()>)
    requires
        old(writer).wf(),
        pos.x + size.x <= u32::MAX + 1,
        pos.y + size.y <= u32::MAX + 1,
    ensures
        final(writer).wf(),
        final(writer).stride() == old(writer).stride(),
        final(writer).num_pixels() == old(writer).num_pixels(),
        r is Ok <==> spec_rect_in_bounds(
            pos.x as int,
            pos.y as int,
            size.x as int,
            size.y as int,
            old(writer).stride() as int,
            old(writer).num_pixels() as int,
        ),
        r is Err ==> r == KernelResult::<()>::Err(KernelError::OutOfBuffer),
        r is Ok ==> spec_rect_colored(
            final(writer),
            pos.x as int,
            pos.y as int,
            size.x as int,
            size.y as int,
            old(writer).stride() as int,
            (color.r, color.g, color.b),
        ),
        spec_unchanged_outside(
            old(writer),
            final(writer),
            pos.x as int,
            pos.y as int,
            size.x as int,
            size.y as int,
            old(writer).stride() as int,
        ),
{
    let ghost px = pos.x as int;
    let ghost py = pos.y as int;
    let ghost stride = old(writer).stride() as int;
    let ghost num = old(writer).num_pixels() as int;
    let mut dy: u32 = 0;
    while dy < size.y
        invariant
            old(writer).wf(),
            writer.wf(),
            writer.stride() == old(writer).stride(),
            writer.num_pixels() == old(writer).num_pixels(),
            stride == old(writer).stride() as int,
            num == old(writer).num_pixels() as int,
            px == pos.x,
            py == pos.y,
            dy <= size.y,
            pos.x + size.x <= u32::MAX + 1,
            pos.y + size.y <= u32::MAX + 1,
            forall|v: int, u: int|
                0 <= v < dy && 0 <= u < size.x ==> #[trigger] rect_index(px, py, stride, v, u)
                    < num,
            forall|v: int, u: int|
                0 <= v < dy && 0 <= u < size.x ==> writer.pixel(
                    #[trigger] rect_index(px, py, stride, v, u),
                ) == (color.r, color.g, color.b),
            forall|i: int|
                0 <= i < num && !in_rect(px, py, size.x as int, dy as int, stride, i)
                    ==> writer.pixel(i) == old(writer).pixel(i),
        decreases size.y - dy,
    {
        let mut dx: u32 = 0;
        while dx < size.x
            invariant
                old(writer).wf(),
                writer.wf(),
                writer.stride() == old(writer).stride(),
                writer.num_pixels() == old(writer).num_pixels(),
                stride == old(writer).stride() as int,
                num == old(writer).num_pixels() as int,
                px == pos.x,
                py == pos.y,
                dy < size.y,
                dx <= size.x,
                pos.x + size.x <= u32::MAX + 1,
                pos.y + size.y <= u32::MAX + 1,
                forall|v: int, u: int|
                    0 <= v < dy && 0 <= u < size.x ==> #[trigger] rect_index(px, py, stride, v, u)
                        < num,
                forall|u: int|
                    0 <= u < dx ==> #[trigger] rect_index(px, py, stride, dy as int, u) < num,
                forall|v: int, u: int|
                    0 <= v < dy && 0 <= u < size.x ==> writer.pixel(
                        #[trigger] rect_index(px, py, stride, v, u),
                    ) == (color.r, color.g, color.b),
                forall|u: int|
                    0 <= u < dx ==> writer.pixel(
                        #[trigger] rect_index(px, py, stride, dy as int, u),
                    ) == (color.r, color.g, color.b),
                forall|i: int|
                    0 <= i < num && !in_rect(px, py, size.x as int, dy as int, stride, i) && !(
                    exists|u: int|
                        0 <= u < dx && i == #[trigger] rect_index(px, py, stride, dy as int, u))
                        ==> writer.pixel(i) == old(writer).pixel(i),
            decreases size.x - dx,
        {
            let ghost pre = *writer;
            let res = writer.write(pos.x + dx, pos.y + dy, color);
            proof {
                let idx = rect_index(px, py, stride, dy as int, dx as int);
                assert(((pos.y + dy) as int) * stride + ((pos.x + dx) as int) == idx);
                lemma_rect_index_nonneg(px, py, stride, dy as int, dx as int);
            }
            if res.is_err() {
                proof {
                    assert(rect_index(px, py, stride, dy as int, dx as int) >= num);
                }
                return Err(KernelError::OutOfBuffer);
            }
            proof {
                let idx = rect_index(px, py, stride, dy as int, dx as int);
                assert(idx < num);
                assert(writer.pixel(idx) == (color.r, color.g, color.b));
                assert forall|v: int, u: int|
                    0 <= v < dy && 0 <= u < size.x implies writer.pixel(
                    #[trigger] rect_index(px, py, stride, v, u),
                ) == (color.r, color.g, color.b) by {
                    lemma_rect_index_nonneg(px, py, stride, v, u);
                    assert(pre.pixel(rect_index(px, py, stride, v, u)) == (
                        color.r,
                        color.g,
                        color.b,
                    ));
                }
                assert forall|u: int|
                    0 <= u < dx + 1 implies writer.pixel(
                    #[trigger] rect_index(px, py, stride, dy as int, u),
                ) == (color.r, color.g, color.b) by {
                    lemma_rect_index_nonneg(px, py, stride, dy as int, u);
                    if u < dx {
                        assert(pre.pixel(rect_index(px, py, stride, dy as int, u)) == (
                            color.r,
                            color.g,
                            color.b,
                        ));
                    }
                }
            }
            dx = dx + 1;
        }
        proof {
            assert forall|v: int, u: int|
                0 <= v < dy + 1 && 0 <= u < size.x implies #[trigger] rect_index(
                px,
                py,
                stride,
                v,
                u,
            ) < num && writer.pixel(rect_index(px, py, stride, v, u)) == (
                color.r,
                color.g,
                color.b,
            ) by {}
            assert forall|i: int|
                0 <= i < num && !in_rect(px, py, size.x as int, dy + 1, stride, i)
                    implies writer.pixel(i) == old(writer).pixel(i) by {
                assert(!in_rect(px, py, size.x as int, dy as int, stride, i));
                assert(!(exists|u: int|
                    0 <= u < size.x && i == #[trigger] rect_index(px, py, stride, dy as int, u)));
            }
        }
        dy = dy + 1;
    }
    Ok(())
}

/// Draws the one-pixel outline of the `size` rectangle at `pos`: its
/// top and bottom rows, then its left and right columns, each drawn as
/// a one-pixel strip. Succeeds exactly when all four strips lie inside
/// the buffer; pixels off the outline — the interior of the rectangle
/// included — are never touched, and on success every outline pixel
/// carries `color`.
pub fn draw_rectangle<W: PixelWriter>(
    writer: &mut W,
    pos: &Vector2D<u32>,
    size: &Vector2D<u32>,
    color: Rgb,
) -> (r: KernelResult<()>)
    requires
        old(writer).wf(),
        size.x >= 1,
        size.y >= 1,
        pos.x + size.x <= u32::MAX + 1,
        pos.y + size.y <= u32::MAX + 1,
    ensures
        final(writer).wf(),
        final(writer).stride() == old(writer).stride(),
        final(writer).num_pixels() == old(writer).num_pixels(),
        r is Err ==> r == KernelResult::<()>::Err(KernelError::OutOfBuffer),
        r is Ok <==> spec_outline_in_bounds(
            pos.x as int,
            pos.y as int,
            size.x as int,
            size.y as int,
            old(writer).stride() as int,
            old(writer).num_pixels() as int,
        ),
        r is Ok ==> (forall|i: int|
            0 <= i < old(writer).num_pixels() && spec_on_outline(
                pos.x as int,
                pos.y as int,
                size.x as int,
                size.y as int,
                old(writer).stride() as int,
                i,
            ) ==> final(writer).pixel(i) == (color.r, color.g, color.b)),
        forall|i: int|
            0 <= i < old(writer).num_pixels() && !spec_on_outline(
                pos.x as int,
                pos.y as int,
                size.x as int,
                size.y as int,
                old(writer).stride() as int,
                i,
            ) ==> final(writer).pixel(i) == old(writer).pixel(i),
{
    let ghost px = pos.x as int;
    let ghost py = pos.y as int;
    let ghost sx = size.x as int;
    let ghost sy = size.y as int;
    let ghost stride = old(writer).stride() as int;
    let ghost num = old(writer).num_pixels() as int;

    let bottom = Vector2D::new(pos.x, pos.y + (size.y - 1));
    let right = Vector2D::new(pos.x + (size.x - 1), pos.y);
    let row = Vector2D::new(size.x, 1u32);
    let col = Vector2D::new(1u32, size.y);

    let r1 = fill_rectangle(writer, pos, &row, color);
    let ghost w1 = *writer;
    if r1.is_err() {
        proof {
            lemma_outline_err(px, py, sx, sy, stride, num);
            assert forall|i: int|
                0 <= i < num && !spec_on_outline(px, py, sx, sy, stride, i)
                    implies writer.pixel(i) == old(writer).pixel(i) by {
                assert(!in_rect(px, py, sx, 1, stride, i));
            }
        }
        return Err(KernelError::OutOfBuffer);
    }
    let r2 = fill_rectangle(writer, &bottom, &row, color);
    let ghost w2 = *writer;
    if r2.is_err() {
        proof {
            lemma_outline_err(px, py, sx, sy, stride, num);
            assert(bottom.y as int == py + sy - 1);
            assert(spec_unchanged_outside(&w1, writer, px, py + sy - 1, sx, 1, stride));
            assert forall|i: int|
                0 <= i < num && !spec_on_outline(px, py, sx, sy, stride, i)
                    implies writer.pixel(i) == old(writer).pixel(i) by {
                assert(!in_rect(px, py, sx, 1, stride, i));
                assert(!in_rect(px, py + sy - 1, sx, 1, stride, i));
                assert(w1.pixel(i) == old(writer).pixel(i));
            }
        }
        return Err(KernelError::OutOfBuffer);
    }
    let r3 = fill_rectangle(writer, pos, &col, color);
    let ghost w3 = *writer;
    if r3.is_err() {
        proof {
            lemma_outline_err(px, py, sx, sy, stride, num);
            assert(bottom.y as int == py + sy - 1);
            assert(spec_unchanged_outside(&w1, &w2, px, py + sy - 1, sx, 1, stride));
            assert forall|i: int|
                0 <= i < num && !spec_on_outline(px, py, sx, sy, stride, i)
                    implies writer.pixel(i) == old(writer).pixel(i) by {
                assert(!in_rect(px, py, sx, 1, stride, i));
                assert(!in_rect(px, py + sy - 1, sx, 1, stride, i));
                assert(!in_rect(px, py, 1, sy, stride, i));
                assert(w1.pixel(i) == old(writer).pixel(i));
                assert(w2.pixel(i) == w1.pixel(i));
            }
        }
        return Err(KernelError::OutOfBuffer);
    }
    let r4 = fill_rectangle(writer, &right, &col, color);
    if r4.is_err() {
        proof {
            lemma_outline_err(px, py, sx, sy, stride, num);
            assert(bottom.y as int == py + sy - 1);
            assert(right.x as int == px + sx - 1);
            assert(spec_unchanged_outside(&w1, &w2, px, py + sy - 1, sx, 1, stride));
            assert(spec_unchanged_outside(&w3, writer, px + sx - 1, py, 1, sy, stride));
            assert forall|i: int|
                0 <= i < num && !spec_on_outline(px, py, sx, sy, stride, i)
                    implies writer.pixel(i) == old(writer).pixel(i) by {
                assert(!in_rect(px, py, sx, 1, stride, i));
                assert(!in_rect(px, py + sy - 1, sx, 1, stride, i));
                assert(!in_rect(px, py, 1, sy, stride, i));
                assert(!in_rect(px + sx - 1, py, 1, sy, stride, i));
                assert(w1.pixel(i) == old(writer).pixel(i));
                assert(w2.pixel(i) == w1.pixel(i));
                assert(w3.pixel(i) == w2.pixel(i));
            }
        }
        return Err(KernelError::OutOfBuffer);
    }
    proof {
        lemma_outline_err(px, py, sx, sy, stride, num);
        let c3 = (color.r, color.g, color.b);
        assert(bottom.y as int == py + sy - 1);
        assert(right.x as int == px + sx - 1);
        assert(spec_rect_colored(writer, px + sx - 1, py, 1, sy, stride, c3));
        assert(spec_rect_colored(&w3, px, py, 1, sy, stride, c3));
        assert(spec_rect_colored(&w2, px, py + sy - 1, sx, 1, stride, c3));
        assert(spec_rect_colored(&w1, px, py, sx, 1, stride, c3));
        assert(spec_unchanged_outside(&w3, writer, px + sx - 1, py, 1, sy, stride));
        assert(spec_unchanged_outside(&w2, &w3, px, py, 1, sy, stride));
        assert(spec_unchanged_outside(&w1, &w2, px, py + sy - 1, sx, 1, stride));
        assert forall|i: int|
            0 <= i < num && spec_on_outline(px, py, sx, sy, stride, i) implies writer.pixel(i)
            == c3 by {
            if in_rect(px + sx - 1, py, 1, sy, stride, i) {
                let (v, u) = choose|v: int, u: int|
                    0 <= v < sy && 0 <= u < 1 && i == #[trigger] rect_index(
                        px + sx - 1,
                        py,
                        stride,
                        v,
                        u,
                    );
                assert(writer.pixel(rect_index(px + sx - 1, py, stride, v, 0)) == c3);
            } else if in_rect(px, py, 1, sy, stride, i) {
                let (v, u) = choose|v: int, u: int|
                    0 <= v < sy && 0 <= u < 1 && i == #[trigger] rect_index(px, py, stride, v, u);
                assert(w3.pixel(rect_index(px, py, stride, v, 0)) == c3);
                assert(writer.pixel(i) == w3.pixel(i));
            } else if in_rect(px, py + sy - 1, sx, 1, stride, i) {
                let (v, u) = choose|v: int, u: int|
                    0 <= v < 1 && 0 <= u < sx && i == #[trigger] rect_index(
                        px,
                        py + sy - 1,
                        stride,
                        v,
                        u,
                    );
                assert(w2.pixel(rect_index(px, py + sy - 1, stride, 0, u)) == c3);
                assert(w3.pixel(i) == w2.pixel(i));
                assert(writer.pixel(i) == w3.pixel(i));
            } else {
                let (v, u) = choose|v: int, u: int|
                    0 <= v < 1 && 0 <= u < sx && i == #[trigger] rect_index(px, py, stride, v, u);
                assert(w1.pixel(rect_index(px, py, stride, 0, u)) == c3);
                assert(w2.pixel(i) == w1.pixel(i));
                assert(w3.pixel(i) == w2.pixel(i));
                assert(writer.pixel(i) == w3.pixel(i));
            }
        }
        assert(spec_unchanged_outside(&w1, &w2, px, py + sy - 1, sx, 1, stride));
        assert forall|i: int|
            0 <= i < num && !spec_on_outline(px, py, sx, sy, stride, i) implies writer.pixel(i)
            == old(writer).pixel(i) by {
            assert(!in_rect(px, py, sx, 1, stride, i));
            assert(!in_rect(px, py + sy - 1, sx, 1, stride, i));
            assert(!in_rect(px, py, 1, sy, stride, i));
            assert(!in_rect(px + sx - 1, py, 1, sy, stride, i));
            assert(w1.pixel(i) == old(writer).pixel(i));
            assert(w2.pixel(i) == w1.pixel(i));
            assert(w3.pixel(i) == w2.pixel(i));
        }
    }
    Ok(())
}

/// The four one-pixel strips of the outline all lie inside the buffer.
pub open spec fn spec_outline_in_bounds(
    px: int,
    py: int,
    sx: int,
    sy: int,
    stride: int,
    num: int,
) -> bool {
    &&& spec_rect_in_bounds(px, py, sx, 1, stride, num)
    &&& spec_rect_in_bounds(px, py + sy - 1, sx, 1, stride, num)
    &&& spec_rect_in_bounds(px, py, 1, sy, stride, num)
    &&& spec_rect_in_bounds(px + sx - 1, py, 1, sy, stride, num)
}

/// Whether index `i` lies on the outline: in one of its four strips.
pub open spec fn spec_on_outline(px: int, py: int, sx: int, sy: int, stride: int, i: int) -> bool {
    ||| in_rect(px, py, sx, 1, stride, i)
    ||| in_rect(px, py + sy - 1, sx, 1, stride, i)
    ||| in_rect(px, py, 1, sy, stride, i)
    ||| in_rect(px + sx - 1, py, 1, sy, stride, i)
}

/// An index in one of the outline's strips is an index in the
/// enclosing rectangle.
proof fn lemma_outline_err(px: int, py: int, sx: int, sy: int, stride: int, num: int)
    requires
        sx >= 1,
        sy >= 1,
    ensures
        forall|i: int|
            spec_on_outline(px, py, sx, sy, stride, i) ==> in_rect(px, py, sx, sy, stride, i),
{
    assert forall|i: int|
        spec_on_outline(px, py, sx, sy, stride, i) implies in_rect(px, py, sx, sy, stride, i) by {
        if in_rect(px, py, sx, 1, stride, i) {
            let (dy, dx) = choose|dy: int, dx: int|
                0 <= dy < 1 && 0 <= dx < sx && i == #[trigger] rect_index(px, py, stride, dy, dx);
            assert(i == rect_index(px, py, stride, 0, dx));
        } else if in_rect(px, py + sy - 1, sx, 1, stride, i) {
            let (dy, dx) = choose|dy: int, dx: int|
                0 <= dy < 1 && 0 <= dx < sx && i == #[trigger] rect_index(
                    px,
                    py + sy - 1,
                    stride,
                    dy,
                    dx,
                );
            assert(i == rect_index(px, py, stride, sy - 1, dx));
        } else if in_rect(px, py, 1, sy, stride, i) {
            let (dy, dx) = choose|dy: int, dx: int|
                0 <= dy < sy && 0 <= dx < 1 && i == #[trigger] rect_index(px, py, stride, dy, dx);
            assert(i == rect_index(px, py, stride, dy, 0));
        } else if in_rect(px + sx - 1, py, 1, sy, stride, i) {
            let (dy, dx) = choose|dy: int, dx: int|
                0 <= dy < sy && 0 <= dx < 1 && i == #[trigger] rect_index(
                    px + sx - 1,
                    py,
                    stride,
                    dy,
                    dx,
                );
            assert(i == rect_index(px, py, stride, dy, sx - 1));
        }
    }
}

} // verus!
