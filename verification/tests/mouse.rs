use kernel_core::frame_buffer::{BGRPixelWriter, FrameBufferConfig, PixelFormat, Rgb};
use kernel_core::graphics::Vector2D;
use kernel_core::mouse::{
    MOUSE_CURSOR_HEIGHT, MOUSE_CURSOR_WIDTH, MouseCursor, draw_mouse_cursor, erace_mouse_cursor,
    mouse_black_mask, mouse_white_mask,
};

fn writer(width: u32, height: u32) -> BGRPixelWriter {
    BGRPixelWriter::new(FrameBufferConfig::new(width, height, width, PixelFormat::BGRR))
}

fn pixel_of(w: &BGRPixelWriter, x: u32, y: u32) -> (u8, u8, u8) {
    let stride = w.0.horizontal_resolution;
    let base = 4 * (y * stride + x) as usize;
    let buf = &w.0.frame_buffer;
    (buf[base + 2], buf[base + 1], buf[base])
}

#[test]
fn draw_paints_outline_black_and_interior_white() {
    let mut w = writer(20, 30);
    assert!(draw_mouse_cursor(&mut w, Vector2D::new(0, 0)).is_ok());
    for dy in 0..MOUSE_CURSOR_HEIGHT {
        let black = mouse_black_mask(dy);
        let white = mouse_white_mask(dy);
        for dx in 0..MOUSE_CURSOR_WIDTH {
            let expected = if (black >> dx) & 1 == 1 {
                (0, 0, 0)
            } else if (white >> dx) & 1 == 1 {
                (255, 255, 255)
            } else {
                // Untouched background: the buffer starts zeroed, so
                // distinguish via a repaint below instead.
                (0, 0, 0)
            };
            assert_eq!(pixel_of(&w, dx as u32, dy as u32), expected, "cell ({dx}, {dy})");
        }
    }
    // Spot checks: the tip is outline, (1, 2) is interior, and a cell
    // right of the arrow stays background.
    assert_eq!(pixel_of(&w, 0, 0), (0, 0, 0));
    assert_eq!(pixel_of(&w, 1, 2), (255, 255, 255));
    assert_eq!(pixel_of(&w, 14, 0), (0, 0, 0));
}

#[test]
fn erase_repaints_every_shape_cell() {
    let mut w = writer(20, 30);
    assert!(draw_mouse_cursor(&mut w, Vector2D::new(2, 3)).is_ok());
    let green = Rgb::green();
    assert!(erace_mouse_cursor(&mut w, Vector2D::new(2, 3), green).is_ok());
    for dy in 0..MOUSE_CURSOR_HEIGHT {
        let shape = mouse_black_mask(dy) | mouse_white_mask(dy);
        for dx in 0..MOUSE_CURSOR_WIDTH {
            let expected = if (shape >> dx) & 1 == 1 { (0, 255, 0) } else { (0, 0, 0) };
            assert_eq!(
                pixel_of(&w, 2 + dx as u32, 3 + dy as u32),
                expected,
                "cell ({dx}, {dy})"
            );
        }
    }
}

#[test]
fn draw_off_the_buffer_fails() {
    let mut w = writer(10, 10);
    assert!(draw_mouse_cursor(&mut w, Vector2D::new(0, 0)).is_err());
}

#[test]
fn move_relative_erases_moves_and_redraws() {
    let bg = Rgb::black();
    // `new` draws at the fixed (200, 100): a small buffer cannot hold
    // that first draw.
    let mut w = writer(40, 40);
    assert!(MouseCursor::new(&mut w, bg, Vector2D::new(0, 0)).is_err());

    let mut w = writer(240, 140);
    let mut cursor = MouseCursor::new(&mut w, bg, Vector2D::new(10, 10)).unwrap();
    // The fixed first draw landed at (200, 100).
    assert_eq!(pixel_of(&w, 200, 100), (0, 0, 0));
    assert_eq!(pixel_of(&w, 201, 102), (255, 255, 255));

    // Draw at the tracked position, then move: the old cells are
    // wiped to the erase colour and the new position is painted.
    assert!(draw_mouse_cursor(&mut w, Vector2D::new(10, 10)).is_ok());
    assert_eq!(pixel_of(&w, 11, 12), (255, 255, 255));
    assert!(cursor.move_relative(&mut w, Vector2D::new(5, -3)).is_ok());
    assert_eq!(pixel_of(&w, 11, 12), (0, 0, 0));
    assert_eq!(pixel_of(&w, 16, 9), (255, 255, 255));
}
