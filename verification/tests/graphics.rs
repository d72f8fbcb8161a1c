use kernel_core::KernelError;
use kernel_core::frame_buffer::{
    BGRPixelWriter, FrameBufferConfig, PixelFormat, PixelWriter, Rgb,
};
use kernel_core::graphics::{Vector2D, draw_rectangle, fill_rectangle};

fn writer(width: u32, height: u32) -> BGRPixelWriter {
    BGRPixelWriter::new(FrameBufferConfig::new(width, height, width, PixelFormat::BGRR))
}

/// The (r, g, b) of pixel (x, y), read from the blue-green-red bytes.
fn pixel_of(w: &BGRPixelWriter, x: u32, y: u32) -> (u8, u8, u8) {
    let stride = w.0.horizontal_resolution;
    let base = 4 * (y * stride + x) as usize;
    let buf = &w.0.frame_buffer;
    (buf[base + 2], buf[base + 1], buf[base])
}

#[test]
fn write_sets_one_pixel_in_bgr_order() {
    let mut w = writer(10, 5);
    assert!(w.write(3, 2, Rgb::new(1, 2, 3)).is_ok());
    assert_eq!(pixel_of(&w, 3, 2), (1, 2, 3));
    let base = 4 * (2 * 10 + 3) as usize;
    assert_eq!(&w.0.frame_buffer[base..base + 3], &[3, 2, 1]);
    // Neighbours stay black.
    assert_eq!(pixel_of(&w, 2, 2), (0, 0, 0));
    assert_eq!(pixel_of(&w, 3, 1), (0, 0, 0));
}

#[test]
fn write_outside_the_buffer_fails() {
    let mut w = writer(10, 5);
    assert_eq!(w.write(0, 5, Rgb::white()), Err(KernelError::OutOfBuffer));
    assert_eq!(KernelError::OutOfBuffer.message(), "out of buffer");
}

#[test]
fn fill_rectangle_colors_exactly_the_rectangle() {
    let mut w = writer(10, 10);
    let red = Rgb::red();
    assert!(fill_rectangle(&mut w, &Vector2D::new(2, 3), &Vector2D::new(4, 2), red).is_ok());
    for y in 0..10 {
        for x in 0..10 {
            let inside = (2..6).contains(&x) && (3..5).contains(&y);
            let expected = if inside { (255, 0, 0) } else { (0, 0, 0) };
            assert_eq!(pixel_of(&w, x, y), expected, "pixel ({x}, {y})");
        }
    }
}

#[test]
fn fill_rectangle_past_the_bottom_fails() {
    let mut w = writer(10, 10);
    assert_eq!(
        fill_rectangle(&mut w, &Vector2D::new(0, 9), &Vector2D::new(1, 2), Rgb::white()),
        Err(KernelError::OutOfBuffer)
    );
}

#[test]
fn draw_rectangle_colors_only_the_outline() {
    let mut w = writer(10, 10);
    let c = Rgb::cyan();
    assert!(draw_rectangle(&mut w, &Vector2D::new(1, 1), &Vector2D::new(5, 4), c).is_ok());
    for y in 0..10 {
        for x in 0..10 {
            let inside = (1..6).contains(&x) && (1..5).contains(&y);
            let on_edge = inside && (x == 1 || x == 5 || y == 1 || y == 4);
            let expected = if on_edge { (0, 255, 255) } else { (0, 0, 0) };
            assert_eq!(pixel_of(&w, x, y), expected, "pixel ({x}, {y})");
        }
    }
}

#[test]
fn colors_carry_their_channels() {
    assert_eq!((Rgb::white().r, Rgb::white().g, Rgb::white().b), (255, 255, 255));
    assert_eq!((Rgb::black().r, Rgb::black().g, Rgb::black().b), (0, 0, 0));
    assert_eq!((Rgb::red().r, Rgb::red().g, Rgb::red().b), (255, 0, 0));
    assert_eq!((Rgb::green().r, Rgb::green().g, Rgb::green().b), (0, 255, 0));
    assert_eq!((Rgb::blue().r, Rgb::blue().g, Rgb::blue().b), (0, 0, 255));
    assert_eq!((Rgb::yellow().r, Rgb::yellow().g, Rgb::yellow().b), (255, 255, 0));
    assert_eq!((Rgb::purple().r, Rgb::purple().g, Rgb::purple().b), (255, 0, 255));
    assert_eq!((Rgb::cyan().r, Rgb::cyan().g, Rgb::cyan().b), (0, 255, 255));
    let v = Vector2D::new(7u32, 9u32);
    assert_eq!((v.x, v.y), (7, 9));
}
