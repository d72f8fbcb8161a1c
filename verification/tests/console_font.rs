use kernel_core::console::{CONSOLE_COLS, Console};
use kernel_core::font::{font_a, write_ascii};
use kernel_core::frame_buffer::{BGRPixelWriter, FrameBufferConfig, PixelFormat, Rgb};

fn writer(width: u32, height: u32) -> BGRPixelWriter {
    BGRPixelWriter::new(FrameBufferConfig::new(width, height, width, PixelFormat::BGRR))
}

fn pixel_of(w: &BGRPixelWriter, x: u32, y: u32) -> (u8, u8, u8) {
    let stride = w.0.horizontal_resolution;
    let base = 4 * (y * stride + x) as usize;
    let buf = &w.0.frame_buffer;
    (buf[base + 2], buf[base + 1], buf[base])
}

#[test]
fn glyph_pixels_follow_the_font_rows() {
    let mut w = writer(8, 16);
    let fg = Rgb::green();
    assert!(write_ascii(&mut w, 0, 0, 'A', fg).is_ok());
    for dy in 0..16u32 {
        let row = font_a(dy as usize);
        for dx in 0..8u32 {
            let inked = (row << dx) & 0x80 > 0;
            let expected = if inked { (0, 255, 0) } else { (0, 0, 0) };
            assert_eq!(pixel_of(&w, dx, dy), expected, "cell ({dx}, {dy})");
        }
    }
    // Spot checks against the literal bitmap.
    assert_eq!(font_a(1), 0b0001_1000);
    assert_eq!(pixel_of(&w, 3, 1), (0, 255, 0));
    assert_eq!(pixel_of(&w, 4, 1), (0, 255, 0));
    assert_eq!(pixel_of(&w, 0, 1), (0, 0, 0));
}

#[test]
fn glyph_past_the_buffer_fails() {
    let mut w = writer(8, 8);
    assert!(write_ascii(&mut w, 0, 0, 'A', Rgb::white()).is_err());
}

#[test]
fn put_char_records_and_advances() {
    let mut w = writer(640, 400);
    let mut console = Console::new(Rgb::white(), Rgb::black());
    assert!(console.put_char(&mut w, 'A').is_ok());
    assert!(console.put_char(&mut w, 'A').is_ok());
    // The first two glyph cells are drawn at columns 0 and 1.
    assert_eq!(pixel_of(&w, 3, 1), (255, 255, 255));
    assert_eq!(pixel_of(&w, 8 + 3, 1), (255, 255, 255));

    assert!(console.put_char(&mut w, '\n').is_ok());
    // The next glyph lands on the second text row.
    assert!(console.put_char(&mut w, 'A').is_ok());
    assert_eq!(pixel_of(&w, 3, 16 + 1), (255, 255, 255));
}

#[test]
fn characters_past_the_last_column_are_dropped() {
    let mut w = writer(640, 400);
    let mut console = Console::new(Rgb::white(), Rgb::black());
    for _ in 0..CONSOLE_COLS {
        assert!(console.put_char(&mut w, 'A').is_ok());
    }
    // The row is full: further characters change nothing.
    assert!(console.put_char(&mut w, 'A').is_ok());
    assert_eq!(pixel_of(&w, 8 * CONSOLE_COLS as u32 - 5, 1), (255, 255, 255));
}

#[test]
fn newline_on_the_last_row_scrolls() {
    let mut w = writer(640, 400);
    let mut console = Console::new(Rgb::white(), Rgb::black());
    // Write one glyph on the first row, then walk to the last row.
    assert!(console.put_char(&mut w, 'A').is_ok());
    for _ in 0..24 {
        assert!(console.put_char(&mut w, '\n').is_ok());
    }
    // One glyph on the last row, then scroll.
    assert!(console.put_char(&mut w, 'A').is_ok());
    assert!(console.put_char(&mut w, '\n').is_ok());
    // The first-row glyph scrolled off; the last-row glyph moved up
    // one text row and is redrawn there.
    assert_eq!(pixel_of(&w, 3, 1), (0, 0, 0));
    assert_eq!(pixel_of(&w, 3, 16 * 23 + 1), (255, 255, 255));
    assert_eq!(pixel_of(&w, 3, 16 * 24 + 1), (0, 0, 0));
}
