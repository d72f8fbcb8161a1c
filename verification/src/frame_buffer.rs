//! The frame buffer and its pixel writer.
//!
//! The buffer is a flat byte array of four bytes per pixel, indexed by
//! `y * horizontal_resolution + x`. Writers implement [`PixelWriter`]:
//! a write either lands inside the buffer — then exactly that pixel
//! changes — or reports [`KernelError::OutOfBuffer`] and changes
//! nothing. Only the blue-green-red byte order is implemented.

use vstd::prelude::*;

use crate::{KernelError, KernelResult};

verus! {

/// Byte order of a pixel's colour channels in the buffer.
#[derive(Debug, Clone, Copy, PartialEq, Eq, Structural)]
pub enum PixelFormat {
    /// Red, green, blue, reserved.
    RGBR,
    /// Blue, green, red, reserved.
    BGRR,
}

/// The frame-buffer geometry handed over at boot, together with the
/// pixel storage itself.
pub struct FrameBufferConfig {
    pub frame_buffer: Vec<u8>,
    pub pixels_per_scan_line: u32,
    pub horizontal_resolution: u32,
    pub vertical_resolution: u32,
    pub pixel_format: PixelFormat,
}

impl FrameBufferConfig {
    /// A zero-filled buffer of the given geometry.
    pub fn new(
        horizontal_resolution: u32,
        vertical_resolution: u32,
        pixels_per_scan_line: u32,
        pixel_format: PixelFormat,
    ) -> (r: FrameBufferConfig)
        requires
            4 * (horizontal_resolution as int) * (vertical_resolution as int) <= usize::MAX as int,
        ensures
            r.horizontal_resolution == horizontal_resolution,
            r.vertical_resolution == vertical_resolution,
            r.pixels_per_scan_line == pixels_per_scan_line,
            r.pixel_format == pixel_format,
            r.frame_buffer@.len() == 4 * (horizontal_resolution as int) * (
            vertical_resolution as int),
            forall|i: int| 0 <= i < r.frame_buffer@.len() ==> r.frame_buffer@[i] == 0,
    {
        proof {
            let h = horizontal_resolution as int;
            let v = vertical_resolution as int;
            assert(h * v >= 0) by (nonlinear_arith)
                requires h >= 0 && v >= 0;
        }
        let total64: u64 = 4u64 * (horizontal_resolution as u64) * (vertical_resolution as u64);
        proof {
            assert(4u64 * (horizontal_resolution as u64) * (vertical_resolution as u64) == 4 * (
            horizontal_resolution as int) * (vertical_resolution as int)) by (nonlinear_arith);
        }
        let total: usize = total64 as usize;
        let mut frame_buffer: Vec<u8> = Vec::new();
        let mut i: usize = 0;
        while i < total
            invariant
                i <= total,
                frame_buffer@.len() == i,
                forall|k: int| 0 <= k < i ==> frame_buffer@[k] == 0,
            decreases total - i,
        {
            frame_buffer.push(0);
            i = i + 1;
        }
        FrameBufferConfig {
            frame_buffer,
            pixels_per_scan_line,
            horizontal_resolution,
            vertical_resolution,
            pixel_format,
        }
    }
}

/// A destination for single-pixel writes over a flat pixel array.
pub trait PixelWriter {
    /// The implementation's own invariant.
    spec fn wf(&self) -> bool;

    /// Pixels per row, as used for linear indexing.
    spec fn stride(&self) -> nat;

    /// How many pixels the buffer holds.
    spec fn num_pixels(&self) -> nat;

    /// The (red, green, blue) channels of the pixel at linear index
    /// `idx`.
    spec fn pixel(&self, idx: int) -> (u8, u8, u8);

    /// Writes one pixel at (`x`, `y`). Inside the buffer exactly that
    /// pixel changes; outside nothing changes and the write reports
    /// [`KernelError::OutOfBuffer`].
    fn write(&mut self, x: u32, y: u32, rgb: Rgb) -> (r: KernelResult<()>)
        requires old(self).wf(),
        ensures
            final(self).wf(),
            final(self).stride() == old(self).stride(),
            final(self).num_pixels() == old(self).num_pixels(),
            (y as int) * old(self).stride() + (x as int) < old(self).num_pixels() ==> r
                == KernelResult::<()>::Ok(()) && forall|i: int|
                0 <= i < old(self).num_pixels() ==> final(self).pixel(i) == if i == (y as int)
                    * old(self).stride() + (x as int) {
                    (rgb.r, rgb.g, rgb.b)
                } else {
                    old(self).pixel(i)
                },
            (y as int) * old(self).stride() + (x as int) >= old(self).num_pixels() ==> r
                == KernelResult::<()>::Err(KernelError::OutOfBuffer) && forall|i: int|
                0 <= i < old(self).num_pixels() ==> final(self).pixel(i) == old(self).pixel(i),
    ;
}

/// Writes pixels in blue-green-red byte order.
pub struct BGRPixelWriter(pub FrameBufferConfig);

impl BGRPixelWriter {
    pub fn new(frame_buffer_config: FrameBufferConfig) -> (r: Self)
        requires
            frame_buffer_config.frame_buffer@.len() == 4 * (
            frame_buffer_config.horizontal_resolution as int) * (
            frame_buffer_config.vertical_resolution as int),
        ensures
            r.wf(),
            r.stride() == frame_buffer_config.horizontal_resolution,
            r.num_pixels() == (frame_buffer_config.horizontal_resolution as int) * (
            frame_buffer_config.vertical_resolution as int),
            r.0 == frame_buffer_config,
    {
        proof {
            let h = frame_buffer_config.horizontal_resolution as int;
            let v = frame_buffer_config.vertical_resolution as int;
            assert(4 * h * v == 4 * (h * v) && h * v >= 0) by (nonlinear_arith)
                requires h >= 0 && v >= 0;
        }
        Self(frame_buffer_config)
    }

    /// The linear pixel index of (`x`, `y`), or `None` outside the
    /// buffer.
    pub fn pixel_at(&self, x: u32, y: u32) -> (r: Option<usize>)
        requires self.wf(),
        ensures
            (y as int) * self.stride() + (x as int) < self.num_pixels() ==> r == Option::Some(
                ((y as int) * self.stride() + (x as int)) as usize,
            ),
            (y as int) * self.stride() + (x as int) >= self.num_pixels() ==> r
                == Option::<usize>::None,
    {
        let h = self.0.horizontal_resolution;
        let v = self.0.vertical_resolution;
        proof {
            let yi = y as int;
            let hi = h as int;
            let vi = v as int;
            let xi = x as int;
            assert(yi * hi + xi < 0x1_0000_0000_0000_0000 && hi * vi < 0x1_0000_0000_0000_0000)
                by (nonlinear_arith)
                requires yi < 0x1_0000_0000 && hi < 0x1_0000_0000 && vi < 0x1_0000_0000 && xi < 0x1_0000_0000 && 0 <= yi && 0 <= hi && 0 <= vi && 0 <= xi;
        }
        proof {
            let hi = h as int;
            let vi = v as int;
            assert(hi * vi >= 0) by (nonlinear_arith)
                requires hi >= 0 && vi >= 0;
        }
        let idx64: u64 = (y as u64) * (h as u64) + (x as u64);
        let total64: u64 = (h as u64) * (v as u64);
        if idx64 >= total64 {
            return None;
        }
        let buf_len = self.0.frame_buffer.len();
        proof {
            assert(buf_len == 4 * self.num_pixels());
        }
        Some(idx64 as usize)
    }
}

impl PixelWriter for BGRPixelWriter {
    /// Four buffer bytes for each of the `horizontal x vertical`
    /// pixels.
    closed spec fn wf(&self) -> bool {
        self.0.frame_buffer@.len() == 4 * self.num_pixels()
    }

    closed spec fn stride(&self) -> nat {
        self.0.horizontal_resolution as nat
    }

    closed spec fn num_pixels(&self) -> nat {
        ((self.0.horizontal_resolution as int) * (self.0.vertical_resolution as int)) as nat
    }

    closed spec fn pixel(&self, idx: int) -> (u8, u8, u8) {
        (
            self.0.frame_buffer@[4 * idx + 2],
            self.0.frame_buffer@[4 * idx + 1],
            self.0.frame_buffer@[4 * idx],
        )
    }

    fn write(&mut self, x: u32, y: u32, rgb: Rgb) -> (r: KernelResult<()>) {
        let idx = match self.pixel_at(x, y) {
            Some(idx) => idx,
            None => {
                return Err(KernelError::OutOfBuffer);
            },
        };
        let buf_len = self.0.frame_buffer.len();
        proof {
            let n = old(self).num_pixels();
            let j = idx as int;
            assert(j < n ==> 4 * j + 3 < 4 * n) by (nonlinear_arith);
            assert(buf_len == 4 * n);
        }
        let base: usize = 4 * idx;
        self.0.frame_buffer.set(base, rgb.b);
        self.0.frame_buffer.set(base + 1, rgb.g);
        self.0.frame_buffer.set(base + 2, rgb.r);
        proof {
            assert forall|i: int|
                0 <= i < old(self).num_pixels() implies self.pixel(i) == if i == (y as int) * old(
                self,
            ).stride() + (x as int) {
                (rgb.r, rgb.g, rgb.b)
            } else {
                old(self).pixel(i)
            } by {
                if i != idx as int {
                    assert(4 * i != 4 * (idx as int) && 4 * i + 1 != 4 * (idx as int) && 4 * i + 2
                        != 4 * (idx as int));
                }
            }
        }
        Ok(())
    }
}

/// One colour, by its red, green and blue channels.
#[derive(Debug, Clone, Copy, PartialEq, Eq, Structural)]
pub struct Rgb {
    pub r: u8,
    pub g: u8,
    pub b: u8,
}

impl Rgb {
    pub fn new(r: u8, g: u8, b: u8) -> (c: Self)
        ensures c == (Rgb { r, g, b }),
    {
        Self { r, g, b }
    }

    pub fn white() -> (c: Self)
        ensures c == (Rgb { r: 255, g: 255, b: 255 }),
    {
        Self { r: 255, g: 255, b: 255 }
    }

    pub fn black() -> (c: Self)
        ensures c == (Rgb { r: 0, g: 0, b: 0 }),
    {
        Self { r: 0, g: 0, b: 0 }
    }

    pub fn red() -> (c: Self)
        ensures c == (Rgb { r: 255, g: 0, b: 0 }),
    {
        Self { r: 255, g: 0, b: 0 }
    }

    pub fn green() -> (c: Self)
        ensures c == (Rgb { r: 0, g: 255, b: 0 }),
    {
        Self { r: 0, g: 255, b: 0 }
    }

    pub fn blue() -> (c: Self)
        ensures c == (Rgb { r: 0, g: 0, b: 255 }),
    {
        Self { r: 0, g: 0, b: 255 }
    }

    pub fn yellow() -> (c: Self)
        ensures c == (Rgb { r: 255, g: 255, b: 0 }),
    {
        Self { r: 255, g: 255, b: 0 }
    }

    pub fn purple() -> (c: Self)
        ensures c == (Rgb { r: 255, g: 0, b: 255 }),
    {
        Self { r: 255, g: 0, b: 255 }
    }

    pub fn cyan() -> (c: Self)
        ensures c == (Rgb { r: 0, g: 255, b: 255 }),
    {
        Self { r: 0, g: 255, b: 255 }
    }
}

} // verus!
