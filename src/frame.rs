//! Pixel buffers and rectangles shared by the whole pipeline.

use vstd::prelude::*;

verus! {

/// Byte order of the four channels of one source pixel.
#[derive(Clone, Copy, Debug, PartialEq, Eq, Structural)]
pub enum PixelLayout {
    Rgba,
    Bgra,
}

/// How the bytes of a full-monitor capture are laid out.
///
/// Row `r` starts at byte `r * stride`; pixel `c` of it takes the four bytes
/// from `r * stride + c * 4`.  The stride may exceed `width * 4`.
#[derive(Clone, Copy, Debug, PartialEq, Eq, Structural)]
pub struct FrameFormat {
    pub width: u32,
    pub height: u32,
    pub stride: u64,
    pub layout: PixelLayout,
}

/// A full-monitor capture, as a frame source delivers it.
#[derive(Clone, Debug)]
pub struct RawFrame {
    pub data: Vec<u8>,
    pub format: FrameFormat,
}

/// A rectangle in monitor pixels.  The origin may be negative or lie past the
/// monitor's edge: whatever the monitor does not cover reads as zero.
#[derive(Clone, Copy, Debug, PartialEq, Eq, Structural)]
pub struct CropRegion {
    pub x: i64,
    pub y: i64,
    pub width: u32,
    pub height: u32,
}

/// An RGBA buffer of exactly `width * height * 4` bytes, row by row.
#[derive(Clone, Debug)]
pub struct CroppedFrame {
    pub width: u32,
    pub height: u32,
    pub pixels: Vec<u8>,
}

/// Number of bytes of a packed RGBA buffer of the given size.
pub open spec fn rgba_len(width: int, height: int) -> int {
    width * height * 4
}

impl CroppedFrame {
    /// The buffer holds exactly one RGBA pixel per position of the rectangle.
    pub open spec fn wf(&self) -> bool {
        self.pixels@.len() == rgba_len(self.width as int, self.height as int)
    }
}

impl CropRegion {
    /// Whether a buffer for this rectangle can be addressed on this machine.
    pub open spec fn fits_memory(&self) -> bool {
        rgba_len(self.width as int, self.height as int) <= usize::MAX
    }
}

} // verus!
