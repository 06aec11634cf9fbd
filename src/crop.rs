//! Extracting the overlay's rectangle from a full-monitor capture.

use vstd::prelude::*;
use vstd::arithmetic::div_mod::lemma_fundamental_div_mod_converse;
use crate::frame::{rgba_len, CropRegion, CroppedFrame, FrameFormat, PixelLayout, RawFrame};

verus! {

/// Which source byte of a pixel feeds output channel `ch` (0 red, 1 green,
/// 2 blue, 3 alpha).
pub open spec fn source_channel(layout: PixelLayout, ch: int) -> int {
    match layout {
        PixelLayout::Rgba => ch,
        PixelLayout::Bgra => if ch == 0 {
            2
        } else if ch == 2 {
            0
        } else {
            ch
        },
    }
}

/// Byte offset of source pixel (`sx`, `sy`).
pub open spec fn pixel_offset(fmt: FrameFormat, sx: int, sy: int) -> int {
    sy * fmt.stride + sx * 4
}

/// The pixel lies inside the declared monitor size and all four of its bytes
/// lie inside the buffer.
pub open spec fn pixel_readable(data: Seq<u8>, fmt: FrameFormat, sx: int, sy: int) -> bool {
    &&& 0 <= sx < fmt.width
    &&& 0 <= sy < fmt.height
    &&& pixel_offset(fmt, sx, sy) + 4 <= data.len()
}

/// Channel `ch` of source pixel (`sx`, `sy`) in RGBA order, or zero where the
/// source has no such pixel.
pub open spec fn rgba_at(data: Seq<u8>, fmt: FrameFormat, sx: int, sy: int, ch: int) -> u8 {
    if pixel_readable(data, fmt, sx, sy) {
        data[pixel_offset(fmt, sx, sy) + source_channel(fmt.layout, ch)]
    } else {
        0
    }
}

/// Channel `ch` of pixel (`col`, `row`) of the cropped rectangle.
pub open spec fn region_byte(
    data: Seq<u8>,
    fmt: FrameFormat,
    region: CropRegion,
    row: int,
    col: int,
    ch: int,
) -> u8 {
    rgba_at(data, fmt, region.x + col, region.y + row, ch)
}

/// The cropped rectangle as a packed RGBA byte sequence, row by row.
pub open spec fn cropped_bytes(data: Seq<u8>, fmt: FrameFormat, region: CropRegion) -> Seq<u8> {
    Seq::new(
        rgba_len(region.width as int, region.height as int) as nat,
        |i: int| region_byte(data, fmt, region, (i / 4) / region.width as int, (i / 4) % region.width as int, i % 4),
    )
}

/// The buffer holds every row that the format declares.
pub open spec fn frame_complete(data: Seq<u8>, fmt: FrameFormat) -> bool {
    &&& fmt.stride >= fmt.width * 4
    &&& data.len() >= fmt.stride * fmt.height
}

/// The rectangle lies wholly inside the monitor.
pub open spec fn region_inside(fmt: FrameFormat, region: CropRegion) -> bool {
    &&& 0 <= region.x
    &&& region.x + region.width <= fmt.width
    &&& 0 <= region.y
    &&& region.y + region.height <= fmt.height
}

fn channel_index(layout: PixelLayout, ch: usize) -> (r: usize)
    requires
        ch < 4,
    ensures
        r == source_channel(layout, ch as int),
        r < 4,
{
    match layout {
        PixelLayout::Rgba => ch,
        PixelLayout::Bgra => if ch == 0 {
            2
        } else if ch == 2 {
            0
        } else {
            ch
        },
    }
}

/// Where the bytes of source pixel (`sx`, `sy`) start, if it can be read.
fn pixel_source(data: &[u8], fmt: FrameFormat, sx: i128, sy: i128) -> (r: Option<usize>)
    ensures
        r is Some <==> pixel_readable(data@, fmt, sx as int, sy as int),
        r is Some ==> r->0 == pixel_offset(fmt, sx as int, sy as int),
{
    if sx < 0 || sy < 0 || sx >= fmt.width as i128 || sy >= fmt.height as i128 {
        return None;
    }
    let row: u128 = sy as u128;
    let stride: u128 = fmt.stride as u128;
    assert(row * stride <= 0xffff_ffff_ffff_ffff_ffff_ffffu128) by (nonlinear_arith)
        requires
            row < 0x1_0000_0000,
            stride < 0x1_0000_0000_0000_0000,
    ;
    let offset: u128 = row * stride + (sx as u128) * 4;
    if offset + 4 <= data.len() as u128 {
        Some(offset as usize)
    } else {
        None
    }
}

/// Crops `region` out of a capture held in `data` with layout `fmt`.
///
/// Output pixel (`col`, `row`) is source pixel (`region.x + col`,
/// `region.y + row`) in RGBA order; where the source has no such pixel (off
/// the monitor, or past the end of the buffer) all four bytes are zero.
pub fn crop_bytes(data: &[u8], fmt: FrameFormat, region: CropRegion) -> (out: Vec<u8>)
    requires
        region.fits_memory(),
    ensures
        out@ == cropped_bytes(data@, fmt, region),
{
    let w: usize = region.width as usize;
    let h: usize = region.height as usize;
    assert(w * h * 4 <= usize::MAX);
    let count: usize = w * h;
    let mut out: Vec<u8> = Vec::with_capacity(count * 4);
    let mut p: usize = 0;
    while p < count
        invariant
            p <= count,
            count == w * h,
            w == region.width,
            h == region.height,
            count * 4 <= usize::MAX,
            out@.len() == p * 4,
            forall|j: int| 0 <= j < out@.len() ==> out@[j] == #[trigger] cropped_bytes(data@, fmt, region)[j],
        decreases count - p,
    {
        assert(w > 0) by (nonlinear_arith)
            requires
                p < count,
                count == w * h,
        ;
        let row: usize = p / w;
        let col: usize = p % w;
        let sx: i128 = region.x as i128 + col as i128;
        let sy: i128 = region.y as i128 + row as i128;
        let src = pixel_source(data, fmt, sx, sy);
        let mut ch: usize = 0;
        while ch < 4
            invariant
                p < count,
                count == w * h,
                w == region.width,
                h == region.height,
                count * 4 <= usize::MAX,
                w > 0,
                row == p / w,
                col == p % w,
                sx == region.x + col,
                sy == region.y + row,
                src is Some <==> pixel_readable(data@, fmt, sx as int, sy as int),
                src is Some ==> src->0 == pixel_offset(fmt, sx as int, sy as int),
                ch <= 4,
                out@.len() == p * 4 + ch,
                forall|j: int| 0 <= j < out@.len() ==> out@[j] == #[trigger] cropped_bytes(data@, fmt, region)[j],
            decreases 4 - ch,
        {
            let b: u8 = match src {
                Some(offset) => {
                    let c: usize = channel_index(fmt.layout, ch);
                    let n: usize = data.len();
                    assert(offset + 4 <= n);
                    data[offset + c]
                },
                None => 0,
            };
            proof {
                let i = (p * 4 + ch) as int;
                lemma_fundamental_div_mod_converse(i, 4, p as int, ch as int);
                assert(i < count * 4);
                assert(cropped_bytes(data@, fmt, region)[i] == b);
            }
            out.push(b);
            ch = ch + 1;
        }
        p = p + 1;
    }
    assert(out@ =~= cropped_bytes(data@, fmt, region));
    out
}

/// Crops `region` out of a full-monitor capture; see [`crop_bytes`].
pub fn crop(raw: &RawFrame, region: CropRegion) -> (out: CroppedFrame)
    requires
        region.fits_memory(),
    ensures
        out.width == region.width,
        out.height == region.height,
        out.pixels@ == cropped_bytes(raw.data@, raw.format, region),
        out.wf(),
{
    let pixels = crop_bytes(raw.data.as_slice(), raw.format, region);
    CroppedFrame { width: region.width, height: region.height, pixels }
}

/// The layout of a tightly packed RGBA capture, `width` pixels wide, held in
/// `len` bytes: as many whole rows as the bytes hold.
pub open spec fn packed_rgba(width: u32, len: int) -> FrameFormat {
    let stride = width as int * 4;
    let rows = if width == 0 {
        0
    } else {
        len / stride
    };
    FrameFormat {
        width,
        height: if rows > u32::MAX {
            u32::MAX
        } else {
            rows as u32
        },
        stride: stride as u64,
        layout: PixelLayout::Rgba,
    }
}

/// Crops a `new_width` by `new_height` rectangle at (`upper_left_x`,
/// `upper_left_y`) out of a tightly packed RGBA capture `original_width`
/// pixels wide.  Pixels past the capture's right or bottom edge are zero.
pub fn crop_frame(
    frame: &[u8],
    original_width: u32,
    upper_left_x: u32,
    upper_left_y: u32,
    new_width: u32,
    new_height: u32,
) -> (out: Vec<u8>)
    requires
        rgba_len(new_width as int, new_height as int) <= usize::MAX,
    ensures
        out@ == cropped_bytes(
            frame@,
            packed_rgba(original_width, frame@.len() as int),
            CropRegion { x: upper_left_x as i64, y: upper_left_y as i64, width: new_width, height: new_height },
        ),
{
    let stride: u64 = original_width as u64 * 4;
    let rows: u64 = if original_width == 0 {
        0
    } else {
        frame.len() as u64 / stride
    };
    let height: u32 = if rows > u32::MAX as u64 {
        u32::MAX
    } else {
        rows as u32
    };
    let fmt = FrameFormat { width: original_width, height, stride, layout: PixelLayout::Rgba };
    let region = CropRegion {
        x: upper_left_x as i64,
        y: upper_left_y as i64,
        width: new_width,
        height: new_height,
    };
    crop_bytes(frame, fmt, region)
}

/// Inside a complete capture, a rectangle that lies wholly on the monitor is
/// cropped to a plain copy of its pixels, each put into RGBA order whatever
/// the source's byte order.
pub proof fn lemma_crop_inside_copies(
    data: Seq<u8>,
    fmt: FrameFormat,
    region: CropRegion,
    row: int,
    col: int,
    ch: int,
)
    requires
        frame_complete(data, fmt),
        region_inside(fmt, region),
        0 <= row < region.height,
        0 <= col < region.width,
        0 <= ch < 4,
    ensures
        pixel_offset(fmt, region.x + col, region.y + row) + 4 <= data.len(),
        0 <= (row * region.width + col) * 4 + ch < cropped_bytes(data, fmt, region).len(),
        cropped_bytes(data, fmt, region)[(row * region.width + col) * 4 + ch]
            == data[pixel_offset(fmt, region.x + col, region.y + row) + source_channel(fmt.layout, ch)],
{
    let w = region.width as int;
    let h = region.height as int;
    let p = row * w + col;
    assert(0 <= p && p * 4 + ch < w * h * 4) by (nonlinear_arith)
        requires
            0 <= row < h,
            0 <= col < w,
            0 <= ch < 4,
            p == row * w + col,
    ;
    lemma_fundamental_div_mod_converse(p * 4 + ch, 4, p, ch);
    lemma_fundamental_div_mod_converse(p, w, row, col);
    let sx = region.x + col;
    let sy = region.y + row;
    let stride = fmt.stride as int;
    assert(sy * stride + sx * 4 + 4 <= data.len()) by (nonlinear_arith)
        requires
            0 <= sy < fmt.height,
            0 <= sx,
            sx * 4 + 4 <= stride,
            data.len() >= stride * fmt.height,
    ;
}

/// An output pixel whose source position lies off the monitor (left of or
/// above it included) is zero in all four channels.
pub proof fn lemma_crop_outside_zero(
    data: Seq<u8>,
    fmt: FrameFormat,
    region: CropRegion,
    row: int,
    col: int,
    ch: int,
)
    requires
        0 <= row < region.height,
        0 <= col < region.width,
        0 <= ch < 4,
        !(0 <= region.x + col < fmt.width && 0 <= region.y + row < fmt.height),
    ensures
        0 <= (row * region.width + col) * 4 + ch < cropped_bytes(data, fmt, region).len(),
        cropped_bytes(data, fmt, region)[(row * region.width + col) * 4 + ch] == 0,
{
    let w = region.width as int;
    let h = region.height as int;
    let p = row * w + col;
    assert(0 <= p && p * 4 + ch < w * h * 4) by (nonlinear_arith)
        requires
            0 <= row < h,
            0 <= col < w,
            0 <= ch < 4,
            p == row * w + col,
    ;
    lemma_fundamental_div_mod_converse(p * 4 + ch, 4, p, ch);
    lemma_fundamental_div_mod_converse(p, w, row, col);
}

} // verus!
