//! Frames as plain images: the pixel values of a frame, pixel after pixel,
//! without padding or unused bytes.

use vstd::prelude::*;

use crate::float_bits::FloatBits;
use crate::frame::{FrameFormat, FrameModel};
use crate::frame_data::{color_at, float_at};
use crate::pixel_grid::{lemma_pixel_lies_in_buffer, Grid, PixelGrid};

verus! {

/// An image as plain values: the samples of all pixels, row by row.
#[derive(Debug)]
pub struct PlainImage<T> {
    /// The number of pixels in a row.
    pub width: u32,
    /// The number of rows.
    pub height: u32,
    /// The samples, pixel after pixel.
    pub data: Vec<T>,
}

/// A frame converted to an image.
#[derive(Debug)]
pub enum FrameImage {
    /// An RGB image of three bytes per pixel: red, green, blue. The frame
    /// was of format RGBX or BGRX.
    RGB(PlainImage<u8>),
    /// A grayscale image of one byte per pixel.
    Gray(PlainImage<u8>),
    /// A floating-point image of one float per pixel. Usually depth or
    /// infrared data.
    Float(PlainImage<FloatBits>),
    /// An invalid image.
    Invalid,
}

impl FrameImage {
    /// Whether `self` is the image of `frame`.
    ///
    /// A frame whose width or height does not fit in 32 bits has an invalid
    /// image, and so has a frame of raw or invalid format. A color frame
    /// gives its red, green and blue bytes, a float frame its floats, and a
    /// gray frame its whole buffer, unless that holds less than a byte for
    /// each pixel.
    pub open spec fn shows(&self, frame: FrameModel) -> bool {
        let grid = frame.grid;
        if grid.width > u32::MAX || grid.height > u32::MAX {
            self is Invalid
        } else {
            match frame.format {
                FrameFormat::RGBX | FrameFormat::BGRX => {
                    &&& self matches FrameImage::RGB(image)
                    &&& image.width == grid.width
                    &&& image.height == grid.height
                    &&& image.data@ == rgb_bytes(grid, frame.format == FrameFormat::BGRX)
                },
                FrameFormat::Gray => if grid.covers(1) {
                    &&& self matches FrameImage::Gray(image)
                    &&& image.width == grid.width
                    &&& image.height == grid.height
                    &&& image.data@ == grid.bytes
                } else {
                    self is Invalid
                },
                FrameFormat::Float => {
                    &&& self matches FrameImage::Float(image)
                    &&& image.width == grid.width
                    &&& image.height == grid.height
                    &&& image.data@ == float_values(grid)
                },
                FrameFormat::Invalid | FrameFormat::Raw => self is Invalid,
            }
        }
    }
}

/// The position inside a pixel of color channel `channel` (0 red, 1 green,
/// 2 blue).
pub open spec fn channel_position(bgr: bool, channel: int) -> int {
    if bgr {
        2 - channel
    } else {
        channel
    }
}

/// The red, green and blue bytes of every pixel of `grid`, pixel after pixel:
/// byte `3 * p + c` is channel `c` of the pixel with number `p`, counted row
/// by row.
pub open spec fn rgb_bytes(grid: Grid, bgr: bool) -> Seq<u8> {
    Seq::new(
        3 * grid.pixel_count(),
        |i: int| grid.bytes[(i / 3) * grid.bytes_per_pixel + channel_position(bgr, i % 3)],
    )
}

/// The float of every pixel of `grid`, pixel after pixel.
pub open spec fn float_values(grid: Grid) -> Seq<FloatBits> {
    Seq::new(
        grid.pixel_count(),
        |p: int|
            FloatBits::from_le_bytes_spec(
                grid.bytes[p * grid.bytes_per_pixel],
                grid.bytes[p * grid.bytes_per_pixel + 1],
                grid.bytes[p * grid.bytes_per_pixel + 2],
                grid.bytes[p * grid.bytes_per_pixel + 3],
            ),
    )
}

/// The pixel in column `x` of row `y` has the number `y * width + x`, which
/// is below the number of pixels.
pub proof fn lemma_pixel_number_in_range(grid: Grid, x: int, y: int)
    requires
        grid.in_bounds(x, y),
    ensures
        0 <= y * grid.width + x < grid.pixel_count(),
{
    let w = grid.width as int;
    let h = grid.height as int;
    assert(0 <= y * w && y * w + x + 1 <= w * h) by (nonlinear_arith)
        requires
            0 <= x < w,
            0 <= y < h,
    ;
}

/// The three bytes that `rgb_bytes` holds for a pixel are the red, green and
/// blue value that `get_pixel` decodes at it.
pub proof fn lemma_rgb_bytes_hold_the_colors(grid: Grid, bgr: bool, x: int, y: int)
    requires
        grid.in_bounds(x, y),
    ensures
        ({
            let p = y * grid.width + x;
            let rgb = rgb_bytes(grid, bgr);
            let color = color_at(grid, bgr, x, y);
            &&& 0 <= 3 * p && 3 * p + 2 < rgb.len()
            &&& rgb[3 * p] == color.r
            &&& rgb[3 * p + 1] == color.g
            &&& rgb[3 * p + 2] == color.b
        }),
{
    lemma_pixel_number_in_range(grid, x, y);
}

/// The float that `float_values` holds for a pixel is the one that
/// `get_pixel` decodes at it.
pub proof fn lemma_float_values_hold_the_pixels(grid: Grid, x: int, y: int)
    requires
        grid.in_bounds(x, y),
    ensures
        ({
            let p = y * grid.width + x;
            &&& 0 <= p < float_values(grid).len()
            &&& float_values(grid)[p] == float_at(grid, x, y)
        }),
{
    lemma_pixel_number_in_range(grid, x, y);
}

/// Collects the red, green and blue byte of every pixel.
pub fn collect_rgb(grid: &PixelGrid<'_>, bgr: bool) -> (rgb: Vec<u8>)
    requires
        grid@.covers(4),
    ensures
        rgb@ == rgb_bytes(grid@, bgr),
{
    let count: usize = grid.pixel_count();
    let step: usize = grid.bytes_per_pixel();
    let bytes = grid.bytes();
    let len: usize = bytes.len();
    let mut rgb: Vec<u8> = Vec::new();
    let mut p: usize = 0;
    let mut index: usize = 0;
    while p < count
        invariant
            p <= count,
            index == p * step,
            count * step == len,
            len == bytes@.len(),
            count > 0 ==> step >= 4,
            bytes@ == grid@.bytes,
            step == grid@.bytes_per_pixel,
            count == grid@.pixel_count(),
            rgb@.len() == 3 * p,
            forall|i: int|
                0 <= i < 3 * p ==> rgb@[i] == bytes@[(i / 3) * step + channel_position(bgr, i % 3)],
        decreases count - p,
    {
        assert((p + 1) * step <= count * step && (p + 1) * step == p * step + step)
            by (nonlinear_arith)
            requires
                p + 1 <= count,
                step >= 0,
        ;
        let first: u8 = bytes[index];
        let second: u8 = bytes[index + 1];
        let third: u8 = bytes[index + 2];
        let ghost before = rgb@;
        if bgr {
            rgb.push(third);
            rgb.push(second);
            rgb.push(first);
        } else {
            rgb.push(first);
            rgb.push(second);
            rgb.push(third);
        }
        assert forall|i: int| 0 <= i < 3 * (p + 1) implies rgb@[i] == bytes@[(i / 3) * step
            + channel_position(bgr, i % 3)] by {
            if i < 3 * p {
                assert(rgb@[i] == before[i]);
            } else {
                assert(i / 3 == p);
            }
        }
        p += 1;
        index += step;
    }
    assert(rgb@ =~= rgb_bytes(grid@, bgr));
    rgb
}

/// Collects the float of every pixel.
pub fn collect_floats(grid: &PixelGrid<'_>) -> (values: Vec<FloatBits>)
    requires
        grid@.covers(4),
    ensures
        values@ == float_values(grid@),
{
    let count: usize = grid.pixel_count();
    let step: usize = grid.bytes_per_pixel();
    let bytes = grid.bytes();
    let len: usize = bytes.len();
    let mut values: Vec<FloatBits> = Vec::new();
    let mut p: usize = 0;
    let mut index: usize = 0;
    while p < count
        invariant
            p <= count,
            index == p * step,
            count * step == len,
            len == bytes@.len(),
            count > 0 ==> step >= 4,
            bytes@ == grid@.bytes,
            step == grid@.bytes_per_pixel,
            count == grid@.pixel_count(),
            values@.len() == p,
            forall|q: int|
                0 <= q < p ==> values@[q] == FloatBits::from_le_bytes_spec(
                    bytes@[q * step],
                    bytes@[q * step + 1],
                    bytes@[q * step + 2],
                    bytes@[q * step + 3],
                ),
        decreases count - p,
    {
        assert((p + 1) * step <= count * step && (p + 1) * step == p * step + step)
            by (nonlinear_arith)
            requires
                p + 1 <= count,
                step >= 0,
        ;
        let value = FloatBits::from_le_bytes(
            bytes[index],
            bytes[index + 1],
            bytes[index + 2],
            bytes[index + 3],
        );
        values.push(value);
        p += 1;
        index += step;
    }
    assert(values@ =~= float_values(grid@));
    values
}

} // verus!
