//! Typed views over the pixel buffer of a frame.
//!
//! A view borrows the buffer of a frame together with its geometry and reads
//! pixels in one format, without copying the frame or decoding it as a
//! whole.

use vstd::prelude::*;

use crate::float_bits::{is_positive, FloatBits};
use crate::frame::{FrameFormat, FrameModel};
use crate::frame_value::PixelValue;
use crate::frame_data_iter::FrameDataIter;
use crate::pixel_grid::{Grid, PixelGrid};

verus! {

/// A color value of four bytes: red, green, blue and one unused byte.
#[derive(Clone, Copy, Debug, PartialEq, Eq, Structural, PartialOrd, Ord)]
pub struct RGBX {
    /// The red value.
    pub r: u8,
    /// The green value.
    pub g: u8,
    /// The blue value.
    pub b: u8,
    /// Unused.
    pub x: u8,
}

impl RGBX {
    /// The four bytes in the order red, green, blue, unused.
    pub fn raw(&self) -> (bytes: [u8; 4])
        ensures
            bytes@ == seq![self.r, self.g, self.b, self.x],
    {
        let bytes: [u8; 4] = [self.r, self.g, self.b, self.x];
        assert(bytes@ =~= seq![self.r, self.g, self.b, self.x]);
        bytes
    }
}

/// The float that the first four bytes of pixel `(x, y)` encode in
/// little-endian order.
pub open spec fn float_at(grid: Grid, x: int, y: int) -> FloatBits {
    FloatBits::from_le_bytes_spec(
        grid.byte(x, y, 0),
        grid.byte(x, y, 1),
        grid.byte(x, y, 2),
        grid.byte(x, y, 3),
    )
}

/// The color that the first four bytes of pixel `(x, y)` encode: red, green,
/// blue, unused, or with `bgr` blue, green, red, unused.
pub open spec fn color_at(grid: Grid, bgr: bool, x: int, y: int) -> RGBX {
    if bgr {
        RGBX {
            r: grid.byte(x, y, 2),
            g: grid.byte(x, y, 1),
            b: grid.byte(x, y, 0),
            x: grid.byte(x, y, 3),
        }
    } else {
        RGBX {
            r: grid.byte(x, y, 0),
            g: grid.byte(x, y, 1),
            b: grid.byte(x, y, 2),
            x: grid.byte(x, y, 3),
        }
    }
}

/// A view that reads the pixels of a frame in one format.
pub trait FrameDataValue {
    /// The type of a pixel value.
    type Value;

    /// The buffer that the view reads, with its geometry.
    spec fn grid(&self) -> Grid;

    /// The number of bytes that a pixel value is decoded from.
    spec fn value_len(&self) -> nat;

    /// The value of pixel `(x, y)`.
    spec fn pixel(&self, x: int, y: int) -> Self::Value;

    /// The buffer that the view reads, with its geometry.
    fn pixel_grid(&self) -> (grid: &PixelGrid<'_>)
        ensures
            grid@ == self.grid(),
            self.grid().wf(),
    ;

    /// Get the pixel value in column `x` of row `y`. The coordinates have to
    /// lie inside the frame, and the bytes of the value inside the buffer.
    fn get_pixel(&self, x: usize, y: usize) -> (value: Self::Value)
        requires
            self.grid().holds(x as int, y as int, self.value_len() as int),
        ensures
            value == self.pixel(x as int, y as int),
    ;

}

/// Raw data: the first byte of each pixel.
pub struct RawData<'a> {
    grid: PixelGrid<'a>,
}

impl<'a> RawData<'a> {
    /// A raw view of `grid`.
    pub fn new(grid: PixelGrid<'a>) -> (data: RawData<'a>)
        ensures
            data.grid() == grid@,
    {
        RawData { grid }
    }

    /// Returns an iterator over the rows of the frame. Each row is again an
    /// iterator, over the pixel values of the row. A value has to be readable
    /// at every pixel: the frame is empty or has enough bytes per pixel.
    pub fn iter(&self) -> (rows: FrameDataIter<'_, RawData<'a>>)
        requires
            self.grid().covers(self.value_len()),
        ensures
            rows.data() == self,
            rows.row() == 0,
    {
        FrameDataIter::new(self)
    }
}

impl<'a> FrameDataValue for RawData<'a> {
    type Value = u8;

    closed spec fn grid(&self) -> Grid {
        self.grid@
    }

    open spec fn value_len(&self) -> nat {
        1
    }

    open spec fn pixel(&self, x: int, y: int) -> u8 {
        self.grid().byte(x, y, 0)
    }

    fn pixel_grid(&self) -> (grid: &PixelGrid<'_>) {
        self.grid.checked()
    }

    fn get_pixel(&self, x: usize, y: usize) -> (value: u8) {
        let index: usize = self.grid.index(x, y);
        self.grid.bytes()[index]
    }
}

/// Gray data: one gray byte per pixel.
pub struct GrayData<'a> {
    grid: PixelGrid<'a>,
}

impl<'a> GrayData<'a> {
    /// A gray view of `grid`.
    pub fn new(grid: PixelGrid<'a>) -> (data: GrayData<'a>)
        ensures
            data.grid() == grid@,
    {
        GrayData { grid }
    }

    /// Returns an iterator over the rows of the frame. Each row is again an
    /// iterator, over the pixel values of the row. A value has to be readable
    /// at every pixel: the frame is empty or has enough bytes per pixel.
    pub fn iter(&self) -> (rows: FrameDataIter<'_, GrayData<'a>>)
        requires
            self.grid().covers(self.value_len()),
        ensures
            rows.data() == self,
            rows.row() == 0,
    {
        FrameDataIter::new(self)
    }
}

impl<'a> FrameDataValue for GrayData<'a> {
    type Value = u8;

    closed spec fn grid(&self) -> Grid {
        self.grid@
    }

    open spec fn value_len(&self) -> nat {
        1
    }

    open spec fn pixel(&self, x: int, y: int) -> u8 {
        self.grid().byte(x, y, 0)
    }

    fn pixel_grid(&self) -> (grid: &PixelGrid<'_>) {
        self.grid.checked()
    }

    fn get_pixel(&self, x: usize, y: usize) -> (value: u8) {
        let index: usize = self.grid.index(x, y);
        self.grid.bytes()[index]
    }
}

/// Float data: a 4-byte float per pixel.
pub struct FloatData<'a> {
    grid: PixelGrid<'a>,
}

impl<'a> FloatData<'a> {
    /// A float view of `grid`.
    pub fn new(grid: PixelGrid<'a>) -> (data: FloatData<'a>)
        ensures
            data.grid() == grid@,
    {
        FloatData { grid }
    }

    /// Returns an iterator over the rows of the frame. Each row is again an
    /// iterator, over the pixel values of the row. A value has to be readable
    /// at every pixel: the frame is empty or has enough bytes per pixel.
    pub fn iter(&self) -> (rows: FrameDataIter<'_, FloatData<'a>>)
        requires
            self.grid().covers(self.value_len()),
        ensures
            rows.data() == self,
            rows.row() == 0,
    {
        FrameDataIter::new(self)
    }

    /// Get the valid pixel value in column `x` of row `y`: the value of the
    /// pixel if it is not a NaN and greater than zero, and `None` otherwise.
    pub fn get_valid_pixel(&self, x: usize, y: usize) -> (value: Option<FloatBits>)
        requires
            self.grid().holds(x as int, y as int, 4),
        ensures
            value == if is_positive(self.pixel(x as int, y as int).bits) {
                Some(self.pixel(x as int, y as int))
            } else {
                None
            },
    {
        let res = self.get_pixel(x, y);
        if res.is_positive() {
            Some(res)
        } else {
            None
        }
    }
}

impl<'a> FrameDataValue for FloatData<'a> {
    type Value = FloatBits;

    closed spec fn grid(&self) -> Grid {
        self.grid@
    }

    open spec fn value_len(&self) -> nat {
        4
    }

    open spec fn pixel(&self, x: int, y: int) -> FloatBits {
        float_at(self.grid(), x, y)
    }

    fn pixel_grid(&self) -> (grid: &PixelGrid<'_>) {
        self.grid.checked()
    }

    fn get_pixel(&self, x: usize, y: usize) -> (value: FloatBits) {
        let index: usize = self.grid.index(x, y);
        let bytes = self.grid.bytes();
        FloatBits::from_le_bytes(
            bytes[index],
            bytes[index + 1],
            bytes[index + 2],
            bytes[index + 3],
        )
    }
}

/// The order of the color channels in a pixel.
#[derive(Clone, Copy, Debug, PartialEq, Eq, Structural)]
enum RGBType {
    Rgb,
    Bgr,
}

/// RGBX data: four bytes of red, green, blue and unused per pixel, or of
/// blue, green, red and unused.
pub struct RGBXData<'a> {
    grid: PixelGrid<'a>,
    rgb_type: RGBType,
}

impl<'a> RGBXData<'a> {
    /// Whether the pixels hold blue first and red third.
    pub closed spec fn is_bgr(&self) -> bool {
        self.rgb_type == RGBType::Bgr
    }

    /// A view of `grid` whose pixels hold red, green, blue, unused.
    pub fn rgbx(grid: PixelGrid<'a>) -> (data: RGBXData<'a>)
        ensures
            data.grid() == grid@,
            !data.is_bgr(),
    {
        RGBXData { grid, rgb_type: RGBType::Rgb }
    }

    /// A view of `grid` whose pixels hold blue, green, red, unused.
    pub fn bgrx(grid: PixelGrid<'a>) -> (data: RGBXData<'a>)
        ensures
            data.grid() == grid@,
            data.is_bgr(),
    {
        RGBXData { grid, rgb_type: RGBType::Bgr }
    }

    /// Returns an iterator over the rows of the frame. Each row is again an
    /// iterator, over the pixel values of the row. A value has to be readable
    /// at every pixel: the frame is empty or has enough bytes per pixel.
    pub fn iter(&self) -> (rows: FrameDataIter<'_, RGBXData<'a>>)
        requires
            self.grid().covers(self.value_len()),
        ensures
            rows.data() == self,
            rows.row() == 0,
    {
        FrameDataIter::new(self)
    }

    /// Get the red value in column `x` of row `y`. The coordinates have to
    /// lie inside the frame, and the red byte inside the buffer.
    pub fn red_at(&self, x: usize, y: usize) -> (red: u8)
        requires
            self.grid().holds(
                x as int,
                y as int,
                if self.is_bgr() {
                    3
                } else {
                    1
                },
            ),
        ensures
            red == self.pixel(x as int, y as int).r,
    {
        let index: usize = self.grid.index(x, y);
        let bytes = self.grid.bytes();
        match self.rgb_type {
            RGBType::Rgb => bytes[index],
            RGBType::Bgr => bytes[index + 2],
        }
    }

    /// Get the green value in column `x` of row `y`. The coordinates have to
    /// lie inside the frame, and the green byte inside the buffer.
    pub fn green_at(&self, x: usize, y: usize) -> (green: u8)
        requires
            self.grid().holds(x as int, y as int, 2),
        ensures
            green == self.pixel(x as int, y as int).g,
    {
        let index: usize = self.grid.index(x, y);
        let bytes = self.grid.bytes();
        bytes[index + 1]
    }

    /// Get the blue value in column `x` of row `y`. The coordinates have to
    /// lie inside the frame, and the blue byte inside the buffer.
    pub fn blue_at(&self, x: usize, y: usize) -> (blue: u8)
        requires
            self.grid().holds(
                x as int,
                y as int,
                if self.is_bgr() {
                    1
                } else {
                    3
                },
            ),
        ensures
            blue == self.pixel(x as int, y as int).b,
    {
        let index: usize = self.grid.index(x, y);
        let bytes = self.grid.bytes();
        match self.rgb_type {
            RGBType::Rgb => bytes[index + 2],
            RGBType::Bgr => bytes[index],
        }
    }
}

impl<'a> FrameDataValue for RGBXData<'a> {
    type Value = RGBX;

    closed spec fn grid(&self) -> Grid {
        self.grid@
    }

    open spec fn value_len(&self) -> nat {
        4
    }

    open spec fn pixel(&self, x: int, y: int) -> RGBX {
        color_at(self.grid(), self.is_bgr(), x, y)
    }

    fn pixel_grid(&self) -> (grid: &PixelGrid<'_>) {
        self.grid.checked()
    }

    fn get_pixel(&self, x: usize, y: usize) -> (value: RGBX) {
        let index: usize = self.grid.index(x, y);
        let bytes = self.grid.bytes();
        match self.rgb_type {
            RGBType::Rgb => RGBX {
                r: bytes[index],
                g: bytes[index + 1],
                b: bytes[index + 2],
                x: bytes[index + 3],
            },
            RGBType::Bgr => RGBX {
                b: bytes[index],
                g: bytes[index + 1],
                r: bytes[index + 2],
                x: bytes[index + 3],
            },
        }
    }
}

/// Frame data: the view that fits the format of a frame.
pub enum FrameData<'a> {
    /// Raw data.
    Raw(RawData<'a>),
    /// Gray data.
    Gray(GrayData<'a>),
    /// Float data.
    Float(FloatData<'a>),
    /// RGBX data.
    RGBX(RGBXData<'a>),
    /// Invalid data.
    Invalid,
}

impl<'a> FrameData<'a> {
    /// Whether `self` is the view of `grid` that fits `format`: a view of the
    /// kind that the format names, over that very buffer.
    pub open spec fn shows(&self, grid: Grid, format: FrameFormat) -> bool {
        match format {
            FrameFormat::RGBX => {
                &&& self matches FrameData::RGBX(data)
                &&& data.grid() == grid
                &&& !data.is_bgr()
            },
            FrameFormat::BGRX => {
                &&& self matches FrameData::RGBX(data)
                &&& data.grid() == grid
                &&& data.is_bgr()
            },
            FrameFormat::Gray => {
                &&& self matches FrameData::Gray(data)
                &&& data.grid() == grid
            },
            FrameFormat::Float => {
                &&& self matches FrameData::Float(data)
                &&& data.grid() == grid
            },
            FrameFormat::Raw => {
                &&& self matches FrameData::Raw(data)
                &&& data.grid() == grid
            },
            FrameFormat::Invalid => self is Invalid,
        }
    }

    /// Expect the value to be raw data.
    pub fn expect_raw(self) -> (data: RawData<'a>)
        requires
            self is Raw,
        ensures
            self == FrameData::Raw(data),
    {
        match self {
            FrameData::Raw(value) => value,
            _ => unreached(),
        }
    }

    /// Expect the value to be gray data.
    pub fn expect_gray(self) -> (data: GrayData<'a>)
        requires
            self is Gray,
        ensures
            self == FrameData::Gray(data),
    {
        match self {
            FrameData::Gray(value) => value,
            _ => unreached(),
        }
    }

    /// Expect the value to be float data.
    pub fn expect_float(self) -> (data: FloatData<'a>)
        requires
            self is Float,
        ensures
            self == FrameData::Float(data),
    {
        match self {
            FrameData::Float(value) => value,
            _ => unreached(),
        }
    }

    /// Expect the value to be RGBX data.
    pub fn expect_rgbx(self) -> (data: RGBXData<'a>)
        requires
            self is RGBX,
        ensures
            self == FrameData::RGBX(data),
    {
        match self {
            FrameData::RGBX(value) => value,
            _ => unreached(),
        }
    }

    /// Get the raw data, if the value is raw data.
    pub fn raw(self) -> (data: Option<RawData<'a>>)
        ensures
            data is Some <==> self is Raw,
            data is Some ==> self == FrameData::Raw(data.unwrap()),
    {
        match self {
            FrameData::Raw(value) => Some(value),
            _ => None,
        }
    }

    /// Get the gray data, if the value is gray data.
    pub fn gray(self) -> (data: Option<GrayData<'a>>)
        ensures
            data is Some <==> self is Gray,
            data is Some ==> self == FrameData::Gray(data.unwrap()),
    {
        match self {
            FrameData::Gray(value) => Some(value),
            _ => None,
        }
    }

    /// Get the float data, if the value is float data.
    pub fn float(self) -> (data: Option<FloatData<'a>>)
        ensures
            data is Some <==> self is Float,
            data is Some ==> self == FrameData::Float(data.unwrap()),
    {
        match self {
            FrameData::Float(value) => Some(value),
            _ => None,
        }
    }

    /// Get the RGBX data, if the value is RGBX data.
    pub fn rgbx(self) -> (data: Option<RGBXData<'a>>)
        ensures
            data is Some <==> self is RGBX,
            data is Some ==> self == FrameData::RGBX(data.unwrap()),
    {
        match self {
            FrameData::RGBX(value) => Some(value),
            _ => None,
        }
    }

    /// Check if the value is invalid.
    pub fn is_invalid(&self) -> (invalid: bool)
        ensures
            invalid == (self is Invalid),
    {
        matches!(self, FrameData::Invalid)
    }

    /// The name of the kind of data: `Raw`, `Gray`, `Float`, `RGBX` or
    /// `Invalid`.
    pub fn format_name(&self) -> (name: &'static str)
        ensures
            name@ == match self {
                FrameData::Raw(_) => "Raw"@,
                FrameData::Gray(_) => "Gray"@,
                FrameData::Float(_) => "Float"@,
                FrameData::RGBX(_) => "RGBX"@,
                FrameData::Invalid => "Invalid"@,
            },
    {
        match self {
            FrameData::Raw(_) => "Raw",
            FrameData::Gray(_) => "Gray",
            FrameData::Float(_) => "Float",
            FrameData::RGBX(_) => "RGBX",
            FrameData::Invalid => "Invalid",
        }
    }
}

/// Reading a pixel through the view that fits the format of a frame, as the
/// row iterators do, gives the value that `get_pixel` of the frame decodes at
/// the same coordinates: for a float frame the float at the same offset, for
/// a color frame the same color, for a gray frame the same gray byte.
pub proof fn lemma_view_agrees_with_frame<'a>(
    frame: FrameModel,
    data: FrameData<'a>,
    x: int,
    y: int,
)
    requires
        data.shows(frame.grid, frame.format),
    ensures
        data matches FrameData::Float(view) ==> frame.pixel(x, y) == PixelValue::Float(
            view.pixel(x, y),
        ),
        data matches FrameData::RGBX(view) ==> frame.pixel(x, y) == PixelValue::RGBX(
            view.pixel(x, y),
        ),
        data matches FrameData::Gray(view) ==> frame.pixel(x, y) == PixelValue::Gray(
            view.pixel(x, y),
        ),
{
}

} // verus!
