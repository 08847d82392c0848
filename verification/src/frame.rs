//! Frames: a pixel buffer with its geometry, format and capture metadata.
//!
//! A [`Frame`] is the frame that native calls take and give: its buffer is
//! either its own or borrowed from whoever owns the bytes, and then the frame
//! lives no longer than they do. An [`OwnedFrame`] is a copy that owns its
//! bytes and can outlive the frame it was taken from. Both are read through
//! [`Freenect2Frame`].

use vstd::prelude::*;

use crate::bytes::{copy_range, zeroed};
use crate::float_bits::FloatBits;
use crate::frame_data::{FloatData, FrameData, GrayData, RGBXData, RawData, RGBX};
use crate::frame_image::{collect_floats, collect_rgb, FrameImage, PlainImage};
use crate::frame_value::{FrameValue, PixelValue};
use crate::pixel_grid::{has_byte_count, pixel_index, Grid, PixelGrid};

verus! {

/// The pixel layout of a frame.
#[derive(Clone, Copy, Debug, PartialEq, Eq, Structural, PartialOrd, Ord)]
pub enum FrameFormat {
    /// Invalid format.
    Invalid,
    /// Raw bitstream; `bytes_per_pixel` gives the number of bytes of a pixel.
    Raw,
    /// A 4-byte float per pixel.
    Float,
    /// 4 bytes of R, G, B and unused per pixel.
    RGBX,
    /// 4 bytes of B, G, R and unused per pixel.
    BGRX,
    /// 1 byte of gray per pixel.
    Gray,
}

impl FrameFormat {
    /// The code by which the native driver names the format.
    pub open spec fn native_code(self) -> u32 {
        match self {
            FrameFormat::Invalid => 0,
            FrameFormat::Raw => 1,
            FrameFormat::Float => 2,
            FrameFormat::BGRX => 4,
            FrameFormat::RGBX => 5,
            FrameFormat::Gray => 6,
        }
    }

    /// The format that the native driver names by `code`; a code that names
    /// none stands for the invalid format.
    pub open spec fn of_native(code: u32) -> FrameFormat {
        if code == 1 {
            FrameFormat::Raw
        } else if code == 2 {
            FrameFormat::Float
        } else if code == 4 {
            FrameFormat::BGRX
        } else if code == 5 {
            FrameFormat::RGBX
        } else if code == 6 {
            FrameFormat::Gray
        } else {
            FrameFormat::Invalid
        }
    }

    /// The number of bytes that a pixel value of the format is decoded from,
    /// in a frame of `bytes_per_pixel` bytes per pixel.
    pub open spec fn value_len(self, bytes_per_pixel: nat) -> nat {
        match self {
            FrameFormat::Float | FrameFormat::RGBX | FrameFormat::BGRX => 4,
            FrameFormat::Gray | FrameFormat::Invalid => 1,
            FrameFormat::Raw => bytes_per_pixel,
        }
    }

    /// Returns the code by which the native driver names the format.
    pub fn to_native(&self) -> (code: u32)
        ensures
            code == self.native_code(),
    {
        match self {
            FrameFormat::Invalid => 0,
            FrameFormat::Raw => 1,
            FrameFormat::Float => 2,
            FrameFormat::BGRX => 4,
            FrameFormat::RGBX => 5,
            FrameFormat::Gray => 6,
        }
    }

    /// Decodes a format from its native code. A code that names no format
    /// gives the invalid format.
    pub fn from_native(code: u32) -> (format: FrameFormat)
        ensures
            format == Self::of_native(code),
    {
        if code == 1 {
            FrameFormat::Raw
        } else if code == 2 {
            FrameFormat::Float
        } else if code == 4 {
            FrameFormat::BGRX
        } else if code == 5 {
            FrameFormat::RGBX
        } else if code == 6 {
            FrameFormat::Gray
        } else {
            FrameFormat::Invalid
        }
    }
}

/// Encoding a format and decoding the code gives the format back.
pub proof fn lemma_frame_format_code_round_trip(format: FrameFormat)
    ensures
        FrameFormat::of_native(format.native_code()) == format,
{
}

/// A frame as a mathematical value: the pixel buffer with its geometry, the
/// format and the capture metadata.
pub ghost struct FrameModel {
    /// The pixel buffer with its width, height and bytes per pixel.
    pub grid: Grid,
    /// The pixel layout.
    pub format: FrameFormat,
    /// The capture time in units of 1/8 millisecond.
    pub timestamp: u32,
    /// The increasing sequence number.
    pub sequence: u32,
    /// The exposure, from 0.5 (very bright) to about 60.0 (fully covered).
    pub exposure: FloatBits,
    /// The gain, from 1.0 (bright) to 1.5 (covered).
    pub gain: FloatBits,
    /// The gamma, from 1.0 (bright) to 6.4 (covered).
    pub gamma: FloatBits,
    /// Zero if the frame is good, non-zero for errors.
    pub status: u32,
}

impl FrameModel {
    /// Whether `(x, y)` names a pixel whose value can be decoded: the bytes
    /// that the format reads at it lie inside the buffer.
    pub open spec fn readable(self, x: int, y: int) -> bool {
        self.grid.holds(x, y, self.format.value_len(self.grid.bytes_per_pixel) as int)
    }

    /// The value of pixel `(x, y)`, decoded by the format of the frame: a
    /// little-endian float of four bytes; red, green, blue and the unused
    /// byte in this order for RGBX and with red and blue swapped for BGRX; a
    /// gray byte; all the bytes of the pixel for a raw frame; the first byte
    /// for an invalid one.
    pub open spec fn pixel(self, x: int, y: int) -> PixelValue {
        let g = self.grid;
        match self.format {
            FrameFormat::RGBX => PixelValue::RGBX(
                RGBX {
                    r: g.byte(x, y, 0),
                    g: g.byte(x, y, 1),
                    b: g.byte(x, y, 2),
                    x: g.byte(x, y, 3),
                },
            ),
            FrameFormat::BGRX => PixelValue::RGBX(
                RGBX {
                    r: g.byte(x, y, 2),
                    g: g.byte(x, y, 1),
                    b: g.byte(x, y, 0),
                    x: g.byte(x, y, 3),
                },
            ),
            FrameFormat::Gray => PixelValue::Gray(g.byte(x, y, 0)),
            FrameFormat::Float => PixelValue::Float(
                FloatBits::from_le_bytes_spec(
                    g.byte(x, y, 0),
                    g.byte(x, y, 1),
                    g.byte(x, y, 2),
                    g.byte(x, y, 3),
                ),
            ),
            FrameFormat::Raw => PixelValue::Raw(g.slice(x, y, g.bytes_per_pixel as int)),
            FrameFormat::Invalid => PixelValue::Invalid(g.byte(x, y, 0)),
        }
    }
}

/// The largest width and height that an image can have.
pub const MAX_IMAGE_SIDE: usize = 0xffff_ffff;

/// What is read from a frame, whether it borrows or owns its bytes.
pub trait Freenect2Frame {
    /// The frame as a mathematical value.
    spec fn model(&self) -> FrameModel;

    /// Returns the width of the frame in pixels.
    fn width(&self) -> (w: usize)
        ensures
            w == self.model().grid.width,
    ;

    /// Returns the height of the frame in pixels.
    fn height(&self) -> (h: usize)
        ensures
            h == self.model().grid.height,
    ;

    /// Returns the number of bytes per pixel.
    fn bytes_per_pixel(&self) -> (n: usize)
        ensures
            n == self.model().grid.bytes_per_pixel,
    ;

    /// Returns the timestamp of the frame in units of 1/8 millisecond. It
    /// usually grows by 266 (30 Hz) or 533 (15 Hz) from frame to frame.
    fn timestamp(&self) -> (t: u32)
        ensures
            t == self.model().timestamp,
    ;

    /// Returns the raw data of the frame, stored row by row. Its length is
    /// `width * height * bytes_per_pixel`.
    fn raw_data(&self) -> (bytes: &[u8])
        ensures
            bytes@ == self.model().grid.bytes,
            self.model().grid.wf(),
    ;

    /// Returns the increasing sequence number.
    fn sequence(&self) -> (n: u32)
        ensures
            n == self.model().sequence,
    ;

    /// Returns the exposure, from 0.5 (very bright) to about 60.0 (fully
    /// covered).
    fn exposure(&self) -> (v: FloatBits)
        ensures
            v == self.model().exposure,
    ;

    /// Returns the gain, from 1.0 (bright) to 1.5 (covered).
    fn gain(&self) -> (v: FloatBits)
        ensures
            v == self.model().gain,
    ;

    /// Returns the gamma, from 1.0 (bright) to 6.4 (covered).
    fn gamma(&self) -> (v: FloatBits)
        ensures
            v == self.model().gamma,
    ;

    /// Returns the status: zero if ok, non-zero for errors.
    fn status(&self) -> (s: u32)
        ensures
            s == self.model().status,
    ;

    /// Returns the pixel layout of the frame.
    fn format(&self) -> (f: FrameFormat)
        ensures
            f == self.model().format,
    ;

    /// Returns the timestamp of the frame in whole milliseconds.
    fn timestamp_as_millis(&self) -> (ms: u64)
        ensures
            ms == self.model().timestamp / 8,
    {
        let t: u32 = self.timestamp();
        (t / 8) as u64
    }

    /// Returns the length of the raw data: `width * height *
    /// bytes_per_pixel`.
    fn raw_data_len(&self) -> (len: usize)
        ensures
            len == self.model().grid.width * self.model().grid.height
                * self.model().grid.bytes_per_pixel,
            len == self.model().grid.bytes.len(),
    {
        self.raw_data().len()
    }

    /// Returns whether `get_pixel(x, y)` can be called: whether the
    /// coordinates lie inside the frame, and the bytes that the format
    /// decodes inside the buffer.
    fn is_readable(&self, x: usize, y: usize) -> (readable: bool)
        ensures
            readable == self.model().readable(x as int, y as int),
    {
        let width: usize = self.width();
        let height: usize = self.height();
        if x >= width || y >= height {
            return false;
        }
        let bytes_per_pixel: usize = self.bytes_per_pixel();
        let len: usize = self.raw_data().len();
        let index: usize = pixel_index(width, height, bytes_per_pixel, len, x, y);
        let needed: usize = match self.format() {
            FrameFormat::Float | FrameFormat::RGBX | FrameFormat::BGRX => 4,
            FrameFormat::Gray | FrameFormat::Invalid => 1,
            FrameFormat::Raw => bytes_per_pixel,
        };
        needed <= len - index
    }

    /// Returns whether `as_image` can be called: whether a frame of color or
    /// float format that has pixels has at least four bytes per pixel.
    fn has_image(&self) -> (convertible: bool)
        ensures
            convertible == (self.model().format == FrameFormat::RGBX || self.model().format
                == FrameFormat::BGRX || self.model().format == FrameFormat::Float
                ==> self.model().grid.covers(4)),
    {
        match self.format() {
            FrameFormat::Float | FrameFormat::RGBX | FrameFormat::BGRX => self.width() == 0
                || self.height() == 0 || self.bytes_per_pixel() >= 4,
            _ => true,
        }
    }

    /// Returns the pixel in column `x` of row `y`, decoded by the format of
    /// the frame.
    ///
    /// The coordinates have to lie inside the frame, `x` below the width and
    /// `y` below the height, and the bytes that the format decodes have to
    /// lie inside the buffer, as they do wherever the format reads no more
    /// than `bytes_per_pixel` bytes.
    fn get_pixel(&self, x: usize, y: usize) -> (value: FrameValue)
        requires
            self.model().readable(x as int, y as int),
        ensures
            value@ == self.model().pixel(x as int, y as int),
    {
        let data = self.raw_data();
        let bytes_per_pixel: usize = self.bytes_per_pixel();
        let index: usize = pixel_index(
            self.width(),
            self.height(),
            bytes_per_pixel,
            data.len(),
            x,
            y,
        );
        match self.format() {
            FrameFormat::RGBX => FrameValue::RGBX(
                RGBX {
                    r: data[index],
                    g: data[index + 1],
                    b: data[index + 2],
                    x: data[index + 3],
                },
            ),
            FrameFormat::BGRX => FrameValue::RGBX(
                RGBX {
                    r: data[index + 2],
                    g: data[index + 1],
                    b: data[index],
                    x: data[index + 3],
                },
            ),
            FrameFormat::Gray => FrameValue::Gray(data[index]),
            FrameFormat::Float => FrameValue::Float(
                FloatBits::from_le_bytes(
                    data[index],
                    data[index + 1],
                    data[index + 2],
                    data[index + 3],
                ),
            ),
            FrameFormat::Raw => FrameValue::Raw(copy_range(data, index, index + bytes_per_pixel)),
            FrameFormat::Invalid => FrameValue::Invalid(data[index]),
        }
    }

    /// Returns the buffer of the frame with its geometry.
    fn grid(&self) -> (grid: PixelGrid<'_>)
        ensures
            grid@ == self.model().grid,
            self.model().grid.wf(),
    {
        let bytes = self.raw_data();
        match PixelGrid::new(self.width(), self.height(), self.bytes_per_pixel(), bytes) {
            Some(grid) => grid,
            None => unreached(),
        }
    }

    /// Returns the data of the frame: the view that fits its format. The
    /// view reads single pixels and iterates over the rows of the frame.
    fn data(&self) -> (data: FrameData<'_>) where Self: Sized
        ensures
            data.shows(self.model().grid, self.model().format),
    {
        let grid = self.grid();
        match self.format() {
            FrameFormat::RGBX => FrameData::RGBX(RGBXData::rgbx(grid)),
            FrameFormat::BGRX => FrameData::RGBX(RGBXData::bgrx(grid)),
            FrameFormat::Gray => FrameData::Gray(GrayData::new(grid)),
            FrameFormat::Float => FrameData::Float(FloatData::new(grid)),
            FrameFormat::Raw => FrameData::Raw(RawData::new(grid)),
            FrameFormat::Invalid => FrameData::Invalid,
        }
    }

    /// Converts the frame to an image, by its format: a color frame to an
    /// RGB image, a gray frame to a grayscale image, a float frame to a
    /// floating-point image, and any other to the invalid image.
    ///
    /// In a frame of color or float format that has pixels, a pixel has to
    /// have at least four bytes.
    fn as_image(&self) -> (image: FrameImage) where Self: Sized
        requires
            self.model().format == FrameFormat::RGBX || self.model().format == FrameFormat::BGRX
                || self.model().format == FrameFormat::Float ==> self.model().grid.covers(4),
        ensures
            image.shows(self.model()),
    {
        let width: usize = self.width();
        let height: usize = self.height();
        if width > MAX_IMAGE_SIDE || height > MAX_IMAGE_SIDE {
            return FrameImage::Invalid;
        }
        let grid = self.grid();
        match self.format() {
            FrameFormat::BGRX => FrameImage::RGB(
                PlainImage {
                    width: width as u32,
                    height: height as u32,
                    data: collect_rgb(&grid, true),
                },
            ),
            FrameFormat::RGBX => FrameImage::RGB(
                PlainImage {
                    width: width as u32,
                    height: height as u32,
                    data: collect_rgb(&grid, false),
                },
            ),
            FrameFormat::Gray => {
                if width != 0 && height != 0 && self.bytes_per_pixel() == 0 {
                    return FrameImage::Invalid;
                }
                let bytes = self.raw_data();
                let data = copy_range(bytes, 0, bytes.len());
                assert(data@ == bytes@);
                FrameImage::Gray(PlainImage { width: width as u32, height: height as u32, data })
            },
            FrameFormat::Float => FrameImage::Float(
                PlainImage {
                    width: width as u32,
                    height: height as u32,
                    data: collect_floats(&grid),
                },
            ),
            FrameFormat::Invalid | FrameFormat::Raw => FrameImage::Invalid,
        }
    }
}

/// The bytes of a frame: its own, or borrowed.
#[derive(Debug)]
enum FrameBuffer<'a> {
    Owned(Vec<u8>),
    Borrowed(&'a [u8]),
}

impl<'a> FrameBuffer<'a> {
    spec fn bytes(&self) -> Seq<u8> {
        match self {
            FrameBuffer::Owned(bytes) => bytes@,
            FrameBuffer::Borrowed(bytes) => bytes@,
        }
    }

    fn as_slice(&self) -> (bytes: &[u8])
        ensures
            bytes@ == self.bytes(),
    {
        match self {
            FrameBuffer::Owned(bytes) => bytes.as_slice(),
            FrameBuffer::Borrowed(bytes) => bytes,
        }
    }
}

/// A frame as native calls take and give it. Its buffer always has the length
/// `width * height * bytes_per_pixel`. It cannot be cloned; use
/// [`Frame::to_owned`] for a copy.
#[derive(Debug)]
pub struct Frame<'a> {
    width: usize,
    height: usize,
    bytes_per_pixel: usize,
    buffer: FrameBuffer<'a>,
    timestamp: u32,
    sequence: u32,
    exposure: FloatBits,
    gain: FloatBits,
    gamma: FloatBits,
    status: u32,
    format: FrameFormat,
}

impl<'a> View for Frame<'a> {
    type V = FrameModel;

    closed spec fn view(&self) -> FrameModel {
        FrameModel {
            grid: Grid {
                width: self.width as nat,
                height: self.height as nat,
                bytes_per_pixel: self.bytes_per_pixel as nat,
                bytes: self.buffer.bytes(),
            },
            format: self.format,
            timestamp: self.timestamp,
            sequence: self.sequence,
            exposure: self.exposure,
            gain: self.gain,
            gamma: self.gamma,
            status: self.status,
        }
    }
}

/// The model of a frame without pixels of its own making: the given geometry
/// and format over a zeroed buffer, and all metadata zero.
pub open spec fn blank_frame(width: nat, height: nat, format: FrameFormat) -> FrameModel {
    FrameModel {
        grid: Grid {
            width,
            height,
            bytes_per_pixel: 4,
            bytes: Seq::new(width * height * 4, |i: int| 0u8),
        },
        format,
        timestamp: 0,
        sequence: 0,
        exposure: FloatBits { bits: 0 },
        gain: FloatBits { bits: 0 },
        gamma: FloatBits { bits: 0 },
        status: 0,
    }
}

/// A blank frame of any width, height and format has a buffer of the length
/// that its geometry gives: width times height times four bytes.
pub proof fn lemma_blank_frame_is_well_formed(width: nat, height: nat, format: FrameFormat)
    ensures
        blank_frame(width, height, format).grid.wf(),
        blank_frame(width, height, format).grid.bytes.len() == width * height * 4,
        blank_frame(width, height, format).grid.covers(4),
{
}

impl<'a> Frame<'a> {
    #[verifier::type_invariant]
    spec fn length_matches(&self) -> bool {
        self@.grid.wf()
    }

    /// Wraps a native pixel buffer with its geometry, metadata and format.
    /// The frame borrows `data`. A buffer whose length is not `width * height
    /// * bytes_per_pixel` makes no frame.
    pub fn new(
        width: usize,
        height: usize,
        bytes_per_pixel: usize,
        data: &'a [u8],
        timestamp: u32,
        sequence: u32,
        exposure: FloatBits,
        gain: FloatBits,
        gamma: FloatBits,
        status: u32,
        format: FrameFormat,
    ) -> (frame: Option<Frame<'a>>)
        ensures
            frame is Some <==> data@.len() == width * height * bytes_per_pixel,
            frame is Some ==> frame.unwrap()@ == (FrameModel {
                grid: Grid {
                    width: width as nat,
                    height: height as nat,
                    bytes_per_pixel: bytes_per_pixel as nat,
                    bytes: data@,
                },
                format,
                timestamp,
                sequence,
                exposure,
                gain,
                gamma,
                status,
            }),
    {
        if !has_byte_count(width, height, bytes_per_pixel, data.len()) {
            return None;
        }
        Some(
            Frame {
                width,
                height,
                bytes_per_pixel,
                buffer: FrameBuffer::Borrowed(data),
                timestamp,
                sequence,
                exposure,
                gain,
                gamma,
                status,
                format,
            },
        )
    }

    /// A frame of four bytes per pixel that owns a zeroed buffer.
    fn blank(width: usize, height: usize, format: FrameFormat) -> (frame: Frame<'static>)
        requires
            width * height * 4 <= usize::MAX,
        ensures
            frame@ == blank_frame(width as nat, height as nat, format),
            frame@.grid.wf(),
    {
        assert(width * height <= width * height * 4) by (nonlinear_arith)
            requires
                0 <= width * height,
        ;
        assert(0 <= width * height) by (nonlinear_arith)
            requires
                0 <= width,
                0 <= height,
        ;
        let pixels: usize = width * height;
        let len: usize = pixels * 4;
        let bytes = zeroed(len);
        let frame = Frame {
            width,
            height,
            bytes_per_pixel: 4,
            buffer: FrameBuffer::Owned(bytes),
            timestamp: 0,
            sequence: 0,
            exposure: FloatBits { bits: 0 },
            gain: FloatBits { bits: 0 },
            gamma: FloatBits { bits: 0 },
            status: 0,
            format,
        };
        frame
    }

    /// Create a new depth frame: 512x424 pixels of format
    /// [`FrameFormat::Float`].
    ///
    /// Usually used as the undistorted depth of the registration calls.
    pub fn depth() -> (frame: Frame<'static>)
        ensures
            frame@ == blank_frame(512, 424, FrameFormat::Float),
            frame@.grid.wf(),
            frame@.grid.bytes.len() == 512 * 424 * 4,
    {
        Self::blank(512, 424, FrameFormat::Float)
    }

    /// Create a new color frame of the size of a depth frame: 512x424 pixels
    /// of format [`FrameFormat::RGBX`].
    ///
    /// Usually used as the color output of the registration calls.
    pub fn color_for_depth() -> (frame: Frame<'static>)
        ensures
            frame@ == blank_frame(512, 424, FrameFormat::RGBX),
            frame@.grid.wf(),
            frame@.grid.bytes.len() == 512 * 424 * 4,
    {
        Self::blank(512, 424, FrameFormat::RGBX)
    }

    /// Create a depth frame to match the resolution of a color frame:
    /// 1920x1082 pixels of format [`FrameFormat::Float`], with one blank line
    /// at the top and one at the bottom.
    ///
    /// Usually used as the big depth of the full-color registration call.
    pub fn depth_full_color() -> (frame: Frame<'static>)
        ensures
            frame@ == blank_frame(1920, 1082, FrameFormat::Float),
            frame@.grid.wf(),
            frame@.grid.bytes.len() == 1920 * 1082 * 4,
    {
        Self::blank(1920, 1082, FrameFormat::Float)
    }

    /// Convert the frame to an owned frame: a copy of all metadata and of the
    /// whole buffer.
    pub fn to_owned(&self) -> (owned: OwnedFrame)
        ensures
            owned@ == self@,
    {
        proof {
            use_type_invariant(self);
        }
        let bytes = self.buffer.as_slice();
        let data = copy_range(bytes, 0, bytes.len());
        assert(data@ == bytes@);
        OwnedFrame {
            width: self.width,
            height: self.height,
            bytes_per_pixel: self.bytes_per_pixel,
            timestamp: self.timestamp,
            data,
            sequence: self.sequence,
            exposure: self.exposure,
            gain: self.gain,
            gamma: self.gamma,
            status: self.status,
            format: self.format,
        }
    }
}

impl<'a> Freenect2Frame for Frame<'a> {
    open spec fn model(&self) -> FrameModel {
        self@
    }

    fn width(&self) -> (w: usize) {
        self.width
    }

    fn height(&self) -> (h: usize) {
        self.height
    }

    fn bytes_per_pixel(&self) -> (n: usize) {
        self.bytes_per_pixel
    }

    fn timestamp(&self) -> (t: u32) {
        self.timestamp
    }

    fn raw_data(&self) -> (bytes: &[u8]) {
        proof {
            use_type_invariant(self);
        }
        self.buffer.as_slice()
    }

    fn sequence(&self) -> (n: u32) {
        self.sequence
    }

    fn exposure(&self) -> (v: FloatBits) {
        self.exposure
    }

    fn gain(&self) -> (v: FloatBits) {
        self.gain
    }

    fn gamma(&self) -> (v: FloatBits) {
        self.gamma
    }

    fn status(&self) -> (s: u32) {
        self.status
    }

    fn format(&self) -> (f: FrameFormat) {
        self.format
    }
}

/// An owned frame: a cloneable copy of a [`Frame`] that owns its buffer. It
/// can be viewed as a [`Frame`] again.
#[derive(Debug)]
pub struct OwnedFrame {
    width: usize,
    height: usize,
    bytes_per_pixel: usize,
    timestamp: u32,
    data: Vec<u8>,
    sequence: u32,
    exposure: FloatBits,
    gain: FloatBits,
    gamma: FloatBits,
    status: u32,
    format: FrameFormat,
}

impl View for OwnedFrame {
    type V = FrameModel;

    closed spec fn view(&self) -> FrameModel {
        FrameModel {
            grid: Grid {
                width: self.width as nat,
                height: self.height as nat,
                bytes_per_pixel: self.bytes_per_pixel as nat,
                bytes: self.data@,
            },
            format: self.format,
            timestamp: self.timestamp,
            sequence: self.sequence,
            exposure: self.exposure,
            gain: self.gain,
            gamma: self.gamma,
            status: self.status,
        }
    }
}

impl OwnedFrame {
    #[verifier::type_invariant]
    spec fn length_matches(&self) -> bool {
        self@.grid.wf()
    }

    /// View the owned frame as a [`Frame`]. The frame borrows the buffer of
    /// the owned frame and is valid only as long as the owned frame is.
    pub fn to_frame(&self) -> (frame: Frame<'_>)
        ensures
            frame@ == self@,
    {
        proof {
            use_type_invariant(self);
        }
        Frame {
            width: self.width,
            height: self.height,
            bytes_per_pixel: self.bytes_per_pixel,
            buffer: FrameBuffer::Borrowed(self.data.as_slice()),
            timestamp: self.timestamp,
            sequence: self.sequence,
            exposure: self.exposure,
            gain: self.gain,
            gamma: self.gamma,
            status: self.status,
            format: self.format,
        }
    }
}

impl Clone for OwnedFrame {
    /// Copies the metadata and the whole buffer.
    fn clone(&self) -> (copy: OwnedFrame)
        ensures
            copy@ == self@,
    {
        proof {
            use_type_invariant(self);
        }
        let data = copy_range(self.data.as_slice(), 0, self.data.len());
        assert(data@ == self.data@);
        OwnedFrame {
            width: self.width,
            height: self.height,
            bytes_per_pixel: self.bytes_per_pixel,
            timestamp: self.timestamp,
            data,
            sequence: self.sequence,
            exposure: self.exposure,
            gain: self.gain,
            gamma: self.gamma,
            status: self.status,
            format: self.format,
        }
    }
}

impl Freenect2Frame for OwnedFrame {
    open spec fn model(&self) -> FrameModel {
        self@
    }

    fn width(&self) -> (w: usize) {
        self.width
    }

    fn height(&self) -> (h: usize) {
        self.height
    }

    fn bytes_per_pixel(&self) -> (n: usize) {
        self.bytes_per_pixel
    }

    fn timestamp(&self) -> (t: u32) {
        self.timestamp
    }

    fn raw_data(&self) -> (bytes: &[u8]) {
        proof {
            use_type_invariant(self);
        }
        self.data.as_slice()
    }

    fn sequence(&self) -> (n: u32) {
        self.sequence
    }

    fn exposure(&self) -> (v: FloatBits) {
        self.exposure
    }

    fn gain(&self) -> (v: FloatBits) {
        self.gain
    }

    fn gamma(&self) -> (v: FloatBits) {
        self.gamma
    }

    fn status(&self) -> (s: u32) {
        self.status
    }

    fn format(&self) -> (f: FrameFormat) {
        self.format
    }
}

impl<'a> From<Frame<'a>> for OwnedFrame {
    /// Copies the frame into an owned frame, as [`Frame::to_owned`] does.
    fn from(frame: Frame<'a>) -> (owned: OwnedFrame)
        ensures
            owned@ == frame@,
    {
        frame.to_owned()
    }
}

impl<'a> vstd::std_specs::convert::FromSpecImpl<Frame<'a>> for OwnedFrame {
    open spec fn obeys_from_spec() -> bool {
        false
    }

    open spec fn from_spec(frame: Frame<'a>) -> OwnedFrame {
        arbitrary()
    }
}

/// A [`Frame`] or a reference to a [`Frame`].
pub enum FrameReference<'a> {
    /// An owned [`Frame`].
    Owned(Frame<'a>),
    /// A borrowed [`Frame`].
    Borrowed(&'a Frame<'a>),
}

impl<'a> View for FrameReference<'a> {
    type V = FrameModel;

    open spec fn view(&self) -> FrameModel {
        match self {
            FrameReference::Owned(frame) => frame@,
            FrameReference::Borrowed(frame) => frame@,
        }
    }
}

impl<'a> FrameReference<'a> {
    /// The frame that is held or referred to.
    pub fn get(&self) -> (frame: &Frame<'a>)
        ensures
            frame@ == self@,
    {
        match self {
            FrameReference::Owned(frame) => frame,
            FrameReference::Borrowed(frame) => frame,
        }
    }
}

/// A trait for types that are a [`Frame`] or can be viewed as one:
/// [`Frame`] and [`OwnedFrame`].
pub trait AsFrame {
    /// The frame as a mathematical value.
    spec fn frame_model(&self) -> FrameModel;

    /// Returns a [`Frame`] with the content of `self`, or a reference to one.
    fn as_frame<'a>(&'a self) -> (frame: FrameReference<'a>)
        ensures
            frame@ == self.frame_model(),
    ;
}

impl<'b> AsFrame for Frame<'b> {
    open spec fn frame_model(&self) -> FrameModel {
        self@
    }

    fn as_frame<'a>(&'a self) -> (frame: FrameReference<'a>) {
        FrameReference::Borrowed(self)
    }
}

impl AsFrame for OwnedFrame {
    open spec fn frame_model(&self) -> FrameModel {
        self@
    }

    fn as_frame<'a>(&'a self) -> (frame: FrameReference<'a>) {
        FrameReference::Owned(self.to_frame())
    }
}

/// A frame that was copied and viewed as a frame again has the width, height,
/// bytes per pixel, format, timestamp, sequence number, exposure, gain,
/// gamma and status of the frame it was copied from, and a buffer with the
/// same bytes.
pub proof fn lemma_owned_round_trip(frame: FrameModel, owned: FrameModel, back: FrameModel)
    requires
        owned == frame,
        back == owned,
    ensures
        back.grid.width == frame.grid.width,
        back.grid.height == frame.grid.height,
        back.grid.bytes_per_pixel == frame.grid.bytes_per_pixel,
        back.format == frame.format,
        back.timestamp == frame.timestamp,
        back.sequence == frame.sequence,
        back.exposure == frame.exposure,
        back.gain == frame.gain,
        back.gamma == frame.gamma,
        back.status == frame.status,
        back.grid.bytes == frame.grid.bytes,
        forall|x: int, y: int| back.pixel(x, y) == frame.pixel(x, y),
{
}

} // verus!
