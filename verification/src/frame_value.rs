//! The value of one pixel, tagged with the format it was decoded from.

use vstd::prelude::*;

use crate::float_bits::FloatBits;
use crate::frame_data::RGBX;

verus! {

/// The mathematical value of a pixel: what a [`FrameValue`] stands for.
pub ghost enum PixelValue {
    /// The bytes of a pixel of a raw frame.
    Raw(Seq<u8>),
    /// The first byte of a pixel of an invalid frame.
    Invalid(u8),
    /// A 4-byte float.
    Float(FloatBits),
    /// A color value.
    RGBX(RGBX),
    /// A gray value.
    Gray(u8),
}

/// A value in a frame.
#[derive(Clone, Debug, PartialEq, Eq)]
pub enum FrameValue {
    /// Raw data. Contains `bytes_per_pixel` bytes.
    Raw(Vec<u8>),
    /// Invalid data.
    Invalid(u8),
    /// A 4-byte float. If the data is depth data, this is the depth in
    /// millimeters, and a value that is not greater than zero is invalid.
    Float(FloatBits),
    /// 4 bytes of R, G, B, and unused per pixel.
    RGBX(RGBX),
    /// 1 byte of gray per pixel.
    Gray(u8),
}

impl View for FrameValue {
    type V = PixelValue;

    open spec fn view(&self) -> PixelValue {
        match self {
            FrameValue::Raw(bytes) => PixelValue::Raw(bytes@),
            FrameValue::Invalid(byte) => PixelValue::Invalid(*byte),
            FrameValue::Float(value) => PixelValue::Float(*value),
            FrameValue::RGBX(value) => PixelValue::RGBX(*value),
            FrameValue::Gray(value) => PixelValue::Gray(*value),
        }
    }
}

impl FrameValue {
    /// Expect the value to be raw data.
    pub fn expect_raw(&self) -> (bytes: &Vec<u8>)
        requires
            self is Raw,
        ensures
            self@ == PixelValue::Raw(bytes@),
    {
        match self {
            FrameValue::Raw(value) => value,
            _ => unreached(),
        }
    }

    /// Expect the value to be a float.
    pub fn expect_float(&self) -> (value: FloatBits)
        requires
            self is Float,
        ensures
            self@ == PixelValue::Float(value),
    {
        match self {
            FrameValue::Float(value) => *value,
            _ => unreached(),
        }
    }

    /// Expect the value to be a RGBX value.
    pub fn expect_rgbx(&self) -> (value: &RGBX)
        requires
            self is RGBX,
        ensures
            self@ == PixelValue::RGBX(*value),
    {
        match self {
            FrameValue::RGBX(value) => value,
            _ => unreached(),
        }
    }

    /// Expect the value to be a gray value.
    pub fn expect_gray(&self) -> (value: u8)
        requires
            self is Gray,
        ensures
            self@ == PixelValue::Gray(value),
    {
        match self {
            FrameValue::Gray(value) => *value,
            _ => unreached(),
        }
    }

    /// Get the raw data, if the value is raw data.
    pub fn raw(&self) -> (bytes: Option<&Vec<u8>>)
        ensures
            bytes is Some <==> self is Raw,
            bytes is Some ==> self@ == PixelValue::Raw(bytes.unwrap()@),
    {
        match self {
            FrameValue::Raw(value) => Some(value),
            _ => None,
        }
    }

    /// Get the float, if the value is a float.
    pub fn float(&self) -> (value: Option<FloatBits>)
        ensures
            value is Some <==> self is Float,
            value is Some ==> self@ == PixelValue::Float(value.unwrap()),
    {
        match self {
            FrameValue::Float(value) => Some(*value),
            _ => None,
        }
    }

    /// Get the RGBX value, if the value is a RGBX value.
    pub fn rgbx(&self) -> (value: Option<&RGBX>)
        ensures
            value is Some <==> self is RGBX,
            value is Some ==> self@ == PixelValue::RGBX(*value.unwrap()),
    {
        match self {
            FrameValue::RGBX(value) => Some(value),
            _ => None,
        }
    }

    /// Get the gray value, if the value is a gray value.
    pub fn gray(&self) -> (value: Option<u8>)
        ensures
            value is Some <==> self is Gray,
            value is Some ==> self@ == PixelValue::Gray(value.unwrap()),
    {
        match self {
            FrameValue::Gray(value) => Some(*value),
            _ => None,
        }
    }

    /// The name of the format that the value was decoded from: `raw`,
    /// `invalid`, `float`, `RGBX` or `gray`.
    pub fn format_name(&self) -> (name: &'static str)
        ensures
            name@ == match self {
                FrameValue::Raw(_) => "raw"@,
                FrameValue::Invalid(_) => "invalid"@,
                FrameValue::Float(_) => "float"@,
                FrameValue::RGBX(_) => "RGBX"@,
                FrameValue::Gray(_) => "gray"@,
            },
    {
        match self {
            FrameValue::Raw(_) => "raw",
            FrameValue::Invalid(_) => "invalid",
            FrameValue::Float(_) => "float",
            FrameValue::RGBX(_) => "RGBX",
            FrameValue::Gray(_) => "gray",
        }
    }
}

} // verus!
