//! The error taxonomy of the binding layer.

use vstd::prelude::*;

use crate::frame::FrameFormat;
use crate::frame_type::FrameType;

verus! {

/// The coarse classes into which every error of the binding falls.
#[derive(Clone, Copy, Debug, PartialEq, Eq, Structural)]
pub enum ErrorKind {
    /// A native handle was unexpectedly null or already consumed.
    HandleInvalid,
    /// The operation is not valid in the current state.
    InvalidState,
    /// A caller-supplied value lies outside its validated range.
    InvalidArgument,
    /// A frame does not match the format, resolution or buffer length required.
    InvalidFrameShape,
    /// The native driver reported a failure.
    NativeCallFailed,
    /// A bounded wait elapsed without a complete frame set.
    Timeout,
    /// A user callback panicked; the panic was contained.
    CallbackPanicked,
}

/// Which caller-supplied value was out of range.
#[derive(Clone, Copy, Debug, PartialEq, Eq, Structural)]
pub enum ArgumentFault {
    /// Neither the color nor the depth stream was selected.
    NoStreamSelected,
    /// The LED id is neither 0 nor 1.
    LedId,
    /// The LED start level exceeds 1000.
    LedStartLevel,
    /// The LED stop level exceeds 1000.
    LedStopLevel,
    /// The LED blinks with an interval of zero milliseconds.
    LedInterval,
    /// The minimum depth is not greater than zero.
    MinDepthNotPositive,
    /// The minimum depth is not less than the current maximum depth.
    MinDepthNotBelowMax,
    /// The maximum depth is not greater than the current minimum depth.
    MaxDepthNotAboveMin,
}

/// The operations that end in a call of the native driver.
#[derive(Clone, Copy, Debug, PartialEq, Eq, Structural)]
pub enum NativeOp {
    CreateContext,
    GetSerialNumber,
    GetFirmwareVersion,
    Start,
    StartStreams,
    Stop,
    Close,
    SetColorFrameListener,
    SetIrAndDepthFrameListener,
    SetConfig,
    GetRegistration,
    SetLedSettings,
    MapDepthToColor,
    MapDepthToFullColor,
    UndistortDepth,
}

/// The frame parameter of a registration call that a shape fault refers to.
#[derive(Clone, Copy, Debug, PartialEq, Eq, Structural)]
pub enum FrameParam {
    Depth,
    Color,
    UndistortedDepth,
    ColorDepthImage,
    BigDepth,
}

/// The pixel layouts that a registration parameter accepts.
#[derive(Clone, Copy, Debug, PartialEq, Eq, Structural)]
pub enum FormatClass {
    /// Exactly `FrameFormat::Float`.
    Float,
    /// `FrameFormat::RGBX` or `FrameFormat::BGRX`.
    Color,
}

/// What a registration parameter has to look like.
#[derive(Clone, Copy, Debug, PartialEq, Eq, Structural)]
pub struct ExpectedShape {
    pub formats: FormatClass,
    pub width: usize,
    pub height: usize,
    pub bytes_per_pixel: usize,
}

/// A frame that does not have the shape its parameter requires: which
/// parameter, what was expected and what was found.
#[derive(Clone, Copy, Debug, PartialEq, Eq, Structural)]
pub struct ShapeFault {
    pub param: FrameParam,
    pub expected: ExpectedShape,
    pub format: FrameFormat,
    pub width: usize,
    pub height: usize,
    pub bytes_per_pixel: usize,
}

/// An error of the binding layer.
#[derive(Clone, Copy, Debug, PartialEq, Eq, Structural)]
pub enum NativeError {
    /// The native handle behind a wrapper is null.
    HandleInvalid,
    /// The session is in a state that does not admit the operation.
    InvalidState,
    /// The session was closed before the operation.
    AlreadyClosed,
    /// A frame of the given type was expected in a frame map and is absent.
    FrameNotFound(FrameType),
    /// A caller-supplied value is out of range.
    InvalidArgument(ArgumentFault),
    /// A multi-frame listener was configured with no frame type.
    InvalidConfig,
    /// A frame handed to the registration has the wrong shape.
    InvalidFrameShape(ShapeFault),
    /// The native driver declined to start the streams.
    StartFailed,
    /// The native driver declined to stop the streams.
    StopFailed,
    /// The native driver declined to close the device.
    CloseFailed,
    /// The native call for the given operation raised an error.
    NativeCallFailed(NativeOp),
    /// No complete frame set arrived in time.
    Timeout,
    /// A user callback panicked.
    CallbackPanicked,
}

impl NativeError {
    /// The class of `self` in the coarse taxonomy.
    pub open spec fn kind_of(self) -> ErrorKind {
        match self {
            NativeError::HandleInvalid => ErrorKind::HandleInvalid,
            NativeError::InvalidState => ErrorKind::InvalidState,
            NativeError::AlreadyClosed => ErrorKind::InvalidState,
            NativeError::FrameNotFound(_) => ErrorKind::InvalidState,
            NativeError::InvalidArgument(_) => ErrorKind::InvalidArgument,
            NativeError::InvalidConfig => ErrorKind::InvalidArgument,
            NativeError::InvalidFrameShape(_) => ErrorKind::InvalidFrameShape,
            NativeError::StartFailed => ErrorKind::NativeCallFailed,
            NativeError::StopFailed => ErrorKind::NativeCallFailed,
            NativeError::CloseFailed => ErrorKind::NativeCallFailed,
            NativeError::NativeCallFailed(_) => ErrorKind::NativeCallFailed,
            NativeError::Timeout => ErrorKind::Timeout,
            NativeError::CallbackPanicked => ErrorKind::CallbackPanicked,
        }
    }

    /// Returns the class of the error in the coarse taxonomy.
    pub fn kind(&self) -> (k: ErrorKind)
        ensures
            k == self.kind_of(),
    {
        match self {
            NativeError::HandleInvalid => ErrorKind::HandleInvalid,
            NativeError::InvalidState => ErrorKind::InvalidState,
            NativeError::AlreadyClosed => ErrorKind::InvalidState,
            NativeError::FrameNotFound(_) => ErrorKind::InvalidState,
            NativeError::InvalidArgument(_) => ErrorKind::InvalidArgument,
            NativeError::InvalidConfig => ErrorKind::InvalidArgument,
            NativeError::InvalidFrameShape(_) => ErrorKind::InvalidFrameShape,
            NativeError::StartFailed => ErrorKind::NativeCallFailed,
            NativeError::StopFailed => ErrorKind::NativeCallFailed,
            NativeError::CloseFailed => ErrorKind::NativeCallFailed,
            NativeError::NativeCallFailed(_) => ErrorKind::NativeCallFailed,
            NativeError::Timeout => ErrorKind::Timeout,
            NativeError::CallbackPanicked => ErrorKind::CallbackPanicked,
        }
    }
}

} // verus!
