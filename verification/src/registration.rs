//! The checks in front of the registration: the mapping of depth pixels onto
//! color pixels by the calibration of a device.
//!
//! The mapping itself is the work of the native driver. It trusts the shape
//! of the frames it is given, so each frame is held against the shape that
//! its parameter requires before the driver is called.

use vstd::prelude::*;

use crate::error::{ExpectedShape, FormatClass, FrameParam, NativeError, NativeOp, ShapeFault};
use crate::frame::{AsFrame, Frame, FrameFormat, FrameModel, Freenect2Frame};
use crate::freenect2_device::NativeOutcome;

verus! {

/// The width of a depth frame.
pub const DEPTH_WIDTH: usize = 512;

/// The height of a depth frame.
pub const DEPTH_HEIGHT: usize = 424;

/// The width of a color frame.
pub const COLOR_WIDTH: usize = 1920;

/// The height of a color frame.
pub const COLOR_HEIGHT: usize = 1080;

/// The height of a depth frame of the size of a color frame: one blank line
/// more at the top and one at the bottom.
pub const BIG_DEPTH_HEIGHT: usize = 1082;

/// The bytes of a pixel in every frame that the registration handles.
pub const REGISTRATION_BYTES_PER_PIXEL: usize = 4;

impl FormatClass {
    /// Whether `format` belongs to the class.
    pub open spec fn accepts(self, format: FrameFormat) -> bool {
        match self {
            FormatClass::Float => format == FrameFormat::Float,
            FormatClass::Color => format == FrameFormat::RGBX || format == FrameFormat::BGRX,
        }
    }

    /// Returns whether `format` belongs to the class.
    pub fn has(&self, format: FrameFormat) -> (r: bool)
        ensures
            r == self.accepts(format),
    {
        match self {
            FormatClass::Float => match format {
                FrameFormat::Float => true,
                _ => false,
            },
            FormatClass::Color => match format {
                FrameFormat::RGBX | FrameFormat::BGRX => true,
                _ => false,
            },
        }
    }
}

/// The shape that a frame parameter of the registration has to have.
pub open spec fn expected_shape(param: FrameParam) -> ExpectedShape {
    match param {
        FrameParam::Depth | FrameParam::UndistortedDepth => ExpectedShape {
            formats: FormatClass::Float,
            width: DEPTH_WIDTH,
            height: DEPTH_HEIGHT,
            bytes_per_pixel: REGISTRATION_BYTES_PER_PIXEL,
        },
        FrameParam::Color => ExpectedShape {
            formats: FormatClass::Color,
            width: COLOR_WIDTH,
            height: COLOR_HEIGHT,
            bytes_per_pixel: REGISTRATION_BYTES_PER_PIXEL,
        },
        FrameParam::ColorDepthImage => ExpectedShape {
            formats: FormatClass::Color,
            width: DEPTH_WIDTH,
            height: DEPTH_HEIGHT,
            bytes_per_pixel: REGISTRATION_BYTES_PER_PIXEL,
        },
        FrameParam::BigDepth => ExpectedShape {
            formats: FormatClass::Float,
            width: COLOR_WIDTH,
            height: BIG_DEPTH_HEIGHT,
            bytes_per_pixel: REGISTRATION_BYTES_PER_PIXEL,
        },
    }
}

/// Returns the shape that a frame parameter of the registration has to have.
pub fn shape_of(param: FrameParam) -> (shape: ExpectedShape)
    ensures
        shape == expected_shape(param),
{
    match param {
        FrameParam::Depth | FrameParam::UndistortedDepth => ExpectedShape {
            formats: FormatClass::Float,
            width: DEPTH_WIDTH,
            height: DEPTH_HEIGHT,
            bytes_per_pixel: REGISTRATION_BYTES_PER_PIXEL,
        },
        FrameParam::Color => ExpectedShape {
            formats: FormatClass::Color,
            width: COLOR_WIDTH,
            height: COLOR_HEIGHT,
            bytes_per_pixel: REGISTRATION_BYTES_PER_PIXEL,
        },
        FrameParam::ColorDepthImage => ExpectedShape {
            formats: FormatClass::Color,
            width: DEPTH_WIDTH,
            height: DEPTH_HEIGHT,
            bytes_per_pixel: REGISTRATION_BYTES_PER_PIXEL,
        },
        FrameParam::BigDepth => ExpectedShape {
            formats: FormatClass::Float,
            width: COLOR_WIDTH,
            height: BIG_DEPTH_HEIGHT,
            bytes_per_pixel: REGISTRATION_BYTES_PER_PIXEL,
        },
    }
}

/// Whether `frame` has the shape that `param` requires: a format of the
/// class, the width, the height, four bytes per pixel, and a buffer of the
/// length that these give.
pub open spec fn fits(frame: FrameModel, param: FrameParam) -> bool {
    let shape = expected_shape(param);
    &&& shape.formats.accepts(frame.format)
    &&& frame.grid.width == shape.width
    &&& frame.grid.height == shape.height
    &&& frame.grid.bytes_per_pixel == shape.bytes_per_pixel
    &&& frame.grid.wf()
}

/// The fault that names `param`, what it requires and what `frame` is.
pub open spec fn fault_of(frame: FrameModel, param: FrameParam) -> ShapeFault {
    ShapeFault {
        param,
        expected: expected_shape(param),
        format: frame.format,
        width: frame.grid.width as usize,
        height: frame.grid.height as usize,
        bytes_per_pixel: frame.grid.bytes_per_pixel as usize,
    }
}

/// What the check of one frame answers.
pub open spec fn shape_verdict(frame: FrameModel, param: FrameParam) -> Result<(), NativeError> {
    if fits(frame, param) {
        Ok(())
    } else {
        Err(NativeError::InvalidFrameShape(fault_of(frame, param)))
    }
}

/// Holds a frame against the shape that `param` requires. The error names
/// the parameter, the shape expected and the shape found.
pub fn ensure_frame<'a>(frame: &Frame<'a>, param: FrameParam) -> (r: Result<(), NativeError>)
    ensures
        r == shape_verdict(frame@, param),
{
    let shape = shape_of(param);
    let format = frame.format();
    let width: usize = frame.width();
    let height: usize = frame.height();
    let bytes_per_pixel: usize = frame.bytes_per_pixel();
    let buffer_len: usize = frame.raw_data().len();
    if shape.formats.has(format) && width == shape.width && height == shape.height
        && bytes_per_pixel == shape.bytes_per_pixel && buffer_len == frame.raw_data_len() {
        Ok(())
    } else {
        Err(
            NativeError::InvalidFrameShape(
                ShapeFault { param, expected: shape, format, width, height, bytes_per_pixel },
            ),
        )
    }
}

/// A native call on a registration, with what it is made with besides the
/// frames.
#[derive(Clone, Copy, Debug, PartialEq, Eq, Structural)]
pub enum RegistrationCall {
    /// Map a depth frame onto a color frame.
    MapDepthToColor { enable_filter: bool },
    /// Map a depth frame onto a color frame, and scale the depth up to the
    /// size of the color frame.
    MapDepthToFullColor { enable_filter: bool },
    /// Undistort a depth frame.
    UndistortDepth,
}

impl RegistrationCall {
    /// The operation that the call belongs to.
    pub open spec fn op_of(self) -> NativeOp {
        match self {
            RegistrationCall::MapDepthToColor { .. } => NativeOp::MapDepthToColor,
            RegistrationCall::MapDepthToFullColor { .. } => NativeOp::MapDepthToFullColor,
            RegistrationCall::UndistortDepth => NativeOp::UndistortDepth,
        }
    }

    /// Returns the operation that the call belongs to.
    pub fn op(&self) -> (op: NativeOp)
        ensures
            op == self.op_of(),
    {
        match self {
            RegistrationCall::MapDepthToColor { .. } => NativeOp::MapDepthToColor,
            RegistrationCall::MapDepthToFullColor { .. } => NativeOp::MapDepthToFullColor,
            RegistrationCall::UndistortDepth => NativeOp::UndistortDepth,
        }
    }
}

/// The first of the checks that fails, or `call` where all pass.
pub open spec fn first_failure(
    handle: bool,
    checks: Seq<(FrameModel, FrameParam)>,
    call: RegistrationCall,
) -> Result<RegistrationCall, NativeError>
    decreases checks.len(),
{
    if !handle {
        Err(NativeError::HandleInvalid)
    } else if checks.len() == 0 {
        Ok(call)
    } else {
        match shape_verdict(checks[0].0, checks[0].1) {
            Err(e) => Err(e),
            Ok(()) => first_failure(handle, checks.subrange(1, checks.len() as int), call),
        }
    }
}

/// A registration: the mapping between the depth and the color camera of a
/// started device. It has no state besides its native handle.
#[derive(Debug)]
pub struct Registration {
    handle: bool,
}

impl Registration {
    /// Whether the registration holds a native handle.
    pub closed spec fn has_handle(&self) -> bool {
        self.handle
    }

    /// Wraps the registration that the native driver made for a device.
    /// `handle_present` says whether the driver handed out a handle; without
    /// one every operation fails with `HandleInvalid`.
    pub fn new(handle_present: bool) -> (registration: Registration)
        ensures
            registration.has_handle() == handle_present,
    {
        Registration { handle: handle_present }
    }

    /// Maps a depth frame onto a color frame. The native call fills
    /// `undistorted_depth` and `color_depth_image`; with `enable_filter`
    /// pixels that are not visible to both cameras are filtered out.
    ///
    /// `depth` has to be a float frame of 512x424, `color` a color frame
    /// (RGBX or BGRX) of 1920x1080, `undistorted_depth` a float frame of
    /// 512x424 and `color_depth_image` a color frame of 512x424. The first
    /// frame that is not is reported, and then no native call is to be
    /// made.
    pub fn map_depth_to_color<F1: AsFrame, F2: AsFrame>(
        &self,
        depth: &F1,
        color: &F2,
        undistorted_depth: &Frame<'_>,
        color_depth_image: &Frame<'_>,
        enable_filter: bool,
    ) -> (r: Result<RegistrationCall, NativeError>)
        ensures
            r == first_failure(
                self.has_handle(),
                seq![
                    (depth.frame_model(), FrameParam::Depth),
                    (color.frame_model(), FrameParam::Color),
                    (undistorted_depth@, FrameParam::UndistortedDepth),
                    (color_depth_image@, FrameParam::ColorDepthImage),
                ],
                RegistrationCall::MapDepthToColor { enable_filter },
            ),
    {
        let ghost checks = seq![
            (depth.frame_model(), FrameParam::Depth),
            (color.frame_model(), FrameParam::Color),
            (undistorted_depth@, FrameParam::UndistortedDepth),
            (color_depth_image@, FrameParam::ColorDepthImage),
        ];
        let ghost call = RegistrationCall::MapDepthToColor { enable_filter };
        proof {
            lemma_first_failure_unfolds(self.has_handle(), checks, call);
        }
        if !self.handle {
            return Err(NativeError::HandleInvalid);
        }
        let depth = depth.as_frame();
        let color = color.as_frame();

        match ensure_frame(depth.get(), FrameParam::Depth) {
            Err(e) => {
                return Err(e);
            },
            Ok(()) => {},
        }
        match ensure_frame(color.get(), FrameParam::Color) {
            Err(e) => {
                return Err(e);
            },
            Ok(()) => {},
        }
        match ensure_frame(undistorted_depth, FrameParam::UndistortedDepth) {
            Err(e) => {
                return Err(e);
            },
            Ok(()) => {},
        }
        match ensure_frame(color_depth_image, FrameParam::ColorDepthImage) {
            Err(e) => {
                return Err(e);
            },
            Ok(()) => {},
        }
        Ok(RegistrationCall::MapDepthToColor { enable_filter })
    }

    /// Maps a depth frame onto a color frame, as
    /// [`Self::map_depth_to_color`] does, and fills `big_depth` with the
    /// depth at the resolution of the color frame, plus one blank line at
    /// the top and one at the bottom.
    ///
    /// Besides what [`Self::map_depth_to_color`] asks of the frames,
    /// `big_depth` has to be a float frame of 1920x1082.
    pub fn map_depth_to_full_color<F1: AsFrame, F2: AsFrame>(
        &self,
        depth: &F1,
        color: &F2,
        undistorted_depth: &Frame<'_>,
        color_depth_image: &Frame<'_>,
        enable_filter: bool,
        big_depth: &Frame<'_>,
    ) -> (r: Result<RegistrationCall, NativeError>)
        ensures
            r == first_failure(
                self.has_handle(),
                seq![
                    (depth.frame_model(), FrameParam::Depth),
                    (color.frame_model(), FrameParam::Color),
                    (undistorted_depth@, FrameParam::UndistortedDepth),
                    (color_depth_image@, FrameParam::ColorDepthImage),
                    (big_depth@, FrameParam::BigDepth),
                ],
                RegistrationCall::MapDepthToFullColor { enable_filter },
            ),
    {
        let ghost checks = seq![
            (depth.frame_model(), FrameParam::Depth),
            (color.frame_model(), FrameParam::Color),
            (undistorted_depth@, FrameParam::UndistortedDepth),
            (color_depth_image@, FrameParam::ColorDepthImage),
            (big_depth@, FrameParam::BigDepth),
        ];
        let ghost call = RegistrationCall::MapDepthToFullColor { enable_filter };
        proof {
            lemma_first_failure_unfolds(self.has_handle(), checks, call);
        }
        if !self.handle {
            return Err(NativeError::HandleInvalid);
        }
        let depth = depth.as_frame();
        let color = color.as_frame();

        match ensure_frame(depth.get(), FrameParam::Depth) {
            Err(e) => {
                return Err(e);
            },
            Ok(()) => {},
        }
        match ensure_frame(color.get(), FrameParam::Color) {
            Err(e) => {
                return Err(e);
            },
            Ok(()) => {},
        }
        match ensure_frame(undistorted_depth, FrameParam::UndistortedDepth) {
            Err(e) => {
                return Err(e);
            },
            Ok(()) => {},
        }
        match ensure_frame(color_depth_image, FrameParam::ColorDepthImage) {
            Err(e) => {
                return Err(e);
            },
            Ok(()) => {},
        }
        match ensure_frame(big_depth, FrameParam::BigDepth) {
            Err(e) => {
                return Err(e);
            },
            Ok(()) => {},
        }
        Ok(RegistrationCall::MapDepthToFullColor { enable_filter })
    }

    /// Un-distorts a depth frame. The native call fills `undistorted_depth`.
    ///
    /// Both frames have to be float frames of 512x424. The first that is not
    /// is reported, and then no native call is to be made.
    pub fn undistort_depth<F: AsFrame>(&self, depth: &F, undistorted_depth: &Frame<'_>) -> (r:
        Result<RegistrationCall, NativeError>)
        ensures
            r == first_failure(
                self.has_handle(),
                seq![
                    (depth.frame_model(), FrameParam::Depth),
                    (undistorted_depth@, FrameParam::UndistortedDepth),
                ],
                RegistrationCall::UndistortDepth,
            ),
    {
        let ghost checks = seq![
            (depth.frame_model(), FrameParam::Depth),
            (undistorted_depth@, FrameParam::UndistortedDepth),
        ];
        proof {
            lemma_first_failure_unfolds(self.has_handle(), checks, RegistrationCall::UndistortDepth);
        }
        if !self.handle {
            return Err(NativeError::HandleInvalid);
        }
        let depth = depth.as_frame();

        match ensure_frame(depth.get(), FrameParam::Depth) {
            Err(e) => {
                return Err(e);
            },
            Ok(()) => {},
        }
        match ensure_frame(undistorted_depth, FrameParam::UndistortedDepth) {
            Err(e) => {
                return Err(e);
            },
            Ok(()) => {},
        }
        Ok(RegistrationCall::UndistortDepth)
    }

    /// What a registration call answers once the native call has ended: a
    /// call that did not complete fails with `NativeCallFailed`.
    pub fn complete(&self, call: RegistrationCall, outcome: NativeOutcome) -> (r: Result<
        (),
        NativeError,
    >)
        ensures
            r == match outcome {
                NativeOutcome::Completed => Ok::<(), NativeError>(()),
                _ => Err::<(), NativeError>(NativeError::NativeCallFailed(call.op_of())),
            },
    {
        match outcome {
            NativeOutcome::Completed => Ok(()),
            _ => Err(NativeError::NativeCallFailed(call.op())),
        }
    }
}

/// The first failure of up to five checks, written out: with a handle it is
/// the error of the first frame that does not fit, and the call where every
/// frame fits.
pub proof fn lemma_first_failure_unfolds(
    handle: bool,
    checks: Seq<(FrameModel, FrameParam)>,
    call: RegistrationCall,
)
    requires
        checks.len() <= 5,
    ensures
        !handle ==> first_failure(handle, checks, call) == Err::<RegistrationCall, NativeError>(
            NativeError::HandleInvalid,
        ),
        handle && (forall|i: int| 0 <= i < checks.len() ==> fits(checks[i].0, checks[i].1))
            ==> first_failure(handle, checks, call) == Ok::<RegistrationCall, NativeError>(call),
        forall|i: int|
            handle && 0 <= i < checks.len() && !fits(checks[i].0, checks[i].1) && (forall|j: int|
                0 <= j < i ==> fits(checks[j].0, checks[j].1)) ==> first_failure(
                handle,
                checks,
                call,
            ) == Err::<RegistrationCall, NativeError>(
                NativeError::InvalidFrameShape(fault_of(checks[i].0, checks[i].1)),
            ),
    decreases checks.len(),
{
    if handle && checks.len() > 0 {
        let rest = checks.subrange(1, checks.len() as int);
        lemma_first_failure_unfolds(handle, rest, call);
        assert forall|i: int| 0 <= i < rest.len() implies rest[i] == checks[i + 1] by {}
        if fits(checks[0].0, checks[0].1) {
            if forall|i: int| 0 <= i < checks.len() ==> fits(checks[i].0, checks[i].1) {
                assert forall|i: int| 0 <= i < rest.len() implies fits(rest[i].0, rest[i].1) by {
                    assert(rest[i] == checks[i + 1]);
                }
            }
            assert forall|i: int|
                0 <= i < checks.len() && !fits(checks[i].0, checks[i].1) && (forall|j: int|
                    0 <= j < i ==> fits(checks[j].0, checks[j].1)) implies first_failure(
                handle,
                checks,
                call,
            ) == Err::<RegistrationCall, NativeError>(
                NativeError::InvalidFrameShape(fault_of(checks[i].0, checks[i].1)),
            ) by {
                assert(i > 0);
                assert(rest[i - 1] == checks[i]);
                assert forall|j: int| 0 <= j < i - 1 implies fits(rest[j].0, rest[j].1) by {
                    assert(rest[j] == checks[j + 1]);
                }
            }
        } else {
            assert forall|i: int|
                0 <= i < checks.len() && !fits(checks[i].0, checks[i].1) && (forall|j: int|
                    0 <= j < i ==> fits(checks[j].0, checks[j].1)) implies i == 0 by {
                if i > 0 {
                    assert(fits(checks[0].0, checks[0].1));
                }
            }
        }
    }
}

/// A frame whose width or height is not what its parameter requires does
/// not fit: a depth frame of 320x240 is no depth frame of the registration.
pub proof fn lemma_wrong_resolution_does_not_fit(frame: FrameModel, param: FrameParam)
    requires
        frame.grid.width != expected_shape(param).width || frame.grid.height != expected_shape(
            param,
        ).height,
    ensures
        !fits(frame, param),
        shape_verdict(frame, param) == Err::<(), NativeError>(
            NativeError::InvalidFrameShape(fault_of(frame, param)),
        ),
{
}

/// A depth frame that does not fit makes every registration call fail with
/// `InvalidFrameShape`, naming the depth parameter, whatever the other
/// frames are. The answer holds no call, so none is made.
pub proof fn lemma_wrong_depth_is_rejected(
    depth: FrameModel,
    others: Seq<(FrameModel, FrameParam)>,
    call: RegistrationCall,
)
    requires
        !fits(depth, FrameParam::Depth),
    ensures
        first_failure(true, seq![(depth, FrameParam::Depth)] + others, call) == Err::<
            RegistrationCall,
            NativeError,
        >(NativeError::InvalidFrameShape(fault_of(depth, FrameParam::Depth))),
{
    let checks = seq![(depth, FrameParam::Depth)] + others;
    assert(checks[0] == (depth, FrameParam::Depth));
}

} // verus!
