//! The session of one opened device: which operations it permits in which
//! state, and how the answer of the native driver moves it on.
//!
//! Every operation of a session is a native call guarded by checks. The
//! session never makes the call itself. An operation method runs the checks
//! and, where they pass, names the call to make; the caller makes it and hands
//! its outcome to [`Freenect2Device::complete`], which moves the session on.

use vstd::prelude::*;

use crate::config::Config;
use crate::error::{ArgumentFault, ErrorKind, NativeError, NativeOp};

verus! {

/// The largest LED intensity.
pub const MAX_LED_LEVEL: u16 = 1000;

/// LED mode.
#[derive(Clone, Copy, Debug, PartialEq, Eq, Structural)]
pub enum LedMode {
    /// Constant LED intensity.
    Constant,
    /// Blinking LED.
    Blink,
}

impl LedMode {
    /// The code by which the native driver names the mode.
    pub open spec fn native_code(self) -> u32 {
        match self {
            LedMode::Constant => 0,
            LedMode::Blink => 1,
        }
    }

    /// The mode that the native driver names by `code`, if there is one.
    pub open spec fn of_native(code: u32) -> Option<LedMode> {
        if code == 0 {
            Some(LedMode::Constant)
        } else if code == 1 {
            Some(LedMode::Blink)
        } else {
            None
        }
    }

    /// Returns the code by which the native driver names the mode.
    pub fn to_native(&self) -> (code: u32)
        ensures
            code == self.native_code(),
    {
        match self {
            LedMode::Constant => 0,
            LedMode::Blink => 1,
        }
    }

    /// Decodes a mode from its native code. Only 0 and 1 name a mode.
    pub fn from_native(code: u32) -> (mode: Option<LedMode>)
        ensures
            mode == Self::of_native(code),
    {
        if code == 0 {
            Some(LedMode::Constant)
        } else if code == 1 {
            Some(LedMode::Blink)
        } else {
            None
        }
    }
}

/// LED settings of a device.
#[derive(Clone, Copy, Debug, PartialEq, Eq, Structural)]
pub struct LedSettings {
    /// The ID of the LED. Must be either 0 or 1.
    pub id: u16,
    /// The LED mode.
    pub mode: LedMode,
    /// The LED intensity at the start of the interval, in the range [0, 1000].
    pub start_level: u16,
    /// The LED intensity at the end of the interval, in the range [0, 1000].
    /// Does not need to be greater than `start_level`.
    pub stop_level: u16,
    /// Blink interval in milliseconds. Only used if `mode` is `Blink`, and
    /// must then be greater than 0.
    pub interval_ms: u16,
}

impl LedSettings {
    /// The first range that the settings break, if they break one: the id,
    /// then the start level, the stop level and the blink interval.
    pub open spec fn fault(self) -> Option<ArgumentFault> {
        if self.id != 0 && self.id != 1 {
            Some(ArgumentFault::LedId)
        } else if self.start_level > MAX_LED_LEVEL {
            Some(ArgumentFault::LedStartLevel)
        } else if self.stop_level > MAX_LED_LEVEL {
            Some(ArgumentFault::LedStopLevel)
        } else if self.mode == LedMode::Blink && self.interval_ms == 0 {
            Some(ArgumentFault::LedInterval)
        } else {
            None
        }
    }

    /// Whether every value of the settings lies in its range.
    pub open spec fn in_range(self) -> bool {
        &&& self.id == 0 || self.id == 1
        &&& self.start_level <= MAX_LED_LEVEL
        &&& self.stop_level <= MAX_LED_LEVEL
        &&& self.mode == LedMode::Blink ==> self.interval_ms > 0
    }

    /// Checks the ranges of the settings and names the first that is broken.
    pub fn validate(&self) -> (r: Result<(), ArgumentFault>)
        ensures
            r is Ok <==> self.in_range(),
            r is Err ==> self.fault() == Some(r->Err_0),
            r is Ok ==> self.fault() is None,
    {
        if self.id != 0 && self.id != 1 {
            return Err(ArgumentFault::LedId);
        }
        if self.start_level > MAX_LED_LEVEL {
            return Err(ArgumentFault::LedStartLevel);
        }
        if self.stop_level > MAX_LED_LEVEL {
            return Err(ArgumentFault::LedStopLevel);
        }
        match self.mode {
            LedMode::Blink => {
                if self.interval_ms == 0 {
                    return Err(ArgumentFault::LedInterval);
                }
            },
            LedMode::Constant => {},
        }
        Ok(())
    }
}

/// A native call on a device, with what it is made with.
#[derive(Clone, Copy, Debug, PartialEq, Eq, Structural)]
pub enum DeviceCall {
    /// Read the serial number.
    GetSerialNumber,
    /// Read the firmware version.
    GetFirmwareVersion,
    /// Start the color and the depth stream.
    Start,
    /// Start the selected streams.
    StartStreams { color: bool, depth: bool },
    /// Stop the streams.
    Stop,
    /// Close the device.
    Close,
    /// Register the listener for color frames.
    SetColorFrameListener,
    /// Register the listener for infrared and depth frames.
    SetIrAndDepthFrameListener,
    /// Hand the configuration to the device.
    SetConfig(Config),
    /// Create the registration from the calibration of the device.
    GetRegistration,
    /// Apply LED settings.
    SetLedSettings(LedSettings),
}

impl DeviceCall {
    /// The operation that the call belongs to.
    pub open spec fn op_of(self) -> NativeOp {
        match self {
            DeviceCall::GetSerialNumber => NativeOp::GetSerialNumber,
            DeviceCall::GetFirmwareVersion => NativeOp::GetFirmwareVersion,
            DeviceCall::Start => NativeOp::Start,
            DeviceCall::StartStreams { .. } => NativeOp::StartStreams,
            DeviceCall::Stop => NativeOp::Stop,
            DeviceCall::Close => NativeOp::Close,
            DeviceCall::SetColorFrameListener => NativeOp::SetColorFrameListener,
            DeviceCall::SetIrAndDepthFrameListener => NativeOp::SetIrAndDepthFrameListener,
            DeviceCall::SetConfig(_) => NativeOp::SetConfig,
            DeviceCall::GetRegistration => NativeOp::GetRegistration,
            DeviceCall::SetLedSettings(_) => NativeOp::SetLedSettings,
        }
    }

    /// Returns the operation that the call belongs to.
    pub fn op(&self) -> (op: NativeOp)
        ensures
            op == self.op_of(),
    {
        match self {
            DeviceCall::GetSerialNumber => NativeOp::GetSerialNumber,
            DeviceCall::GetFirmwareVersion => NativeOp::GetFirmwareVersion,
            DeviceCall::Start => NativeOp::Start,
            DeviceCall::StartStreams { .. } => NativeOp::StartStreams,
            DeviceCall::Stop => NativeOp::Stop,
            DeviceCall::Close => NativeOp::Close,
            DeviceCall::SetColorFrameListener => NativeOp::SetColorFrameListener,
            DeviceCall::SetIrAndDepthFrameListener => NativeOp::SetIrAndDepthFrameListener,
            DeviceCall::SetConfig(_) => NativeOp::SetConfig,
            DeviceCall::GetRegistration => NativeOp::GetRegistration,
            DeviceCall::SetLedSettings(_) => NativeOp::SetLedSettings,
        }
    }
}

/// How a native call ended.
#[derive(Clone, Copy, Debug, PartialEq, Eq, Structural)]
pub enum NativeOutcome {
    /// The call returned normally and, where it answers with a flag, with
    /// `true`.
    Completed,
    /// The call answered with `false`.
    Refused,
    /// The call raised an error.
    Raised,
}

/// The state of a session.
#[derive(Clone, Copy, Debug, PartialEq, Eq, Structural)]
pub enum SessionState {
    /// Open and not streaming: before the first start and after each stop.
    Idle,
    /// The streams are running.
    Streaming,
    /// Closed; no operation is permitted any more.
    Closed,
}

/// The session of one opened device.
///
/// A session starts idle, streams between a start and the next stop, and is
/// closed for good by a close. The flags mirror what the native driver was
/// told, and every operation is checked against them before the native call,
/// since the driver does not protect itself against calls out of sequence.
#[derive(Clone, Copy, Debug, PartialEq, Eq, Structural)]
pub struct Freenect2Device {
    handle: bool,
    started: bool,
    closed: bool,
}

/// The session of a device as a mathematical value.
pub ghost struct Session {
    /// Whether the session holds a native device handle.
    pub handle: bool,
    /// Whether the streams were started and not stopped since.
    pub started: bool,
    /// Whether the session was closed.
    pub closed: bool,
}

impl Session {
    /// The state of the session.
    pub open spec fn state(self) -> SessionState {
        if self.closed {
            SessionState::Closed
        } else if self.started {
            SessionState::Streaming
        } else {
            SessionState::Idle
        }
    }

    /// Why the session does not permit `call`, or `None` where it does.
    ///
    /// The handle is checked first, then the arguments that do not depend on
    /// the state, then whether the session is closed, then whether it streams
    /// as the call needs it, and last the remaining arguments.
    pub open spec fn refusal(self, call: DeviceCall) -> Option<NativeError> {
        if !self.handle {
            Some(NativeError::HandleInvalid)
        } else {
            match call {
                DeviceCall::GetSerialNumber
                | DeviceCall::GetFirmwareVersion
                | DeviceCall::Close
                | DeviceCall::SetColorFrameListener
                | DeviceCall::SetIrAndDepthFrameListener => {
                    if self.closed {
                        Some(NativeError::AlreadyClosed)
                    } else {
                        None
                    }
                },
                DeviceCall::Start | DeviceCall::SetConfig(_) => {
                    if self.closed {
                        Some(NativeError::AlreadyClosed)
                    } else if self.started {
                        Some(NativeError::InvalidState)
                    } else {
                        None
                    }
                },
                DeviceCall::StartStreams { color, depth } => {
                    if !color && !depth {
                        Some(NativeError::InvalidArgument(ArgumentFault::NoStreamSelected))
                    } else if self.closed {
                        Some(NativeError::AlreadyClosed)
                    } else if self.started {
                        Some(NativeError::InvalidState)
                    } else {
                        None
                    }
                },
                DeviceCall::Stop | DeviceCall::GetRegistration => {
                    if self.closed {
                        Some(NativeError::AlreadyClosed)
                    } else if !self.started {
                        Some(NativeError::InvalidState)
                    } else {
                        None
                    }
                },
                DeviceCall::SetLedSettings(settings) => {
                    if self.closed {
                        Some(NativeError::AlreadyClosed)
                    } else if !self.started {
                        Some(NativeError::InvalidState)
                    } else {
                        match settings.fault() {
                            Some(fault) => Some(NativeError::InvalidArgument(fault)),
                            None => None,
                        }
                    }
                },
            }
        }
    }

    /// The answer of an operation method: the call to make where the session
    /// permits it, and the reason where it does not.
    pub open spec fn request(self, call: DeviceCall) -> Result<DeviceCall, NativeError> {
        match self.refusal(call) {
            Some(e) => Err(e),
            None => Ok(call),
        }
    }

    /// What the operation answers once the native call has ended with
    /// `outcome`. A call that raised an error fails with `NativeCallFailed`;
    /// a start, stop or close that the driver refused fails with its own
    /// error.
    pub open spec fn verdict(call: DeviceCall, outcome: NativeOutcome) -> Result<(), NativeError> {
        match outcome {
            NativeOutcome::Completed => Ok(()),
            NativeOutcome::Raised => Err(NativeError::NativeCallFailed(call.op_of())),
            NativeOutcome::Refused => match call {
                DeviceCall::Start | DeviceCall::StartStreams { .. } => Err(NativeError::StartFailed),
                DeviceCall::Stop => Err(NativeError::StopFailed),
                DeviceCall::Close => Err(NativeError::CloseFailed),
                _ => Err(NativeError::NativeCallFailed(call.op_of())),
            },
        }
    }

    /// The session after `call` has completed on it: a start sets it
    /// streaming, a stop idle, a close closed, and every other call leaves it
    /// as it is.
    pub open spec fn after(self, call: DeviceCall) -> Session {
        match call {
            DeviceCall::Start | DeviceCall::StartStreams { .. } => Session {
                started: true,
                ..self
            },
            DeviceCall::Stop => Session { started: false, ..self },
            DeviceCall::Close => Session { closed: true, ..self },
            _ => self,
        }
    }

    /// What `complete` answers on the session, and the session it leaves:
    /// a call that the session does not permit is answered with the reason,
    /// any other by its outcome, and the session moves on only with `Ok`.
    pub open spec fn completed(self, call: DeviceCall, outcome: NativeOutcome) -> (
        Result<(), NativeError>,
        Session,
    ) {
        match self.refusal(call) {
            Some(e) => (Err(e), self),
            None => match Self::verdict(call, outcome) {
                Ok(()) => (Ok(()), self.after(call)),
                Err(e) => (Err(e), self),
            },
        }
    }
}

impl View for Freenect2Device {
    type V = Session;

    closed spec fn view(&self) -> Session {
        Session { handle: self.handle, started: self.started, closed: self.closed }
    }
}

impl Freenect2Device {
    /// Creates the session of a freshly opened device: idle, not closed.
    /// `handle_present` says whether the native driver handed out a device
    /// handle; without one every operation fails with `HandleInvalid`.
    pub fn new(handle_present: bool) -> (device: Freenect2Device)
        ensures
            device@ == (Session { handle: handle_present, started: false, closed: false }),
    {
        Freenect2Device { handle: handle_present, started: false, closed: false }
    }

    /// Whether the streams are started.
    pub fn is_started(&self) -> (r: bool)
        ensures
            r == self@.started,
    {
        self.started
    }

    /// Whether the session is closed.
    pub fn is_closed(&self) -> (r: bool)
        ensures
            r == self@.closed,
    {
        self.closed
    }

    /// Whether the session holds a native device handle.
    pub fn is_handle_present(&self) -> (r: bool)
        ensures
            r == self@.handle,
    {
        self.handle
    }

    /// Returns the state of the session.
    pub fn get_state(&self) -> (s: SessionState)
        ensures
            s == self@.state(),
    {
        if self.closed {
            SessionState::Closed
        } else if self.started {
            SessionState::Streaming
        } else {
            SessionState::Idle
        }
    }

    /// Get the serial number of the device: permitted unless the session is
    /// closed.
    pub fn get_serial_number(&self) -> (r: Result<DeviceCall, NativeError>)
        ensures
            r == self@.request(DeviceCall::GetSerialNumber),
    {
        if !self.handle {
            return Err(NativeError::HandleInvalid);
        }
        if self.closed {
            return Err(NativeError::AlreadyClosed);
        }
        Ok(DeviceCall::GetSerialNumber)
    }

    /// Get the firmware version of the device: permitted unless the session is
    /// closed.
    pub fn get_firmware_version(&self) -> (r: Result<DeviceCall, NativeError>)
        ensures
            r == self@.request(DeviceCall::GetFirmwareVersion),
    {
        if !self.handle {
            return Err(NativeError::HandleInvalid);
        }
        if self.closed {
            return Err(NativeError::AlreadyClosed);
        }
        Ok(DeviceCall::GetFirmwareVersion)
    }

    /// Start the device with the depth and the color stream: permitted on an
    /// open session that is not streaming.
    pub fn start(&self) -> (r: Result<DeviceCall, NativeError>)
        ensures
            r == self@.request(DeviceCall::Start),
    {
        if !self.handle {
            return Err(NativeError::HandleInvalid);
        }
        if self.closed {
            return Err(NativeError::AlreadyClosed);
        }
        if self.started {
            return Err(NativeError::InvalidState);
        }
        Ok(DeviceCall::Start)
    }

    /// Start the device with the selected streams: at least one of `color`
    /// and `depth` has to be selected, and the session has to be open and not
    /// streaming.
    pub fn start_streams(&self, color: bool, depth: bool) -> (r: Result<DeviceCall, NativeError>)
        ensures
            r == self@.request(DeviceCall::StartStreams { color, depth }),
    {
        if !self.handle {
            return Err(NativeError::HandleInvalid);
        }
        if !color && !depth {
            return Err(NativeError::InvalidArgument(ArgumentFault::NoStreamSelected));
        }
        if self.closed {
            return Err(NativeError::AlreadyClosed);
        }
        if self.started {
            return Err(NativeError::InvalidState);
        }
        Ok(DeviceCall::StartStreams { color, depth })
    }

    /// Stop the streams: permitted only while the session is streaming.
    pub fn stop(&self) -> (r: Result<DeviceCall, NativeError>)
        ensures
            r == self@.request(DeviceCall::Stop),
    {
        if !self.handle {
            return Err(NativeError::HandleInvalid);
        }
        if self.closed {
            return Err(NativeError::AlreadyClosed);
        }
        if !self.started {
            return Err(NativeError::InvalidState);
        }
        Ok(DeviceCall::Stop)
    }

    /// Close the device: permitted unless the session is closed already.
    pub fn close(&self) -> (r: Result<DeviceCall, NativeError>)
        ensures
            r == self@.request(DeviceCall::Close),
    {
        if !self.handle {
            return Err(NativeError::HandleInvalid);
        }
        if self.closed {
            return Err(NativeError::AlreadyClosed);
        }
        Ok(DeviceCall::Close)
    }

    /// Set the listener for color frames: permitted unless the session is
    /// closed. The listener has to outlive the session.
    pub fn set_color_frame_listener(&self) -> (r: Result<DeviceCall, NativeError>)
        ensures
            r == self@.request(DeviceCall::SetColorFrameListener),
    {
        if !self.handle {
            return Err(NativeError::HandleInvalid);
        }
        if self.closed {
            return Err(NativeError::AlreadyClosed);
        }
        Ok(DeviceCall::SetColorFrameListener)
    }

    /// Set the listener for infrared and depth frames: permitted unless the
    /// session is closed. The listener has to outlive the session.
    pub fn set_ir_and_depth_frame_listener(&self) -> (r: Result<DeviceCall, NativeError>)
        ensures
            r == self@.request(DeviceCall::SetIrAndDepthFrameListener),
    {
        if !self.handle {
            return Err(NativeError::HandleInvalid);
        }
        if self.closed {
            return Err(NativeError::AlreadyClosed);
        }
        Ok(DeviceCall::SetIrAndDepthFrameListener)
    }

    /// Set the configuration of the device: permitted on an open session
    /// before it starts streaming.
    pub fn set_config(&self, config: &Config) -> (r: Result<DeviceCall, NativeError>)
        ensures
            r == self@.request(DeviceCall::SetConfig(*config)),
    {
        if !self.handle {
            return Err(NativeError::HandleInvalid);
        }
        if self.closed {
            return Err(NativeError::AlreadyClosed);
        }
        if self.started {
            return Err(NativeError::InvalidState);
        }
        Ok(DeviceCall::SetConfig(*config))
    }

    /// Get the registration of the device: permitted only while the session
    /// is streaming, since the calibration is read when the streams start.
    pub fn get_registration(&self) -> (r: Result<DeviceCall, NativeError>)
        ensures
            r == self@.request(DeviceCall::GetRegistration),
    {
        if !self.handle {
            return Err(NativeError::HandleInvalid);
        }
        if self.closed {
            return Err(NativeError::AlreadyClosed);
        }
        if !self.started {
            return Err(NativeError::InvalidState);
        }
        Ok(DeviceCall::GetRegistration)
    }

    /// Set the LED settings of the device: permitted only while the session is
    /// streaming and with settings in range: an id of 0 or 1, levels of at
    /// most 1000 and, for a blinking LED, an interval above zero.
    pub fn set_led_settings(&self, settings: &LedSettings) -> (r: Result<DeviceCall, NativeError>)
        ensures
            r == self@.request(DeviceCall::SetLedSettings(*settings)),
    {
        if !self.handle {
            return Err(NativeError::HandleInvalid);
        }
        if self.closed {
            return Err(NativeError::AlreadyClosed);
        }
        if !self.started {
            return Err(NativeError::InvalidState);
        }
        match settings.validate() {
            Err(fault) => {
                return Err(NativeError::InvalidArgument(fault));
            },
            Ok(()) => {},
        }
        Ok(DeviceCall::SetLedSettings(*settings))
    }

    /// Runs the checks of the operation that `call` belongs to.
    pub fn check(&self, call: DeviceCall) -> (r: Result<DeviceCall, NativeError>)
        ensures
            r == self@.request(call),
    {
        match call {
            DeviceCall::GetSerialNumber => self.get_serial_number(),
            DeviceCall::GetFirmwareVersion => self.get_firmware_version(),
            DeviceCall::Start => self.start(),
            DeviceCall::StartStreams { color, depth } => self.start_streams(color, depth),
            DeviceCall::Stop => self.stop(),
            DeviceCall::Close => self.close(),
            DeviceCall::SetColorFrameListener => self.set_color_frame_listener(),
            DeviceCall::SetIrAndDepthFrameListener => self.set_ir_and_depth_frame_listener(),
            DeviceCall::SetConfig(config) => self.set_config(&config),
            DeviceCall::GetRegistration => self.get_registration(),
            DeviceCall::SetLedSettings(settings) => self.set_led_settings(&settings),
        }
    }

    /// Takes in the outcome of the native call `call` and moves the session
    /// on.
    ///
    /// The call is checked once more against the session; a call that the
    /// session does not permit is answered with the reason and changes
    /// nothing. Otherwise the answer is that of [`Session::verdict`], and the
    /// session changes only where the answer is `Ok`: a failed start does not
    /// set the session streaming.
    pub fn complete(&mut self, call: DeviceCall, outcome: NativeOutcome) -> (r: Result<
        (),
        NativeError,
    >)
        ensures
            (r, final(self)@) == old(self)@.completed(call, outcome),
    {
        match self.check(call) {
            Err(e) => {
                return Err(e);
            },
            Ok(_) => {},
        }
        match outcome {
            NativeOutcome::Raised => {
                return Err(NativeError::NativeCallFailed(call.op()));
            },
            NativeOutcome::Refused => {
                return match call {
                    DeviceCall::Start | DeviceCall::StartStreams { .. } => Err(
                        NativeError::StartFailed,
                    ),
                    DeviceCall::Stop => Err(NativeError::StopFailed),
                    DeviceCall::Close => Err(NativeError::CloseFailed),
                    _ => Err(NativeError::NativeCallFailed(call.op())),
                };
            },
            NativeOutcome::Completed => {},
        }
        match call {
            DeviceCall::Start | DeviceCall::StartStreams { .. } => {
                self.started = true;
            },
            DeviceCall::Stop => {
                self.started = false;
            },
            DeviceCall::Close => {
                self.closed = true;
            },
            _ => {},
        }
        Ok(())
    }
}

/// A session that is not streaming does not permit a stop: before the first
/// start, and after each stop, `stop` fails with `InvalidState`.
pub proof fn lemma_stop_needs_streaming(session: Session)
    requires
        session.handle,
        !session.closed,
        !session.started,
    ensures
        session.request(DeviceCall::Stop) == Err::<DeviceCall, NativeError>(
            NativeError::InvalidState,
        ),
        session.request(DeviceCall::Stop)->Err_0.kind_of() == ErrorKind::InvalidState,
{
}

/// A start that selects neither stream fails with `InvalidArgument`, in
/// whatever state the session is.
pub proof fn lemma_start_streams_needs_a_stream(session: Session)
    requires
        session.handle,
    ensures
        session.request(DeviceCall::StartStreams { color: false, depth: false }) == Err::<
            DeviceCall,
            NativeError,
        >(NativeError::InvalidArgument(ArgumentFault::NoStreamSelected)),
        session.request(
            DeviceCall::StartStreams { color: false, depth: false },
        )->Err_0.kind_of() == ErrorKind::InvalidArgument,
{
}

/// A closed session is closed for good: it permits no call, and no outcome
/// of a call changes it.
pub proof fn lemma_closed_is_terminal(session: Session, call: DeviceCall, outcome: NativeOutcome)
    requires
        session.closed,
    ensures
        session.refusal(call) is Some,
        session.completed(call, outcome).0 is Err,
        session.completed(call, outcome).1 == session,
        session.handle && !(call matches DeviceCall::StartStreams { color: false, depth: false })
            ==> session.refusal(call) == Some(NativeError::AlreadyClosed),
{
}

/// An operation that fails leaves the session as it was: a start that the
/// driver refuses does not set the session streaming. An operation that
/// succeeds keeps the handle, and only a close closes the session.
pub proof fn lemma_failure_changes_nothing(session: Session, call: DeviceCall, outcome: NativeOutcome)
    ensures
        session.completed(call, outcome).0 is Err ==> session.completed(call, outcome).1
            == session,
        session.completed(call, outcome).1.handle == session.handle,
        session.completed(call, outcome).1.closed != session.closed ==> call == DeviceCall::Close
            && outcome == NativeOutcome::Completed,
        session.completed(call, outcome).1.started && !session.started ==> (call
            == DeviceCall::Start || call is StartStreams) && outcome == NativeOutcome::Completed,
{
}

} // verus!
