use libfreenect2_rs::config::Config;
use libfreenect2_rs::error::{ArgumentFault, ErrorKind, NativeError, NativeOp};
use libfreenect2_rs::freenect2_device::{
    DeviceCall, Freenect2Device, LedMode, LedSettings, NativeOutcome, SessionState,
};

fn streaming() -> Freenect2Device {
    let mut device = Freenect2Device::new(true);
    let call = device.start().unwrap();
    device.complete(call, NativeOutcome::Completed).unwrap();
    device
}

fn closed() -> Freenect2Device {
    let mut device = Freenect2Device::new(true);
    let call = device.close().unwrap();
    device.complete(call, NativeOutcome::Completed).unwrap();
    device
}

fn led(id: u16, mode: LedMode, start_level: u16, stop_level: u16, interval_ms: u16) -> LedSettings {
    LedSettings { id, mode, start_level, stop_level, interval_ms }
}

#[test]
fn stop_before_start_is_invalid_state() {
    let device = Freenect2Device::new(true);
    assert_eq!(device.stop(), Err(NativeError::InvalidState));
    assert_eq!(NativeError::InvalidState.kind(), ErrorKind::InvalidState);
}

#[test]
fn start_streams_needs_a_stream() {
    let device = Freenect2Device::new(true);
    let refused = device.start_streams(false, false);
    assert_eq!(refused, Err(NativeError::InvalidArgument(ArgumentFault::NoStreamSelected)));
    assert_eq!(refused.unwrap_err().kind(), ErrorKind::InvalidArgument);
    assert_eq!(
        device.start_streams(true, false),
        Ok(DeviceCall::StartStreams { color: true, depth: false })
    );
    assert_eq!(
        device.start_streams(false, true),
        Ok(DeviceCall::StartStreams { color: false, depth: true })
    );
}

#[test]
fn failed_start_leaves_session_idle() {
    let mut device = Freenect2Device::new(true);
    let call = device.start().unwrap();
    assert_eq!(device.complete(call, NativeOutcome::Refused), Err(NativeError::StartFailed));
    assert!(!device.is_started());
    assert_eq!(
        device.complete(call, NativeOutcome::Raised),
        Err(NativeError::NativeCallFailed(NativeOp::Start))
    );
    assert_eq!(device.get_state(), SessionState::Idle);
    assert_eq!(device.complete(call, NativeOutcome::Completed), Ok(()));
    assert!(device.is_started());
    assert_eq!(device.get_state(), SessionState::Streaming);
}

#[test]
fn session_runs_through_its_states() {
    let mut device = Freenect2Device::new(true);
    assert_eq!(device.get_state(), SessionState::Idle);
    assert_eq!(device.get_registration(), Err(NativeError::InvalidState));

    let call = device.start_streams(true, true).unwrap();
    device.complete(call, NativeOutcome::Completed).unwrap();
    assert_eq!(device.get_state(), SessionState::Streaming);
    assert_eq!(device.start(), Err(NativeError::InvalidState));
    assert_eq!(device.start_streams(true, true), Err(NativeError::InvalidState));
    assert_eq!(device.get_registration(), Ok(DeviceCall::GetRegistration));

    let call = device.stop().unwrap();
    assert_eq!(device.complete(call, NativeOutcome::Refused), Err(NativeError::StopFailed));
    assert_eq!(device.get_state(), SessionState::Streaming);
    device.complete(call, NativeOutcome::Completed).unwrap();
    assert_eq!(device.get_state(), SessionState::Idle);
    assert_eq!(device.stop(), Err(NativeError::InvalidState));

    let call = device.start().unwrap();
    device.complete(call, NativeOutcome::Completed).unwrap();
    assert_eq!(device.get_state(), SessionState::Streaming);

    let call = device.close().unwrap();
    assert_eq!(device.complete(call, NativeOutcome::Refused), Err(NativeError::CloseFailed));
    assert!(!device.is_closed());
    device.complete(call, NativeOutcome::Completed).unwrap();
    assert_eq!(device.get_state(), SessionState::Closed);
    assert!(device.is_closed());
}

#[test]
fn closed_session_refuses_everything() {
    let device = closed();
    let config = Config::new();
    let settings = led(0, LedMode::Constant, 0, 0, 0);
    assert_eq!(device.get_serial_number(), Err(NativeError::AlreadyClosed));
    assert_eq!(device.get_firmware_version(), Err(NativeError::AlreadyClosed));
    assert_eq!(device.start(), Err(NativeError::AlreadyClosed));
    assert_eq!(device.start_streams(true, true), Err(NativeError::AlreadyClosed));
    assert_eq!(device.stop(), Err(NativeError::AlreadyClosed));
    assert_eq!(device.close(), Err(NativeError::AlreadyClosed));
    assert_eq!(device.set_color_frame_listener(), Err(NativeError::AlreadyClosed));
    assert_eq!(device.set_ir_and_depth_frame_listener(), Err(NativeError::AlreadyClosed));
    assert_eq!(device.set_config(&config), Err(NativeError::AlreadyClosed));
    assert_eq!(device.get_registration(), Err(NativeError::AlreadyClosed));
    assert_eq!(device.set_led_settings(&settings), Err(NativeError::AlreadyClosed));
    assert_eq!(NativeError::AlreadyClosed.kind(), ErrorKind::InvalidState);
    assert_eq!(
        device.start_streams(false, false),
        Err(NativeError::InvalidArgument(ArgumentFault::NoStreamSelected))
    );
}

#[test]
fn completing_a_refused_call_changes_nothing() {
    let mut device = closed();
    assert_eq!(
        device.complete(DeviceCall::Start, NativeOutcome::Completed),
        Err(NativeError::AlreadyClosed)
    );
    assert!(!device.is_started());
    let mut idle = Freenect2Device::new(true);
    assert_eq!(
        idle.complete(DeviceCall::Stop, NativeOutcome::Completed),
        Err(NativeError::InvalidState)
    );
    assert_eq!(idle.get_state(), SessionState::Idle);
}

#[test]
fn missing_handle_is_reported_first() {
    let mut device = Freenect2Device::new(false);
    assert!(!device.is_handle_present());
    assert_eq!(device.start(), Err(NativeError::HandleInvalid));
    assert_eq!(device.start_streams(false, false), Err(NativeError::HandleInvalid));
    assert_eq!(device.stop(), Err(NativeError::HandleInvalid));
    assert_eq!(device.close(), Err(NativeError::HandleInvalid));
    assert_eq!(device.get_serial_number(), Err(NativeError::HandleInvalid));
    assert_eq!(
        device.complete(DeviceCall::Close, NativeOutcome::Completed),
        Err(NativeError::HandleInvalid)
    );
    assert!(!device.is_closed());
    assert_eq!(NativeError::HandleInvalid.kind(), ErrorKind::HandleInvalid);
}

#[test]
fn listeners_and_config_are_set_while_open() {
    let device = Freenect2Device::new(true);
    let config = Config::new();
    assert_eq!(device.set_color_frame_listener(), Ok(DeviceCall::SetColorFrameListener));
    assert_eq!(
        device.set_ir_and_depth_frame_listener(),
        Ok(DeviceCall::SetIrAndDepthFrameListener)
    );
    assert_eq!(device.set_config(&config), Ok(DeviceCall::SetConfig(config)));
    assert_eq!(device.get_serial_number(), Ok(DeviceCall::GetSerialNumber));
    assert_eq!(device.get_firmware_version(), Ok(DeviceCall::GetFirmwareVersion));

    let device = streaming();
    assert_eq!(device.set_color_frame_listener(), Ok(DeviceCall::SetColorFrameListener));
    assert_eq!(device.set_config(&config), Err(NativeError::InvalidState));
}

#[test]
fn led_settings_need_a_streaming_session() {
    let settings = led(1, LedMode::Blink, 0, 1000, 500);
    let device = Freenect2Device::new(true);
    assert_eq!(device.set_led_settings(&settings), Err(NativeError::InvalidState));
    let device = streaming();
    assert_eq!(device.set_led_settings(&settings), Ok(DeviceCall::SetLedSettings(settings)));
}

#[test]
fn led_settings_are_validated() {
    let device = streaming();
    let fault = |settings: LedSettings| device.set_led_settings(&settings).unwrap_err();
    assert_eq!(
        fault(led(2, LedMode::Constant, 0, 0, 0)),
        NativeError::InvalidArgument(ArgumentFault::LedId)
    );
    assert_eq!(
        fault(led(0, LedMode::Constant, 1001, 0, 0)),
        NativeError::InvalidArgument(ArgumentFault::LedStartLevel)
    );
    assert_eq!(
        fault(led(0, LedMode::Constant, 1000, 1001, 0)),
        NativeError::InvalidArgument(ArgumentFault::LedStopLevel)
    );
    assert_eq!(
        fault(led(1, LedMode::Blink, 1000, 0, 0)),
        NativeError::InvalidArgument(ArgumentFault::LedInterval)
    );
    assert_eq!(
        fault(led(7, LedMode::Blink, 2000, 2000, 0)),
        NativeError::InvalidArgument(ArgumentFault::LedId)
    );
    assert!(device.set_led_settings(&led(0, LedMode::Constant, 1000, 0, 0)).is_ok());
    assert!(device.set_led_settings(&led(1, LedMode::Blink, 0, 1000, 1)).is_ok());
    assert_eq!(led(1, LedMode::Blink, 0, 1000, 1).validate(), Ok(()));
    assert_eq!(led(1, LedMode::Blink, 0, 1000, 0).validate(), Err(ArgumentFault::LedInterval));
}

#[test]
fn calls_that_raise_fail_with_their_operation() {
    let mut device = streaming();
    assert_eq!(
        device.complete(DeviceCall::GetRegistration, NativeOutcome::Raised),
        Err(NativeError::NativeCallFailed(NativeOp::GetRegistration))
    );
    assert_eq!(
        device.complete(DeviceCall::GetRegistration, NativeOutcome::Refused),
        Err(NativeError::NativeCallFailed(NativeOp::GetRegistration))
    );
    assert_eq!(
        device.complete(DeviceCall::Stop, NativeOutcome::Raised),
        Err(NativeError::NativeCallFailed(NativeOp::Stop))
    );
    assert!(device.is_started());
    assert_eq!(DeviceCall::StartStreams { color: true, depth: true }.op(), NativeOp::StartStreams);
    assert_eq!(NativeError::StopFailed.kind(), ErrorKind::NativeCallFailed);
}

#[test]
fn led_mode_codes() {
    assert_eq!(LedMode::Constant.to_native(), 0);
    assert_eq!(LedMode::Blink.to_native(), 1);
    assert_eq!(LedMode::from_native(0), Some(LedMode::Constant));
    assert_eq!(LedMode::from_native(1), Some(LedMode::Blink));
    assert_eq!(LedMode::from_native(2), None);
}

#[test]
fn every_error_has_its_kind() {
    let kinds = [
        (NativeError::HandleInvalid, ErrorKind::HandleInvalid),
        (NativeError::InvalidState, ErrorKind::InvalidState),
        (NativeError::AlreadyClosed, ErrorKind::InvalidState),
        (
            NativeError::InvalidArgument(ArgumentFault::LedId),
            ErrorKind::InvalidArgument,
        ),
        (NativeError::InvalidConfig, ErrorKind::InvalidArgument),
        (NativeError::StartFailed, ErrorKind::NativeCallFailed),
        (NativeError::StopFailed, ErrorKind::NativeCallFailed),
        (NativeError::CloseFailed, ErrorKind::NativeCallFailed),
        (NativeError::NativeCallFailed(NativeOp::SetConfig), ErrorKind::NativeCallFailed),
        (NativeError::Timeout, ErrorKind::Timeout),
        (NativeError::CallbackPanicked, ErrorKind::CallbackPanicked),
    ];
    for (error, kind) in kinds {
        assert_eq!(error.kind(), kind);
    }
}
