use loki::errors::{CaptureError, ConfigurationErrorKind, StateErrorKind};
use loki::frame::PixelFormat;
use loki::session::{
    CaptureSessionState, CaptureTarget, DeviceHandle, WgcCaptureProvider,
};

fn target(width: i32, height: i32) -> CaptureTarget {
    CaptureTarget { width, height, format: PixelFormat::BGRA8 }
}

fn configured_session() -> WgcCaptureProvider {
    let mut s = WgcCaptureProvider::new(DeviceHandle { id: 1 });
    s.set_capture_item(target(64, 48)).unwrap();
    s
}

#[test]
fn new_session_is_uninitialized() {
    let s = WgcCaptureProvider::new(DeviceHandle { id: 1 });
    assert_eq!(s.state, CaptureSessionState::Uninitialized);
    assert!(s.capture_item.is_none());
}

#[test]
fn start_without_target_fails() {
    let mut s = WgcCaptureProvider::new(DeviceHandle { id: 1 });
    assert_eq!(
        s.start_capture(),
        Err(CaptureError::ConfigurationError(ConfigurationErrorKind::NoTargetSet))
    );
    assert_eq!(s.state, CaptureSessionState::Uninitialized);
}

#[test]
fn start_while_capturing_fails_and_leaves_state_unchanged() {
    let mut s = configured_session();
    s.start_capture().unwrap();
    assert_eq!(s.state, CaptureSessionState::Capturing);
    let generation = s.generation;
    assert_eq!(
        s.start_capture(),
        Err(CaptureError::StateError(StateErrorKind::AlreadyCapturing))
    );
    assert_eq!(s.state, CaptureSessionState::Capturing);
    assert_eq!(s.generation, generation);
}

#[test]
fn stop_twice_succeeds_both_times_and_rests_in_stopped() {
    let mut s = configured_session();
    s.start_capture().unwrap();
    assert_eq!(s.stop_capture(), Ok(()));
    assert_eq!(s.state, CaptureSessionState::Stopped);
    assert_eq!(s.stop_capture(), Ok(()));
    assert_eq!(s.state, CaptureSessionState::Stopped);
}

#[test]
fn stop_when_never_started_is_a_no_op_success() {
    let mut s = configured_session();
    assert_eq!(s.stop_capture(), Ok(()));
    assert_eq!(s.state, CaptureSessionState::Configured);
}

#[test]
fn stopped_session_restarts_with_existing_target() {
    let mut s = configured_session();
    s.start_capture().unwrap();
    s.stop_capture().unwrap();
    assert_eq!(s.start_capture(), Ok(()));
    assert_eq!(s.state, CaptureSessionState::Capturing);
}

#[test]
fn configure_while_capturing_fails() {
    let mut s = configured_session();
    s.start_capture().unwrap();
    assert_eq!(
        s.set_capture_item(target(10, 10)),
        Err(CaptureError::StateError(StateErrorKind::AlreadyCapturing))
    );
    assert_eq!(s.capture_item, Some(target(64, 48)));
}

#[test]
fn reconfigure_replaces_target_and_resets_pipeline() {
    let mut s = configured_session();
    s.start_capture().unwrap();
    s.stop_capture().unwrap();
    s.set_capture_item(target(128, 96)).unwrap();
    assert_eq!(s.state, CaptureSessionState::Configured);
    assert_eq!(s.capture_item, Some(target(128, 96)));
    assert_eq!(s.staging.slots.len(), 0);
    assert_eq!(s.staging.frame_count, 0);
}
