use loki::builder::{BuilderError, WindowsCaptureProviderBuilder, DEFAULT_DEVICE_ID};
use loki::capture_provider::CaptureProvider;
use loki::frame::PixelFormat;
use loki::framerate::CaptureFramerate;
use loki::readback::pack_rows;
use loki::send_wrapper::UnsafeSendWrapper;
use loki::session::{CaptureSessionState, CaptureTarget, DeviceHandle, WgcCaptureProvider};

#[test]
fn frametime_is_the_inverse_of_the_rate_in_nanoseconds() {
    assert_eq!(CaptureFramerate::FPS5.to_frametime(), 200_000_000);
    assert_eq!(CaptureFramerate::FPS24.to_frametime(), 41_666_666);
    assert_eq!(CaptureFramerate::FPS30.to_frametime(), 33_333_333);
    assert_eq!(CaptureFramerate::FPS60.to_frametime(), 16_666_666);
    assert_eq!(CaptureFramerate::FPS120.to_frametime(), 8_333_333);
    assert_eq!(CaptureFramerate::FPS144.to_frametime(), 6_944_444);
    assert_eq!(CaptureFramerate::FPS200.to_frametime(), 5_000_000);
}

#[test]
fn build_without_device_is_refused() {
    let builder = WindowsCaptureProviderBuilder::new().with_default_capture_item().unwrap();
    assert!(matches!(builder.build(), Err(BuilderError::MissingDevice)));
}

#[test]
fn default_device_builds_an_uninitialized_session() {
    let provider = WindowsCaptureProviderBuilder::new()
        .with_default_device()
        .unwrap()
        .with_default_capture_item()
        .unwrap()
        .build()
        .unwrap();
    assert_eq!(provider.device, DeviceHandle { id: DEFAULT_DEVICE_ID });
    assert_eq!(provider.state, CaptureSessionState::Uninitialized);
}

#[test]
fn custom_device_is_kept() {
    let provider = WindowsCaptureProviderBuilder::new()
        .with_device(DeviceHandle { id: 42 })
        .build()
        .unwrap();
    assert_eq!(provider.device, DeviceHandle { id: 42 });
}

#[test]
fn pack_rows_drops_pitch_padding() {
    // Two rows of 3 bytes each, 5 bytes apart in the source.
    let src = vec![1, 2, 3, 0xFF, 0xFF, 4, 5, 6, 0xFF, 0xFF];
    let mut out = vec![0u8; 6];
    pack_rows(&src, 5, 3, 2, &mut out);
    assert_eq!(out, vec![1, 2, 3, 4, 5, 6]);
}

#[test]
fn pack_rows_with_tight_pitch_copies_verbatim() {
    let src: Vec<u8> = (0..12).collect();
    let mut out = vec![0u8; 12];
    pack_rows(&src, 4, 4, 3, &mut out);
    assert_eq!(out, src);
}

#[test]
fn session_drives_through_the_provider_trait() {
    fn run_lifecycle<P: CaptureProvider>(provider: &mut P, item: P::CaptureItem)
    where
        P::Error: std::fmt::Debug,
    {
        provider.set_capture_item(item).unwrap();
        provider.start_capture().unwrap();
        let _stream = provider.create_stream(CaptureFramerate::FPS30).unwrap();
        provider.stop_capture().unwrap();
    }
    let mut s = WgcCaptureProvider::new(DeviceHandle { id: 9 });
    run_lifecycle(&mut s, CaptureTarget { width: 16, height: 16, format: PixelFormat::RGBA8 });
    assert_eq!(s.state, CaptureSessionState::Stopped);
}

#[test]
fn send_wrapper_hands_its_value_back() {
    let wrapped = UnsafeSendWrapper::new(String::from("surface"));
    assert_eq!(wrapped.inner(), "surface");
    assert_eq!(wrapped.take_inner(), "surface");
}
