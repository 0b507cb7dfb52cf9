use loki::errors::{CaptureError, ConfigurationErrorKind, PlatformErrorKind};
use loki::frame::PixelFormat;
use loki::framerate::CaptureFramerate;
use loki::session::{
    ArrivalOutcome, CaptureSessionState, CaptureTarget, DeviceHandle, FrameArrival,
    WgcCaptureProvider,
};

fn arrival(width: i32, height: i32, row_pitch: usize, fill: u8, timestamp: i64) -> FrameArrival {
    FrameArrival {
        width,
        height,
        row_pitch,
        surface: vec![fill; row_pitch * height as usize],
        timestamp,
        dirty_rects: vec![],
    }
}

fn capturing_session(width: i32, height: i32) -> WgcCaptureProvider {
    let mut s = WgcCaptureProvider::new(DeviceHandle { id: 1 });
    s.set_capture_item(CaptureTarget { width, height, format: PixelFormat::BGRA8 }).unwrap();
    s.start_capture().unwrap();
    s
}

#[test]
fn create_stream_requires_a_frame_pool() {
    let mut s = WgcCaptureProvider::new(DeviceHandle { id: 1 });
    assert_eq!(
        s.create_stream(CaptureFramerate::FPS60),
        Err(CaptureError::ConfigurationError(ConfigurationErrorKind::NoFramePool))
    );
    s.set_capture_item(CaptureTarget { width: 8, height: 8, format: PixelFormat::RGBA8 }).unwrap();
    s.start_capture().unwrap();
    s.stop_capture().unwrap();
    // Stopped released the platform pool: start again before new streams.
    assert_eq!(
        s.create_stream(CaptureFramerate::FPS60),
        Err(CaptureError::ConfigurationError(ConfigurationErrorKind::NoFramePool))
    );
}

#[test]
fn stream_registrations_run_out_at_the_id_limit() {
    let mut s = capturing_session(8, 8);
    s.next_stream_id = u64::MAX;
    assert_eq!(
        s.create_stream(CaptureFramerate::FPS60),
        Err(CaptureError::ResourceExhaustion)
    );
}

#[test]
fn first_frame_is_staged_but_not_emitted() {
    let mut s = capturing_session(4, 2);
    let gen = s.generation;
    let stream = s.create_stream(CaptureFramerate::FPS60).unwrap();
    let out = s.handle_frame_arrival(gen, arrival(4, 2, 16, 0xAA, 100));
    assert_eq!(out, ArrivalOutcome::Skipped);
    assert_eq!(s.staging.frame_count, 1);
    assert!(s.next_frame(&stream).is_none());
}

#[test]
fn second_arrival_emits_previous_pixels_with_current_timestamp() {
    let mut s = capturing_session(4, 2);
    let gen = s.generation;
    let stream = s.create_stream(CaptureFramerate::FPS60).unwrap();
    s.handle_frame_arrival(gen, arrival(4, 2, 16, 0xAA, 100));
    let out = s.handle_frame_arrival(gen, arrival(4, 2, 16, 0xBB, 200));
    assert_eq!(out, ArrivalOutcome::Emitted);
    let frame = s.next_frame(&stream).unwrap();
    // Double buffering: the emitted pixels are the previous arrival's.
    assert_eq!(frame.data, vec![0xAA; 4 * 2 * 4]);
    assert_eq!(frame.timestamp, 200);
    assert_eq!((frame.size.x, frame.size.y), (4, 2));
    assert_eq!(frame.format, PixelFormat::BGRA8);
}

#[test]
fn row_pitch_padding_is_dropped_when_packing() {
    let mut s = capturing_session(2, 2);
    let gen = s.generation;
    let stream = s.create_stream(CaptureFramerate::FPS60).unwrap();
    // Row pitch 12 exceeds the 8 packed bytes per row; rows are 0..12 and
    // 12..24 of the surface, and only each row's first 8 bytes survive.
    let mut padded = FrameArrival {
        width: 2,
        height: 2,
        row_pitch: 12,
        surface: (0u8..24).collect(),
        timestamp: 1,
        dirty_rects: vec![],
    };
    padded.surface[8] = 0xEE; // padding byte, must not appear in the frame
    s.handle_frame_arrival(gen, padded);
    s.handle_frame_arrival(gen, arrival(2, 2, 8, 0, 2));
    let frame = s.next_frame(&stream).unwrap();
    assert_eq!(frame.data, vec![0, 1, 2, 3, 4, 5, 6, 7, 12, 13, 14, 15, 16, 17, 18, 19]);
}

#[test]
fn scenario_three_arrivals_yield_frames_two_and_three() {
    // Configure a 1920x1080 BGRA8 target, start, and simulate 3 arrivals:
    // under the skip-first policy frames 2 and 3 come out, full-size, BGRA8,
    // with strictly increasing timestamps.
    let mut s = capturing_session(1920, 1080);
    let gen = s.generation;
    let stream = s.create_stream(CaptureFramerate::FPS60).unwrap();
    let pitch = 1920 * 4;
    assert_eq!(s.handle_frame_arrival(gen, arrival(1920, 1080, pitch, 1, 1000)), ArrivalOutcome::Skipped);
    assert_eq!(s.handle_frame_arrival(gen, arrival(1920, 1080, pitch, 2, 2000)), ArrivalOutcome::Emitted);
    assert_eq!(s.handle_frame_arrival(gen, arrival(1920, 1080, pitch, 3, 3000)), ArrivalOutcome::Emitted);
    let f2 = s.next_frame(&stream).unwrap();
    let f3 = s.next_frame(&stream).unwrap();
    for f in [&f2, &f3] {
        assert_eq!((f.size.x, f.size.y), (1920, 1080));
        assert_eq!(f.format, PixelFormat::BGRA8);
        assert_eq!(f.data.len(), 1920 * 1080 * 4);
    }
    assert!(f2.timestamp < f3.timestamp);
    assert!(s.next_frame(&stream).is_none());
}

#[test]
fn scenario_third_frame_dropped_consumer_gets_first_two_in_order() {
    // Channel capacity is 2. Two frames are already queued and the consumer
    // is not polling; one more arrival is dropped on the floor, and the
    // consumer later receives exactly the first two, in order.
    let mut s = capturing_session(4, 2);
    let gen = s.generation;
    let stream = s.create_stream(CaptureFramerate::FPS60).unwrap();
    s.handle_frame_arrival(gen, arrival(4, 2, 16, 1, 10)); // staged only
    s.handle_frame_arrival(gen, arrival(4, 2, 16, 2, 20)); // queued
    s.handle_frame_arrival(gen, arrival(4, 2, 16, 3, 30)); // queued
    s.handle_frame_arrival(gen, arrival(4, 2, 16, 4, 40)); // dropped: full
    let a = s.next_frame(&stream).unwrap();
    let b = s.next_frame(&stream).unwrap();
    assert_eq!((a.timestamp, b.timestamp), (20, 30));
    assert_eq!(a.data, vec![1; 32]);
    assert_eq!(b.data, vec![2; 32]);
    assert!(s.next_frame(&stream).is_none());
}

#[test]
fn geometry_change_resets_counter_and_reallocates_slots() {
    let mut s = capturing_session(4, 2);
    let gen = s.generation;
    s.handle_frame_arrival(gen, arrival(4, 2, 16, 1, 10));
    s.handle_frame_arrival(gen, arrival(4, 2, 16, 2, 20));
    assert_eq!(s.staging.frame_count, 2);
    // The target was resized between arrivals: the counter resets and every
    // slot is reallocated for the new size, so this arrival is staged only.
    let out = s.handle_frame_arrival(gen, arrival(8, 4, 32, 3, 30));
    assert_eq!(out, ArrivalOutcome::Skipped);
    assert_eq!(s.staging.frame_count, 1);
    assert_eq!((s.staging.width, s.staging.height), (8, 4));
    for slot in &s.staging.slots {
        assert_eq!((slot.width, slot.height), (8, 4));
    }
}

#[test]
fn stale_generation_arrival_is_a_no_op() {
    let mut s = capturing_session(4, 2);
    let old_gen = s.generation;
    s.stop_capture().unwrap();
    s.start_capture().unwrap();
    // In flight from before the stop: the epoch has ended, so this no-ops.
    let out = s.handle_frame_arrival(old_gen, arrival(4, 2, 16, 1, 10));
    assert_eq!(out, ArrivalOutcome::Stale);
    assert_eq!(s.staging.frame_count, 0);
}

#[test]
fn arrival_when_not_capturing_is_stale() {
    let mut s = WgcCaptureProvider::new(DeviceHandle { id: 1 });
    let gen = s.generation;
    let out = s.handle_frame_arrival(gen, arrival(4, 2, 16, 1, 10));
    assert_eq!(out, ArrivalOutcome::Stale);
}

#[test]
fn unusable_surfaces_are_rejected_without_touching_state() {
    let mut s = capturing_session(4, 2);
    let gen = s.generation;
    let zero_width = FrameArrival {
        width: 0,
        height: 2,
        row_pitch: 16,
        surface: vec![0; 32],
        timestamp: 1,
        dirty_rects: vec![],
    };
    assert_eq!(
        s.handle_frame_arrival(gen, zero_width),
        ArrivalOutcome::Rejected(CaptureError::PlatformError(PlatformErrorKind::InvalidDimensions))
    );
    // Pitch shorter than one packed row.
    let bad_pitch = FrameArrival {
        width: 4,
        height: 2,
        row_pitch: 8,
        surface: vec![0; 64],
        timestamp: 1,
        dirty_rects: vec![],
    };
    assert_eq!(
        s.handle_frame_arrival(gen, bad_pitch),
        ArrivalOutcome::Rejected(CaptureError::PlatformError(PlatformErrorKind::PitchTooSmall))
    );
    // Surface buffer shorter than pitch and height require.
    let truncated = FrameArrival {
        width: 4,
        height: 2,
        row_pitch: 16,
        surface: vec![0; 20],
        timestamp: 1,
        dirty_rects: vec![],
    };
    assert_eq!(
        s.handle_frame_arrival(gen, truncated),
        ArrivalOutcome::Rejected(CaptureError::PlatformError(PlatformErrorKind::SurfaceTruncated))
    );
    assert_eq!(s.staging.frame_count, 0);
    assert_eq!(s.state, CaptureSessionState::Capturing);
}

#[test]
fn dirty_rects_and_timestamp_come_from_the_current_arrival() {
    let mut s = capturing_session(4, 2);
    let gen = s.generation;
    let stream = s.create_stream(CaptureFramerate::FPS60).unwrap();
    s.handle_frame_arrival(gen, arrival(4, 2, 16, 1, 10));
    let mut second = arrival(4, 2, 16, 2, 20);
    second.dirty_rects = vec![loki::geometry::Rect::new(1, 1, 2, 1)];
    s.handle_frame_arrival(gen, second);
    let frame = s.next_frame(&stream).unwrap();
    assert_eq!(frame.dirty_rects, vec![loki::geometry::Rect::new(1, 1, 2, 1)]);
    assert_eq!(frame.timestamp, 20);
}

#[test]
fn rejected_frame_does_not_disturb_later_arrivals() {
    let mut s = capturing_session(4, 2);
    let gen = s.generation;
    let stream = s.create_stream(CaptureFramerate::FPS60).unwrap();
    s.handle_frame_arrival(gen, arrival(4, 2, 16, 1, 10));
    let bad = FrameArrival {
        width: -1,
        height: 2,
        row_pitch: 16,
        surface: vec![0; 32],
        timestamp: 15,
        dirty_rects: vec![],
    };
    assert!(matches!(s.handle_frame_arrival(gen, bad), ArrivalOutcome::Rejected(_)));
    assert_eq!(s.handle_frame_arrival(gen, arrival(4, 2, 16, 2, 20)), ArrivalOutcome::Emitted);
    let frame = s.next_frame(&stream).unwrap();
    assert_eq!(frame.timestamp, 20);
}

#[test]
fn multiple_streams_each_receive_the_frame() {
    let mut s = capturing_session(4, 2);
    let gen = s.generation;
    let one = s.create_stream(CaptureFramerate::FPS60).unwrap();
    let two = s.create_stream(CaptureFramerate::FPS120).unwrap();
    s.handle_frame_arrival(gen, arrival(4, 2, 16, 7, 10));
    s.handle_frame_arrival(gen, arrival(4, 2, 16, 8, 20));
    let a = s.next_frame(&one).unwrap();
    let b = s.next_frame(&two).unwrap();
    assert_eq!(a.data, b.data);
    assert_eq!(a.timestamp, 20);
    assert_eq!(b.timestamp, 20);
}

#[test]
fn stop_closes_streams_but_queued_frames_drain() {
    let mut s = capturing_session(4, 2);
    let gen = s.generation;
    let stream = s.create_stream(CaptureFramerate::FPS60).unwrap();
    s.handle_frame_arrival(gen, arrival(4, 2, 16, 1, 10));
    s.handle_frame_arrival(gen, arrival(4, 2, 16, 2, 20));
    s.stop_capture().unwrap();
    assert!(!s.stream_ended(&stream));
    let frame = s.next_frame(&stream).unwrap();
    assert_eq!(frame.timestamp, 20);
    assert!(s.next_frame(&stream).is_none());
    assert!(s.stream_ended(&stream));
}

#[test]
fn closed_stream_is_unregistered() {
    let mut s = capturing_session(4, 2);
    let stream = s.create_stream(CaptureFramerate::FPS60).unwrap();
    assert_eq!(s.streams.len(), 1);
    s.close_stream(stream);
    assert_eq!(s.streams.len(), 0);
    assert!(s.stream_ended(&stream));
    assert!(s.next_frame(&stream).is_none());
}

#[test]
fn released_frame_buffer_returns_to_the_pool() {
    let mut s = capturing_session(4, 2);
    let gen = s.generation;
    let stream = s.create_stream(CaptureFramerate::FPS60).unwrap();
    s.handle_frame_arrival(gen, arrival(4, 2, 16, 1, 10));
    s.handle_frame_arrival(gen, arrival(4, 2, 16, 2, 20));
    let frame = s.next_frame(&stream).unwrap();
    assert_eq!(s.buffer_pool.retained.len(), 0);
    s.release_frame(frame);
    assert_eq!(s.buffer_pool.retained.len(), 1);
}
