//! Core of a screen-capture pipeline: the capture-session lifecycle and its
//! double-buffered GPU-to-CPU readback path.
//!
//! The library models the platform-facing pieces (GPU surfaces, the capture
//! item, the device) as plain values and verifies the logic that drives them:
//! staging-slot management, frame-counter-driven slot selection, row-pitch
//! packing, buffer pooling, the bounded drop-on-full hand-off channel, and the
//! session state machine.

pub mod buffer_pool;
pub mod builder;
pub mod capture_provider;
pub mod channel;
pub mod errors;
pub mod frame;
pub mod framerate;
pub mod geometry;
pub mod image_utils;
pub mod readback;
pub mod send_wrapper;
pub mod session;
pub mod staging;

pub use buffer_pool::BufferPool;
pub use builder::{BuilderError, WindowsCaptureProviderBuilder};
pub use capture_provider::CaptureProvider;
pub use channel::{FrameChannel, SendOutcome};
pub use errors::CaptureError;
pub use frame::{Frame, PixelFormat};
pub use framerate::CaptureFramerate;
pub use geometry::{Rect, Vector2};
pub use image_utils::{bgra_to_rgba, ensure_image_rgba, ImageError};
pub use send_wrapper::UnsafeSendWrapper;
pub use session::{
    ArrivalOutcome, CaptureSessionState, CaptureStream, CaptureTarget, DeviceHandle,
    FrameArrival, WgcCaptureProvider,
};
