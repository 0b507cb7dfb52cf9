//! Typed errors returned synchronously to the owner context.
//!
//! Per-frame failures inside the capture callback never surface here: they
//! are reported as an arrival outcome, the frame is dropped, and session
//! state is untouched.

use vstd::prelude::*;

verus! {

/// An operation was invalid for the current session state.
#[derive(Debug, Clone, Copy, PartialEq, Eq, Structural)]
pub enum StateErrorKind {
    AlreadyCapturing,
}

/// Something required was not configured before the call.
#[derive(Debug, Clone, Copy, PartialEq, Eq, Structural)]
pub enum ConfigurationErrorKind {
    /// No capture target has been configured.
    NoTargetSet,
    /// No platform frame pool backs the session in this state, so a stream
    /// cannot be registered.
    NoFramePool,
}

/// A failure reported by the underlying capture or GPU subsystem while a
/// frame's surface was accessed.
#[derive(Debug, Clone, Copy, PartialEq, Eq, Structural)]
pub enum PlatformErrorKind {
    /// The surface reported non-positive dimensions.
    InvalidDimensions,
    /// The mapped row pitch cannot cover one row of pixels.
    PitchTooSmall,
    /// The mapped surface holds fewer bytes than its pitch and height need.
    SurfaceTruncated,
}

#[derive(Debug, Clone, Copy, PartialEq, Eq, Structural)]
pub enum CaptureError {
    StateError(StateErrorKind),
    ConfigurationError(ConfigurationErrorKind),
    PlatformError(PlatformErrorKind),
    /// No staging slot, buffer, or registration was available.
    ResourceExhaustion,
}

} // verus!
