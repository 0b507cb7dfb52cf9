//! Requested capture frame rates and their minimum inter-frame intervals.

use vstd::prelude::*;

verus! {

/// The enumerated set of frame-rate caps a consumer may request.
///
/// A cap throttles delivery, not quality: it is handed to the platform
/// capture source as a minimum inter-frame interval.
#[derive(Debug, Clone, Copy, PartialEq, Eq, Structural)]
pub enum CaptureFramerate {
    FPS5,
    FPS24,
    FPS30,
    FPS60,
    FPS120,
    FPS144,
    FPS200,
}

impl CaptureFramerate {
    /// The rate in frames per second.
    pub open spec fn fps(self) -> u64 {
        match self {
            CaptureFramerate::FPS5 => 5,
            CaptureFramerate::FPS24 => 24,
            CaptureFramerate::FPS30 => 30,
            CaptureFramerate::FPS60 => 60,
            CaptureFramerate::FPS120 => 120,
            CaptureFramerate::FPS144 => 144,
            CaptureFramerate::FPS200 => 200,
        }
    }

    /// The minimum inter-frame interval for this rate, in nanoseconds,
    /// rounded down to a whole nanosecond.
    pub open spec fn frametime_nanos(self) -> u64 {
        (1_000_000_000u64 / self.fps()) as u64
    }

    /// Converts the rate cap to the minimum inter-frame interval, in
    /// nanoseconds, that is passed on to the platform capture source.
    pub fn to_frametime(&self) -> (nanos: u64)
        ensures
            nanos == self.frametime_nanos(),
            nanos == 1_000_000_000u64 / self.fps(),
    {
        match self {
            CaptureFramerate::FPS5 => 200_000_000,
            CaptureFramerate::FPS24 => 41_666_666,
            CaptureFramerate::FPS30 => 33_333_333,
            CaptureFramerate::FPS60 => 16_666_666,
            CaptureFramerate::FPS120 => 8_333_333,
            CaptureFramerate::FPS144 => 6_944_444,
            CaptureFramerate::FPS200 => 5_000_000,
        }
    }
}

} // verus!
