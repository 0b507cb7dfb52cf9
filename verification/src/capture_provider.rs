//! The capture-provider abstraction a platform backend implements.

use vstd::prelude::*;
use crate::framerate::CaptureFramerate;

verus! {

/// A source of captured frames: it can be pointed at a capture item,
/// started and stopped, and asked for frame streams. Every operation
/// preserves the provider's own invariant; the full behaviour of each is
/// stated on the implementing type.
pub trait CaptureProvider {
    type Stream;

    type CaptureItem;

    type Error;

    /// The provider's internal invariant, established by its constructor.
    spec fn inv(&self) -> bool;

    fn create_stream(&mut self, framerate: CaptureFramerate) -> (r: Result<
        Self::Stream,
        Self::Error,
    >)
        requires
            old(self).inv(),
        ensures
            final(self).inv(),
    ;

    fn set_capture_item(&mut self, capture_item: Self::CaptureItem) -> (r: Result<
        (),
        Self::Error,
    >)
        requires
            old(self).inv(),
        ensures
            final(self).inv(),
    ;

    fn start_capture(&mut self) -> (r: Result<(), Self::Error>)
        requires
            old(self).inv(),
        ensures
            final(self).inv(),
    ;

    fn stop_capture(&mut self) -> (r: Result<(), Self::Error>)
        requires
            old(self).inv(),
        ensures
            final(self).inv(),
    ;
}

} // verus!
