//! The capture session: a state machine owning the capture target, the
//! staging ring, the buffer pool, and the registered streams, and the
//! frame-arrival pipeline that feeds them.
//!
//! All session-level mutation — configure, start, stop, stream creation —
//! is serialized through one owner context. Frame arrivals come from the
//! platform's callback context; re-entrancy after a stop is tolerated with
//! a generation identifier: every configure begins, and every stop ends, a
//! capture epoch, a handler registered during an epoch carries its
//! generation, and an arrival whose generation no longer matches the live
//! session is a no-op.
//!
//! First-frame policy: the staging ring is written one full cycle before it
//! is read, so the very first arrival after a reset has no prior slot
//! contents to read back. That arrival is copied into its slot but no frame
//! is emitted for it; emission starts with the second arrival.

use vstd::prelude::*;
use crate::buffer_pool::{saturating_inc, BufferPool, DEFAULT_POOL_RETENTION};
use crate::channel::{channel_offered_frame, FrameChannel};
use crate::errors::{
    CaptureError, ConfigurationErrorKind, PlatformErrorKind, StateErrorKind,
};
use crate::frame::{Frame, FrameView, PixelFormat, BYTES_PER_PIXEL};
use crate::geometry::{Rect, Vector2};
use crate::readback::{pack_rows, packed_rows};
use crate::staging::{
    count_after, lemma_slots_alternate, read_slot_for, spec_read_slot, spec_write_slot,
    write_slot_for, StagingSlot, StagingSlotSet, PIPELINE_DEPTH,
};

verus! {

/// Capacity of each stream's hand-off channel.
pub const CHANNEL_CAPACITY: usize = 2;

/// The session lifecycle. `Stopped` is reachable from `Capturing` and is
/// equivalent to `Configured` for restart purposes.
#[derive(Debug, Clone, Copy, PartialEq, Eq, Structural)]
pub enum CaptureSessionState {
    Uninitialized,
    Configured,
    Capturing,
    Stopped,
}

/// The opaque GPU device the platform capture source draws on, reduced to
/// the identifier the session logic carries around.
#[derive(Debug, Clone, Copy, PartialEq, Eq, Structural)]
pub struct DeviceHandle {
    pub id: u64,
}

/// Descriptor of the surface being captured — a monitor or a window —
/// reduced to what the session reads of it: its reported geometry and the
/// pixel format frames are captured in. Replacing it invalidates the
/// staging ring.
#[derive(Debug, Clone, Copy, PartialEq, Eq, Structural)]
pub struct CaptureTarget {
    pub width: i32,
    pub height: i32,
    pub format: PixelFormat,
}

/// A consumer's handle to one registered frame-arrival stream. One
/// registration per stream; releasing the stream unregisters it.
#[derive(Debug, Clone, Copy, PartialEq, Eq, Structural)]
pub struct CaptureStream {
    pub stream_id: u64,
}

/// One frame-ready event as the platform hands it over: the mapped surface
/// bytes with their row pitch, the reported content geometry, the
/// platform's monotonic timestamp, and best-effort dirty rectangles.
#[derive(Debug, Clone)]
pub struct FrameArrival {
    pub width: i32,
    pub height: i32,
    pub row_pitch: usize,
    pub surface: Vec<u8>,
    pub timestamp: i64,
    pub dirty_rects: Vec<Rect>,
}

/// One registered stream: its identity, the epoch it was registered in,
/// the minimum inter-frame interval hint it asked for, and its channel.
pub struct StreamSlot {
    pub stream_id: u64,
    pub generation: u64,
    pub min_interval_ns: u64,
    pub channel: FrameChannel,
}

/// The stream registration's identity and settings are untouched.
pub open spec fn slot_meta_unchanged(before: StreamSlot, after: StreamSlot) -> bool {
    &&& after.stream_id == before.stream_id
    &&& after.generation == before.generation
    &&& after.min_interval_ns == before.min_interval_ns
}

/// What one frame-arrival event came to.
#[derive(Debug, Clone, Copy, PartialEq, Eq, Structural)]
pub enum ArrivalOutcome {
    /// The arrival carried a generation the session has moved past, or the
    /// session is not capturing; nothing was touched.
    Stale,
    /// The surface was unusable; the frame was dropped and the session is
    /// unaffected.
    Rejected(CaptureError),
    /// First arrival for the current geometry: its pixels were staged but,
    /// with no prior slot contents to read, no frame was emitted.
    Skipped,
    /// A frame was read back and offered to every live stream.
    Emitted,
}

/// The session state after a `stop` call: capturing ends, any other state
/// is left alone.
pub open spec fn state_after_stop(s: CaptureSessionState) -> CaptureSessionState {
    if s == CaptureSessionState::Capturing {
        CaptureSessionState::Stopped
    } else {
        s
    }
}

/// Law: `stop` is idempotent — a second `stop` finds nothing to stop and
/// changes nothing, and once a capturing or stopped session has been
/// stopped it rests in `Stopped`. Together with `stop_capture`'s
/// postcondition (it always succeeds and maps the state through
/// `state_after_stop`) this is the shape of calling `stop` twice in
/// succession.
pub proof fn lemma_stop_idempotent(s: CaptureSessionState)
    ensures
        state_after_stop(state_after_stop(s)) == state_after_stop(s),
        s == CaptureSessionState::Capturing || s == CaptureSessionState::Stopped
            ==> state_after_stop(state_after_stop(s)) == CaptureSessionState::Stopped,
{
}

/// Windows Graphics Capture session and pipeline, with the platform pieces
/// modeled as the plain values the logic reads of them.
pub struct WgcCaptureProvider {
    pub device: DeviceHandle,
    pub capture_item: Option<CaptureTarget>,
    pub state: CaptureSessionState,
    pub staging: StagingSlotSet,
    pub buffer_pool: BufferPool,
    pub streams: Vec<StreamSlot>,
    pub next_stream_id: u64,
    pub generation: u64,
}

impl WgcCaptureProvider {
    /// Session invariant: the staging ring is well formed, a target is
    /// configured exactly once the session leaves `Uninitialized`, every
    /// stream channel is well formed, and stream identifiers are strictly
    /// increasing and below the next to be issued.
    pub open spec fn wf(self) -> bool {
        &&& self.staging.wf()
        &&& (self.state == CaptureSessionState::Uninitialized <==> self.capture_item is None)
        &&& forall|i: int|
            0 <= i < self.streams@.len() ==> (#[trigger] self.streams@[i]).channel.wf()
        &&& forall|i: int, j: int|
            0 <= i < j < self.streams@.len() ==> self.streams@[i].stream_id
                < self.streams@[j].stream_id
        &&& forall|i: int|
            0 <= i < self.streams@.len() ==> (#[trigger] self.streams@[i]).stream_id
                < self.next_stream_id
    }

    pub fn new(device: DeviceHandle) -> (s: WgcCaptureProvider)
        ensures
            s.device == device,
            s.capture_item is None,
            s.state == CaptureSessionState::Uninitialized,
            s.staging.slots@.len() == 0,
            s.staging.frame_count == 0,
            s.buffer_pool.retained@.len() == 0,
            s.buffer_pool.allocations == 0,
            s.buffer_pool.max_retained == DEFAULT_POOL_RETENTION,
            s.streams@.len() == 0,
            s.next_stream_id == 0,
            s.generation == 0,
            s.wf(),
    {
        WgcCaptureProvider {
            device,
            capture_item: None,
            state: CaptureSessionState::Uninitialized,
            staging: StagingSlotSet::new(),
            buffer_pool: BufferPool::init(DEFAULT_POOL_RETENTION),
            streams: Vec::new(),
            next_stream_id: 0,
            generation: 0,
        }
    }

    /// Configures (or replaces) the capture target. Legal from any state
    /// except `Capturing`; replacing the target invalidates the staging
    /// ring, resets the frame counter, and begins a new capture epoch.
    pub fn set_capture_item(&mut self, capture_item: CaptureTarget) -> (r: Result<
        (),
        CaptureError,
    >)
        requires
            old(self).wf(),
        ensures
            final(self).wf(),
            old(self).state == CaptureSessionState::Capturing ==> {
                &&& r == Err::<(), CaptureError>(
                    CaptureError::StateError(StateErrorKind::AlreadyCapturing),
                )
                &&& *final(self) == *old(self)
            },
            old(self).state != CaptureSessionState::Capturing ==> {
                &&& r == Ok::<(), CaptureError>(())
                &&& final(self).capture_item == Some(capture_item)
                &&& final(self).state == CaptureSessionState::Configured
                &&& final(self).staging.slots@.len() == 0
                &&& final(self).staging.width == 0
                &&& final(self).staging.height == 0
                &&& final(self).staging.frame_count == 0
                &&& final(self).generation == saturating_inc(old(self).generation)
                &&& final(self).streams@ == old(self).streams@
                &&& final(self).buffer_pool == old(self).buffer_pool
                &&& final(self).device == old(self).device
                &&& final(self).next_stream_id == old(self).next_stream_id
            },
    {
        match self.state {
            CaptureSessionState::Capturing => {
                Err(CaptureError::StateError(StateErrorKind::AlreadyCapturing))
            },
            _ => {
                self.capture_item = Some(capture_item);
                self.state = CaptureSessionState::Configured;
                self.staging.reset();
                if self.generation < u64::MAX {
                    self.generation = self.generation + 1;
                }
                Ok(())
            },
        }
    }

    /// Arms the platform session. Fails — without touching any state — when
    /// capture is already running or no target was ever configured;
    /// otherwise the session is capturing, reusing the existing target.
    pub fn start_capture(&mut self) -> (r: Result<(), CaptureError>)
        requires
            old(self).wf(),
        ensures
            final(self).wf(),
            old(self).state == CaptureSessionState::Capturing ==> {
                &&& r == Err::<(), CaptureError>(
                    CaptureError::StateError(StateErrorKind::AlreadyCapturing),
                )
                &&& *final(self) == *old(self)
            },
            old(self).state == CaptureSessionState::Uninitialized ==> {
                &&& r == Err::<(), CaptureError>(
                    CaptureError::ConfigurationError(ConfigurationErrorKind::NoTargetSet),
                )
                &&& *final(self) == *old(self)
            },
            old(self).state == CaptureSessionState::Configured || old(self).state
                == CaptureSessionState::Stopped ==> {
                &&& r == Ok::<(), CaptureError>(())
                &&& final(self).state == CaptureSessionState::Capturing
                &&& final(self).capture_item == old(self).capture_item
                &&& final(self).staging == old(self).staging
                &&& final(self).buffer_pool == old(self).buffer_pool
                &&& final(self).streams@ == old(self).streams@
                &&& final(self).device == old(self).device
                &&& final(self).next_stream_id == old(self).next_stream_id
                &&& final(self).generation == old(self).generation
            },
    {
        match self.state {
            CaptureSessionState::Capturing => {
                Err(CaptureError::StateError(StateErrorKind::AlreadyCapturing))
            },
            CaptureSessionState::Uninitialized => {
                Err(CaptureError::ConfigurationError(ConfigurationErrorKind::NoTargetSet))
            },
            _ => {
                self.state = CaptureSessionState::Capturing;
                Ok(())
            },
        }
    }

    /// Stops capture. A no-op returning success when not capturing — always
    /// safe to call, including twice in a row and during teardown.
    /// Otherwise every live handler's producer side is torn down (frames
    /// already queued stay available to their consumers), the platform
    /// session is released, the capture epoch ends, and the session rests
    /// in `Stopped`.
    pub fn stop_capture(&mut self) -> (r: Result<(), CaptureError>)
        requires
            old(self).wf(),
        ensures
            final(self).wf(),
            r == Ok::<(), CaptureError>(()),
            final(self).state == state_after_stop(old(self).state),
            old(self).state != CaptureSessionState::Capturing ==> *final(self) == *old(self),
            old(self).state == CaptureSessionState::Capturing ==> {
                &&& final(self).capture_item == old(self).capture_item
                &&& final(self).staging == old(self).staging
                &&& final(self).buffer_pool == old(self).buffer_pool
                &&& final(self).device == old(self).device
                &&& final(self).next_stream_id == old(self).next_stream_id
                &&& final(self).generation == saturating_inc(old(self).generation)
                &&& final(self).streams@.len() == old(self).streams@.len()
                &&& forall|i: int|
                    0 <= i < old(self).streams@.len() ==> {
                        &&& slot_meta_unchanged(
                            old(self).streams@[i],
                            #[trigger] final(self).streams@[i],
                        )
                        &&& final(self).streams@[i].channel.closed
                        &&& final(self).streams@[i].channel.queue@ == old(
                            self,
                        ).streams@[i].channel.queue@
                        &&& final(self).streams@[i].channel.capacity == old(
                            self,
                        ).streams@[i].channel.capacity
                        &&& final(self).streams@[i].channel.offered@ == old(
                            self,
                        ).streams@[i].channel.offered@
                        &&& final(self).streams@[i].channel.delivered@ == old(
                            self,
                        ).streams@[i].channel.delivered@
                    }
            },
    {
        match self.state {
            CaptureSessionState::Capturing => {},
            _ => {
                return Ok(());
            },
        }
        let n = self.streams.len();
        let mut i: usize = 0;
        while i < n
            invariant
                i <= n,
                n == self.streams@.len(),
                n == old(self).streams@.len(),
                self.capture_item == old(self).capture_item,
                self.state == old(self).state,
                self.staging == old(self).staging,
                self.buffer_pool == old(self).buffer_pool,
                self.device == old(self).device,
                self.next_stream_id == old(self).next_stream_id,
                self.generation == old(self).generation,
                old(self).wf(),
                forall|j: int|
                    i <= j < n ==> self.streams@[j] == old(self).streams@[j],
                forall|j: int|
                    0 <= j < i ==> {
                        &&& slot_meta_unchanged(
                            old(self).streams@[j],
                            #[trigger] self.streams@[j],
                        )
                        &&& self.streams@[j].channel.closed
                        &&& self.streams@[j].channel.queue@ == old(
                            self,
                        ).streams@[j].channel.queue@
                        &&& self.streams@[j].channel.capacity == old(
                            self,
                        ).streams@[j].channel.capacity
                        &&& self.streams@[j].channel.offered@ == old(
                            self,
                        ).streams@[j].channel.offered@
                        &&& self.streams@[j].channel.delivered@ == old(
                            self,
                        ).streams@[j].channel.delivered@
                        &&& self.streams@[j].channel.wf()
                    },
            decreases n - i,
        {
            let slot = vstd::std_specs::vec::vec_index_mut(&mut self.streams, i);
            slot.channel.close();
            i = i + 1;
        }
        self.state = CaptureSessionState::Stopped;
        if self.generation < u64::MAX {
            self.generation = self.generation + 1;
        }
        Ok(())
    }

    /// An arrival is processed only while the session is capturing and the
    /// handler's epoch is still the live one.
    pub open spec fn arrival_live(self, gen: u64) -> bool {
        self.state == CaptureSessionState::Capturing && gen == self.generation
    }

    /// The frame the pipeline emits for an arrival, read back from the
    /// staging slot one full cycle behind the one just written: its pixels
    /// are the previous arrival's surface, tightly packed; its format is
    /// the configured target's; geometry, timestamp and dirty rectangles
    /// are the current arrival's.
    ///
    /// Meaningful in the pre-arrival state, when the staging ring already
    /// matches the arrival's geometry and at least one frame has been
    /// staged since the last reset.
    pub open spec fn emitted_frame_view(self, a: FrameArrival) -> FrameView
        recommends
            self.staging.matches_geometry(a.width, a.height),
            self.staging.frame_count >= 1,
            self.capture_item is Some,
    {
        let c = self.staging.frame_count;
        let slot = self.staging.slots@[spec_read_slot(c)];
        FrameView {
            data: packed_rows(
                slot.data@,
                slot.row_pitch as int,
                a.width * (BYTES_PER_PIXEL as int),
                a.height as int,
            ),
            format: self.capture_item.unwrap().format,
            width: a.width as int,
            height: a.height as int,
            timestamp: a.timestamp as int,
            dirty_rects: a.dirty_rects@,
        }
    }

    /// Why an arrival's surface is unusable, if it is: non-positive
    /// dimensions, a pitch too small to cover one row, a surface buffer
    /// shorter than its pitch and height require, or a packed size
    /// exceeding what a buffer on this machine can hold.
    pub open spec fn arrival_rejection(a: FrameArrival) -> Option<CaptureError> {
        if a.width <= 0 || a.height <= 0 {
            Some(CaptureError::PlatformError(PlatformErrorKind::InvalidDimensions))
        } else if (a.row_pitch as int) < a.width * (BYTES_PER_PIXEL as int) {
            Some(CaptureError::PlatformError(PlatformErrorKind::PitchTooSmall))
        } else if (a.surface@.len() as int) < (a.height - 1) * (a.row_pitch as int) + a.width * (
        BYTES_PER_PIXEL as int) {
            Some(CaptureError::PlatformError(PlatformErrorKind::SurfaceTruncated))
        } else if a.width * a.height * (BYTES_PER_PIXEL as int) > usize::MAX as int {
            Some(CaptureError::ResourceExhaustion)
        } else {
            None
        }
    }

    /// Runs the double-buffered pipeline for one frame-ready event, inside
    /// the platform's callback context.
    ///
    /// A stale or unusable arrival changes nothing. Otherwise: if this is
    /// the first arrival for the current target geometry the staging ring
    /// is reallocated to it and the counter reset; the arrival's surface is
    /// copied into the write slot `counter % depth`; the read slot
    /// `(counter - 1) mod depth` — holding the previous arrival — is packed
    /// row by row into a pooled buffer and the resulting frame is offered
    /// to every stream registered in the live epoch, dropped wherever a
    /// channel is full. The very first arrival after a reset stages its
    /// pixels but emits nothing.
    ///
    /// Failures never propagate: the offending frame is dropped, later
    /// arrivals and the session state are unaffected.
    pub fn handle_frame_arrival(&mut self, gen: u64, arrival: FrameArrival) -> (out:
        ArrivalOutcome)
        requires
            old(self).wf(),
        ensures
            final(self).wf(),
            !old(self).arrival_live(gen) ==> out == ArrivalOutcome::Stale && *final(self) == *old(
                self,
            ),
            old(self).arrival_live(gen) ==> (Self::arrival_rejection(arrival) matches Some(e)
                ==> out == ArrivalOutcome::Rejected(e) && *final(self) == *old(self)),
            old(self).arrival_live(gen) && Self::arrival_rejection(arrival) is None ==> {
                let c0: u64 = if old(self).staging.matches_geometry(arrival.width, arrival.height) {
                    old(self).staging.frame_count
                } else {
                    0u64
                };
                &&& final(self).device == old(self).device
                &&& final(self).capture_item == old(self).capture_item
                &&& final(self).state == old(self).state
                &&& final(self).generation == old(self).generation
                &&& final(self).next_stream_id == old(self).next_stream_id
                &&& final(self).streams@.len() == old(self).streams@.len()
                &&& final(self).staging.matches_geometry(arrival.width, arrival.height)
                &&& final(self).staging.frame_count == count_after(c0)
                &&& final(self).staging.slots@[spec_write_slot(c0)].width == arrival.width
                &&& final(self).staging.slots@[spec_write_slot(c0)].height == arrival.height
                &&& final(self).staging.slots@[spec_write_slot(c0)].row_pitch == arrival.row_pitch
                &&& final(self).staging.slots@[spec_write_slot(c0)].data@ == arrival.surface@
                &&& out == (if c0 == 0 {
                    ArrivalOutcome::Skipped
                } else {
                    ArrivalOutcome::Emitted
                })
                &&& c0 == 0 ==> {
                    &&& final(self).streams@ == old(self).streams@
                    &&& final(self).buffer_pool == old(self).buffer_pool
                }
                &&& c0 != 0 ==> {
                    &&& forall|j: int|
                        0 <= j < PIPELINE_DEPTH && j != spec_write_slot(c0)
                            ==> final(self).staging.slots@[j] == old(self).staging.slots@[j]
                    &&& crate::buffer_pool::pool_got_buffer(
                        old(self).buffer_pool,
                        final(self).buffer_pool,
                        arrival.width * arrival.height * (BYTES_PER_PIXEL as int),
                    )
                    &&& forall|i: int|
                        0 <= i < old(self).streams@.len() ==> {
                            &&& slot_meta_unchanged(
                                old(self).streams@[i],
                                #[trigger] final(self).streams@[i],
                            )
                            &&& old(self).streams@[i].generation == old(self).generation
                                ==> channel_offered_frame(
                                old(self).streams@[i].channel,
                                final(self).streams@[i].channel,
                                old(self).emitted_frame_view(arrival),
                            )
                            &&& old(self).streams@[i].generation != old(self).generation
                                ==> final(self).streams@[i] == old(self).streams@[i]
                        }
                }
            },
    {
        let live = match self.state {
            CaptureSessionState::Capturing => gen == self.generation,
            _ => false,
        };
        if !live {
            return ArrivalOutcome::Stale;
        }
        if arrival.width <= 0 || arrival.height <= 0 {
            return ArrivalOutcome::Rejected(
                CaptureError::PlatformError(PlatformErrorKind::InvalidDimensions),
            );
        }
        let w128: u128 = arrival.width as u128;
        let h128: u128 = arrival.height as u128;
        let pitch128: u128 = arrival.row_pitch as u128;
        let bpp128: u128 = BYTES_PER_PIXEL as u128;
        if pitch128 < w128 * bpp128 {
            return ArrivalOutcome::Rejected(
                CaptureError::PlatformError(PlatformErrorKind::PitchTooSmall),
            );
        }
        proof {
            let hh = h128 as int;
            let pp = pitch128 as int;
            let ww = w128 as int;
            assert((hh - 1) * pp <= 0x8000_0000int * 0x1_0000_0000_0000_0000int)
                by (nonlinear_arith)
                requires
                    0 <= hh - 1 <= 0x8000_0000int,
                    0 <= pp <= 0x1_0000_0000_0000_0000int,
            ;
            assert(ww * hh <= 0x8000_0000int * 0x8000_0000int) by (nonlinear_arith)
                requires
                    0 <= ww <= 0x8000_0000int,
                    0 <= hh <= 0x8000_0000int,
            ;
        }
        if (arrival.surface.len() as u128) < (h128 - 1) * pitch128 + w128 * bpp128 {
            return ArrivalOutcome::Rejected(
                CaptureError::PlatformError(PlatformErrorKind::SurfaceTruncated),
            );
        }
        if w128 * h128 * bpp128 > (usize::MAX as u128) {
            return ArrivalOutcome::Rejected(CaptureError::ResourceExhaustion);
        }
        self.staging.ensure_geometry(arrival.width, arrival.height);
        let c0 = self.staging.frame_count;
        let widx = write_slot_for(c0);
        let FrameArrival { width, height, row_pitch, surface, timestamp, dirty_rects } = arrival;
        self.staging.slots[widx] = StagingSlot { width, height, row_pitch, data: surface };
        let c_next = if c0 == u64::MAX {
            0
        } else {
            c0 + 1
        };
        self.staging.frame_count = c_next;
        if c0 == 0 {
            return ArrivalOutcome::Skipped;
        }
        proof {
            lemma_slots_alternate(c0);
        }
        let ridx = read_slot_for(c0);
        proof {
            assert(width * (BYTES_PER_PIXEL as int) <= width * height * (BYTES_PER_PIXEL as int))
                by (nonlinear_arith)
                requires
                    0 < width,
                    0 < height,
            ;
            assert(width * (BYTES_PER_PIXEL as int) * height == width * height * (BYTES_PER_PIXEL
                as int)) by (nonlinear_arith);
        }
        let row_bytes: usize = (width as usize) * BYTES_PER_PIXEL;
        let total: usize = row_bytes * (height as usize);
        let mut buf = self.buffer_pool.get_or_create(total);
        let slot_pitch: usize = self.staging.slots[ridx].row_pitch;
        proof {
            assert(total == row_bytes * (height as usize));
            assert(buf@.len() == total);
            assert((height as usize) * row_bytes == row_bytes * (height as usize))
                by (nonlinear_arith);
        }
        pack_rows(&self.staging.slots[ridx].data, slot_pitch, row_bytes, height as usize, &mut buf);
        let format = match &self.capture_item {
            Some(t) => t.format,
            None => {
                proof {
                    assert(false);
                }
                PixelFormat::RGBA8
            },
        };
        let frame = Frame {
            data: buf,
            format,
            size: Vector2 { x: width, y: height },
            timestamp,
            dirty_rects,
        };
        proof {
            assert(frame@ == old(self).emitted_frame_view(arrival));
        }
        let ghost fv = frame@;
        let ghost mid_staging = self.staging;
        let ghost mid_pool = self.buffer_pool;
        let n = self.streams.len();
        let cur_gen = self.generation;
        let mut i: usize = 0;
        while i < n
            invariant
                i <= n,
                n == self.streams@.len(),
                n == old(self).streams@.len(),
                cur_gen == old(self).generation,
                frame@ == fv,
                old(self).wf(),
                self.device == old(self).device,
                self.capture_item == old(self).capture_item,
                self.state == old(self).state,
                self.generation == old(self).generation,
                self.next_stream_id == old(self).next_stream_id,
                self.staging == mid_staging,
                self.buffer_pool == mid_pool,
                forall|j: int| i <= j < n ==> self.streams@[j] == old(self).streams@[j],
                forall|j: int|
                    0 <= j < i ==> {
                        &&& slot_meta_unchanged(old(self).streams@[j], #[trigger] self.streams@[j])
                        &&& self.streams@[j].channel.wf()
                        &&& old(self).streams@[j].generation == cur_gen ==> channel_offered_frame(
                            old(self).streams@[j].channel,
                            self.streams@[j].channel,
                            fv,
                        )
                        &&& old(self).streams@[j].generation != cur_gen ==> self.streams@[j] == old(
                            self,
                        ).streams@[j]
                    },
            decreases n - i,
        {
            if self.streams[i].generation == cur_gen {
                let copy = frame.duplicate();
                let slot = vstd::std_specs::vec::vec_index_mut(&mut self.streams, i);
                let _ = slot.channel.try_send(copy);
            }
            i = i + 1;
        }
        ArrivalOutcome::Emitted
    }

    /// The position of a registered stream, if the handle is still live.
    pub open spec fn stream_index(self, stream_id: u64) -> Option<int> {
        if exists|i: int| 0 <= i < self.streams@.len() && self.streams@[i].stream_id == stream_id {
            Some(
                choose|i: int|
                    0 <= i < self.streams@.len() && self.streams@[i].stream_id == stream_id,
            )
        } else {
            None
        }
    }

    /// Registers one frame-arrival handler under the current capture epoch
    /// and returns the stream that owns it. Requires a configured session:
    /// with no target there is no platform frame pool to register with. The
    /// frame-rate cap is kept as the minimum inter-frame interval hint
    /// handed to the platform; it throttles delivery, not quality.
    pub fn create_stream(&mut self, framerate: crate::framerate::CaptureFramerate) -> (r: Result<
        CaptureStream,
        CaptureError,
    >)
        requires
            old(self).wf(),
        ensures
            final(self).wf(),
            old(self).state != CaptureSessionState::Configured && old(self).state
                != CaptureSessionState::Capturing ==> {
                &&& r == Err::<CaptureStream, CaptureError>(
                    CaptureError::ConfigurationError(ConfigurationErrorKind::NoFramePool),
                )
                &&& *final(self) == *old(self)
            },
            (old(self).state == CaptureSessionState::Configured || old(self).state
                == CaptureSessionState::Capturing) && old(self).next_stream_id == u64::MAX ==> {
                &&& r == Err::<CaptureStream, CaptureError>(CaptureError::ResourceExhaustion)
                &&& *final(self) == *old(self)
            },
            (old(self).state == CaptureSessionState::Configured || old(self).state
                == CaptureSessionState::Capturing) && old(self).next_stream_id != u64::MAX ==> {
                &&& r == Ok::<CaptureStream, CaptureError>(
                    CaptureStream { stream_id: old(self).next_stream_id },
                )
                &&& final(self).streams@.len() == old(self).streams@.len() + 1
                &&& forall|i: int|
                    0 <= i < old(self).streams@.len() ==> final(self).streams@[i] == old(
                        self,
                    ).streams@[i]
                &&& final(self).streams@.last().stream_id == old(self).next_stream_id
                &&& final(self).streams@.last().generation == old(self).generation
                &&& final(self).streams@.last().min_interval_ns == framerate.frametime_nanos()
                &&& final(self).streams@.last().channel.capacity == CHANNEL_CAPACITY
                &&& final(self).streams@.last().channel.queue@.len() == 0
                &&& !final(self).streams@.last().channel.closed
                &&& final(self).streams@.last().channel.offered@ == Seq::<FrameView>::empty()
                &&& final(self).streams@.last().channel.delivered@ == Seq::<FrameView>::empty()
                &&& final(self).next_stream_id == old(self).next_stream_id + 1
                &&& final(self).state == old(self).state
                &&& final(self).capture_item == old(self).capture_item
                &&& final(self).staging == old(self).staging
                &&& final(self).buffer_pool == old(self).buffer_pool
                &&& final(self).device == old(self).device
                &&& final(self).generation == old(self).generation
            },
    {
        let eligible = match self.state {
            CaptureSessionState::Configured => true,
            CaptureSessionState::Capturing => true,
            _ => false,
        };
        if !eligible {
            return Err(CaptureError::ConfigurationError(ConfigurationErrorKind::NoFramePool));
        }
        if self.next_stream_id == u64::MAX {
            return Err(CaptureError::ResourceExhaustion);
        }
        let stream_id = self.next_stream_id;
        let min_interval_ns = framerate.to_frametime();
        let slot = StreamSlot {
            stream_id,
            generation: self.generation,
            min_interval_ns,
            channel: FrameChannel::new(CHANNEL_CAPACITY),
        };
        self.streams.push(slot);
        self.next_stream_id = self.next_stream_id + 1;
        Ok(CaptureStream { stream_id })
    }

    /// Hands the consumer behind `stream` its oldest queued frame, if any.
    /// Returns nothing when the queue is empty — or when the handle is no
    /// longer registered at all.
    pub fn next_frame(&mut self, stream: &CaptureStream) -> (r: Option<Frame>)
        requires
            old(self).wf(),
        ensures
            final(self).wf(),
            final(self).capture_item == old(self).capture_item,
            final(self).state == old(self).state,
            final(self).staging == old(self).staging,
            final(self).buffer_pool == old(self).buffer_pool,
            final(self).device == old(self).device,
            final(self).next_stream_id == old(self).next_stream_id,
            final(self).generation == old(self).generation,
            final(self).streams@.len() == old(self).streams@.len(),
            old(self).stream_index(stream.stream_id) is None ==> r is None && final(self).streams@
                == old(self).streams@,
            old(self).stream_index(stream.stream_id) matches Some(i) ==> {
                &&& forall|j: int|
                    0 <= j < old(self).streams@.len() && j != i ==> final(self).streams@[j] == old(
                        self,
                    ).streams@[j]
                &&& slot_meta_unchanged(old(self).streams@[i], final(self).streams@[i])
                &&& final(self).streams@[i].channel.offered@ == old(
                    self,
                ).streams@[i].channel.offered@
                &&& final(self).streams@[i].channel.closed == old(
                    self,
                ).streams@[i].channel.closed
                &&& final(self).streams@[i].channel.capacity == old(
                    self,
                ).streams@[i].channel.capacity
                &&& old(self).streams@[i].channel.queue@.len() == 0 ==> {
                    &&& r is None
                    &&& final(self).streams@[i].channel.queue@ == old(self).streams@[i].channel.queue@
                    &&& final(self).streams@[i].channel.delivered@ == old(self).streams@[i].channel.delivered@
                }
                &&& old(self).streams@[i].channel.queue@.len() > 0 ==> {
                    &&& r == Some(old(self).streams@[i].channel.queue@[0])
                    &&& final(self).streams@[i].channel.queue@ == old(self).streams@[i].channel.queue@.subrange(
                        1,
                        old(self).streams@[i].channel.queue@.len() as int,
                    )
                    &&& final(self).streams@[i].channel.delivered@ == old(self).streams@[i].channel.delivered@.push(
                        old(self).streams@[i].channel.queue@[0]@,
                    )
                }
            },
    {
        let n = self.streams.len();
        let mut i: usize = 0;
        while i < n
            invariant
                i <= n,
                n == self.streams@.len(),
                *self == *old(self),
                old(self).wf(),
                forall|j: int| 0 <= j < i ==> self.streams@[j].stream_id != stream.stream_id,
            decreases n - i,
        {
            if self.streams[i].stream_id == stream.stream_id {
                proof {
                    let k = choose|k: int|
                        0 <= k < old(self).streams@.len() && old(self).streams@[k].stream_id
                            == stream.stream_id;
                    if k < i {
                        assert(old(self).streams@[k].stream_id < old(
                            self,
                        ).streams@[i as int].stream_id);
                    } else if k > i {
                        assert(old(self).streams@[i as int].stream_id < old(
                            self,
                        ).streams@[k].stream_id);
                    }
                    assert(old(self).stream_index(stream.stream_id) == Some(i as int));
                }
                let slot = vstd::std_specs::vec::vec_index_mut(&mut self.streams, i);
                let r = slot.channel.recv();
                return r;
            }
            i = i + 1;
        }
        proof {
            assert(old(self).stream_index(stream.stream_id) is None);
        }
        None
    }

    /// Whether the lazy sequence behind `stream` has terminated: its
    /// producer side was torn down and every queued frame has been taken.
    /// An unregistered handle counts as terminated.
    pub fn stream_ended(&self, stream: &CaptureStream) -> (b: bool)
        requires
            self.wf(),
        ensures
            self.stream_index(stream.stream_id) is None ==> b,
            self.stream_index(stream.stream_id) matches Some(i) ==> b == (
            self.streams@[i].channel.closed && self.streams@[i].channel.queue@.len() == 0),
    {
        let n = self.streams.len();
        let mut i: usize = 0;
        while i < n
            invariant
                i <= n,
                n == self.streams@.len(),
                self.wf(),
                forall|j: int| 0 <= j < i ==> self.streams@[j].stream_id != stream.stream_id,
            decreases n - i,
        {
            if self.streams[i].stream_id == stream.stream_id {
                proof {
                    let k = choose|k: int|
                        0 <= k < self.streams@.len() && self.streams@[k].stream_id
                            == stream.stream_id;
                    if k < i {
                        assert(self.streams@[k].stream_id < self.streams@[i as int].stream_id);
                    } else if k > i {
                        assert(self.streams@[i as int].stream_id < self.streams@[k].stream_id);
                    }
                    assert(self.stream_index(stream.stream_id) == Some(i as int));
                }
                return self.streams[i].channel.is_terminated();
            }
            i = i + 1;
        }
        proof {
            assert(self.stream_index(stream.stream_id) is None);
        }
        true
    }

    /// Releases a stream: its handler registration is removed from the
    /// session, dropping any frames still queued. Called when the consumer
    /// is done with the stream, on every exit path.
    pub fn close_stream(&mut self, stream: CaptureStream)
        requires
            old(self).wf(),
        ensures
            final(self).wf(),
            final(self).capture_item == old(self).capture_item,
            final(self).state == old(self).state,
            final(self).staging == old(self).staging,
            final(self).buffer_pool == old(self).buffer_pool,
            final(self).device == old(self).device,
            final(self).next_stream_id == old(self).next_stream_id,
            final(self).generation == old(self).generation,
            old(self).stream_index(stream.stream_id) is None ==> final(self).streams@ == old(
                self,
            ).streams@,
            old(self).stream_index(stream.stream_id) matches Some(i) ==> final(self).streams@
                == old(self).streams@.remove(i),
    {
        let n = self.streams.len();
        let mut i: usize = 0;
        while i < n
            invariant
                i <= n,
                n == self.streams@.len(),
                *self == *old(self),
                old(self).wf(),
                forall|j: int| 0 <= j < i ==> self.streams@[j].stream_id != stream.stream_id,
            decreases n - i,
        {
            if self.streams[i].stream_id == stream.stream_id {
                proof {
                    let k = choose|k: int|
                        0 <= k < old(self).streams@.len() && old(self).streams@[k].stream_id
                            == stream.stream_id;
                    if k < i {
                        assert(old(self).streams@[k].stream_id < old(
                            self,
                        ).streams@[i as int].stream_id);
                    } else if k > i {
                        assert(old(self).streams@[i as int].stream_id < old(
                            self,
                        ).streams@[k].stream_id);
                    }
                    assert(old(self).stream_index(stream.stream_id) == Some(i as int));
                }
                self.streams.remove(i);
                return ;
            }
            i = i + 1;
        }
        proof {
            assert(old(self).stream_index(stream.stream_id) is None);
        }
    }

    /// Law: frame order observed by any one stream is a subsequence of the
    /// order in which the pipeline offered frames to it — under
    /// backpressure frames are dropped, never reordered.
    pub proof fn lemma_stream_order(self, i: int)
        requires
            self.wf(),
            0 <= i < self.streams@.len(),
        ensures
            crate::channel::is_subsequence(
                self.streams@[i].channel.delivered@,
                self.streams@[i].channel.offered@,
            ),
    {
        self.streams@[i].channel.lemma_frames_never_reordered();
    }

    /// Returns a released frame's buffer to the pool, completing the
    /// scoped borrow that `get_or_create` began.
    pub fn release_frame(&mut self, frame: Frame)
        ensures
            final(self).capture_item == old(self).capture_item,
            final(self).state == old(self).state,
            final(self).staging == old(self).staging,
            final(self).streams@ == old(self).streams@,
            final(self).device == old(self).device,
            final(self).next_stream_id == old(self).next_stream_id,
            final(self).generation == old(self).generation,
            final(self).buffer_pool.allocations == old(self).buffer_pool.allocations,
            final(self).buffer_pool.max_retained == old(self).buffer_pool.max_retained,
            old(self).buffer_pool.retained@.len() < old(self).buffer_pool.max_retained ==> final(self).buffer_pool.retained@ == old(self).buffer_pool.retained@.push(frame.data),
            old(self).buffer_pool.retained@.len() >= old(self).buffer_pool.max_retained ==> final(self).buffer_pool.retained@ == old(self).buffer_pool.retained@,
            old(self).wf() ==> final(self).wf(),
    {
        let Frame { data, .. } = frame;
        self.buffer_pool.release(data);
    }
}

impl crate::capture_provider::CaptureProvider for WgcCaptureProvider {
    type Stream = CaptureStream;

    type CaptureItem = CaptureTarget;

    type Error = CaptureError;

    open spec fn inv(&self) -> bool {
        self.wf()
    }

    fn create_stream(&mut self, framerate: crate::framerate::CaptureFramerate) -> (r: Result<
        CaptureStream,
        CaptureError,
    >) {
        WgcCaptureProvider::create_stream(self, framerate)
    }

    fn set_capture_item(&mut self, capture_item: CaptureTarget) -> (r: Result<(), CaptureError>) {
        WgcCaptureProvider::set_capture_item(self, capture_item)
    }

    fn start_capture(&mut self) -> (r: Result<(), CaptureError>) {
        WgcCaptureProvider::start_capture(self)
    }

    fn stop_capture(&mut self) -> (r: Result<(), CaptureError>) {
        WgcCaptureProvider::stop_capture(self)
    }
}

} // verus!
