//! The fixed-size ring of staging surfaces and the frame counter that
//! selects slots in it.
//!
//! A staging slot models one CPU-readable surface: the geometry it was
//! allocated for, the row pitch of its last written contents, and those
//! contents as plain bytes. The slot count is the pipeline depth; the
//! monotonically advancing frame counter picks the write slot `counter %
//! depth` and the read slot `(counter - 1) mod depth`, so the surface read
//! back lags the surface just written by one full cycle.

use vstd::prelude::*;
use vstd::arithmetic::div_mod::{
    lemma_fundamental_div_mod, lemma_fundamental_div_mod_converse,
};
use crate::frame::BYTES_PER_PIXEL;

verus! {

/// Number of staging slots in rotation.
pub const PIPELINE_DEPTH: usize = 2;

/// The slot an arrival with this counter value is copied into.
pub open spec fn spec_write_slot(counter: u64) -> int {
    counter as int % (PIPELINE_DEPTH as int)
}

/// The slot an arrival with this counter value reads back, one full cycle
/// behind the write slot. Meaningful for `counter >= 1`; the very first
/// arrival after a reset has no prior slot contents to read.
pub open spec fn spec_read_slot(counter: u64) -> int
    recommends
        counter >= 1,
{
    (counter - 1) % (PIPELINE_DEPTH as int)
}

/// Slot index written by an arrival observing `counter`.
pub fn write_slot_for(counter: u64) -> (slot: usize)
    ensures
        slot == spec_write_slot(counter),
{
    (counter % (PIPELINE_DEPTH as u64)) as usize
}

/// Slot index read back by an arrival observing `counter`.
pub fn read_slot_for(counter: u64) -> (slot: usize)
    requires
        counter >= 1,
    ensures
        slot == spec_read_slot(counter),
{
    ((counter - 1) % (PIPELINE_DEPTH as u64)) as usize
}

/// The frame counter after one more arrival; the counter wraps rather than
/// halting the pipeline.
pub open spec fn count_after(counter: u64) -> u64 {
    if counter == u64::MAX {
        0
    } else {
        (counter + 1) as u64
    }
}

/// For every counter past the first, the slot read back is never the slot
/// just written: reads lag writes by one full cycle.
pub proof fn lemma_slots_alternate(counter: u64)
    requires
        counter >= 1,
    ensures
        0 <= spec_write_slot(counter) < PIPELINE_DEPTH,
        0 <= spec_read_slot(counter) < PIPELINE_DEPTH,
        spec_read_slot(counter) != spec_write_slot(counter),
{
    let c = counter as int;
    lemma_fundamental_div_mod(c, 2);
    if c % 2 == 0 {
        lemma_fundamental_div_mod_converse(c - 1, 2, c / 2 - 1, 1);
    } else {
        lemma_fundamental_div_mod_converse(c - 1, 2, c / 2, 0);
    }
}

/// One staging surface: the geometry it was allocated for, plus its current
/// contents and their row pitch.
pub struct StagingSlot {
    pub width: i32,
    pub height: i32,
    pub row_pitch: usize,
    pub data: Vec<u8>,
}

impl StagingSlot {
    /// The slot holds a readable surface for a `width` by `height` target:
    /// its pitch covers one row of pixels and its bytes cover every row at
    /// that pitch.
    pub open spec fn wf_for(self, width: i32, height: i32) -> bool {
        &&& self.width == width
        &&& self.height == height
        &&& 0 < width
        &&& 0 < height
        &&& self.row_pitch >= width * (BYTES_PER_PIXEL as int)
        &&& self.data@.len() >= (height - 1) * self.row_pitch + width * (BYTES_PER_PIXEL as int)
    }
}

/// The ring of staging slots sized to the capture target's current geometry,
/// together with the frame counter driving slot selection.
pub struct StagingSlotSet {
    pub slots: Vec<StagingSlot>,
    pub width: i32,
    pub height: i32,
    pub frame_count: u64,
}

impl StagingSlotSet {
    /// Either no slots are allocated yet, or there is a full ring of
    /// readable slots matching the recorded geometry.
    pub open spec fn wf(self) -> bool {
        ||| self.slots@.len() == 0
        ||| {
            &&& self.slots@.len() == PIPELINE_DEPTH
            &&& forall|j: int|
                0 <= j < self.slots@.len() ==> (#[trigger] self.slots@[j]).wf_for(
                    self.width,
                    self.height,
                )
        }
    }

    /// The ring is allocated and matches an arrival of the given geometry.
    pub open spec fn matches_geometry(self, width: i32, height: i32) -> bool {
        &&& self.slots@.len() == PIPELINE_DEPTH
        &&& self.width == width
        &&& self.height == height
    }

    /// An empty set: no slots allocated, counter at zero.
    pub fn new() -> (s: StagingSlotSet)
        ensures
            s.slots@.len() == 0,
            s.width == 0,
            s.height == 0,
            s.frame_count == 0,
            s.wf(),
    {
        StagingSlotSet { slots: Vec::new(), width: 0, height: 0, frame_count: 0 }
    }

    /// Drops all slots and resets the counter, leaving geometry unset.
    /// Invoked when the capture target is replaced.
    pub fn reset(&mut self)
        ensures
            final(self).slots@.len() == 0,
            final(self).width == 0,
            final(self).height == 0,
            final(self).frame_count == 0,
            final(self).wf(),
    {
        self.slots = Vec::new();
        self.width = 0;
        self.height = 0;
        self.frame_count = 0;
    }

    /// Reallocates every slot for a new target geometry and resets the frame
    /// counter to zero. Fresh slots are tightly pitched and zero filled.
    ///
    /// Does nothing when the ring already matches the geometry.
    pub fn ensure_geometry(&mut self, width: i32, height: i32)
        requires
            old(self).wf(),
            0 < width,
            0 < height,
            width * height * (BYTES_PER_PIXEL as int) <= usize::MAX,
        ensures
            final(self).wf(),
            final(self).matches_geometry(width, height),
            old(self).matches_geometry(width, height) ==> *final(self) == *old(self),
            !old(self).matches_geometry(width, height) ==> {
                &&& final(self).frame_count == 0
                &&& final(self).slots@.len() == PIPELINE_DEPTH
                &&& forall|j: int|
                    0 <= j < PIPELINE_DEPTH ==> (#[trigger] final(self).slots@[j]).width == width
                        && final(self).slots@[j].height == height
                        && final(self).slots@[j].row_pitch == width * (BYTES_PER_PIXEL as int)
                        && final(self).slots@[j].data@ == Seq::new(
                        (width * height * (BYTES_PER_PIXEL as int)) as nat,
                        |k: int| 0u8,
                    )
            },
    {
        if self.slots.len() == PIPELINE_DEPTH && self.width == width && self.height == height {
            return ;
        }
        proof {
            assert(width * (BYTES_PER_PIXEL as int) <= width * height * (BYTES_PER_PIXEL as int))
                by (nonlinear_arith)
                requires
                    0 < width,
                    0 < height,
            ;
            assert(width * (BYTES_PER_PIXEL as int) * height == width * height * (BYTES_PER_PIXEL
                as int)) by (nonlinear_arith);
        }
        let row_bytes: usize = (width as usize) * BYTES_PER_PIXEL;
        let total: usize = row_bytes * (height as usize);
        let mut slots: Vec<StagingSlot> = Vec::new();
        while slots.len() < PIPELINE_DEPTH
            invariant
                slots@.len() <= PIPELINE_DEPTH,
                0 < width,
                0 < height,
                row_bytes == width * (BYTES_PER_PIXEL as int),
                total == width * height * (BYTES_PER_PIXEL as int),
                forall|j: int|
                    0 <= j < slots@.len() ==> (#[trigger] slots@[j]).width == width
                        && slots@[j].height == height && slots@[j].row_pitch == row_bytes
                        && slots@[j].data@ == Seq::new(total as nat, |k: int| 0u8),
            decreases PIPELINE_DEPTH - slots@.len(),
        {
            let data = zeroed_bytes(total);
            slots.push(StagingSlot { width, height, row_pitch: row_bytes, data });
        }
        self.slots = slots;
        self.width = width;
        self.height = height;
        self.frame_count = 0;
        proof {
            assert forall|j: int| 0 <= j < self.slots@.len() implies (
            #[trigger] self.slots@[j]).wf_for(width, height) by {
                assert(self.slots@[j].data@.len() == width * height * (BYTES_PER_PIXEL as int));
                assert((height - 1) * row_bytes + width * (BYTES_PER_PIXEL as int) == height
                    * row_bytes) by (nonlinear_arith)
                    requires
                        row_bytes == width * (BYTES_PER_PIXEL as int),
                ;
                assert(width * height * (BYTES_PER_PIXEL as int) == height * row_bytes)
                    by (nonlinear_arith)
                    requires
                        row_bytes == width * (BYTES_PER_PIXEL as int),
                ;
            }
        }
    }
}

/// A zero-filled buffer of the requested length.
fn zeroed_bytes(len: usize) -> (r: Vec<u8>)
    ensures
        r@ == Seq::new(len as nat, |k: int| 0u8),
{
    let mut buf: Vec<u8> = Vec::new();
    let mut k: usize = 0;
    while k < len
        invariant
            k <= len,
            buf@ =~= Seq::new(k as nat, |j: int| 0u8),
        decreases len - k,
    {
        buf.push(0u8);
        k = k + 1;
        proof {
            assert(buf@ =~= Seq::new(k as nat, |j: int| 0u8));
        }
    }
    proof {
        assert(buf@ =~= Seq::new(len as nat, |j: int| 0u8));
    }
    buf
}

} // verus!
