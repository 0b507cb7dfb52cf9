//! Bounded, drop-on-full hand-off from the producer callback to a consumer.
//!
//! The producer executes on a platform-owned callback thread and must never
//! block, so a send into a full channel drops the new frame instead of
//! waiting, and a send into a closed channel is silently discarded. The
//! channel never reorders: what a consumer observes is always a subsequence
//! of what the producer offered, in arrival order.
//!
//! Two ghost histories record every frame ever offered and every frame
//! handed to the consumer, so that the ordering guarantee is a stated,
//! proved invariant rather than folklore.

use std::collections::VecDeque;
use vstd::prelude::*;
use crate::frame::{Frame, FrameView};

verus! {

/// `a` is obtained from `b` by deleting zero or more elements, keeping the
/// order of the rest.
pub open spec fn is_subsequence<T>(a: Seq<T>, b: Seq<T>) -> bool
    decreases b.len(),
{
    if a.len() == 0 {
        true
    } else if b.len() == 0 {
        false
    } else {
        (a.last() == b.last() && is_subsequence(a.drop_last(), b.drop_last())) || is_subsequence(
            a,
            b.drop_last(),
        )
    }
}

pub proof fn lemma_subsequence_push_both<T>(a: Seq<T>, b: Seq<T>, x: T)
    requires
        is_subsequence(a, b),
    ensures
        is_subsequence(a.push(x), b.push(x)),
{
    assert(a.push(x).drop_last() =~= a);
    assert(b.push(x).drop_last() =~= b);
    assert(a.push(x).last() == x);
    assert(b.push(x).last() == x);
}

pub proof fn lemma_subsequence_push_right<T>(a: Seq<T>, b: Seq<T>, x: T)
    requires
        is_subsequence(a, b),
    ensures
        is_subsequence(a, b.push(x)),
{
    if a.len() > 0 {
        assert(b.push(x).drop_last() =~= b);
    }
}

/// A prefix of a subsequence of `b` is itself a subsequence of `b`.
pub proof fn lemma_subsequence_take<T>(a: Seq<T>, b: Seq<T>, i: int)
    requires
        is_subsequence(a, b),
        0 <= i <= a.len(),
    ensures
        is_subsequence(a.take(i), b),
    decreases b.len(),
{
    if i == a.len() {
        assert(a.take(i) =~= a);
    } else if a.len() == 0 {
        assert(a.take(i) =~= a);
    } else {
        if a.last() == b.last() && is_subsequence(a.drop_last(), b.drop_last()) {
            assert(a.drop_last().take(i) =~= a.take(i));
            lemma_subsequence_take(a.drop_last(), b.drop_last(), i);
        } else {
            lemma_subsequence_take(a, b.drop_last(), i);
        }
        if a.take(i).len() > 0 {
            assert(is_subsequence(a.take(i), b));
        }
    }
}

/// Relates a channel before and after one frame was offered to it: the
/// offer is recorded, the frame is queued exactly when there was room and
/// the consumer was still attached, and nothing else moves.
pub open spec fn channel_offered_frame(
    before: FrameChannel,
    after: FrameChannel,
    fv: FrameView,
) -> bool {
    &&& after.offered@ == before.offered@.push(fv)
    &&& after.delivered@ == before.delivered@
    &&& after.capacity == before.capacity
    &&& after.closed == before.closed
    &&& before.would_accept() ==> after.queue_views() == before.queue_views().push(fv)
    &&& !before.would_accept() ==> after.queue@ == before.queue@
}

/// What became of one offered frame.
#[derive(Debug, Clone, Copy, PartialEq, Eq, Structural)]
pub enum SendOutcome {
    /// The frame was queued for the consumer.
    Sent,
    /// The channel was full; the frame was dropped.
    DroppedFull,
    /// The consumer side was torn down; the frame was silently discarded.
    Closed,
}

/// Fixed-capacity single-producer hand-off queue.
pub struct FrameChannel {
    pub queue: VecDeque<Frame>,
    pub capacity: usize,
    pub closed: bool,
    /// Every frame the producer ever offered, in arrival order.
    pub offered: Ghost<Seq<FrameView>>,
    /// Every frame handed to the consumer, in delivery order.
    pub delivered: Ghost<Seq<FrameView>>,
}

impl FrameChannel {
    /// The queued frames as mathematical values, front first.
    pub open spec fn queue_views(self) -> Seq<FrameView> {
        self.queue@.map_values(|f: Frame| f@)
    }

    /// The channel invariant: the queue respects the capacity bound, and
    /// what was delivered followed by what is still queued is a subsequence
    /// of what was offered.
    pub open spec fn wf(self) -> bool {
        &&& self.capacity >= 1
        &&& self.queue@.len() <= self.capacity
        &&& is_subsequence(self.delivered@ + self.queue_views(), self.offered@)
    }

    /// A send at this instant would enqueue rather than drop.
    pub open spec fn would_accept(self) -> bool {
        !self.closed && self.queue@.len() < self.capacity
    }

    pub fn new(capacity: usize) -> (ch: FrameChannel)
        requires
            capacity >= 1,
        ensures
            ch.capacity == capacity,
            ch.queue@.len() == 0,
            !ch.closed,
            ch.offered@ == Seq::<FrameView>::empty(),
            ch.delivered@ == Seq::<FrameView>::empty(),
            ch.wf(),
    {
        let ch = FrameChannel {
            queue: VecDeque::new(),
            capacity,
            closed: false,
            offered: Ghost(Seq::empty()),
            delivered: Ghost(Seq::empty()),
        };
        proof {
            assert(ch.delivered@ + ch.queue_views() =~= Seq::<FrameView>::empty());
        }
        ch
    }

    /// Non-blocking send. Queues the frame when there is room and the
    /// consumer is still attached; otherwise the frame is dropped — the
    /// producer is never made to wait.
    pub fn try_send(&mut self, frame: Frame) -> (out: SendOutcome)
        requires
            old(self).wf(),
        ensures
            final(self).wf(),
            final(self).offered@ == old(self).offered@.push(frame@),
            final(self).delivered@ == old(self).delivered@,
            final(self).capacity == old(self).capacity,
            final(self).closed == old(self).closed,
            old(self).closed ==> out == SendOutcome::Closed && final(self).queue@ == old(
                self,
            ).queue@,
            !old(self).closed && old(self).queue@.len() >= old(self).capacity ==> out
                == SendOutcome::DroppedFull && final(self).queue@ == old(self).queue@,
            old(self).would_accept() ==> out == SendOutcome::Sent && final(self).queue@ == old(
                self,
            ).queue@.push(frame) && final(self).queue_views() == old(self).queue_views().push(
                frame@,
            ),
            channel_offered_frame(*old(self), *final(self), frame@),
    {
        let ghost f = frame@;
        if self.closed {
            proof {
                lemma_subsequence_push_right(
                    self.delivered@ + self.queue_views(),
                    self.offered@,
                    f,
                );
            }
            self.offered = Ghost(self.offered@.push(f));
            SendOutcome::Closed
        } else if self.queue.len() >= self.capacity {
            proof {
                lemma_subsequence_push_right(
                    self.delivered@ + self.queue_views(),
                    self.offered@,
                    f,
                );
            }
            self.offered = Ghost(self.offered@.push(f));
            SendOutcome::DroppedFull
        } else {
            proof {
                lemma_subsequence_push_both(
                    self.delivered@ + self.queue_views(),
                    self.offered@,
                    f,
                );
            }
            self.queue.push_back(frame);
            self.offered = Ghost(self.offered@.push(f));
            proof {
                assert(self.queue_views() =~= old(self).queue_views().push(f));
                assert(self.delivered@ + self.queue_views() =~= (old(self).delivered@ + old(
                    self,
                ).queue_views()).push(f));
            }
            SendOutcome::Sent
        }
    }

    /// Hands the consumer the oldest queued frame, if any.
    pub fn recv(&mut self) -> (r: Option<Frame>)
        requires
            old(self).wf(),
        ensures
            final(self).wf(),
            final(self).offered@ == old(self).offered@,
            final(self).capacity == old(self).capacity,
            final(self).closed == old(self).closed,
            old(self).queue@.len() == 0 ==> r is None && final(self).queue@ == old(self).queue@
                && final(self).delivered@ == old(self).delivered@,
            old(self).queue@.len() > 0 ==> {
                &&& r == Some(old(self).queue@[0])
                &&& final(self).queue@ == old(self).queue@.subrange(
                    1,
                    old(self).queue@.len() as int,
                )
                &&& final(self).delivered@ == old(self).delivered@.push(old(self).queue@[0]@)
            },
    {
        let r = self.queue.pop_front();
        match r {
            None => None,
            Some(frame) => {
                self.delivered = Ghost(self.delivered@.push(frame@));
                proof {
                    assert(self.delivered@ + self.queue_views() =~= old(self).delivered@ + old(
                        self,
                    ).queue_views());
                }
                Some(frame)
            },
        }
    }

    /// Tears down the producer side: later sends are silently discarded.
    /// Frames already queued stay available to the consumer.
    pub fn close(&mut self)
        ensures
            final(self).closed,
            final(self).queue@ == old(self).queue@,
            final(self).capacity == old(self).capacity,
            final(self).offered@ == old(self).offered@,
            final(self).delivered@ == old(self).delivered@,
            old(self).wf() ==> final(self).wf(),
    {
        self.closed = true;
    }

    /// The sequence already delivered to the consumer is over once the
    /// producer side is closed and the queue has drained.
    pub fn is_terminated(&self) -> (b: bool)
        ensures
            b == (self.closed && self.queue@.len() == 0),
    {
        self.closed && self.queue.len() == 0
    }

    /// Law: frame order observed by the consumer is a subsequence of
    /// arrival order — the channel drops under backpressure but never
    /// reorders. This holds of the delivered history alone and of the
    /// delivered history extended by everything still queued.
    pub proof fn lemma_frames_never_reordered(self)
        requires
            self.wf(),
        ensures
            is_subsequence(self.delivered@ + self.queue_views(), self.offered@),
            is_subsequence(self.delivered@, self.offered@),
    {
        let dq = self.delivered@ + self.queue_views();
        assert(self.delivered@ =~= dq.take(self.delivered@.len() as int));
        lemma_subsequence_take(dq, self.offered@, self.delivered@.len() as int);
    }
}

} // verus!
