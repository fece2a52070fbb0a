//! The consumer-facing side of the session: retrieves the next ready frame,
//! driving the adaptive buffering controller.

use crate::average::{avg_next, update_running_average, AVG_CAP};
use crate::config::{congestion_threshold, DecoderInitConfig};
use crate::frames::{DequeuedFrame, QueuedImage};
use std::collections::VecDeque;
use vstd::prelude::*;

verus! {

/// The queue after retiring a previously returned frame: the head is popped
/// exactly when it was already handed out (`in_use`).
pub open spec fn after_consumed_pop(q: Seq<QueuedImage>) -> Seq<QueuedImage> {
    if q.len() > 0 && q[0].in_use {
        q.drop_first()
    } else {
        q
    }
}

/// Retrieves decoded frames in order and keeps the buffered latency near the
/// configured depth by an exponential running average of the queue length.
pub struct VideoDecoderDequeuer {
    pub image_queue: VecDeque<QueuedImage>,
    pub config: DecoderInitConfig,
    pub buffering_running_average: u128,
}

impl VideoDecoderDequeuer {
    pub open spec fn wf(self) -> bool {
        &&& self.config.wf()
        &&& self.buffering_running_average <= AVG_CAP
    }

    /// The running average one call of `dequeue_frame` leaves behind: one
    /// update with the queue length observed after retiring the consumed
    /// head.
    pub open spec fn avg_after(self) -> int {
        avg_next(
            self.buffering_running_average as int,
            after_consumed_pop(self.image_queue@).len() as int,
            self.config.buffering_history_weight as int,
        )
    }

    /// Whether that average exceeds the configured depth, so that the call
    /// drops the head to shed latency.
    pub open spec fn congestion_drop(self) -> bool {
        self.avg_after() > congestion_threshold(self.config.max_buffering_frames as int)
    }

    /// The queue one call of `dequeue_frame` reads its result from: the
    /// consumed head retired, then at most one head dropped under
    /// congestion.
    pub open spec fn queue_after(self) -> Seq<QueuedImage> {
        let q = after_consumed_pop(self.image_queue@);
        if self.congestion_drop() && q.len() > 0 {
            q.drop_first()
        } else {
            q
        }
    }

    /// Returns the next ready frame, or nothing on underflow.
    ///
    /// The caller must have finished using the previously returned frame:
    /// the call first retires a head that was already handed out, then
    /// updates the running average with the observed queue length, drops the
    /// head if the average exceeds the configured depth, and finally hands
    /// out the new head, marked `in_use`.
    pub fn dequeue_frame(&mut self) -> (r: Option<DequeuedFrame>)
        requires
            old(self).wf(),
        ensures
            final(self).wf(),
            final(self).config == old(self).config,
            final(self).buffering_running_average as int == old(self).avg_after(),
            ({
                let q = old(self).queue_after();
                if q.len() > 0 {
                    &&& r == Some(DequeuedFrame { timestamp_ns: q[0].timestamp_ns, image: q[0].image })
                    &&& final(self).image_queue@ == q.update(
                        0,
                        (QueuedImage {
                            timestamp_ns: q[0].timestamp_ns,
                            image: q[0].image,
                            in_use: true,
                        }),
                    )
                } else {
                    &&& r is None
                    &&& final(self).image_queue@ == q
                }
            }),
    {
        if self.image_queue.len() > 0 {
            if self.image_queue[0].in_use {
                // The consumer has finished with the frame returned last
                // time; retire it.
                self.image_queue.pop_front();
            }
        }

        let len = self.image_queue.len();
        self.buffering_running_average = update_running_average(
            self.buffering_running_average,
            len,
            self.config.buffering_history_weight,
        );

        let threshold: u128 = (self.config.max_buffering_frames as u128) * 1_000_000;
        if self.buffering_running_average > threshold {
            // Sustained congestion: trade one frame for lower latency.
            self.image_queue.pop_front();
        }

        if self.image_queue.len() > 0 {
            let head = self.image_queue.pop_front().unwrap();
            let marked = QueuedImage {
                timestamp_ns: head.timestamp_ns,
                image: head.image,
                in_use: true,
            };
            self.image_queue.push_front(marked);
            proof {
                assert(final(self).image_queue@ =~= old(self).queue_after().update(0, marked));
            }
            Some(DequeuedFrame { timestamp_ns: head.timestamp_ns, image: head.image })
        } else {
            None
        }
    }
}

/// A frame stays at the head until it is consumed: when the head was not yet
/// handed out and the congestion controller does not drop, the call hands
/// out the entry head itself, and leaves it at the head.
pub proof fn lemma_head_retained_until_consumed(s: VideoDecoderDequeuer)
    requires
        s.wf(),
        s.image_queue@.len() > 0,
        !s.image_queue@[0].in_use,
        s.avg_after() <= congestion_threshold(s.config.max_buffering_frames as int),
    ensures
        s.queue_after().len() > 0,
        s.queue_after()[0] == s.image_queue@[0],
{
}

/// Only the frame handed to the consumer is ever in flight: every queue
/// entry behind the head is not in use.
pub open spec fn at_most_head_in_use(q: Seq<QueuedImage>) -> bool {
    forall|i: int| 1 <= i < q.len() ==> !q[i].in_use
}

/// One in-flight frame at a time: when at most the head of the queue is in
/// use, the queue a `dequeue_frame` call leaves behind — its result queue,
/// with the head it hands out rewritten — keeps that shape, whatever the
/// rewritten head holds.
pub proof fn lemma_single_inflight_frame(s: VideoDecoderDequeuer, m: QueuedImage)
    requires
        at_most_head_in_use(s.image_queue@),
    ensures
        at_most_head_in_use(s.queue_after()),
        s.queue_after().len() > 0 ==> at_most_head_in_use(s.queue_after().update(0, m)),
{
    let q = s.image_queue@;
    let q1 = after_consumed_pop(q);
    assert forall|i: int| 1 <= i < q1.len() implies !q1[i].in_use by {
        if q.len() > 0 && q[0].in_use {
            assert(q1[i] == q[i + 1]);
        }
    }
    let q2 = s.queue_after();
    assert forall|i: int| 1 <= i < q2.len() implies !q2[i].in_use by {
        if s.congestion_drop() && q1.len() > 0 {
            assert(q2[i] == q1[i + 1]);
        }
    }
}

/// Frames leave in arrival order: one call retires at most two frames —
/// the consumed head and at most one congestion drop — always from the
/// front, and never reorders what remains. The returned count is how many
/// were retired.
pub proof fn lemma_dequeue_retires_only_from_the_front(s: VideoDecoderDequeuer) -> (k: int)
    ensures
        0 <= k <= 2,
        s.queue_after() == s.image_queue@.skip(k),
{
    let q = s.image_queue@;
    let q1 = after_consumed_pop(q);
    let consumed: int = if q.len() > 0 && q[0].in_use {
        1
    } else {
        0
    };
    assert(q1 =~= q.skip(consumed));
    if s.congestion_drop() && q1.len() > 0 {
        assert(q1.drop_first() =~= q.skip(consumed + 1));
        consumed + 1
    } else {
        consumed
    }
}

/// Underflow is harmless: on an empty queue the call returns nothing, the
/// queue stays empty, and the running average advances exactly as one
/// empty-queue observation advances any average.
pub proof fn lemma_underflow_only_updates_average(s: VideoDecoderDequeuer)
    requires
        s.wf(),
        s.image_queue@.len() == 0,
    ensures
        s.queue_after() == Seq::<QueuedImage>::empty(),
        s.avg_after() == avg_next(
            s.buffering_running_average as int,
            0,
            s.config.buffering_history_weight as int,
        ),
{
    assert(s.queue_after() =~= Seq::<QueuedImage>::empty());
}

} // verus!
