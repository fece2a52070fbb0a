//! The decoder worker: the per-iteration decisions of the loop that drains
//! decoder output and feeds the image queue.
//!
//! The loop itself runs in the platform layer, which owns the decoder
//! resource, the asynchronous image-ready mailbox and the thread; each
//! iteration it reports what it observed and applies the decision and queue
//! transition computed here.

use crate::frames::QueuedImage;
use std::collections::VecDeque;
use vstd::prelude::*;

verus! {

/// What one bounded wait on the decoder's output side produced.
pub enum DecoderOutputEvent {
    /// A decoded access unit with its presentation timestamp.
    Frame { timestamp_ns: u64 },
    /// No output ready yet; try again next iteration.
    TryAgainLater,
    /// Some other non-fatal decoder event (format change and the like).
    OtherEvent,
    /// A hard decoder error.
    Failed,
}

/// What the image-ready mailbox delivered after an output buffer was
/// released towards the output target.
pub enum AcquiredImage {
    /// The decoded image, by its opaque handle.
    Ready(u64),
    /// The notification fired but no image was available.
    NoBufferAvailable,
    /// The acquisition failed.
    Failed,
}

/// The worker's decision at the head of an iteration.
#[derive(Clone, Copy, PartialEq, Eq, Structural, Debug)]
pub enum PollDecision {
    /// No decoder is installed: sleep a short fixed interval and retry.
    WaitForDecoder,
    /// The queue overflowed and was flushed whole; retry without polling.
    FlushedOverflow,
    /// Poll the decoder's output side with a short bounded wait.
    PollDecoder,
}

/// The worker's decision after a poll of the decoder output.
#[derive(Clone, Copy, PartialEq, Eq, Structural, Debug)]
pub enum OutputDecision {
    /// Release the buffer towards the output target, report the timestamp,
    /// then block on the mailbox for the matching image.
    ReleaseAndAwaitImage { timestamp_ns: u64 },
    /// Nothing to do this iteration.
    Retry,
    /// A hard decoder error: report it and back off briefly before retrying.
    BackOff,
}

/// The head of one worker iteration: waits for a decoder to be installed,
/// and flushes the queue whole when it has grown past twice the configured
/// depth. The overflow threshold is strict, and the flush is total, never a
/// trim.
pub fn worker_poll_step(
    image_queue: &mut VecDeque<QueuedImage>,
    decoder_present: bool,
    max_buffering_frames: u64,
) -> (d: PollDecision)
    ensures
        !decoder_present ==> d == PollDecision::WaitForDecoder && final(image_queue)@ == old(
            image_queue,
        )@,
        decoder_present && old(image_queue)@.len() > 2 * max_buffering_frames ==> d
            == PollDecision::FlushedOverflow && final(image_queue)@ == Seq::<QueuedImage>::empty(),
        decoder_present && old(image_queue)@.len() <= 2 * max_buffering_frames ==> d
            == PollDecision::PollDecoder && final(image_queue)@ == old(image_queue)@,
{
    if !decoder_present {
        return PollDecision::WaitForDecoder;
    }
    if (image_queue.len() as u128) > 2 * (max_buffering_frames as u128) {
        image_queue.clear();
        return PollDecision::FlushedOverflow;
    }
    PollDecision::PollDecoder
}

/// Maps what the decoder output poll produced to the worker's next step:
/// a decoded frame is released and paired with an image, "no data yet" and
/// other events are non-fatal no-ops, a hard error only backs off.
pub fn worker_handle_output(event: &DecoderOutputEvent) -> (d: OutputDecision)
    ensures
        d == (match event {
            DecoderOutputEvent::Frame { timestamp_ns } => (OutputDecision::ReleaseAndAwaitImage {
                timestamp_ns: *timestamp_ns,
            }),
            DecoderOutputEvent::TryAgainLater => OutputDecision::Retry,
            DecoderOutputEvent::OtherEvent => OutputDecision::Retry,
            DecoderOutputEvent::Failed => OutputDecision::BackOff,
        }),
{
    match event {
        DecoderOutputEvent::Frame { timestamp_ns } => OutputDecision::ReleaseAndAwaitImage {
            timestamp_ns: *timestamp_ns,
        },
        DecoderOutputEvent::TryAgainLater => OutputDecision::Retry,
        DecoderOutputEvent::OtherEvent => OutputDecision::Retry,
        DecoderOutputEvent::Failed => OutputDecision::BackOff,
    }
}

/// Appends the acquired image for a released frame to the queue tail, not
/// yet in use. If the mailbox delivered no image or an error, the frame is
/// lost: the queue is flushed whole and the worker carries on.
pub fn worker_record_image(
    image_queue: &mut VecDeque<QueuedImage>,
    timestamp_ns: u64,
    acquired: &AcquiredImage,
) -> (appended: bool)
    ensures
        match acquired {
            AcquiredImage::Ready(image) => appended && final(image_queue)@ == old(
                image_queue,
            )@.push(
                (QueuedImage { timestamp_ns, image: *image, in_use: false }),
            ),
            AcquiredImage::NoBufferAvailable => !appended && final(image_queue)@ == Seq::<
                QueuedImage,
            >::empty(),
            AcquiredImage::Failed => !appended && final(image_queue)@ == Seq::<
                QueuedImage,
            >::empty(),
        },
{
    match acquired {
        AcquiredImage::Ready(image) => {
            image_queue.push_back(QueuedImage { timestamp_ns, image: *image, in_use: false });
            true
        },
        AcquiredImage::NoBufferAvailable => {
            image_queue.clear();
            false
        },
        AcquiredImage::Failed => {
            image_queue.clear();
            false
        },
    }
}

} // verus!
