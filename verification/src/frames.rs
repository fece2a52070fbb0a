//! The decoded frames held between the decoder worker and the consumer.
//!
//! A decoded image itself is an opaque platform resource; the library tracks
//! it by a numeric handle chosen by the platform layer, together with the
//! presentation timestamp in nanoseconds.

use vstd::prelude::*;

verus! {

/// One decoded image awaiting consumption.
///
/// `in_use` is false while the frame sits in the queue; it flips to true when
/// the frame is handed to the consumer, and the frame is retired on the
/// consumer's next call.
#[derive(Clone, Copy, PartialEq, Eq, Structural, Debug)]
pub struct QueuedImage {
    pub timestamp_ns: u64,
    pub image: u64,
    pub in_use: bool,
}

/// The frame handed to the renderer: the presentation timestamp and the
/// opaque image handle.
#[derive(Clone, Copy, PartialEq, Eq, Structural, Debug)]
pub struct DequeuedFrame {
    pub timestamp_ns: u64,
    pub image: u64,
}

} // verus!
