//! The submit-facing side of the session: feeds compressed access units to
//! the decoder's input side and owns decoder recreation.
//!
//! The decoder resource itself is an opaque platform capability driven by
//! the platform layer; the library holds the session state — the format the
//! decoder is (re)configured with, whether a decoder is installed, and the
//! identity of the output target — and decides each submission.

use crate::config::{clone_options, CodecType, DecoderInitConfig, MediacodecDataType};
use crate::frames::QueuedImage;
use std::collections::VecDeque;
use vstd::prelude::*;

verus! {

/// The media format a decoder is configured with: the fixed entries the
/// session always sets, the initial codec-specific data, and the
/// pass-through options.
pub struct MediaFormat {
    pub mime: String,
    pub width: i32,
    pub height: i32,
    pub csd_0: Vec<u8>,
    pub options: Vec<(String, MediacodecDataType)>,
}

/// The decoder mime type for each codec.
pub open spec fn mime_of(codec: CodecType) -> Seq<char> {
    match codec {
        CodecType::H264 => "video/avc"@,
        CodecType::Hevc => "video/hevc"@,
    }
}

/// Returns the decoder mime type for a codec.
pub fn codec_mime_type(codec: CodecType) -> (r: String)
    ensures
        r@ == mime_of(codec),
{
    match codec {
        CodecType::H264 => "video/avc".to_string(),
        CodecType::Hevc => "video/hevc".to_string(),
    }
}

/// What one bounded wait for a decoder input buffer produced.
pub enum InputWaitOutcome {
    /// An input buffer of the given capacity was obtained.
    Acquired { capacity: usize },
    /// The wait timed out (or the decoder asked to try again later).
    TryAgainLater,
    /// A hard error, with its message.
    Failed(String),
}

/// The fate of one submitted access unit.
pub enum PushFrameOutcome {
    /// Copy the payload into the buffer at the given offset and submit it
    /// with the given presentation timestamp, in nanoseconds.
    Submit { offset: usize, size: usize, pts_ns: u64 },
    /// Dropped without error: no decoder installed, or the wait timed out.
    /// The caller may retry or drop the access unit.
    Unavailable,
    /// A hard submission-time error, surfaced to the caller.
    Rejected { reason: String },
}

/// The submit-facing half of a decoder session.
pub struct VideoDecoderEnqueuer {
    pub mime: String,
    pub format: MediaFormat,
    /// The output target the decoder writes into, by the identity the
    /// platform layer assigned it; created once per session.
    pub output_target: Option<u64>,
    /// Whether a decoder is currently installed.
    pub decoder_present: bool,
}

/// The state `recreate_decoder` leaves behind: with an output target
/// present, a fresh decoder is installed against the same target; without
/// one the session is shutting down and the call changes nothing.
pub open spec fn recreated(s: VideoDecoderEnqueuer) -> VideoDecoderEnqueuer {
    if s.output_target is Some {
        VideoDecoderEnqueuer { decoder_present: true, ..s }
    } else {
        s
    }
}

/// Recreating the decoder is idempotent, and never touches the output
/// target: the renderer's references into it stay valid.
pub proof fn lemma_recreate_idempotent(s: VideoDecoderEnqueuer)
    ensures
        recreated(recreated(s)) == recreated(s),
        recreated(s).output_target == s.output_target,
        recreated(s).mime == s.mime,
        recreated(s).format == s.format,
{
}

impl VideoDecoderEnqueuer {
    /// Decides the fate of one compressed access unit, given the outcome of
    /// the bounded wait for an input buffer.
    ///
    /// With no decoder installed no wait takes place and the unit is
    /// dropped without error; a timed-out wait likewise. An acquired buffer
    /// large enough for the payload is submitted with the timestamp at
    /// nanosecond granularity; a too-small buffer or a hard error is
    /// surfaced to the caller, never swallowed.
    pub fn push_frame_nal(
        &self,
        timestamp_ns: u64,
        payload_len: usize,
        wait_outcome: Option<InputWaitOutcome>,
    ) -> (r: PushFrameOutcome)
        requires
            self.decoder_present <==> wait_outcome is Some,
        ensures
            (match wait_outcome {
                Some(InputWaitOutcome::Acquired { capacity }) => {
                    if payload_len <= capacity {
                        r == (PushFrameOutcome::Submit {
                            offset: 0,
                            size: payload_len,
                            pts_ns: timestamp_ns,
                        })
                    } else {
                        r matches PushFrameOutcome::Rejected { reason } && reason@
                            == "input buffer too small"@
                    }
                },
                Some(InputWaitOutcome::TryAgainLater) => r == PushFrameOutcome::Unavailable,
                Some(InputWaitOutcome::Failed(reason)) => r == (PushFrameOutcome::Rejected { reason }),
                None => r == PushFrameOutcome::Unavailable,
            }),
    {
        match wait_outcome {
            Some(InputWaitOutcome::Acquired { capacity }) => {
                if payload_len <= capacity {
                    PushFrameOutcome::Submit { offset: 0, size: payload_len, pts_ns: timestamp_ns }
                } else {
                    PushFrameOutcome::Rejected { reason: "input buffer too small".to_string() }
                }
            },
            Some(InputWaitOutcome::TryAgainLater) => PushFrameOutcome::Unavailable,
            Some(InputWaitOutcome::Failed(reason)) => PushFrameOutcome::Rejected { reason },
            None => PushFrameOutcome::Unavailable,
        }
    }

    /// Retires the installed decoder (if any) and installs a fresh one
    /// bound to the existing output target, clearing the image queue in the
    /// same critical section so no stale image survives the old decoder.
    ///
    /// Without an output target — only during shutdown — the call is a
    /// no-op. The call is idempotent and preserves the output target.
    pub fn recreate_decoder(&mut self, image_queue: &mut VecDeque<QueuedImage>)
        ensures
            *final(self) == recreated(*old(self)),
            old(self).output_target is Some ==> final(image_queue)@ == Seq::<
                QueuedImage,
            >::empty(),
            old(self).output_target is None ==> final(image_queue)@ == old(image_queue)@,
    {
        if self.output_target.is_some() {
            image_queue.clear();
            self.decoder_present = true;
        }
    }
}

/// Creates the submit and retrieve halves of one decoder session, bound to
/// a freshly created output target: the format is assembled from the codec,
/// the initial codec-specific data and the configured options, the image
/// queue starts empty, the running average at zero, and a first decoder is
/// installed.
pub fn video_decoder_split(config: DecoderInitConfig, csd_0: Vec<u8>, output_target: u64) -> (r: (
    VideoDecoderEnqueuer,
    crate::dequeuer::VideoDecoderDequeuer,
))
    requires
        config.wf(),
    ensures
        r.0.mime@ == mime_of(config.codec),
        r.0.format.mime@ == mime_of(config.codec),
        r.0.format.width == 512,
        r.0.format.height == 1024,
        r.0.format.csd_0@ == csd_0@,
        r.0.format.options@ == config.options@,
        r.0.output_target == Some(output_target),
        r.0.decoder_present,
        r.1.config == config,
        r.1.image_queue@ == Seq::<QueuedImage>::empty(),
        r.1.buffering_running_average == 0,
        r.1.wf(),
{
    let mime = codec_mime_type(config.codec);
    let format = MediaFormat {
        mime: mime.clone(),
        width: 512,
        height: 1024,
        csd_0,
        options: clone_options(&config.options),
    };
    let mut enqueuer = VideoDecoderEnqueuer {
        mime,
        format,
        output_target: Some(output_target),
        decoder_present: false,
    };
    let mut dequeuer = crate::dequeuer::VideoDecoderDequeuer {
        image_queue: VecDeque::new(),
        config,
        buffering_running_average: 0,
    };
    enqueuer.recreate_decoder(&mut dequeuer.image_queue);
    (enqueuer, dequeuer)
}

} // verus!
