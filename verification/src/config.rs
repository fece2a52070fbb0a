//! Decoder session configuration.
//!
//! The configuration is fixed at construction: the codec kind, the adaptive
//! buffering parameters, and a list of keyed options that is handed opaquely
//! to the platform decoder when it is configured.

use crate::average::SCALE;
use vstd::prelude::*;

verus! {

/// The two supported compressed-video codecs.
#[derive(Clone, Copy, PartialEq, Eq, Structural, Debug)]
pub enum CodecType {
    H264,
    Hevc,
}

/// A typed option value passed through to the platform decoder.
///
/// The platform accepts floating-point options; the library carries such a
/// value as its raw bit pattern and the platform layer reconstitutes it at
/// the configuration call.
#[derive(PartialEq, Eq, Debug)]
pub enum MediacodecDataType {
    Float32Bits(u32),
    Int32(i32),
    Int64(i64),
    Text(String),
}

impl Clone for MediacodecDataType {
    fn clone(&self) -> (r: Self)
        ensures
            r == self,
    {
        match self {
            MediacodecDataType::Float32Bits(v) => MediacodecDataType::Float32Bits(*v),
            MediacodecDataType::Int32(v) => MediacodecDataType::Int32(*v),
            MediacodecDataType::Int64(v) => MediacodecDataType::Int64(*v),
            MediacodecDataType::Text(v) => MediacodecDataType::Text(v.clone()),
        }
    }
}

/// Immutable per-session decoder configuration.
///
/// `buffering_history_weight` is a fixed-point weight in `[0, SCALE]`
/// (millionths); `max_buffering_frames` is the positive target queue depth.
pub struct DecoderInitConfig {
    pub codec: CodecType,
    pub options: Vec<(String, MediacodecDataType)>,
    pub buffering_history_weight: u64,
    pub max_buffering_frames: u64,
}

impl DecoderInitConfig {
    /// A well-formed configuration: the weight is a valid fixed-point
    /// fraction and the target depth is positive.
    pub open spec fn wf(self) -> bool {
        &&& self.buffering_history_weight <= SCALE
        &&& self.max_buffering_frames >= 1
    }
}

/// The scaled congestion threshold: the running average is compared against
/// `max_buffering_frames * SCALE`.
pub open spec fn congestion_threshold(max_buffering_frames: int) -> int {
    max_buffering_frames * (SCALE as int)
}

/// Clones an option list, entry for entry.
pub fn clone_options(options: &Vec<(String, MediacodecDataType)>) -> (r: Vec<
    (String, MediacodecDataType),
>)
    ensures
        r@ == options@,
{
    let mut out: Vec<(String, MediacodecDataType)> = Vec::new();
    let mut i: usize = 0;
    while i < options.len()
        invariant
            i <= options.len(),
            out@ == options@.subrange(0, i as int),
        decreases options.len() - i,
    {
        let (key, value) = &options[i];
        out.push((key.clone(), value.clone()));
        proof {
            assert(out@ == options@.subrange(0, i + 1 as int));
        }
        i = i + 1;
    }
    proof {
        assert(options@.subrange(0, options@.len() as int) == options@);
    }
    out
}

} // verus!
