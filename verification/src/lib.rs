//! A frame-pacing core for a hardware video decoder: compressed access
//! units go in on a submit path, decoded images queue up behind an
//! adaptive buffering controller, and a render loop takes them out at a
//! bounded latency.
//!
//! The decoder itself, its output target and the platform's image-ready
//! notification are opaque external capabilities; the platform layer drives
//! them and reports what happened as plain values, and every decision —
//! what to submit, when to flush, which frame to hand out, when to drop —
//! is made and proved here. The session's three execution contexts (submit,
//! worker, render) share the state under one lock, owned by that layer.

pub mod average;
pub mod config;
pub mod dequeuer;
pub mod enqueuer;
pub mod frames;
pub mod platform;
pub mod swapchain;
pub mod worker;

use vstd::prelude::*;

verus! {

/// Name reported for a headset that is not identified through a platform
/// service. Platform-specific identification lives outside the library.
pub fn device_model() -> (r: String)
    ensures
        r@ == "Wired headset"@,
{
    "Wired headset".to_string()
}

} // verus!
