//! Swapchain format negotiation: picks the best renderable format the
//! runtime offers, from a priority list of OpenGL sized-format codes.

use vstd::prelude::*;

verus! {

/// Relies on glow::RGBA16F: the GL_RGBA16F format code.
#[verifier::external_body]
fn gl_rgba16f() -> (r: u32)
    ensures
        r == 0x881A,
{
    glow::RGBA16F
}

/// Relies on glow::RGB16F: the GL_RGB16F format code.
#[verifier::external_body]
fn gl_rgb16f() -> (r: u32)
    ensures
        r == 0x881B,
{
    glow::RGB16F
}

/// Relies on glow::SRGB8_ALPHA8: the GL_SRGB8_ALPHA8 format code.
#[verifier::external_body]
fn gl_srgb8_alpha8() -> (r: u32)
    ensures
        r == 0x8C43,
{
    glow::SRGB8_ALPHA8
}

/// Relies on glow::SRGB8: the GL_SRGB8 format code.
#[verifier::external_body]
fn gl_srgb8() -> (r: u32)
    ensures
        r == 0x8C41,
{
    glow::SRGB8
}

/// Relies on glow::RGBA8: the GL_RGBA8 format code.
#[verifier::external_body]
fn gl_rgba8() -> (r: u32)
    ensures
        r == 0x8058,
{
    glow::RGBA8
}

/// Relies on glow::BGRA: the GL_BGRA format code.
#[verifier::external_body]
fn gl_bgra() -> (r: u32)
    ensures
        r == 0x80E1,
{
    glow::BGRA
}

/// Relies on glow::RGB8: the GL_RGB8 format code.
#[verifier::external_body]
fn gl_rgb8() -> (r: u32)
    ensures
        r == 0x8051,
{
    glow::RGB8
}

/// Relies on glow::BGR: the GL_BGR format code.
#[verifier::external_body]
fn gl_bgr() -> (r: u32)
    ensures
        r == 0x80E0,
{
    glow::BGR
}

/// The formats this renderer accepts, best first. The half-float formats
/// are costly and lead only when HDR output asks for them.
pub open spec fn swapchain_priority(enable_hdr: bool) -> Seq<u32> {
    if enable_hdr {
        seq![
            0x881Au32,
            0x881Bu32,
            0x8C43u32,
            0x8C41u32,
            0x8058u32,
            0x80E1u32,
            0x8051u32,
            0x80E0u32,
        ]
    } else {
        seq![0x8C43u32, 0x8C41u32, 0x8058u32, 0x80E1u32, 0x8051u32, 0x80E0u32]
    }
}

/// The first format of the priority list that the runtime supports.
pub open spec fn first_supported(prio: Seq<u32>, supported: Seq<u32>) -> Option<u32>
    decreases prio.len(),
{
    if prio.len() == 0 {
        None
    } else if supported.contains(prio[0]) {
        Some(prio[0])
    } else {
        first_supported(prio.drop_first(), supported)
    }
}

proof fn lemma_first_supported_skip(prio: Seq<u32>, supported: Seq<u32>, k: int)
    requires
        0 <= k <= prio.len(),
        forall|j: int| 0 <= j < k ==> !supported.contains(prio[j]),
    ensures
        first_supported(prio, supported) == first_supported(prio.skip(k), supported),
    decreases k,
{
    if k > 0 {
        lemma_first_supported_skip(prio.drop_first(), supported, k - 1);
        assert(prio.drop_first().skip(k - 1) =~= prio.skip(k));
    } else {
        assert(prio.skip(0) =~= prio);
    }
}

fn contains_format(formats: &[u32], format: u32) -> (b: bool)
    ensures
        b == formats@.contains(format),
{
    let mut i: usize = 0;
    while i < formats.len()
        invariant
            i <= formats.len(),
            forall|j: int| 0 <= j < i ==> formats@[j] != format,
        decreases formats.len() - i,
    {
        if formats[i] == format {
            return true;
        }
        i = i + 1;
    }
    false
}

/// Picks the best supported swapchain format: the first of the priority
/// list that the runtime offers. Where the supported formats cannot be
/// enumerated, or none of the list is offered, falls back to
/// GL_SRGB8_ALPHA8, which every target must provide.
pub fn choose_swapchain_format(formats: Option<&[u32]>, enable_hdr: bool) -> (r: u32)
    ensures
        (match formats {
            Some(f) => r == (match first_supported(swapchain_priority(enable_hdr), f@) {
                Some(x) => x,
                None => 0x8C43u32,
            }),
            None => r == 0x8C43u32,
        }),
{
    let mut priority: Vec<u32> = Vec::new();
    if enable_hdr {
        priority.push(gl_rgba16f());
        priority.push(gl_rgb16f());
    }
    priority.push(gl_srgb8_alpha8());
    priority.push(gl_srgb8());
    priority.push(gl_rgba8());
    priority.push(gl_bgra());
    priority.push(gl_rgb8());
    priority.push(gl_bgr());
    proof {
        assert(priority@ =~= swapchain_priority(enable_hdr));
    }

    if let Some(supported) = formats {
        let mut i: usize = 0;
        while i < priority.len()
            invariant
                i <= priority.len(),
                formats == Some(supported),
                priority@ == swapchain_priority(enable_hdr),
                forall|j: int| 0 <= j < i ==> !supported@.contains(priority@[j]),
            decreases priority.len() - i,
        {
            if contains_format(supported, priority[i]) {
                proof {
                    lemma_first_supported_skip(priority@, supported@, i as int);
                    let rest = priority@.skip(i as int);
                    assert(rest.len() > 0);
                    assert(rest[0] == priority@[i as int]);
                    assert(supported@.contains(rest[0]));
                    assert(first_supported(rest, supported@) == Some(rest[0]));
                }
                return priority[i];
            }
            i = i + 1;
        }
        proof {
            lemma_first_supported_skip(priority@, supported@, priority@.len() as int);
            assert(priority@.skip(priority@.len() as int) =~= Seq::<u32>::empty());
        }
    }

    gl_srgb8_alpha8()
}

} // verus!
