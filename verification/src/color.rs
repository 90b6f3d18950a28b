//! RGBA pixels and the compositing blend equation.
//!
//! The composite step draws the UI surface over the scene with blend factors
//! `one` for the source and `one minus source alpha` for the destination,
//! which treats the UI layer as premultiplied-alpha content. `over` is the
//! per-pixel form of that equation on 8-bit channels.

use vstd::prelude::*;

verus! {

/// One pixel: red, green, blue, alpha, 8 bits each.
#[derive(Clone, Copy, Debug, PartialEq, Eq, Structural)]
pub struct Rgba {
    pub r: u8,
    pub g: u8,
    pub b: u8,
    pub a: u8,
}

/// A fully transparent black pixel: what the offscreen surface is cleared to
/// before the UI engine draws, so that untouched pixels keep the scene visible.
pub open spec fn transparent_spec() -> Rgba {
    Rgba { r: 0, g: 0, b: 0, a: 0 }
}

/// The transparent clear color as a value.
pub fn transparent() -> (c: Rgba)
    ensures
        c == transparent_spec(),
{
    Rgba { r: 0, g: 0, b: 0, a: 0 }
}

/// One blended channel: `src * 1 + dst * (255 - src_alpha) / 255`, clamped to
/// the channel range as the GPU clamps its fixed-point output.
pub open spec fn blend_channel(s: int, d: int, a: int) -> int {
    let v = s + (d * (255 - a)) / 255;
    if v > 255 {
        255
    } else {
        v
    }
}

/// The blend equation applied to every channel, alpha included.
pub open spec fn over_spec(src: Rgba, dst: Rgba) -> Rgba {
    Rgba {
        r: blend_channel(src.r as int, dst.r as int, src.a as int) as u8,
        g: blend_channel(src.g as int, dst.g as int, src.a as int) as u8,
        b: blend_channel(src.b as int, dst.b as int, src.a as int) as u8,
        a: blend_channel(src.a as int, dst.a as int, src.a as int) as u8,
    }
}

proof fn lemma_blend_channel_in_range(s: int, d: int, a: int)
    requires
        0 <= s <= 255,
        0 <= d <= 255,
        0 <= a <= 255,
    ensures
        0 <= blend_channel(s, d, a) <= 255,
{
    assert(0 <= d * (255 - a)) by (nonlinear_arith)
        requires
            0 <= d,
            a <= 255,
    ;
}

/// Blends one source pixel over one destination pixel with factors
/// `one, one minus source alpha`.
pub fn over(src: Rgba, dst: Rgba) -> (out: Rgba)
    ensures
        out == over_spec(src, dst),
{
    proof {
        lemma_blend_channel_in_range(src.r as int, dst.r as int, src.a as int);
        lemma_blend_channel_in_range(src.g as int, dst.g as int, src.a as int);
        lemma_blend_channel_in_range(src.b as int, dst.b as int, src.a as int);
        lemma_blend_channel_in_range(src.a as int, dst.a as int, src.a as int);
    }
    let keep: u32 = 255 - (src.a as u32);
    let r: u32 = blend_one(src.r, dst.r, keep);
    let g: u32 = blend_one(src.g, dst.g, keep);
    let b: u32 = blend_one(src.b, dst.b, keep);
    let a: u32 = blend_one(src.a, dst.a, keep);
    Rgba { r: r as u8, g: g as u8, b: b as u8, a: a as u8 }
}

/// One channel of `over`, computed in 32 bits so nothing overflows.
fn blend_one(s: u8, d: u8, keep: u32) -> (v: u32)
    requires
        keep <= 255,
    ensures
        v == blend_channel(s as int, d as int, 255 - keep as int),
        v <= 255,
{
    proof {
        assert((d as u32) * keep <= 255 * 255) by (nonlinear_arith)
            requires
                d as u32 <= 255,
                keep <= 255,
        ;
        lemma_blend_channel_in_range(s as int, d as int, 255 - keep as int);
    }
    let v: u32 = (s as u32) + ((d as u32) * keep) / 255;
    if v > 255 {
        255
    } else {
        v
    }
}

/// An opaque source replaces the destination outright: with source alpha 255
/// the destination factor is zero.
pub proof fn lemma_over_opaque(src: Rgba, dst: Rgba)
    requires
        src.a == 255,
    ensures
        over_spec(src, dst) == src,
{
}

/// A fully transparent black source leaves the destination unchanged: the
/// surface's transparent clear never obscures the scene.
pub proof fn lemma_over_transparent(dst: Rgba)
    ensures
        over_spec(transparent_spec(), dst) == dst,
{
    assert(forall|d: int| 0 <= d <= 255 ==> #[trigger] ((d * 255) / 255) == d) by (nonlinear_arith);
}

} // verus!
