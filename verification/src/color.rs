//! Per-command colour and texture-page resolution.

use vstd::prelude::*;

verus! {

/// Light tint used when a command carries no colour: opaque white.
pub const DEFAULT_LIGHT_COLOR: u32 = 0xffff_ffff;

/// Dark (tint-black) colour used when a command carries none: opaque black.
pub const DEFAULT_DARK_COLOR: u32 = 0xff00_0000;

/// The four 8-bit channels of a packed `0xAARRGGBB` colour.
#[derive(Copy, Clone, Eq, PartialEq, Debug, Structural)]
pub struct ArgbChannels {
    pub r: u8,
    pub g: u8,
    pub b: u8,
    pub a: u8,
}

/// The channels of `v`, read as `0xAARRGGBB`.
pub open spec fn spec_unpack_argb(v: u32) -> ArgbChannels {
    ArgbChannels {
        r: ((v / 0x1_0000) % 0x100) as u8,
        g: ((v / 0x100) % 0x100) as u8,
        b: (v % 0x100) as u8,
        a: (v / 0x100_0000) as u8,
    }
}

/// The packed `0xAARRGGBB` value of four channels.
pub open spec fn spec_pack_argb(c: ArgbChannels) -> int {
    c.a * 0x100_0000 + c.r * 0x1_0000 + c.g * 0x100 + c.b
}

/// Splits a packed `0xAARRGGBB` colour into its channels (each still on the
/// 0..=255 scale).
pub fn unpack_argb_channels(v: u32) -> (c: ArgbChannels)
    ensures
        c == spec_unpack_argb(v),
        c.a * 0x100_0000 + c.r * 0x1_0000 + c.g * 0x100 + c.b == v,
{
    let a = (v >> 24) & 0xff;
    let r = (v >> 16) & 0xff;
    let g = (v >> 8) & 0xff;
    let b = v & 0xff;
    assert(a == v / 0x100_0000 && a < 0x100) by (bit_vector)
        requires
            a == (v >> 24) & 0xff,
    ;
    assert(r == (v / 0x1_0000) % 0x100) by (bit_vector)
        requires
            r == (v >> 16) & 0xff,
    ;
    assert(g == (v / 0x100) % 0x100) by (bit_vector)
        requires
            g == (v >> 8) & 0xff,
    ;
    assert(b == v % 0x100) by (bit_vector)
        requires
            b == v & 0xff,
    ;
    let c = ArgbChannels { r: r as u8, g: g as u8, b: b as u8, a: a as u8 };
    proof {
        lemma_unpack_pack_roundtrip(v);
    }
    c
}

/// Unpacking loses nothing: packing the four channels of `v` again gives `v`.
pub proof fn lemma_unpack_pack_roundtrip(v: u32)
    ensures
        spec_pack_argb(spec_unpack_argb(v)) == v,
{
    let c = spec_unpack_argb(v);
    assert(c.a * 0x100_0000 + c.r * 0x1_0000 + c.g * 0x100 + c.b == v) by (nonlinear_arith)
        requires
            c.a == v / 0x100_0000,
            c.r == (v / 0x1_0000) % 0x100,
            c.g == (v / 0x100) % 0x100,
            c.b == v % 0x100,
            0 <= v < 0x1_0000_0000,
    ;
}

/// The colour a command is tinted with: its first colour, or `default` when
/// it carries none.
pub open spec fn spec_first_or(colors: Seq<u32>, default: u32) -> u32 {
    if colors.len() > 0 {
        colors[0]
    } else {
        default
    }
}

/// A command is tinted with its first colour, whatever follows it; only a
/// command without colours gets the default.
pub proof fn lemma_first_color_wins(colors: Seq<u32>, default: u32)
    ensures
        colors.len() > 0 ==> spec_first_or(colors, default) == colors[0],
        colors.len() == 0 ==> spec_first_or(colors, default) == default,
        forall|c: u32| spec_first_or(colors.push(c), default) == (if colors.len() > 0 {
            colors[0]
        } else {
            c
        }),
{
}

/// What a render command's material is built from: the atlas page it
/// samples (when the page exists) and its light and dark tints (packed
/// `0xAARRGGBB`).
#[derive(Copy, Clone, Eq, PartialEq, Debug)]
pub struct CommandStyle {
    pub page: Option<usize>,
    pub light: u32,
    pub dark: u32,
}

/// Resolves the material inputs of one render command: `texture` indexes
/// the atlas's `page_count` pages (out of range: no page), the first light
/// and dark colours tint it, opaque white and opaque black standing in for
/// missing ones.
pub fn command_style(texture: u32, page_count: usize, colors: &[u32], dark_colors: &[u32]) -> (r:
    CommandStyle)
    ensures
        r.page == (if texture < page_count {
            Some(texture as usize)
        } else {
            None::<usize>
        }),
        r.light == spec_first_or(colors@, DEFAULT_LIGHT_COLOR),
        r.dark == spec_first_or(dark_colors@, DEFAULT_DARK_COLOR),
        colors@.len() > 0 ==> r.light == colors@[0],
        colors@.len() == 0 ==> r.light == 0xffff_ffffu32,
        dark_colors@.len() > 0 ==> r.dark == dark_colors@[0],
        dark_colors@.len() == 0 ==> r.dark == 0xff00_0000u32,
{
    let idx = texture as usize;
    let page = if idx < page_count {
        Some(idx)
    } else {
        None
    };
    let light = if colors.len() > 0 {
        colors[0]
    } else {
        DEFAULT_LIGHT_COLOR
    };
    let dark = if dark_colors.len() > 0 {
        dark_colors[0]
    } else {
        DEFAULT_DARK_COLOR
    };
    CommandStyle { page, light, dark }
}

} // verus!
