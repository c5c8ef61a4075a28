//! Colour primitives: the packed 16-bit colour of the console and the
//! single-channel intensity derived from RGB.

use vstd::prelude::*;

verus! {

/// The packed 16-bit colour: five bits each of red, green and blue, then one
/// bit of alpha, from the high bit down.
pub struct R5G5B5A1 {}

impl R5G5B5A1 {
    /// The packed word of four 8-bit channels. Each colour channel keeps its
    /// five high bits; alpha is one only when it is fully opaque.
    pub open spec fn spec_from_rgba(r: u8, g: u8, b: u8, a: u8) -> u16 {
        ((r as int / 8) * 2048 + (g as int / 8) * 64 + (b as int / 8) * 2 + (if a == 255 {
            1int
        } else {
            0int
        })) as u16
    }

    /// Channel `c` (0 red, 1 green, 2 blue, 3 alpha) of a packed word, widened
    /// back to eight bits: colour fields times eight, the alpha bit times 255.
    pub open spec fn spec_channel(pixel: u16, c: int) -> u8 {
        if c == 0 {
            ((pixel as int / 2048) * 8) as u8
        } else if c == 1 {
            (((pixel as int / 64) % 32) * 8) as u8
        } else if c == 2 {
            (((pixel as int / 2) % 32) * 8) as u8
        } else {
            ((pixel as int % 2) * 255) as u8
        }
    }

    /// The four channels of a packed word, in the order red, green, blue, alpha.
    pub open spec fn spec_to_rgba(pixel: u16) -> Seq<u8> {
        Seq::new(4, |c: int| Self::spec_channel(pixel, c))
    }

    #[inline]
    pub fn from_rgba(r: u8, g: u8, b: u8, a: u8) -> (pixel: u16)
        ensures
            pixel == Self::spec_from_rgba(r, g, b, a),
    {
        let r5: u16 = (r / 8) as u16;
        let g5: u16 = (g / 8) as u16;
        let b5: u16 = (b / 8) as u16;
        let a1: u16 = (a / 255) as u16;
        assert((r5 << 11) | (g5 << 6) | (b5 << 1) | a1 == r5 * 2048 + g5 * 64 + b5 * 2 + a1)
            by (bit_vector)
            requires
                r5 < 32,
                g5 < 32,
                b5 < 32,
                a1 < 2,
        ;
        (r5 << 11) | (g5 << 6) | (b5 << 1) | a1
    }

    #[inline]
    pub fn to_rgba(pixel: u16) -> (rgba: Vec<u8>)
        ensures
            rgba@ == Self::spec_to_rgba(pixel),
    {
        let r: u8 = ((pixel & 0xF800) >> 11) as u8;
        let g: u8 = ((pixel & 0x07C0) >> 6) as u8;
        let b: u8 = ((pixel & 0x003E) >> 1) as u8;
        let a: u8 = (pixel & 0x01) as u8;
        assert(((pixel & 0xF800) >> 11) == pixel / 2048 && ((pixel & 0x07C0) >> 6) == (pixel / 64)
            % 32 && ((pixel & 0x003E) >> 1) == (pixel / 2) % 32 && (pixel & 0x01) == pixel % 2)
            by (bit_vector);
        let mut rgba: Vec<u8> = Vec::new();
        rgba.push(r * 8);
        rgba.push(g * 8);
        rgba.push(b * 8);
        rgba.push(a * 255);
        assert(rgba@ =~= Self::spec_to_rgba(pixel));
        rgba
    }
}

/// The 8-bit intensity of an RGB colour.
pub struct Intensity {}

impl Intensity {
    /// The luma of an RGB colour with the weights 0.2126, 0.7152 and 0.0722,
    /// rounded down.
    pub open spec fn spec_from_rgb(r: u8, g: u8, b: u8) -> u8 {
        ((2126 * r as int + 7152 * g as int + 722 * b as int) / 10000) as u8
    }

    #[inline]
    pub fn from_rgb(r: u8, g: u8, b: u8) -> (intensity: u8)
        ensures
            intensity == Self::spec_from_rgb(r, g, b),
    {
        let weighted: u32 = 2126 * (r as u32) + 7152 * (g as u32) + 722 * (b as u32);
        (weighted / 10000) as u8
    }
}

/// The four fields of a packed word are found again by division: they do not
/// overlap.
proof fn lemma_fields(r5: int, g5: int, b5: int, a1: int)
    requires
        0 <= r5 < 32,
        0 <= g5 < 32,
        0 <= b5 < 32,
        0 <= a1 < 2,
    ensures
        (r5 * 2048 + g5 * 64 + b5 * 2 + a1) / 2048 == r5,
        ((r5 * 2048 + g5 * 64 + b5 * 2 + a1) / 64) % 32 == g5,
        ((r5 * 2048 + g5 * 64 + b5 * 2 + a1) / 2) % 32 == b5,
        (r5 * 2048 + g5 * 64 + b5 * 2 + a1) % 2 == a1,
{
    let p = r5 * 2048 + g5 * 64 + b5 * 2 + a1;
    assert(p / 64 == r5 * 32 + g5);
    assert(p / 2 == r5 * 1024 + g5 * 32 + b5);
}

/// Packing a colour and unpacking it again keeps the five high bits of red,
/// green and blue, and turns alpha into 255 where it was 255 and into 0
/// everywhere else.
pub proof fn lemma_pack_then_unpack(r: u8, g: u8, b: u8, a: u8)
    ensures
        R5G5B5A1::spec_to_rgba(R5G5B5A1::spec_from_rgba(r, g, b, a)) == seq![
            r & 0xF8,
            g & 0xF8,
            b & 0xF8,
            if a == 255 { 255u8 } else { 0u8 },
        ],
{
    let a1 = if a == 255 { 1int } else { 0int };
    lemma_fields(r as int / 8, g as int / 8, b as int / 8, a1);
    assert(r & 0xF8 == (r / 8) * 8 && g & 0xF8 == (g / 8) * 8 && b & 0xF8 == (b / 8) * 8)
        by (bit_vector);
    assert(R5G5B5A1::spec_to_rgba(R5G5B5A1::spec_from_rgba(r, g, b, a)) =~= seq![
        r & 0xF8,
        g & 0xF8,
        b & 0xF8,
        if a == 255 { 255u8 } else { 0u8 },
    ]);
}

/// Unpacking a word and packing the four channels again gives the word back:
/// the packed form loses nothing that it holds.
pub proof fn lemma_unpack_then_pack(pixel: u16)
    ensures
        R5G5B5A1::spec_from_rgba(
            R5G5B5A1::spec_channel(pixel, 0),
            R5G5B5A1::spec_channel(pixel, 1),
            R5G5B5A1::spec_channel(pixel, 2),
            R5G5B5A1::spec_channel(pixel, 3),
        ) == pixel,
{
    let p = pixel as int;
    let r5 = p / 2048;
    let g5 = (p / 64) % 32;
    let b5 = (p / 2) % 32;
    let a1 = p % 2;
    assert(p == r5 * 2048 + g5 * 64 + b5 * 2 + a1);
    assert((r5 * 8) / 8 == r5 && (g5 * 8) / 8 == g5 && (b5 * 8) / 8 == b5);
}

/// A colour whose three channels are equal has that value as its intensity.
pub proof fn lemma_intensity_of_gray(v: u8)
    ensures
        Intensity::spec_from_rgb(v, v, v) == v,
{
}

} // verus!
