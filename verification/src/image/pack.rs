//! From the pixel buffer of a PNG container to packed native bytes: which
//! source shapes each format accepts, and how the source bytes become output.

use crate::color::{Intensity, R5G5B5A1};
use crate::image::container::{BitDepth, ColorType};
use crate::image::endian::put_be_u16;
use crate::image::n64::ImageFormat;
use vstd::prelude::*;

verus! {

/// A rule that makes one output byte of each full group of source bytes.
#[derive(Copy, Clone, Debug, PartialEq, Eq, Structural)]
pub enum Fold {
    /// Two bytes: the first, or-ed with the high nibble of the second. The
    /// first is taken whole: its low nibble is not cleared.
    OrHighOfNext,
    /// Four bytes: the first, or-ed with the high nibble of the third.
    OrHighOfThird,
    /// Six bytes, two RGB pixels: the intensity of the first, or-ed with the
    /// high nibble of the intensity of the second.
    LumaPair,
    /// Eight bytes, two RGBA pixels: the intensity of the first, or-ed with
    /// its own high nibble. The second pixel is not read.
    LumaTwice,
    /// Two bytes: the low nibble of the first above the second.
    JoinNibbles,
    /// Two bytes: the first.
    First,
    /// Three bytes, an RGB pixel: its intensity.
    LumaRgb,
    /// Four bytes, an RGBA pixel: its intensity. Alpha is dropped.
    LumaRgba,
    /// Four bytes, two pixels of intensity and alpha: for each pixel a nibble
    /// of three bits of intensity and one bit of alpha.
    ThreeOne,
}

/// How a source buffer becomes packed native bytes.
#[derive(Copy, Clone, Debug, PartialEq, Eq, Structural)]
pub enum Packing {
    /// Every byte as it is.
    Verbatim,
    /// Each four bytes, an RGBA pixel, become its packed 16-bit colour, high
    /// byte first.
    Color16,
    /// Each full group of bytes becomes one byte.
    Fold(Fold),
}

/// The rule by which a target format takes a source of a given colour type
/// and bit depth, or nothing where it does not accept that shape.
pub open spec fn packing(format: ImageFormat, color: ColorType, depth: BitDepth) -> Option<
    Packing,
> {
    match (format, color, depth) {
        (ImageFormat::RGBA32, ColorType::Rgba, BitDepth::Eight) => Some(Packing::Verbatim),
        (ImageFormat::RGBA16, ColorType::Rgba, BitDepth::Eight) => Some(Packing::Color16),
        (ImageFormat::I4, ColorType::Grayscale, BitDepth::Four) => Some(Packing::Verbatim),
        (ImageFormat::I4, ColorType::Grayscale, BitDepth::Eight) => Some(
            Packing::Fold(Fold::OrHighOfNext),
        ),
        (ImageFormat::I4, ColorType::GrayscaleAlpha, BitDepth::Eight) => Some(
            Packing::Fold(Fold::OrHighOfThird),
        ),
        (ImageFormat::I4, ColorType::Rgb, BitDepth::Eight) => Some(Packing::Fold(Fold::LumaPair)),
        (ImageFormat::I4, ColorType::Rgba, BitDepth::Eight) => Some(Packing::Fold(Fold::LumaTwice)),
        (ImageFormat::I8, ColorType::Grayscale, BitDepth::Eight) => Some(Packing::Verbatim),
        (ImageFormat::I8, ColorType::Grayscale, BitDepth::Four) => Some(
            Packing::Fold(Fold::JoinNibbles),
        ),
        (ImageFormat::I8, ColorType::GrayscaleAlpha, BitDepth::Eight) => Some(
            Packing::Fold(Fold::First),
        ),
        (ImageFormat::I8, ColorType::Rgb, BitDepth::Eight) => Some(Packing::Fold(Fold::LumaRgb)),
        (ImageFormat::I8, ColorType::Rgba, BitDepth::Eight) => Some(Packing::Fold(Fold::LumaRgba)),
        (ImageFormat::IA4, ColorType::GrayscaleAlpha, BitDepth::Eight) => Some(
            Packing::Fold(Fold::ThreeOne),
        ),
        (ImageFormat::IA8, ColorType::GrayscaleAlpha, BitDepth::Eight) => Some(
            Packing::Fold(Fold::OrHighOfNext),
        ),
        (ImageFormat::IA16, ColorType::GrayscaleAlpha, BitDepth::Eight) => Some(Packing::Verbatim),
        (ImageFormat::CI4, ColorType::Indexed, BitDepth::Four) => Some(Packing::Verbatim),
        (ImageFormat::CI4, ColorType::Indexed, BitDepth::Eight) => Some(
            Packing::Fold(Fold::JoinNibbles),
        ),
        (ImageFormat::CI8, ColorType::Indexed, BitDepth::Eight) => Some(Packing::Verbatim),
        (ImageFormat::CI8, ColorType::Indexed, BitDepth::Four) => Some(
            Packing::Fold(Fold::JoinNibbles),
        ),
        _ => None,
    }
}

/// The intensity of the RGB pixel that starts at `at`.
pub open spec fn luma_at(src: Seq<u8>, at: int) -> u8 {
    Intensity::spec_from_rgb(src[at], src[at + 1], src[at + 2])
}

/// The nibble of a pixel of intensity and alpha: the three high bits of the
/// intensity, then one bit that is set where alpha is above 127.
pub open spec fn three_one(intensity: u8, alpha: u8) -> u8 {
    ((intensity >> 5) << 1) | (if alpha > 127 {
        1u8
    } else {
        0u8
    })
}

/// Byte `j` of the packed 16-bit colours of a buffer of RGBA pixels: the
/// high byte of a colour comes first.
pub open spec fn color16_byte(src: Seq<u8>, j: int) -> u8 {
    let i = j / 2;
    let pixel = R5G5B5A1::spec_from_rgba(
        src[4 * i],
        src[4 * i + 1],
        src[4 * i + 2],
        src[4 * i + 3],
    );
    if j % 2 == 0 {
        (pixel / 256) as u8
    } else {
        (pixel % 256) as u8
    }
}

impl Fold {
    /// The number of source bytes in a group.
    pub open spec fn stride(self) -> nat {
        match self {
            Fold::OrHighOfNext => 2,
            Fold::OrHighOfThird => 4,
            Fold::LumaPair => 6,
            Fold::LumaTwice => 8,
            Fold::JoinNibbles => 2,
            Fold::First => 2,
            Fold::LumaRgb => 3,
            Fold::LumaRgba => 4,
            Fold::ThreeOne => 4,
        }
    }

    /// The number of full groups in a source of `len` bytes. What is left
    /// behind the last of them is dropped.
    pub open spec fn groups(self, len: nat) -> nat {
        len / self.stride()
    }

    /// The byte that group `i` of a source becomes.
    pub open spec fn byte(self, src: Seq<u8>, i: int) -> u8 {
        match self {
            Fold::OrHighOfNext => src[2 * i] | (src[2 * i + 1] >> 4),
            Fold::OrHighOfThird => src[4 * i] | (src[4 * i + 2] >> 4),
            Fold::LumaPair => luma_at(src, 6 * i) | (luma_at(src, 6 * i + 3) >> 4),
            Fold::LumaTwice => luma_at(src, 8 * i) | (luma_at(src, 8 * i) >> 4),
            Fold::JoinNibbles => (src[2 * i] << 4) | src[2 * i + 1],
            Fold::First => src[2 * i],
            Fold::LumaRgb => luma_at(src, 3 * i),
            Fold::LumaRgba => luma_at(src, 4 * i),
            Fold::ThreeOne => (three_one(src[4 * i], src[4 * i + 1]) << 4) | three_one(
                src[4 * i + 2],
                src[4 * i + 3],
            ),
        }
    }

    /// The number of full groups in a source of `len` bytes.
    pub(crate) fn count_groups(self, len: usize) -> (n: usize)
        ensures
            n == self.groups(len as nat),
    {
        match self {
            Fold::OrHighOfNext => len / 2,
            Fold::OrHighOfThird => len / 4,
            Fold::LumaPair => len / 6,
            Fold::LumaTwice => len / 8,
            Fold::JoinNibbles => len / 2,
            Fold::First => len / 2,
            Fold::LumaRgb => len / 3,
            Fold::LumaRgba => len / 4,
            Fold::ThreeOne => len / 4,
        }
    }

    /// The byte that group `i` of a source becomes.
    pub(crate) fn fold_group(self, src: &[u8], i: usize) -> (b: u8)
        requires
            i < self.groups(src@.len()),
        ensures
            b == self.byte(src@, i as int),
    {
        assert(src@.len() == src.len());
        match self {
            Fold::OrHighOfNext => src[2 * i] | src[2 * i + 1] >> 4,
            Fold::OrHighOfThird => src[4 * i] | src[4 * i + 2] >> 4,
            Fold::LumaPair => {
                let i1: u8 = Intensity::from_rgb(src[6 * i], src[6 * i + 1], src[6 * i + 2]);
                let i2: u8 = Intensity::from_rgb(src[6 * i + 3], src[6 * i + 4], src[6 * i + 5]);
                i1 | i2 >> 4
            },
            Fold::LumaTwice => {
                let i1: u8 = Intensity::from_rgb(src[8 * i], src[8 * i + 1], src[8 * i + 2]);
                i1 | i1 >> 4
            },
            Fold::JoinNibbles => src[2 * i] << 4 | src[2 * i + 1],
            Fold::First => src[2 * i],
            Fold::LumaRgb => Intensity::from_rgb(src[3 * i], src[3 * i + 1], src[3 * i + 2]),
            Fold::LumaRgba => Intensity::from_rgb(src[4 * i], src[4 * i + 1], src[4 * i + 2]),
            Fold::ThreeOne => {
                let high: u8 = (src[4 * i] >> 5) << 1 | (if src[4 * i + 1] > 127 {
                    1u8
                } else {
                    0u8
                });
                let low: u8 = (src[4 * i + 2] >> 5) << 1 | (if src[4 * i + 3] > 127 {
                    1u8
                } else {
                    0u8
                });
                high << 4 | low
            },
        }
    }
}

impl Packing {
    /// What the rule makes of a source buffer.
    pub open spec fn packed(self, src: Seq<u8>) -> Seq<u8> {
        match self {
            Packing::Verbatim => src,
            Packing::Color16 => Seq::new(2 * (src.len() / 4), |j: int| color16_byte(src, j)),
            Packing::Fold(fold) => Seq::new(fold.groups(src.len()), |i: int| fold.byte(src, i)),
        }
    }

    /// Appends to `out` what the rule makes of a source buffer.
    pub fn pack(self, src: &[u8], out: &mut Vec<u8>)
        ensures
            final(out)@ == old(out)@ + self.packed(src@),
    {
        let ghost before = out@;
        assert(src@.len() == src.len());
        match self {
            Packing::Verbatim => {
                out.extend_from_slice(src);
            },
            Packing::Color16 => {
                let n: usize = src.len() / 4;
                let mut i: usize = 0;
                while i < n
                    invariant
                        i <= n,
                        n == src@.len() / 4,
                        src@.len() <= usize::MAX,
                        out@ == before + Seq::new(2 * i as nat, |j: int| color16_byte(src@, j)),
                    decreases n - i,
                {
                    let pixel: u16 = R5G5B5A1::from_rgba(
                        src[4 * i],
                        src[4 * i + 1],
                        src[4 * i + 2],
                        src[4 * i + 3],
                    );
                    put_be_u16(out, pixel);
                    assert(out@ =~= before + Seq::new(
                        2 * (i + 1) as nat,
                        |j: int| color16_byte(src@, j),
                    ));
                    i += 1;
                }
            },
            Packing::Fold(fold) => {
                let n: usize = fold.count_groups(src.len());
                let mut i: usize = 0;
                while i < n
                    invariant
                        i <= n,
                        n == fold.groups(src@.len()),
                        out@ == before + Seq::new(i as nat, |j: int| fold.byte(src@, j)),
                    decreases n - i,
                {
                    let b: u8 = fold.fold_group(src, i);
                    out.push(b);
                    assert(out@ =~= before + Seq::new(
                        (i + 1) as nat,
                        |j: int| fold.byte(src@, j),
                    ));
                    i += 1;
                }
            },
        }
        assert(out@ =~= before + self.packed(src@));
    }
}

} // verus!
