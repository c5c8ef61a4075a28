//! What holds of a native image that goes to its PNG form and back.

use crate::color::{lemma_intensity_of_gray, lemma_unpack_then_pack, R5G5B5A1};
use crate::image::container::{BitDepth, ColorType};
use crate::image::endian::spec_be_u16;
use crate::image::n64::{lemma_packed_len, ImageError, ImageFormat, NativeImageView, PNGImageView};
use crate::image::pack::{color16_byte, luma_at, three_one, Fold, Packing};
use crate::image::unpack::{direct_pixel, direct_pixels, nibble};
use vstd::prelude::*;

verus! {

/// Whether the two nibbles of every byte are equal.
pub open spec fn nibbles_repeat(data: Seq<u8>) -> bool {
    forall|i: int| 0 <= i < data.len() ==> (#[trigger] data[i]) / 16 == data[i] % 16
}

/// The intensity and the alpha of each pixel of an RGBA8 stream: of every
/// four bytes the first and the last.
pub open spec fn gray_alpha(rgba: Seq<u8>) -> Seq<u8> {
    Seq::new(
        2 * (rgba.len() / 4),
        |j: int|
            if j % 2 == 0 {
                rgba[4 * (j / 2)]
            } else {
                rgba[4 * (j / 2) + 3]
            },
    )
}

/// An image whose buffer has exactly the packed length comes back byte for
/// byte from the pixel buffer that a PNG container gets for it, when that
/// buffer is encoded to the image's own format. This holds of RGBA32,
/// RGBA16, I8 and CI8; of CI4 with an even number of pixels; and of I4 with
/// an even number of pixels where the two nibbles of every byte are equal,
/// because an RGBA source gives I4 both nibbles of a byte from one pixel.
pub proof fn lemma_round_trip(image: NativeImageView)
    requires
        image.data.len() == image.packed_len(),
        match image.format {
            ImageFormat::RGBA32 | ImageFormat::RGBA16 | ImageFormat::I8 | ImageFormat::CI8 => true,
            ImageFormat::CI4 => image.pixel_count() % 2 == 0,
            ImageFormat::I4 => image.pixel_count() % 2 == 0 && nibbles_repeat(image.data),
            ImageFormat::IA4 | ImageFormat::IA8 | ImageFormat::IA16 => false,
        },
    ensures
        image.png_image() matches Ok(png) && png.as_native(image.format) == Ok::<
            Seq<u8>,
            ImageError,
        >(image.data),
{
    lemma_packed_len(image);
    let n = image.pixel_count();
    let data = image.data;
    let png = image.png_image()->Ok_0;
    let src = png.data;
    match image.format {
        ImageFormat::RGBA32 => {
            assert(src =~= data);
        },
        ImageFormat::RGBA16 => {
            let out = Packing::Color16.packed(src);
            assert forall|j: int| 0 <= j < out.len() implies out[j] == data[j] by {
                lemma_color16_of_pixel(data, n, j / 2);
            }
            assert(out =~= data);
        },
        ImageFormat::I8 => {
            let out = Packing::Fold(Fold::LumaRgba).packed(src);
            assert forall|i: int| 0 <= i < out.len() implies out[i] == data[i] by {
                lemma_intensity_of_gray(data[i]);
                assert(src[4 * i] == direct_pixel(ImageFormat::I8, data, (4 * i) / 4)[0]);
                assert(src[4 * i + 1] == direct_pixel(ImageFormat::I8, data, (4 * i + 1) / 4)[1]);
                assert(src[4 * i + 2] == direct_pixel(ImageFormat::I8, data, (4 * i + 2) / 4)[2]);
            }
            assert(out =~= data);
        },
        ImageFormat::I4 => {
            let out = Packing::Fold(Fold::LumaTwice).packed(src);
            assert forall|i: int| 0 <= i < out.len() implies out[i] == data[i] by {
                let b = data[i];
                let g = ((b / 16) * 16) as u8;
                assert(nibble(data, 2 * i) == b / 16);
                assert(src[8 * i] == direct_pixel(ImageFormat::I4, data, (8 * i) / 4)[0]);
                assert(src[8 * i + 1] == direct_pixel(ImageFormat::I4, data, (8 * i + 1) / 4)[1]);
                assert(src[8 * i + 2] == direct_pixel(ImageFormat::I4, data, (8 * i + 2) / 4)[2]);
                lemma_intensity_of_gray(g);
                assert(luma_at(src, 8 * i) == g);
                assert(g | (g >> 4) == b) by (bit_vector)
                    requires
                        g == (b / 16) * 16,
                        b / 16 == b % 16,
                ;
            }
            assert(out =~= data);
        },
        ImageFormat::CI4 => {
            let out = Packing::Fold(Fold::JoinNibbles).packed(src);
            assert forall|i: int| 0 <= i < out.len() implies out[i] == data[i] by {
                let b = data[i];
                let hi = (b / 16) as u8;
                let lo = (b % 16) as u8;
                assert(src[2 * i] == nibble(data, 2 * i));
                assert(src[2 * i + 1] == nibble(data, 2 * i + 1));
                assert((hi << 4) | lo == b) by (bit_vector)
                    requires
                        hi == b / 16,
                        lo == b % 16,
                ;
            }
            assert(out =~= data);
        },
        ImageFormat::CI8 => {
            assert(src =~= data);
        },
        _ => {},
    }
}

/// Pixel `i` of a decoded RGBA16 buffer packs to the two bytes that it was
/// decoded from.
proof fn lemma_color16_of_pixel(data: Seq<u8>, n: nat, i: int)
    requires
        0 <= i < n,
        data.len() == 2 * n,
    ensures
        color16_byte(direct_pixels(ImageFormat::RGBA16, data, n), 2 * i) == data[2 * i],
        color16_byte(direct_pixels(ImageFormat::RGBA16, data, n), 2 * i + 1) == data[2 * i + 1],
{
    let src = direct_pixels(ImageFormat::RGBA16, data, n);
    let word = spec_be_u16(data[2 * i], data[2 * i + 1]);
    assert(src[4 * i] == direct_pixel(ImageFormat::RGBA16, data, (4 * i) / 4)[0]);
    assert(src[4 * i + 1] == direct_pixel(ImageFormat::RGBA16, data, (4 * i + 1) / 4)[1]);
    assert(src[4 * i + 2] == direct_pixel(ImageFormat::RGBA16, data, (4 * i + 2) / 4)[2]);
    assert(src[4 * i + 3] == direct_pixel(ImageFormat::RGBA16, data, (4 * i + 3) / 4)[3]);
    lemma_unpack_then_pack(word);
    assert(R5G5B5A1::spec_from_rgba(src[4 * i], src[4 * i + 1], src[4 * i + 2], src[4 * i + 3])
        == word);
    assert((2 * i) / 2 == i && (2 * i + 1) / 2 == i);
}

/// An image of intensity and alpha whose buffer has exactly the packed
/// length comes back byte for byte when the intensity and the alpha of its
/// decoded pixels are encoded to its own format. This holds of IA16 and IA8,
/// and of IA4 with an even number of pixels.
pub proof fn lemma_round_trip_gray_alpha(image: NativeImageView)
    requires
        image.data.len() == image.packed_len(),
        match image.format {
            ImageFormat::IA16 | ImageFormat::IA8 => true,
            ImageFormat::IA4 => image.pixel_count() % 2 == 0,
            _ => false,
        },
    ensures
        image.decode(None) matches Ok(pixels) && (PNGImageView {
            data: gray_alpha(pixels),
            color_type: ColorType::GrayscaleAlpha,
            bit_depth: BitDepth::Eight,
        }).as_native(image.format) == Ok::<Seq<u8>, ImageError>(image.data),
{
    lemma_packed_len(image);
    let n = image.pixel_count();
    match image.format {
        ImageFormat::IA16 => lemma_ia16_back(image.data, n),
        ImageFormat::IA8 => lemma_ia8_back(image.data, n),
        _ => lemma_ia4_back(image.data, n),
    }
}

/// Sample `j` of the intensity and alpha of a decoded stream is the first or
/// the last byte of pixel `j / 2`.
proof fn lemma_gray_alpha_sample(format: ImageFormat, data: Seq<u8>, n: nat, k: int)
    requires
        !format.spec_is_indexed(),
        0 <= k < n,
    ensures
        gray_alpha(direct_pixels(format, data, n)).len() == 2 * n,
        gray_alpha(direct_pixels(format, data, n))[2 * k] == direct_pixel(format, data, k)[0],
        gray_alpha(direct_pixels(format, data, n))[2 * k + 1] == direct_pixel(format, data, k)[3],
{
    let pixels = direct_pixels(format, data, n);
    assert(pixels.len() / 4 == n);
    assert((2 * k) / 2 == k && (2 * k + 1) / 2 == k);
    assert(pixels[4 * k] == direct_pixel(format, data, (4 * k) / 4)[0]);
    assert(pixels[4 * k + 3] == direct_pixel(format, data, (4 * k + 3) / 4)[3]);
}

/// The samples of a decoded IA16 buffer are the buffer.
proof fn lemma_ia16_back(data: Seq<u8>, n: nat)
    requires
        data.len() == 2 * n,
    ensures
        gray_alpha(direct_pixels(ImageFormat::IA16, data, n)) == data,
{
    let src = gray_alpha(direct_pixels(ImageFormat::IA16, data, n));
    assert(direct_pixels(ImageFormat::IA16, data, n).len() / 4 == n);
    assert forall|j: int| 0 <= j < src.len() implies src[j] == data[j] by {
        lemma_gray_alpha_sample(ImageFormat::IA16, data, n, j / 2);
    }
    assert(src =~= data);
}

/// The samples of a decoded IA8 buffer fold to the buffer.
proof fn lemma_ia8_back(data: Seq<u8>, n: nat)
    requires
        data.len() == n,
    ensures
        Packing::Fold(Fold::OrHighOfNext).packed(
            gray_alpha(direct_pixels(ImageFormat::IA8, data, n)),
        ) == data,
{
    let src = gray_alpha(direct_pixels(ImageFormat::IA8, data, n));
    let out = Packing::Fold(Fold::OrHighOfNext).packed(src);
    assert(direct_pixels(ImageFormat::IA8, data, n).len() / 4 == n);
    assert forall|i: int| 0 <= i < out.len() implies out[i] == data[i] by {
        let b = data[i];
        let g = ((b / 16) * 16) as u8;
        let a = ((b % 16) * 16) as u8;
        lemma_gray_alpha_sample(ImageFormat::IA8, data, n, i);
        assert(g | (a >> 4) == b) by (bit_vector)
            requires
                g == (b / 16) * 16,
                a == (b % 16) * 16,
        ;
    }
    assert(out =~= data);
}

/// The samples of a decoded IA4 buffer of whole bytes fold to the buffer.
proof fn lemma_ia4_back(data: Seq<u8>, n: nat)
    requires
        n % 2 == 0,
        data.len() == (n + 1) / 2,
    ensures
        Packing::Fold(Fold::ThreeOne).packed(gray_alpha(direct_pixels(ImageFormat::IA4, data, n)))
            == data,
{
    let src = gray_alpha(direct_pixels(ImageFormat::IA4, data, n));
    let out = Packing::Fold(Fold::ThreeOne).packed(src);
    assert(direct_pixels(ImageFormat::IA4, data, n).len() / 4 == n);
    assert forall|i: int| 0 <= i < out.len() implies out[i] == data[i] by {
        let b = data[i];
        let hi = (b / 16) as u8;
        let lo = (b % 16) as u8;
        lemma_gray_alpha_sample(ImageFormat::IA4, data, n, 2 * i);
        lemma_gray_alpha_sample(ImageFormat::IA4, data, n, 2 * i + 1);
        assert(nibble(data, 2 * i) == hi);
        assert(nibble(data, 2 * i + 1) == lo);
        lemma_three_one_of_nibble(hi);
        lemma_three_one_of_nibble(lo);
        assert(src[4 * i] == src[2 * (2 * i)] && src[4 * i + 2] == src[2 * (2 * i + 1)]);
        assert((hi << 4) | lo == b) by (bit_vector)
            requires
                hi == b / 16,
                lo == b % 16,
        ;
    }
    assert(out =~= data);
}

/// The intensity and alpha that a nibble of IA4 decodes to give the nibble
/// back.
proof fn lemma_three_one_of_nibble(n: u8)
    requires
        n < 16,
    ensures
        three_one(((n / 2) * 32) as u8, ((n % 2) * 255) as u8) == n,
{
    let g = ((n / 2) * 32) as u8;
    let a = ((n % 2) * 255) as u8;
    let bit = if a > 127 { 1u8 } else { 0u8 };
    assert(bit == n % 2);
    assert(((g >> 5) << 1) | bit == n) by (bit_vector)
        requires
            n < 16,
            g == (n / 2) * 32,
            bit == n % 2,
    ;
}

/// The shape in which a format itself stores its pixels, where PNG has such
/// a shape: grayscale of four bits for I4 and of eight bits for I8,
/// intensity and alpha of eight bits for IA16, indices of four bits for CI4
/// and of eight bits for CI8, RGBA of eight bits for RGBA32.
pub open spec fn stored_shape(format: ImageFormat) -> Option<(ColorType, BitDepth)> {
    match format {
        ImageFormat::I4 => Some((ColorType::Grayscale, BitDepth::Four)),
        ImageFormat::I8 => Some((ColorType::Grayscale, BitDepth::Eight)),
        ImageFormat::IA16 => Some((ColorType::GrayscaleAlpha, BitDepth::Eight)),
        ImageFormat::CI4 => Some((ColorType::Indexed, BitDepth::Four)),
        ImageFormat::CI8 => Some((ColorType::Indexed, BitDepth::Eight)),
        ImageFormat::RGBA32 => Some((ColorType::Rgba, BitDepth::Eight)),
        ImageFormat::IA4 | ImageFormat::IA8 | ImageFormat::RGBA16 => None,
    }
}

/// A buffer in the shape in which a format stores its pixels passes into
/// that format as it is, whatever its length.
pub proof fn lemma_stored_shape_passes(format: ImageFormat, data: Seq<u8>)
    ensures
        stored_shape(format) matches Some(shape) ==> (PNGImageView {
            data,
            color_type: shape.0,
            bit_depth: shape.1,
        }).as_native(format) == Ok::<Seq<u8>, ImageError>(data),
{
}

} // verus!
