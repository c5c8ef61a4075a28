//! From packed native bytes to RGBA8 pixels: what each format's pixel is, and
//! the code that extracts it.

use crate::color::R5G5B5A1;
use crate::image::endian::{be_u16, be_u32, spec_be_u16};
use crate::image::n64::ImageFormat;
use vstd::prelude::*;
use vstd::slice::slice_subrange;

verus! {

/// Nibble `k` of a packed buffer. A byte holds two: its high nibble first.
pub open spec fn nibble(data: Seq<u8>, k: int) -> u8 {
    if k % 2 == 0 {
        data[k / 2] / 16
    } else {
        data[k / 2] % 16
    }
}

/// A pixel of one intensity and one alpha value.
pub open spec fn gray(intensity: u8, alpha: u8) -> Seq<u8> {
    seq![intensity, intensity, intensity, alpha]
}

/// The RGBA8 bytes of pixel `k` of a buffer in a format that holds its
/// colours itself.
///
/// - RGBA32: four bytes, as they are.
/// - RGBA16: a big-endian packed 16-bit colour, unpacked.
/// - IA16: a byte of intensity and a byte of alpha, as they are.
/// - IA8: the high nibble, left in place, is the intensity; the low nibble,
///   moved up, is alpha.
/// - IA4: a nibble whose three high bits, times 32, are the intensity and
///   whose low bit, times 255, is alpha.
/// - I8: a byte of intensity, which is alpha too.
/// - I4: a nibble of intensity, moved up, which is alpha too.
///
/// The intensity of a pixel is its red, its green and its blue.
pub open spec fn direct_pixel(format: ImageFormat, data: Seq<u8>, k: int) -> Seq<u8> {
    match format {
        ImageFormat::RGBA32 => seq![data[4 * k], data[4 * k + 1], data[4 * k + 2], data[4 * k + 3]],
        ImageFormat::RGBA16 => R5G5B5A1::spec_to_rgba(spec_be_u16(data[2 * k], data[2 * k + 1])),
        ImageFormat::IA16 => gray(data[2 * k], data[2 * k + 1]),
        ImageFormat::IA8 => gray(((data[k] / 16) * 16) as u8, ((data[k] % 16) * 16) as u8),
        ImageFormat::IA4 => gray(
            ((nibble(data, k) / 2) * 32) as u8,
            ((nibble(data, k) % 2) * 255) as u8,
        ),
        ImageFormat::I8 => gray(data[k], data[k]),
        ImageFormat::I4 => gray((nibble(data, k) * 16) as u8, (nibble(data, k) * 16) as u8),
        // an indexed format has no colours of its own
        ImageFormat::CI4 | ImageFormat::CI8 => Seq::empty(),
    }
}

/// The palette index that pixel `k` of an indexed buffer holds.
pub open spec fn palette_index(format: ImageFormat, data: Seq<u8>, k: int) -> u8 {
    if format == ImageFormat::CI4 {
        nibble(data, k)
    } else {
        data[k]
    }
}

/// Whether a decoded palette has an entry of this index: four bytes from
/// four times the index on.
pub open spec fn has_entry(table: Seq<u8>, index: u8) -> bool {
    index as int * 4 + 4 <= table.len()
}

/// The entry of a decoded palette at an index.
pub open spec fn palette_entry(table: Seq<u8>, index: u8) -> Seq<u8> {
    table.subrange(index as int * 4, index as int * 4 + 4)
}

/// The RGBA8 stream of the first `count` pixels of a direct format.
pub open spec fn direct_pixels(format: ImageFormat, data: Seq<u8>, count: nat) -> Seq<u8> {
    Seq::new(4 * count, |j: int| direct_pixel(format, data, j / 4)[j % 4])
}

/// The palette indices of the first `count` pixels of an indexed format.
pub open spec fn palette_indices(format: ImageFormat, data: Seq<u8>, count: nat) -> Seq<u8> {
    Seq::new(count, |k: int| palette_index(format, data, k))
}

/// The RGBA8 stream of the first `count` pixels of an indexed format, each
/// looked up in a decoded palette.
pub open spec fn indexed_pixels(
    format: ImageFormat,
    data: Seq<u8>,
    table: Seq<u8>,
    count: nat,
) -> Seq<u8> {
    Seq::new(4 * count, |j: int| palette_entry(table, palette_index(format, data, j / 4))[j % 4])
}

/// Whether a buffer is long enough to hold pixel `k` of a format.
pub open spec fn holds_pixel(format: ImageFormat, data: Seq<u8>, k: int) -> bool {
    match format {
        ImageFormat::I4 | ImageFormat::IA4 | ImageFormat::CI4 => k / 2 < data.len(),
        ImageFormat::I8 | ImageFormat::IA8 | ImageFormat::CI8 => k < data.len(),
        ImageFormat::IA16 | ImageFormat::RGBA16 => 2 * k + 2 <= data.len(),
        ImageFormat::RGBA32 => 4 * k + 4 <= data.len(),
    }
}

/// One more pixel lengthens the stream by that pixel's four bytes.
pub(crate) proof fn lemma_direct_pixels_step(format: ImageFormat, data: Seq<u8>, count: nat)
    requires
        !format.spec_is_indexed(),
    ensures
        direct_pixels(format, data, count + 1) == direct_pixels(format, data, count)
            + direct_pixel(format, data, count as int),
{
    assert(direct_pixel(format, data, count as int).len() == 4);
    assert(direct_pixels(format, data, count + 1) =~= direct_pixels(format, data, count)
        + direct_pixel(format, data, count as int));
}

/// One more pixel lengthens the stream by the palette entry of its index.
pub(crate) proof fn lemma_indexed_pixels_step(
    format: ImageFormat,
    data: Seq<u8>,
    table: Seq<u8>,
    count: nat,
)
    requires
        has_entry(table, palette_index(format, data, count as int)),
    ensures
        indexed_pixels(format, data, table, count + 1) == indexed_pixels(
            format,
            data,
            table,
            count,
        ) + palette_entry(table, palette_index(format, data, count as int)),
{
    assert(indexed_pixels(format, data, table, count + 1) =~= indexed_pixels(
        format,
        data,
        table,
        count,
    ) + palette_entry(table, palette_index(format, data, count as int)));
}

/// Nibble `k` of a packed buffer.
pub(crate) fn nibble_at(data: &[u8], k: u64) -> (n: u8)
    requires
        k / 2 < data@.len(),
    ensures
        n == nibble(data@, k as int),
        n < 16,
{
    assert(data@.len() == data.len());
    let byte: u8 = data[(k / 2) as usize];
    assert(byte >> 4 == byte / 16 && byte & 0x0F == byte % 16) by (bit_vector);
    if k % 2 == 0 {
        byte >> 4
    } else {
        byte & 0x0F
    }
}

/// Appends the RGBA8 bytes of pixel `k` of a direct format. An indexed
/// format has no colours of its own: nothing is appended for it.
pub(crate) fn push_direct_pixel(format: ImageFormat, data: &[u8], k: u64, out: &mut Vec<u8>)
    requires
        holds_pixel(format, data@, k as int),
    ensures
        final(out)@ == old(out)@ + direct_pixel(format, data@, k as int),
{
    let ghost before = out@;
    assert(data@.len() == data.len());
    match format {
        ImageFormat::RGBA32 => {
            let at: usize = (k * 4) as usize;
            let pixel: u32 = be_u32(slice_subrange(data, at, at + 4));
            let (b0, b1, b2, b3) = (data[at], data[at + 1], data[at + 2], data[at + 3]);
            assert((pixel >> 24) as u8 == b0 && (pixel >> 16) as u8 == b1 && (pixel >> 8) as u8
                == b2 && pixel as u8 == b3) by (bit_vector)
                requires
                    pixel == b0 as u32 * 0x100_0000 + b1 as u32 * 0x1_0000 + b2 as u32 * 0x100
                        + b3 as u32,
            ;
            out.push((pixel >> 24) as u8);
            out.push(#[verifier::truncate] ((pixel >> 16) as u8));
            out.push(#[verifier::truncate] ((pixel >> 8) as u8));
            out.push(#[verifier::truncate] (pixel as u8));
        },
        ImageFormat::RGBA16 => {
            let at: usize = (k * 2) as usize;
            let pixel: u16 = be_u16(slice_subrange(data, at, at + 2));
            let mut rgba = R5G5B5A1::to_rgba(pixel);
            out.append(&mut rgba);
        },
        ImageFormat::IA16 => {
            let at: usize = (k * 2) as usize;
            let grayscale: u8 = data[at];
            let alpha: u8 = data[at + 1];
            push_gray(out, grayscale, alpha);
        },
        ImageFormat::IA8 => {
            let byte: u8 = data[k as usize];
            assert(byte & 0xF0 == (byte / 16) * 16 && (byte & 0x0F) << 4 == (byte % 16) * 16)
                by (bit_vector);
            let grayscale: u8 = byte & 0xF0;
            let alpha: u8 = (byte & 0x0F) << 4;
            push_gray(out, grayscale, alpha);
        },
        ImageFormat::IA4 => {
            let source: u8 = nibble_at(data, k);
            assert((source & 0x0E) >> 1 == source / 2 && source & 0x01 == source % 2)
                by (bit_vector)
                requires
                    source < 16,
            ;
            let grayscale: u8 = ((source & 0x0E) >> 1) * 32;
            let alpha: u8 = (source & 0x01) * 255;
            push_gray(out, grayscale, alpha);
        },
        ImageFormat::I8 => {
            let grayscale: u8 = data[k as usize];
            push_gray(out, grayscale, grayscale);
        },
        ImageFormat::I4 => {
            let source: u8 = nibble_at(data, k);
            assert(source << 4 == source * 16) by (bit_vector)
                requires
                    source < 16,
            ;
            let grayscale: u8 = source << 4;
            push_gray(out, grayscale, grayscale);
        },
        ImageFormat::CI4 | ImageFormat::CI8 => {},
    }
    assert(out@ =~= before + direct_pixel(format, data@, k as int));
}

/// Appends a pixel of one intensity and one alpha value.
fn push_gray(out: &mut Vec<u8>, intensity: u8, alpha: u8)
    ensures
        final(out)@ == old(out)@ + gray(intensity, alpha),
{
    let ghost before = out@;
    out.push(intensity);
    out.push(intensity);
    out.push(intensity);
    out.push(alpha);
    assert(out@ =~= before + gray(intensity, alpha));
}

/// The palette index of pixel `k` of an indexed format.
pub(crate) fn palette_index_at(format: ImageFormat, data: &[u8], k: u64) -> (index: u8)
    requires
        format.spec_is_indexed(),
        holds_pixel(format, data@, k as int),
    ensures
        index == palette_index(format, data@, k as int),
{
    assert(data@.len() == data.len());
    match format {
        ImageFormat::CI4 => nibble_at(data, k),
        _ => data[k as usize],
    }
}

} // verus!
