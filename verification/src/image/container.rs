//! The boundary to the PNG container: the vocabulary of pixel shapes, and the
//! calls into the `png` crate that read and write a stream.

use vstd::prelude::*;

verus! {

/// How a pixel of a PNG buffer is made up of samples.
#[derive(Copy, Clone, Debug, PartialEq, Eq, Hash, Structural)]
pub enum ColorType {
    Grayscale,
    Rgb,
    Indexed,
    GrayscaleAlpha,
    Rgba,
}

/// The number of bits of one sample of a PNG buffer.
#[derive(Copy, Clone, Debug, PartialEq, Eq, Hash, Structural)]
pub enum BitDepth {
    One,
    Two,
    Four,
    Eight,
    Sixteen,
}

impl ColorType {
    /// The number that stands for this colour type in a PNG header.
    pub open spec fn spec_code(self) -> u8 {
        match self {
            ColorType::Grayscale => 0,
            ColorType::Rgb => 2,
            ColorType::Indexed => 3,
            ColorType::GrayscaleAlpha => 4,
            ColorType::Rgba => 6,
        }
    }

    /// The colour type that a header number stands for, if any.
    pub open spec fn spec_from_code(code: u8) -> Option<ColorType> {
        if code == 0 {
            Some(ColorType::Grayscale)
        } else if code == 2 {
            Some(ColorType::Rgb)
        } else if code == 3 {
            Some(ColorType::Indexed)
        } else if code == 4 {
            Some(ColorType::GrayscaleAlpha)
        } else if code == 6 {
            Some(ColorType::Rgba)
        } else {
            None
        }
    }

    /// The number of samples that make up one pixel.
    pub open spec fn spec_samples(self) -> u8 {
        match self {
            ColorType::Grayscale => 1,
            ColorType::Rgb => 3,
            ColorType::Indexed => 1,
            ColorType::GrayscaleAlpha => 2,
            ColorType::Rgba => 4,
        }
    }

    /// The number that stands for this colour type in a PNG header.
    #[verifier::when_used_as_spec(spec_code)]
    pub fn code(self) -> (code: u8)
        ensures
            code == self.spec_code(),
    {
        match self {
            ColorType::Grayscale => 0,
            ColorType::Rgb => 2,
            ColorType::Indexed => 3,
            ColorType::GrayscaleAlpha => 4,
            ColorType::Rgba => 6,
        }
    }

    /// The colour type that a header number stands for, if any.
    pub fn from_code(code: u8) -> (color: Option<ColorType>)
        ensures
            color == Self::spec_from_code(code),
    {
        match code {
            0 => Some(ColorType::Grayscale),
            2 => Some(ColorType::Rgb),
            3 => Some(ColorType::Indexed),
            4 => Some(ColorType::GrayscaleAlpha),
            6 => Some(ColorType::Rgba),
            _ => None,
        }
    }

    /// The number of samples that make up one pixel.
    #[verifier::when_used_as_spec(spec_samples)]
    pub fn samples(self) -> (n: u8)
        ensures
            n == self.spec_samples(),
    {
        match self {
            ColorType::Grayscale => 1,
            ColorType::Rgb => 3,
            ColorType::Indexed => 1,
            ColorType::GrayscaleAlpha => 2,
            ColorType::Rgba => 4,
        }
    }
}

impl BitDepth {
    /// The number of bits of one sample, which is also the number that stands
    /// for this depth in a PNG header.
    pub open spec fn spec_bits(self) -> u8 {
        match self {
            BitDepth::One => 1,
            BitDepth::Two => 2,
            BitDepth::Four => 4,
            BitDepth::Eight => 8,
            BitDepth::Sixteen => 16,
        }
    }

    /// The depth of a given number of bits, if PNG has one.
    pub open spec fn spec_from_bits(bits: u8) -> Option<BitDepth> {
        if bits == 1 {
            Some(BitDepth::One)
        } else if bits == 2 {
            Some(BitDepth::Two)
        } else if bits == 4 {
            Some(BitDepth::Four)
        } else if bits == 8 {
            Some(BitDepth::Eight)
        } else if bits == 16 {
            Some(BitDepth::Sixteen)
        } else {
            None
        }
    }

    /// The number of bits of one sample.
    #[verifier::when_used_as_spec(spec_bits)]
    pub fn bits(self) -> (bits: u8)
        ensures
            bits == self.spec_bits(),
    {
        match self {
            BitDepth::One => 1,
            BitDepth::Two => 2,
            BitDepth::Four => 4,
            BitDepth::Eight => 8,
            BitDepth::Sixteen => 16,
        }
    }

    /// The depth of a given number of bits, if PNG has one.
    pub fn from_bits(bits: u8) -> (depth: Option<BitDepth>)
        ensures
            depth == Self::spec_from_bits(bits),
    {
        match bits {
            1 => Some(BitDepth::One),
            2 => Some(BitDepth::Two),
            4 => Some(BitDepth::Four),
            8 => Some(BitDepth::Eight),
            16 => Some(BitDepth::Sixteen),
            _ => None,
        }
    }
}

/// The number of bytes that one row of `width` pixels takes in a PNG buffer:
/// the samples of a row are packed without gaps, and a row ends on a byte.
pub open spec fn row_bytes(color: ColorType, depth: BitDepth, width: u32) -> nat {
    ((width as nat * color.spec_samples() as nat * depth.spec_bits() as nat + 7) / 8) as nat
}

/// Whether the `png` encoder can take a frame of this shape and size. It
/// filters the frame into as many bytes as all rows have, each with one more
/// byte in front; they must not be more than `isize::MAX`, the most that one
/// buffer holds. The sizes that the encoder computes on the way then stay
/// within `usize`.
pub open spec fn frame_fits(color: ColorType, depth: BitDepth, width: u32, height: u32) -> bool {
    (row_bytes(color, depth, width) + 1) * height as nat <= isize::MAX
}

/// Whether the `png` encoder can take a frame of this shape and size.
pub fn check_frame_fits(color: ColorType, depth: BitDepth, width: u32, height: u32) -> (fits: bool)
    ensures
        fits == frame_fits(color, depth, width, height),
{
    let samples: u128 = color.samples() as u128;
    let bits: u128 = depth.bits() as u128;
    let per_sample: u128 = (width as u128) * samples;
    assert(per_sample * bits <= 0xFFFF_FFFF * 4 * 16) by (nonlinear_arith)
        requires
            per_sample <= 0xFFFF_FFFF * 4,
            bits <= 16,
    ;
    let row: u128 = (per_sample * bits + 7) / 8;
    assert((row + 1) * (height as u128) <= 0x8_0000_0000 * 0xFFFF_FFFF) by (nonlinear_arith)
        requires
            row + 1 <= 0x8_0000_0000,
            height <= 0xFFFF_FFFF,
    ;
    assert(width as nat * color.spec_samples() as nat * depth.spec_bits() as nat == per_sample
        * bits) by (nonlinear_arith)
        requires
            per_sample == width as nat * color.spec_samples() as nat,
            bits == depth.spec_bits() as nat,
    ;
    (row + 1) * (height as u128) <= isize::MAX as u128
}

/// The error of `png::Decoder`. Nothing is read out of it.
#[verifier::external_type_specification]
#[verifier::external_body]
pub struct ExDecodingError(png::DecodingError);

/// The error of `png::Encoder`. Nothing is read out of it.
#[verifier::external_type_specification]
#[verifier::external_body]
pub struct ExEncodingError(png::EncodingError);

/// What `png::Decoder` reads out of a byte stream where `usize` has
/// `word_bits` bits: the pixel buffer of the first frame with the header
/// numbers of its colour type and bit depth, or nothing where the decoder
/// rejects the stream. The word size counts because the decoder gives up on a
/// frame whose size it cannot hold in a `usize`.
pub uninterp spec fn png_frame(stream: Seq<u8>, word_bits: u32) -> Option<(Seq<u8>, u8, u8)>;

/// The stream that `png::Encoder`, left at its defaults, writes for one frame:
/// its size, the header numbers of its colour type and bit depth, the bytes
/// of its palette chunk if it gets one, and its pixel buffer. Nothing where
/// the encoder refuses them.
pub uninterp spec fn png_stream(
    width: u32,
    height: u32,
    color: u8,
    depth: u8,
    palette: Option<Seq<u8>>,
    pixels: Seq<u8>,
) -> Option<Seq<u8>>;

/// The view of a byte slice that may be absent.
pub open spec fn bytes_view(bytes: Option<&[u8]>) -> Option<Seq<u8>> {
    match bytes {
        Some(b) => Some(b@),
        None => None,
    }
}

/// Runs `png::Decoder` on a stream held in memory: `read_info`, a buffer of
/// `output_buffer_size` bytes, `next_frame`, and the buffer cut to the
/// frame's `buffer_size`. Trusted: the outcome depends on the stream and the
/// word size alone, and is what `png_frame` names.
#[verifier::external_body]
pub(crate) fn png_decode(stream: &[u8]) -> (r: Result<(Vec<u8>, u8, u8), png::DecodingError>)
    ensures
        match r {
            Ok(frame) => png_frame(stream@, usize::BITS) == Some((frame.0@, frame.1, frame.2)),
            Err(_) => png_frame(stream@, usize::BITS) is None,
        },
{
    let mut reader = png::Decoder::new(stream).read_info()?;
    let mut pixels = vec![0; reader.output_buffer_size()];
    let info = reader.next_frame(&mut pixels)?;
    pixels.truncate(info.buffer_size());
    Ok((pixels, info.color_type as u8, info.bit_depth as u8))
}

/// Runs `png::Encoder` into a vector: `with_info` on an `Info` of the given
/// size, colour type, bit depth and palette, `write_header`,
/// `write_image_data` and `finish`. The two header numbers must be valid, and
/// the frame must fit, or the encoder panics. Trusted: the outcome depends on
/// the arguments alone, and is what `png_stream` names.
#[verifier::external_body]
pub(crate) fn png_encode(
    width: u32,
    height: u32,
    color: u8,
    depth: u8,
    palette: Option<&[u8]>,
    pixels: &[u8],
) -> (r: Result<Vec<u8>, png::EncodingError>)
    requires
        ColorType::spec_from_code(color) matches Some(c) && BitDepth::spec_from_bits(
            depth,
        ) matches Some(d) && frame_fits(c, d, width, height),
    ensures
        match r {
            Ok(stream) => png_stream(width, height, color, depth, bytes_view(palette), pixels@)
                == Some(stream@),
            Err(_) => png_stream(width, height, color, depth, bytes_view(palette), pixels@)
                is None,
        },
{
    let mut info = png::Info::with_size(width, height);
    info.color_type = png::ColorType::from_u8(color).unwrap();
    info.bit_depth = png::BitDepth::from_u8(depth).unwrap();
    info.palette = palette.map(|p| std::borrow::Cow::Owned(p.to_vec()));
    let mut stream = Vec::new();
    let mut writer = png::Encoder::with_info(&mut stream, info)?.write_header()?;
    writer.write_image_data(pixels)?;
    writer.finish()?;
    Ok(stream)
}

} // verus!
