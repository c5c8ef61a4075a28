//! The nine texture formats of the Nintendo 64, the images held in them, and
//! their conversion to and from the pixel buffers of a PNG container.

use crate::image::container::{
    bytes_view, check_frame_fits, frame_fits, png_decode, png_encode, png_frame, png_stream,
};
use crate::image::pack::{packing, Fold, Packing};
use crate::image::unpack::{
    direct_pixels, has_entry, holds_pixel, indexed_pixels, lemma_direct_pixels_step,
    lemma_indexed_pixels_step, palette_entry, palette_index, palette_index_at, palette_indices,
    push_direct_pixel,
};
use vstd::prelude::*;
use vstd::slice::slice_to_vec;

pub use crate::image::container::{BitDepth, ColorType};

verus! {

/// The native pixel formats.
#[derive(Copy, Clone, Debug, PartialEq, Eq, Hash, Structural)]
pub enum ImageFormat {
    I4,
    I8,
    IA4,
    IA8,
    IA16,
    CI4,
    CI8,
    RGBA16,
    RGBA32,
}

/// The size class of a palette. A pixel of an indexed format reaches 16 or
/// 256 entries; nothing reads what the two larger classes add.
#[derive(Copy, Clone, Debug, PartialEq, Eq, Hash, Structural)]
pub enum ImageSize {
    S4B,
    S8B,
    S16B,
    S32B,
}

/// Why a conversion failed.
#[derive(Copy, Clone, Debug, PartialEq, Eq, Structural)]
pub enum ImageError {
    /// The buffer holds fewer bytes than the format and the dimensions ask for.
    TruncatedInput,
    /// An indexed format was decoded without a palette.
    MissingPalette,
    /// The target format does not accept a source of this colour type and bit
    /// depth.
    InvalidSourceShape(ColorType, BitDepth),
    /// A pixel refers to a palette entry that the decoded palette lacks.
    PaletteIndexOutOfRange,
    /// The PNG container codec rejected its input.
    Container,
}

impl ImageFormat {
    /// The number of bits that one pixel takes in a packed buffer.
    pub open spec fn spec_bits_per_pixel(self) -> u32 {
        match self {
            ImageFormat::I4 | ImageFormat::IA4 | ImageFormat::CI4 => 4,
            ImageFormat::I8 | ImageFormat::IA8 | ImageFormat::CI8 => 8,
            ImageFormat::IA16 | ImageFormat::RGBA16 => 16,
            ImageFormat::RGBA32 => 32,
        }
    }

    /// Whether a pixel is an index into a palette.
    pub open spec fn spec_is_indexed(self) -> bool {
        self == ImageFormat::CI4 || self == ImageFormat::CI8
    }

    /// The number of bits that one pixel takes in a packed buffer.
    #[verifier::when_used_as_spec(spec_bits_per_pixel)]
    pub fn bits_per_pixel(self) -> (bits: u32)
        ensures
            bits == self.spec_bits_per_pixel(),
    {
        match self {
            ImageFormat::I4 | ImageFormat::IA4 | ImageFormat::CI4 => 4,
            ImageFormat::I8 | ImageFormat::IA8 | ImageFormat::CI8 => 8,
            ImageFormat::IA16 | ImageFormat::RGBA16 => 16,
            ImageFormat::RGBA32 => 32,
        }
    }

    /// Whether a pixel is an index into a palette.
    #[verifier::when_used_as_spec(spec_is_indexed)]
    pub fn is_indexed(self) -> (indexed: bool)
        ensures
            indexed == self.spec_is_indexed(),
    {
        match self {
            ImageFormat::CI4 | ImageFormat::CI8 => true,
            _ => false,
        }
    }
}

impl ImageSize {
    /// The number of entries of a palette of this size class.
    pub open spec fn spec_tlut_size_in_bytes(&self) -> usize {
        match self {
            ImageSize::S4B => 0x10,
            ImageSize::S8B => 0x100,
            ImageSize::S16B => 0x1000,
            ImageSize::S32B => 0x10000,
        }
    }

    /// The number of 16-bit entries that a palette of this size class is
    /// decoded to. Despite the name it counts entries, not bytes.
    #[verifier::when_used_as_spec(spec_tlut_size_in_bytes)]
    pub fn tlut_size_in_bytes(&self) -> (entries: usize)
        ensures
            entries == self.spec_tlut_size_in_bytes(),
    {
        match self {
            ImageSize::S4B => 0x10,
            ImageSize::S8B => 0x100,
            ImageSize::S16B => 0x1000,
            ImageSize::S32B => 0x10000,
        }
    }
}

/// An image in a native format: the packed bytes as stored, with the format
/// and the dimensions that tell how to read them.
#[derive(Debug, PartialEq, Eq)]
pub struct NativeImage {
    pub format: ImageFormat,
    pub width: u32,
    pub height: u32,
    pub data: Vec<u8>,
}

/// A pixel buffer as a PNG container holds it, with its declared shape.
#[derive(Debug, PartialEq, Eq)]
pub struct PNGImage {
    pub data: Vec<u8>,
    pub color_type: ColorType,
    pub bit_depth: BitDepth,
}

/// A palette: packed 16-bit colours, and how many of them count.
#[derive(Debug, PartialEq, Eq)]
pub struct TLUT {
    pub data: Vec<u8>,
    pub size: ImageSize,
}

/// The mathematical content of a `NativeImage`.
pub struct NativeImageView {
    pub format: ImageFormat,
    pub width: u32,
    pub height: u32,
    pub data: Seq<u8>,
}

/// The mathematical content of a `PNGImage`.
pub struct PNGImageView {
    pub data: Seq<u8>,
    pub color_type: ColorType,
    pub bit_depth: BitDepth,
}

/// The mathematical content of a `TLUT`.
pub struct TLUTView {
    pub data: Seq<u8>,
    pub size: ImageSize,
}

impl View for NativeImage {
    type V = NativeImageView;

    open spec fn view(&self) -> NativeImageView {
        NativeImageView {
            format: self.format,
            width: self.width,
            height: self.height,
            data: self.data@,
        }
    }
}

impl View for PNGImage {
    type V = PNGImageView;

    open spec fn view(&self) -> PNGImageView {
        PNGImageView { data: self.data@, color_type: self.color_type, bit_depth: self.bit_depth }
    }
}

impl View for TLUT {
    type V = TLUTView;

    open spec fn view(&self) -> TLUTView {
        TLUTView { data: self.data@, size: self.size }
    }
}

/// The palette chunk that goes with an indexed image: a placeholder of 256
/// bytes, each of them 10. The colours of the image are not in it.
pub open spec fn placeholder_palette() -> Seq<u8> {
    Seq::new(256, |i: int| 10u8)
}

impl NativeImageView {
    /// The number of pixels.
    pub open spec fn pixel_count(self) -> nat {
        self.width as nat * self.height as nat
    }

    /// The number of bytes that the pixels take, packed without gaps and
    /// rounded up to a whole byte.
    pub open spec fn packed_len(self) -> nat {
        (self.pixel_count() * self.format.spec_bits_per_pixel() as nat + 7) / 8
    }

    /// Whether some pixel of an indexed image refers to an entry that a
    /// decoded palette lacks.
    pub open spec fn lacks_entry(self, table: Seq<u8>) -> bool {
        exists|k: int|
            0 <= k < self.pixel_count() && !has_entry(
                table,
                #[trigger] palette_index(self.format, self.data, k),
            )
    }

    /// The RGBA8 pixel stream of the image, row by row, or the reason why it
    /// has none. An indexed format needs a decoded palette, which the other
    /// formats ignore. Bytes behind the packed length are ignored too. Of
    /// several reasons the first counts: a missing palette, then a buffer
    /// shorter than the packed length, then an index that the palette lacks.
    pub open spec fn decode(self, table: Option<Seq<u8>>) -> Result<Seq<u8>, ImageError> {
        if self.format.spec_is_indexed() && table is None {
            Err(ImageError::MissingPalette)
        } else if self.data.len() < self.packed_len() {
            Err(ImageError::TruncatedInput)
        } else if !self.format.spec_is_indexed() {
            Ok(direct_pixels(self.format, self.data, self.pixel_count()))
        } else if self.lacks_entry(table->Some_0) {
            Err(ImageError::PaletteIndexOutOfRange)
        } else {
            Ok(indexed_pixels(self.format, self.data, table->Some_0, self.pixel_count()))
        }
    }

    /// The pixel buffer that a PNG container gets for the image, with its
    /// shape: RGBA of eight bits for a direct format, and for an indexed one
    /// the palette indices themselves, one byte each.
    pub open spec fn png_image(self) -> Result<PNGImageView, ImageError> {
        if !self.format.spec_is_indexed() {
            match self.decode(None) {
                Ok(pixels) => Ok(
                    PNGImageView {
                        data: pixels,
                        color_type: ColorType::Rgba,
                        bit_depth: BitDepth::Eight,
                    },
                ),
                Err(e) => Err(e),
            }
        } else if self.data.len() < self.packed_len() {
            Err(ImageError::TruncatedInput)
        } else {
            Ok(
                PNGImageView {
                    data: palette_indices(self.format, self.data, self.pixel_count()),
                    color_type: ColorType::Indexed,
                    bit_depth: BitDepth::Eight,
                },
            )
        }
    }

    /// The palette chunk that a PNG container gets for the image.
    pub open spec fn png_palette(self) -> Option<Seq<u8>> {
        if self.format.spec_is_indexed() {
            Some(placeholder_palette())
        } else {
            None
        }
    }

    /// The PNG stream of the image: what the container codec makes of
    /// `png_image` and `png_palette`. A frame that the codec cannot size or
    /// does not accept is a container error.
    pub open spec fn as_png(self) -> Result<Seq<u8>, ImageError> {
        match self.png_image() {
            Err(e) => Err(e),
            Ok(image) => if !frame_fits(
                image.color_type,
                image.bit_depth,
                self.width,
                self.height,
            ) {
                Err(ImageError::Container)
            } else {
                match png_stream(
                    self.width,
                    self.height,
                    image.color_type.spec_code(),
                    image.bit_depth.spec_bits(),
                    self.png_palette(),
                    image.data,
                ) {
                    Some(stream) => Ok(stream),
                    None => Err(ImageError::Container),
                }
            },
        }
    }
}

impl PNGImageView {
    /// The packed native bytes that the buffer becomes in a target format, or
    /// the error that names its shape where the format does not accept it.
    pub open spec fn as_native(self, format: ImageFormat) -> Result<Seq<u8>, ImageError> {
        match packing(format, self.color_type, self.bit_depth) {
            Some(rule) => Ok(rule.packed(self.data)),
            None => Err(ImageError::InvalidSourceShape(self.color_type, self.bit_depth)),
        }
    }

    /// The image that a decoded PNG frame is: its pixel buffer with the
    /// colour type and the bit depth that the two header numbers stand for.
    pub open spec fn from_frame(data: Seq<u8>, color: u8, depth: u8) -> Result<
        PNGImageView,
        ImageError,
    > {
        match (ColorType::spec_from_code(color), BitDepth::spec_from_bits(depth)) {
            (Some(color_type), Some(bit_depth)) => Ok(PNGImageView { data, color_type, bit_depth }),
            _ => Err(ImageError::Container),
        }
    }

    /// The image that a PNG stream holds where `usize` has `word_bits` bits,
    /// or a container error where the container codec rejects the stream.
    pub open spec fn read(stream: Seq<u8>, word_bits: u32) -> Result<PNGImageView, ImageError> {
        match png_frame(stream, word_bits) {
            Some(frame) => Self::from_frame(frame.0, frame.1, frame.2),
            None => Err(ImageError::Container),
        }
    }
}

impl TLUTView {
    /// The decoded palette: four RGBA8 bytes for each of as many 16-bit
    /// entries as the size class counts. A buffer with fewer entries is
    /// truncated input.
    pub open spec fn decode(self) -> Result<Seq<u8>, ImageError> {
        if self.data.len() < 2 * self.size.spec_tlut_size_in_bytes() {
            Err(ImageError::TruncatedInput)
        } else {
            Ok(
                direct_pixels(
                    ImageFormat::RGBA16,
                    self.data,
                    self.size.spec_tlut_size_in_bytes() as nat,
                ),
            )
        }
    }
}

/// The packed length format by format: half a byte a pixel, rounded up, for
/// the formats of four bits, and one, two or four bytes a pixel for the
/// others.
pub proof fn lemma_packed_len(image: NativeImageView)
    ensures
        image.packed_len() == match image.format {
            ImageFormat::I4 | ImageFormat::IA4 | ImageFormat::CI4 => (image.pixel_count() + 1) / 2,
            ImageFormat::I8 | ImageFormat::IA8 | ImageFormat::CI8 => image.pixel_count(),
            ImageFormat::IA16 | ImageFormat::RGBA16 => image.pixel_count() * 2,
            ImageFormat::RGBA32 => image.pixel_count() * 4,
        },
{
    let n = image.pixel_count();
    let bits = image.format.spec_bits_per_pixel() as nat;
    assert(n * bits == if bits == 4 {
        n * 4
    } else if bits == 8 {
        n * 8
    } else if bits == 16 {
        n * 16
    } else {
        n * 32
    }) by (nonlinear_arith)
        requires
            bits == 4 || bits == 8 || bits == 16 || bits == 32,
    ;
}

/// A buffer of the packed length holds every pixel of the image.
pub(crate) proof fn lemma_complete_holds_pixels(image: NativeImageView, k: int)
    requires
        image.data.len() >= image.packed_len(),
        0 <= k < image.pixel_count(),
    ensures
        holds_pixel(image.format, image.data, k),
{
    lemma_packed_len(image);
}

impl NativeImage {
    /// Takes the packed bytes of an image as they are. The dimensions are the
    /// caller's word: nothing in the bytes tells them, and no length is
    /// checked before the image is decoded.
    pub fn read(reader: &[u8], format: ImageFormat, width: u32, height: u32) -> (r: Result<
        Self,
        ImageError,
    >)
        ensures
            r matches Ok(image) && image@ == (NativeImageView {
                format,
                width,
                height,
                data: reader@,
            }),
    {
        Ok(Self { format, width, height, data: slice_to_vec(reader) })
    }

    /// The number of pixels.
    pub fn pixel_count(&self) -> (count: u64)
        ensures
            count == self@.pixel_count(),
    {
        let (w, h) = (self.width, self.height);
        assert(w as nat * h as nat <= 0xFFFF_FFFF * 0xFFFF_FFFF) by (nonlinear_arith)
            requires
                w <= 0xFFFF_FFFF,
                h <= 0xFFFF_FFFF,
        ;
        (w as u64) * (h as u64)
    }

    /// Whether the buffer has the packed length, or more.
    pub fn is_complete(&self) -> (complete: bool)
        ensures
            complete == (self.data@.len() >= self@.packed_len()),
    {
        let count: u128 = self.pixel_count() as u128;
        let have: u128 = self.data.len() as u128;
        proof {
            lemma_packed_len(self@);
        }
        match self.format {
            ImageFormat::I4 | ImageFormat::IA4 | ImageFormat::CI4 => have >= (count + 1) / 2,
            ImageFormat::I8 | ImageFormat::IA8 | ImageFormat::CI8 => have >= count,
            ImageFormat::IA16 | ImageFormat::RGBA16 => have >= count * 2,
            ImageFormat::RGBA32 => have >= count * 4,
        }
    }

    /// Decodes the image to its RGBA8 pixel stream, four bytes a pixel, row by
    /// row. An indexed format takes its colours from `tlut_color_table`, a
    /// decoded palette, and fails without one; the other formats ignore it.
    /// A buffer shorter than the packed length is truncated input.
    pub fn decode(&self, tlut_color_table: Option<&[u8]>) -> (r: Result<Vec<u8>, ImageError>)
        ensures
            match self@.decode(bytes_view(tlut_color_table)) {
                Ok(pixels) => r matches Ok(v) && v@ == pixels,
                Err(e) => r == Err::<Vec<u8>, ImageError>(e),
            },
            self.format.spec_is_indexed() && tlut_color_table is None ==> r == Err::<
                Vec<u8>,
                ImageError,
            >(ImageError::MissingPalette),
            !(self.format.spec_is_indexed() && tlut_color_table is None) && self.data@.len()
                < self@.packed_len() ==> r == Err::<Vec<u8>, ImageError>(
                ImageError::TruncatedInput,
            ),
            r matches Ok(v) ==> v@.len() == 4 * self@.pixel_count(),
    {
        let indexed = self.format.is_indexed();
        if indexed && tlut_color_table.is_none() {
            return Err(ImageError::MissingPalette);
        }
        if !self.is_complete() {
            return Err(ImageError::TruncatedInput);
        }
        let count: u64 = self.pixel_count();
        let mut data: Vec<u8> = Vec::new();
        let mut k: u64 = 0;
        match tlut_color_table {
            Some(table) if indexed => {
                while k < count
                    invariant
                        k <= count,
                        count == self@.pixel_count(),
                        self.format.spec_is_indexed(),
                        tlut_color_table == Some(table),
                        self.data@.len() >= self@.packed_len(),
                        data@ == indexed_pixels(self.format, self.data@, table@, k as nat),
                        forall|j: int|
                            0 <= j < k ==> has_entry(
                                table@,
                                #[trigger] palette_index(self.format, self.data@, j),
                            ),
                    decreases count - k,
                {
                    proof {
                        lemma_complete_holds_pixels(self@, k as int);
                    }
                    let index: u8 = palette_index_at(self.format, self.data.as_slice(), k);
                    if (index as usize) * 4 + 4 > table.len() {
                        assert(self@.lacks_entry(table@));
                        return Err(ImageError::PaletteIndexOutOfRange);
                    }
                    let mut color = NativeImage::get_tlut_color(table, index);
                    data.append(&mut color);
                    proof {
                        lemma_indexed_pixels_step(self.format, self.data@, table@, k as nat);
                    }
                    k += 1;
                }
            },
            _ => {
                while k < count
                    invariant
                        k <= count,
                        count == self@.pixel_count(),
                        !self.format.spec_is_indexed(),
                        self.data@.len() >= self@.packed_len(),
                        data@ == direct_pixels(self.format, self.data@, k as nat),
                    decreases count - k,
                {
                    proof {
                        lemma_complete_holds_pixels(self@, k as int);
                        lemma_direct_pixels_step(self.format, self.data@, k as nat);
                    }
                    push_direct_pixel(self.format, self.data.as_slice(), k, &mut data);
                    k += 1;
                }
            },
        }
        Ok(data)
    }

    /// The entry of a decoded palette at an index: the four bytes from four
    /// times the index on. The palette must reach that far.
    pub fn get_tlut_color(tlut_table: &[u8], index: u8) -> (rgba: Vec<u8>)
        requires
            has_entry(tlut_table@, index),
        ensures
            rgba@ == palette_entry(tlut_table@, index),
    {
        let at: usize = (index as usize) * 4;
        let r: u8 = tlut_table[at];
        let g: u8 = tlut_table[at + 1];
        let b: u8 = tlut_table[at + 2];
        let a: u8 = tlut_table[at + 3];
        let rgba = vec![r, g, b, a];
        assert(rgba@ =~= palette_entry(tlut_table@, index));
        rgba
    }

    /// The pixel buffer that a PNG container gets for the image, with its
    /// shape.
    pub fn png_image(&self) -> (r: Result<PNGImage, ImageError>)
        ensures
            match self@.png_image() {
                Ok(image) => r matches Ok(i) && i@ == image,
                Err(e) => r == Err::<PNGImage, ImageError>(e),
            },
    {
        if !self.format.is_indexed() {
            return match self.decode(None) {
                Ok(data) => Ok(
                    PNGImage { data, color_type: ColorType::Rgba, bit_depth: BitDepth::Eight },
                ),
                Err(e) => Err(e),
            };
        }
        if !self.is_complete() {
            return Err(ImageError::TruncatedInput);
        }
        let count: u64 = self.pixel_count();
        let mut data: Vec<u8> = Vec::new();
        let mut k: u64 = 0;
        while k < count
            invariant
                k <= count,
                count == self@.pixel_count(),
                self.format.spec_is_indexed(),
                self.data@.len() >= self@.packed_len(),
                data@ == palette_indices(self.format, self.data@, k as nat),
            decreases count - k,
        {
            proof {
                lemma_complete_holds_pixels(self@, k as int);
            }
            let target_index: u8 = palette_index_at(self.format, self.data.as_slice(), k);
            data.push(target_index);
            assert(data@ =~= palette_indices(self.format, self.data@, (k + 1) as nat));
            k += 1;
        }
        Ok(PNGImage { data, color_type: ColorType::Indexed, bit_depth: BitDepth::Eight })
    }

    /// The palette chunk that a PNG container gets for the image.
    pub fn png_palette(&self) -> (palette: Option<Vec<u8>>)
        ensures
            match self@.png_palette() {
                Some(bytes) => palette matches Some(p) && p@ == bytes,
                None => palette is None,
            },
    {
        if !self.format.is_indexed() {
            return None;
        }
        let mut palette: Vec<u8> = Vec::new();
        let mut i: usize = 0;
        while i < 256
            invariant
                i <= 256,
                palette@ == Seq::new(i as nat, |j: int| 10u8),
            decreases 256 - i,
        {
            palette.push(10);
            assert(palette@ =~= Seq::new((i + 1) as nat, |j: int| 10u8));
            i += 1;
        }
        Some(palette)
    }

    /// Appends the image as a PNG stream to `writer`. Where the conversion
    /// fails, nothing is written.
    pub fn as_png(&self, writer: &mut Vec<u8>) -> (r: Result<(), ImageError>)
        ensures
            match self@.as_png() {
                Ok(stream) => r is Ok && final(writer)@ == old(writer)@ + stream,
                Err(e) => r == Err::<(), ImageError>(e) && final(writer)@ == old(writer)@,
            },
    {
        let image = match self.png_image() {
            Ok(image) => image,
            Err(e) => {
                return Err(e);
            },
        };
        if !check_frame_fits(image.color_type, image.bit_depth, self.width, self.height) {
            return Err(ImageError::Container);
        }
        let color: u8 = image.color_type.code();
        let depth: u8 = image.bit_depth.bits();
        let palette = self.png_palette();
        let encoded = match &palette {
            Some(bytes) => png_encode(
                self.width,
                self.height,
                color,
                depth,
                Some(bytes.as_slice()),
                image.data.as_slice(),
            ),
            None => png_encode(self.width, self.height, color, depth, None, image.data.as_slice()),
        };
        match encoded {
            Ok(mut stream) => {
                writer.append(&mut stream);
                Ok(())
            },
            Err(_) => Err(ImageError::Container),
        }
    }
}

impl PNGImage {
    /// The image that a decoded PNG frame is: its pixel buffer with the
    /// colour type and the bit depth that the two header numbers stand for.
    /// A number that stands for nothing is a container error.
    pub fn from_frame(data: Vec<u8>, color: u8, depth: u8) -> (r: Result<Self, ImageError>)
        ensures
            match PNGImageView::from_frame(data@, color, depth) {
                Ok(image) => r matches Ok(i) && i@ == image,
                Err(e) => r == Err::<PNGImage, ImageError>(e),
            },
    {
        match (ColorType::from_code(color), BitDepth::from_bits(depth)) {
            (Some(color_type), Some(bit_depth)) => Ok(Self { data, color_type, bit_depth }),
            _ => Err(ImageError::Container),
        }
    }

    /// Reads the first frame of a PNG stream held in memory.
    pub fn read(reader: &[u8]) -> (r: Result<Self, ImageError>)
        ensures
            match PNGImageView::read(reader@, usize::BITS) {
                Ok(image) => r matches Ok(i) && i@ == image,
                Err(e) => r == Err::<PNGImage, ImageError>(e),
            },
    {
        match png_decode(reader) {
            Ok(frame) => Self::from_frame(frame.0, frame.1, frame.2),
            Err(_) => Err(ImageError::Container),
        }
    }

    /// Appends the image in a native format to `writer`. Where the format
    /// does not accept the shape of the image, nothing is written.
    pub fn as_native(&self, writer: &mut Vec<u8>, format: ImageFormat) -> (r: Result<
        (),
        ImageError,
    >)
        ensures
            match self@.as_native(format) {
                Ok(bytes) => r is Ok && final(writer)@ == old(writer)@ + bytes,
                Err(e) => r == Err::<(), ImageError>(e) && final(writer)@ == old(writer)@,
            },
    {
        match format {
            ImageFormat::I4 => self.as_i4(writer),
            ImageFormat::I8 => self.as_i8(writer),
            ImageFormat::IA4 => self.as_ia4(writer),
            ImageFormat::IA8 => self.as_ia8(writer),
            ImageFormat::IA16 => self.as_ia16(writer),
            ImageFormat::CI4 => self.as_ci4(writer),
            ImageFormat::CI8 => self.as_ci8(writer),
            ImageFormat::RGBA32 => self.as_rgba32(writer),
            ImageFormat::RGBA16 => self.as_rgba16(writer),
        }
    }

    /// Appends the image as RGBA32: RGBA of eight bits, byte for byte.
    pub fn as_rgba32(&self, writer: &mut Vec<u8>) -> (r: Result<(), ImageError>)
        ensures
            match self@.as_native(ImageFormat::RGBA32) {
                Ok(bytes) => r is Ok && final(writer)@ == old(writer)@ + bytes,
                Err(e) => r == Err::<(), ImageError>(e) && final(writer)@ == old(writer)@,
            },
    {
        match (self.color_type, self.bit_depth) {
            (ColorType::Rgba, BitDepth::Eight) => {
                Packing::Verbatim.pack(self.data.as_slice(), writer);
            },
            case => {
                return Err(ImageError::InvalidSourceShape(case.0, case.1));
            },
        }
        Ok(())
    }

    /// Appends the image as RGBA16: each RGBA pixel of eight bits as its
    /// packed 16-bit colour, big-endian.
    pub fn as_rgba16(&self, writer: &mut Vec<u8>) -> (r: Result<(), ImageError>)
        ensures
            match self@.as_native(ImageFormat::RGBA16) {
                Ok(bytes) => r is Ok && final(writer)@ == old(writer)@ + bytes,
                Err(e) => r == Err::<(), ImageError>(e) && final(writer)@ == old(writer)@,
            },
    {
        match (self.color_type, self.bit_depth) {
            (ColorType::Rgba, BitDepth::Eight) => {
                Packing::Color16.pack(self.data.as_slice(), writer);
            },
            case => {
                return Err(ImageError::InvalidSourceShape(case.0, case.1));
            },
        }
        Ok(())
    }

    /// Appends the image as I4, two pixels a byte. Grayscale of four bits
    /// passes as it is; the shapes of eight bits give the high nibble of each
    /// pixel's intensity.
    pub fn as_i4(&self, writer: &mut Vec<u8>) -> (r: Result<(), ImageError>)
        ensures
            match self@.as_native(ImageFormat::I4) {
                Ok(bytes) => r is Ok && final(writer)@ == old(writer)@ + bytes,
                Err(e) => r == Err::<(), ImageError>(e) && final(writer)@ == old(writer)@,
            },
    {
        let src = self.data.as_slice();
        match (self.color_type, self.bit_depth) {
            (ColorType::Grayscale, BitDepth::Four) => {
                Packing::Verbatim.pack(src, writer);
            },
            (ColorType::Grayscale, BitDepth::Eight) => {
                Packing::Fold(Fold::OrHighOfNext).pack(src, writer);
            },
            (ColorType::GrayscaleAlpha, BitDepth::Eight) => {
                Packing::Fold(Fold::OrHighOfThird).pack(src, writer);
            },
            (ColorType::Rgba, BitDepth::Eight) => {
                Packing::Fold(Fold::LumaTwice).pack(src, writer);
            },
            (ColorType::Rgb, BitDepth::Eight) => {
                Packing::Fold(Fold::LumaPair).pack(src, writer);
            },
            case => {
                return Err(ImageError::InvalidSourceShape(case.0, case.1));
            },
        }
        Ok(())
    }

    /// Appends the image as I8, one byte a pixel: the intensity of a colour,
    /// the gray of a grayscale pixel, or two nibbles of grayscale joined.
    pub fn as_i8(&self, writer: &mut Vec<u8>) -> (r: Result<(), ImageError>)
        ensures
            match self@.as_native(ImageFormat::I8) {
                Ok(bytes) => r is Ok && final(writer)@ == old(writer)@ + bytes,
                Err(e) => r == Err::<(), ImageError>(e) && final(writer)@ == old(writer)@,
            },
    {
        let src = self.data.as_slice();
        match (self.color_type, self.bit_depth) {
            (ColorType::Grayscale, BitDepth::Eight) => {
                Packing::Verbatim.pack(src, writer);
            },
            (ColorType::Grayscale, BitDepth::Four) => {
                Packing::Fold(Fold::JoinNibbles).pack(src, writer);
            },
            (ColorType::GrayscaleAlpha, BitDepth::Eight) => {
                Packing::Fold(Fold::First).pack(src, writer);
            },
            (ColorType::Rgba, BitDepth::Eight) => {
                Packing::Fold(Fold::LumaRgba).pack(src, writer);
            },
            (ColorType::Rgb, BitDepth::Eight) => {
                Packing::Fold(Fold::LumaRgb).pack(src, writer);
            },
            case => {
                return Err(ImageError::InvalidSourceShape(case.0, case.1));
            },
        }
        Ok(())
    }

    /// Appends the image as IA4, two pixels a byte: of each pixel three bits
    /// of intensity and one bit of alpha.
    pub fn as_ia4(&self, writer: &mut Vec<u8>) -> (r: Result<(), ImageError>)
        ensures
            match self@.as_native(ImageFormat::IA4) {
                Ok(bytes) => r is Ok && final(writer)@ == old(writer)@ + bytes,
                Err(e) => r == Err::<(), ImageError>(e) && final(writer)@ == old(writer)@,
            },
    {
        match (self.color_type, self.bit_depth) {
            (ColorType::GrayscaleAlpha, BitDepth::Eight) => {
                Packing::Fold(Fold::ThreeOne).pack(self.data.as_slice(), writer);
            },
            case => {
                return Err(ImageError::InvalidSourceShape(case.0, case.1));
            },
        }
        Ok(())
    }

    /// Appends the image as IA8, one byte a pixel: the intensity, or-ed with
    /// the high nibble of alpha.
    pub fn as_ia8(&self, writer: &mut Vec<u8>) -> (r: Result<(), ImageError>)
        ensures
            match self@.as_native(ImageFormat::IA8) {
                Ok(bytes) => r is Ok && final(writer)@ == old(writer)@ + bytes,
                Err(e) => r == Err::<(), ImageError>(e) && final(writer)@ == old(writer)@,
            },
    {
        match (self.color_type, self.bit_depth) {
            (ColorType::GrayscaleAlpha, BitDepth::Eight) => {
                Packing::Fold(Fold::OrHighOfNext).pack(self.data.as_slice(), writer);
            },
            case => {
                return Err(ImageError::InvalidSourceShape(case.0, case.1));
            },
        }
        Ok(())
    }

    /// Appends the image as IA16: intensity and alpha of eight bits each,
    /// byte for byte.
    pub fn as_ia16(&self, writer: &mut Vec<u8>) -> (r: Result<(), ImageError>)
        ensures
            match self@.as_native(ImageFormat::IA16) {
                Ok(bytes) => r is Ok && final(writer)@ == old(writer)@ + bytes,
                Err(e) => r == Err::<(), ImageError>(e) && final(writer)@ == old(writer)@,
            },
    {
        match (self.color_type, self.bit_depth) {
            (ColorType::GrayscaleAlpha, BitDepth::Eight) => {
                Packing::Verbatim.pack(self.data.as_slice(), writer);
            },
            case => {
                return Err(ImageError::InvalidSourceShape(case.0, case.1));
            },
        }
        Ok(())
    }

    /// Appends the image as CI4, two indices a byte. Indices of four bits
    /// pass as they are; indices of eight bits are joined in pairs.
    pub fn as_ci4(&self, writer: &mut Vec<u8>) -> (r: Result<(), ImageError>)
        ensures
            match self@.as_native(ImageFormat::CI4) {
                Ok(bytes) => r is Ok && final(writer)@ == old(writer)@ + bytes,
                Err(e) => r == Err::<(), ImageError>(e) && final(writer)@ == old(writer)@,
            },
    {
        match (self.color_type, self.bit_depth) {
            (ColorType::Indexed, BitDepth::Four) => {
                Packing::Verbatim.pack(self.data.as_slice(), writer);
            },
            (ColorType::Indexed, BitDepth::Eight) => {
                Packing::Fold(Fold::JoinNibbles).pack(self.data.as_slice(), writer);
            },
            case => {
                return Err(ImageError::InvalidSourceShape(case.0, case.1));
            },
        }
        Ok(())
    }

    /// Appends the image as CI8, one index a byte. Indices of eight bits pass
    /// as they are; bytes of a buffer of four bits are joined in pairs.
    pub fn as_ci8(&self, writer: &mut Vec<u8>) -> (r: Result<(), ImageError>)
        ensures
            match self@.as_native(ImageFormat::CI8) {
                Ok(bytes) => r is Ok && final(writer)@ == old(writer)@ + bytes,
                Err(e) => r == Err::<(), ImageError>(e) && final(writer)@ == old(writer)@,
            },
    {
        match (self.color_type, self.bit_depth) {
            (ColorType::Indexed, BitDepth::Eight) => {
                Packing::Verbatim.pack(self.data.as_slice(), writer);
            },
            (ColorType::Indexed, BitDepth::Four) => {
                Packing::Fold(Fold::JoinNibbles).pack(self.data.as_slice(), writer);
            },
            case => {
                return Err(ImageError::InvalidSourceShape(case.0, case.1));
            },
        }
        Ok(())
    }
}

impl TLUT {
    /// Takes the packed bytes of a palette as they are.
    pub fn read(reader: &[u8], size: ImageSize) -> (r: Result<Self, ImageError>)
        ensures
            r matches Ok(tlut) && tlut@ == (TLUTView { data: reader@, size }),
    {
        Ok(Self { size, data: slice_to_vec(reader) })
    }

    /// Decodes the palette to RGBA8, four bytes an entry.
    pub fn decode(&self) -> (r: Result<Vec<u8>, ImageError>)
        ensures
            match self@.decode() {
                Ok(table) => r matches Ok(v) && v@ == table,
                Err(e) => r == Err::<Vec<u8>, ImageError>(e),
            },
    {
        let entries: usize = self.size.tlut_size_in_bytes();
        if self.data.len() < 2 * entries {
            return Err(ImageError::TruncatedInput);
        }
        let mut decoded: Vec<u8> = Vec::new();
        let mut i: usize = 0;
        while i < entries
            invariant
                i <= entries,
                entries == self.size.spec_tlut_size_in_bytes(),
                self.data@.len() >= 2 * entries,
                decoded@ == direct_pixels(ImageFormat::RGBA16, self.data@, i as nat),
            decreases entries - i,
        {
            proof {
                lemma_direct_pixels_step(ImageFormat::RGBA16, self.data@, i as nat);
            }
            push_direct_pixel(ImageFormat::RGBA16, self.data.as_slice(), i as u64, &mut decoded);
            i += 1;
        }
        Ok(decoded)
    }
}

} // verus!
