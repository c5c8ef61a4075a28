use farbe::image::n64::{BitDepth, ColorType, ImageError, ImageFormat, PNGImage};
use farbe::image::pack::{Fold, Packing};

fn png(color_type: ColorType, bit_depth: BitDepth, data: &[u8]) -> PNGImage {
    PNGImage { data: data.to_vec(), color_type, bit_depth }
}

fn encode(image: &PNGImage, format: ImageFormat) -> Result<Vec<u8>, ImageError> {
    let mut out = Vec::new();
    image.as_native(&mut out, format).map(|()| out)
}

const COLORS: [ColorType; 5] = [
    ColorType::Grayscale,
    ColorType::Rgb,
    ColorType::Indexed,
    ColorType::GrayscaleAlpha,
    ColorType::Rgba,
];

const DEPTHS: [BitDepth; 5] =
    [BitDepth::One, BitDepth::Two, BitDepth::Four, BitDepth::Eight, BitDepth::Sixteen];

const FORMATS: [ImageFormat; 9] = [
    ImageFormat::I4,
    ImageFormat::I8,
    ImageFormat::IA4,
    ImageFormat::IA8,
    ImageFormat::IA16,
    ImageFormat::CI4,
    ImageFormat::CI8,
    ImageFormat::RGBA16,
    ImageFormat::RGBA32,
];

fn accepted(format: ImageFormat, color: ColorType, depth: BitDepth) -> bool {
    let eight = depth == BitDepth::Eight;
    let four = depth == BitDepth::Four;
    match format {
        ImageFormat::RGBA32 | ImageFormat::RGBA16 => color == ColorType::Rgba && eight,
        ImageFormat::I4 | ImageFormat::I8 => {
            (color == ColorType::Grayscale && four) || (color != ColorType::Indexed && eight)
        }
        ImageFormat::IA4 | ImageFormat::IA8 | ImageFormat::IA16 => {
            color == ColorType::GrayscaleAlpha && eight
        }
        ImageFormat::CI4 | ImageFormat::CI8 => color == ColorType::Indexed && (four || eight),
    }
}

#[test]
fn every_other_shape_is_rejected_with_its_name() {
    let data = [0u8; 24];
    for format in FORMATS {
        for color in COLORS {
            for depth in DEPTHS {
                let mut out = vec![0xEE];
                let r = png(color, depth, &data).as_native(&mut out, format);
                if accepted(format, color, depth) {
                    assert_eq!(r, Ok(()));
                    assert!(out.len() > 1);
                } else {
                    assert_eq!(r, Err(ImageError::InvalidSourceShape(color, depth)));
                    assert_eq!(out, vec![0xEE]);
                }
            }
        }
    }
}

#[test]
fn grayscale_of_eight_bits_is_no_source_for_ia4() {
    let image = png(ColorType::Grayscale, BitDepth::Eight, &[1, 2, 3, 4]);
    let mut out = Vec::new();
    assert_eq!(
        image.as_ia4(&mut out),
        Err(ImageError::InvalidSourceShape(ColorType::Grayscale, BitDepth::Eight))
    );
    assert!(out.is_empty());
}

#[test]
fn the_single_format_functions_agree_with_as_native() {
    let data: Vec<u8> = (0..48).map(|i| (i * 11 + 3) as u8).collect();
    for color in COLORS {
        for depth in DEPTHS {
            let image = png(color, depth, &data);
            for format in FORMATS {
                let mut out = Vec::new();
                let r = match format {
                    ImageFormat::I4 => image.as_i4(&mut out),
                    ImageFormat::I8 => image.as_i8(&mut out),
                    ImageFormat::IA4 => image.as_ia4(&mut out),
                    ImageFormat::IA8 => image.as_ia8(&mut out),
                    ImageFormat::IA16 => image.as_ia16(&mut out),
                    ImageFormat::CI4 => image.as_ci4(&mut out),
                    ImageFormat::CI8 => image.as_ci8(&mut out),
                    ImageFormat::RGBA16 => image.as_rgba16(&mut out),
                    ImageFormat::RGBA32 => image.as_rgba32(&mut out),
                };
                assert_eq!(r.map(|()| out), encode(&image, format));
            }
        }
    }
}

#[test]
fn output_is_appended_to_the_writer() {
    let image = png(ColorType::Rgba, BitDepth::Eight, &[1, 2, 3, 4]);
    let mut out = vec![9, 9];
    image.as_rgba32(&mut out).unwrap();
    assert_eq!(out, vec![9, 9, 1, 2, 3, 4]);
}

#[test]
fn rgba32_passes_rgba_through() {
    let image = png(ColorType::Rgba, BitDepth::Eight, &[1, 2, 3, 4, 5, 6, 7]);
    assert_eq!(encode(&image, ImageFormat::RGBA32), Ok(vec![1, 2, 3, 4, 5, 6, 7]));
}

#[test]
fn rgba16_packs_each_pixel_big_endian() {
    let image = png(ColorType::Rgba, BitDepth::Eight, &[255, 0, 0, 255, 8, 16, 24, 254]);
    assert_eq!(encode(&image, ImageFormat::RGBA16), Ok(vec![0xF8, 0x01, 0x08, 0x86]));
}

#[test]
fn rgba16_drops_a_trailing_partial_pixel() {
    let image = png(ColorType::Rgba, BitDepth::Eight, &[255, 0, 0, 255, 8, 16, 24]);
    assert_eq!(encode(&image, ImageFormat::RGBA16), Ok(vec![0xF8, 0x01]));
}

#[test]
fn i4_from_grayscale_of_four_bits_is_verbatim() {
    let image = png(ColorType::Grayscale, BitDepth::Four, &[0x12, 0x34, 0x56]);
    assert_eq!(encode(&image, ImageFormat::I4), Ok(vec![0x12, 0x34, 0x56]));
}

#[test]
fn i4_from_grayscale_of_eight_bits_ors_the_pair() {
    let image = png(ColorType::Grayscale, BitDepth::Eight, &[0xA0, 0x5F, 0xA3, 0x50, 0x77]);
    // the first pixel is or-ed in whole: its low nibble is not masked off
    assert_eq!(encode(&image, ImageFormat::I4), Ok(vec![0xA5, 0xA7]));
}

#[test]
fn i4_from_grayscale_alpha_skips_alpha() {
    let image =
        png(ColorType::GrayscaleAlpha, BitDepth::Eight, &[0xC0, 0xFF, 0x30, 0xFF, 0x10, 0, 0x20]);
    assert_eq!(encode(&image, ImageFormat::I4), Ok(vec![0xC3]));
}

#[test]
fn i4_from_rgb_takes_the_intensity_of_two_pixels() {
    // intensities 255 and 54
    let image = png(ColorType::Rgb, BitDepth::Eight, &[255, 255, 255, 255, 0, 0]);
    assert_eq!(encode(&image, ImageFormat::I4), Ok(vec![0xFF | (54 >> 4)]));
    // intensities 0x80 and 0x40
    let image = png(ColorType::Rgb, BitDepth::Eight, &[0x80, 0x80, 0x80, 0x40, 0x40, 0x40]);
    assert_eq!(encode(&image, ImageFormat::I4), Ok(vec![0x84]));
}

#[test]
fn i4_from_rgba_reads_the_first_pixel_twice() {
    // the second pixel, of intensity 0x40, does not count
    let image =
        png(ColorType::Rgba, BitDepth::Eight, &[0x80, 0x80, 0x80, 0xFF, 0x40, 0x40, 0x40, 0xFF]);
    assert_eq!(encode(&image, ImageFormat::I4), Ok(vec![0x88]));
}

#[test]
fn i8_from_grayscale_of_eight_bits_is_verbatim() {
    let image = png(ColorType::Grayscale, BitDepth::Eight, &[1, 2, 3]);
    assert_eq!(encode(&image, ImageFormat::I8), Ok(vec![1, 2, 3]));
}

#[test]
fn i8_from_grayscale_of_four_bits_joins_two_bytes() {
    let image = png(ColorType::Grayscale, BitDepth::Four, &[0x0A, 0x0B, 0x12, 0x34, 0x05]);
    // the first byte loses its high nibble to the shift
    assert_eq!(encode(&image, ImageFormat::I8), Ok(vec![0xAB, 0x34]));
}

#[test]
fn i8_from_grayscale_alpha_keeps_the_gray() {
    let image = png(ColorType::GrayscaleAlpha, BitDepth::Eight, &[0x11, 0xFF, 0x22, 0x00, 0x33]);
    assert_eq!(encode(&image, ImageFormat::I8), Ok(vec![0x11, 0x22]));
}

#[test]
fn i8_from_colour_is_the_intensity() {
    let image = png(ColorType::Rgb, BitDepth::Eight, &[255, 0, 0, 0, 255, 0, 0, 0, 255, 1]);
    assert_eq!(encode(&image, ImageFormat::I8), Ok(vec![54, 182, 18]));
    let image = png(ColorType::Rgba, BitDepth::Eight, &[255, 0, 0, 7, 100, 150, 200, 9, 1, 2]);
    assert_eq!(encode(&image, ImageFormat::I8), Ok(vec![54, 142]));
}

#[test]
fn ia4_keeps_three_bits_of_gray_and_thresholds_alpha() {
    // gray 0xFF alpha 128 -> 1111; gray 0x20 alpha 127 -> 0010
    let image = png(ColorType::GrayscaleAlpha, BitDepth::Eight, &[0xFF, 128, 0x20, 127]);
    assert_eq!(encode(&image, ImageFormat::IA4), Ok(vec![0xF2]));
    // gray 0x1F alpha 255 -> 0001; gray 0xE0 alpha 0 -> 1110
    let image = png(ColorType::GrayscaleAlpha, BitDepth::Eight, &[0x1F, 255, 0xE0, 0, 1, 2, 3]);
    assert_eq!(encode(&image, ImageFormat::IA4), Ok(vec![0x1E]));
}

#[test]
fn ia8_ors_gray_with_the_high_nibble_of_alpha() {
    let image = png(ColorType::GrayscaleAlpha, BitDepth::Eight, &[0xF0, 0x30, 0x12, 0xFF, 9]);
    assert_eq!(encode(&image, ImageFormat::IA8), Ok(vec![0xF3, 0x1F]));
}

#[test]
fn ia16_passes_grayscale_alpha_through() {
    let image = png(ColorType::GrayscaleAlpha, BitDepth::Eight, &[1, 2, 3, 4, 5]);
    assert_eq!(encode(&image, ImageFormat::IA16), Ok(vec![1, 2, 3, 4, 5]));
}

#[test]
fn ci4_joins_indices_of_eight_bits() {
    let image = png(ColorType::Indexed, BitDepth::Eight, &[0x0A, 0x0B, 0x01, 0x02, 0x03]);
    assert_eq!(encode(&image, ImageFormat::CI4), Ok(vec![0xAB, 0x12]));
    let image = png(ColorType::Indexed, BitDepth::Four, &[0xAB, 0x12]);
    assert_eq!(encode(&image, ImageFormat::CI4), Ok(vec![0xAB, 0x12]));
}

#[test]
fn ci8_passes_indices_of_eight_bits_through() {
    let image = png(ColorType::Indexed, BitDepth::Eight, &[0, 255, 7]);
    assert_eq!(encode(&image, ImageFormat::CI8), Ok(vec![0, 255, 7]));
    let image = png(ColorType::Indexed, BitDepth::Four, &[0x0A, 0x0B, 0x0C]);
    assert_eq!(encode(&image, ImageFormat::CI8), Ok(vec![0xAB]));
}

#[test]
fn an_empty_buffer_encodes_to_nothing() {
    for format in FORMATS {
        for color in COLORS {
            for depth in DEPTHS {
                if accepted(format, color, depth) {
                    assert_eq!(encode(&png(color, depth, &[]), format), Ok(vec![]));
                }
            }
        }
    }
}

#[test]
fn a_rule_drops_what_is_left_behind_its_last_full_group() {
    let src = [0x10, 0x20, 0x30, 0x40, 0x50, 0x60, 0x70, 0x80, 0x90];
    let fold = |fold: Fold, src: &[u8]| {
        let mut out = Vec::new();
        Packing::Fold(fold).pack(src, &mut out);
        out
    };
    assert_eq!(fold(Fold::OrHighOfNext, &src), vec![0x12, 0x34, 0x56, 0x78]);
    assert_eq!(fold(Fold::OrHighOfThird, &src), vec![0x13, 0x57]);
    assert_eq!(fold(Fold::First, &src), vec![0x10, 0x30, 0x50, 0x70]);
    assert_eq!(fold(Fold::JoinNibbles, &[0x01, 0x02, 0x03, 0x04, 0x05]), vec![0x12, 0x34]);
    assert_eq!(fold(Fold::LumaRgb, &src), vec![0x1D, 0x4D, 0x7D]);
    assert_eq!(fold(Fold::LumaRgba, &src), vec![0x1D, 0x5D]);
    assert_eq!(fold(Fold::LumaPair, &src), vec![0x1D]);
    assert_eq!(fold(Fold::LumaTwice, &src), vec![0x1D]);
    assert_eq!(fold(Fold::ThreeOne, &src), vec![0x02, 0x47]);
    assert_eq!(fold(Fold::LumaTwice, &src[..7]), vec![]);
    assert_eq!(fold(Fold::JoinNibbles, &src[..1]), vec![]);
}

#[test]
fn a_rule_appends_to_what_is_there() {
    let src = [0x10, 0x20, 0x30, 0x40, 0x50, 0x60, 0x70, 0x80];
    let mut out = vec![1];
    Packing::Fold(Fold::First).pack(&src, &mut out);
    assert_eq!(out, vec![1, 0x10, 0x30, 0x50, 0x70]);
    Packing::Verbatim.pack(&src[..2], &mut out);
    assert_eq!(out, vec![1, 0x10, 0x30, 0x50, 0x70, 0x10, 0x20]);
    Packing::Color16.pack(&[0, 0, 255, 255], &mut out);
    assert_eq!(out, vec![1, 0x10, 0x30, 0x50, 0x70, 0x10, 0x20, 0x00, 0x3F]);
}
