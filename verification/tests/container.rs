use farbe::image::container::check_frame_fits;
use farbe::image::n64::{BitDepth, ColorType, ImageError, ImageFormat, NativeImage, PNGImage};

/// Decodes a stream with the `png` crate itself.
fn decode(stream: &[u8]) -> (png::Info<'static>, Vec<u8>) {
    let mut reader = png::Decoder::new(stream).read_info().unwrap();
    let mut data = vec![0; reader.output_buffer_size()];
    let frame = reader.next_frame(&mut data).unwrap();
    data.truncate(frame.buffer_size());
    (reader.info().clone(), data)
}

/// Encodes a frame with the `png` crate itself.
fn encode(
    width: u32,
    height: u32,
    color: png::ColorType,
    depth: png::BitDepth,
    palette: Option<&[u8]>,
    data: &[u8],
) -> Vec<u8> {
    let mut stream = Vec::new();
    {
        let mut encoder = png::Encoder::new(&mut stream, width, height);
        encoder.set_color(color);
        encoder.set_depth(depth);
        if let Some(palette) = palette {
            encoder.set_palette(palette.to_vec());
        }
        let mut writer = encoder.write_header().unwrap();
        writer.write_image_data(data).unwrap();
    }
    stream
}

#[test]
fn header_numbers_of_colour_types() {
    let all = [
        (ColorType::Grayscale, 0, 1),
        (ColorType::Rgb, 2, 3),
        (ColorType::Indexed, 3, 1),
        (ColorType::GrayscaleAlpha, 4, 2),
        (ColorType::Rgba, 6, 4),
    ];
    for (color, code, samples) in all {
        assert_eq!(color.code(), code);
        assert_eq!(color.samples(), samples);
        assert_eq!(ColorType::from_code(code), Some(color));
    }
    for code in [1u8, 5, 7, 8, 255] {
        assert_eq!(ColorType::from_code(code), None);
    }
}

#[test]
fn header_numbers_of_bit_depths() {
    let all = [
        (BitDepth::One, 1),
        (BitDepth::Two, 2),
        (BitDepth::Four, 4),
        (BitDepth::Eight, 8),
        (BitDepth::Sixteen, 16),
    ];
    for (depth, bits) in all {
        assert_eq!(depth.bits(), bits);
        assert_eq!(BitDepth::from_bits(bits), Some(depth));
    }
    for bits in [0u8, 3, 5, 7, 9, 32, 255] {
        assert_eq!(BitDepth::from_bits(bits), None);
    }
}

#[test]
fn header_numbers_are_those_of_the_png_crate() {
    assert_eq!(ColorType::Grayscale.code(), png::ColorType::Grayscale as u8);
    assert_eq!(ColorType::Rgb.code(), png::ColorType::Rgb as u8);
    assert_eq!(ColorType::Indexed.code(), png::ColorType::Indexed as u8);
    assert_eq!(ColorType::GrayscaleAlpha.code(), png::ColorType::GrayscaleAlpha as u8);
    assert_eq!(ColorType::Rgba.code(), png::ColorType::Rgba as u8);
    assert_eq!(BitDepth::One.bits(), png::BitDepth::One as u8);
    assert_eq!(BitDepth::Two.bits(), png::BitDepth::Two as u8);
    assert_eq!(BitDepth::Four.bits(), png::BitDepth::Four as u8);
    assert_eq!(BitDepth::Eight.bits(), png::BitDepth::Eight as u8);
    assert_eq!(BitDepth::Sixteen.bits(), png::BitDepth::Sixteen as u8);
    assert_eq!(ColorType::Rgba.samples() as usize, png::ColorType::Rgba.samples());
    assert_eq!(ColorType::Rgb.samples() as usize, png::ColorType::Rgb.samples());
    assert_eq!(ColorType::GrayscaleAlpha.samples() as usize, png::ColorType::GrayscaleAlpha.samples());
}

#[test]
fn from_frame_names_the_shape() {
    assert_eq!(
        PNGImage::from_frame(vec![1, 2], 4, 8),
        Ok(PNGImage {
            data: vec![1, 2],
            color_type: ColorType::GrayscaleAlpha,
            bit_depth: BitDepth::Eight
        })
    );
    assert_eq!(PNGImage::from_frame(vec![1, 2], 1, 8), Err(ImageError::Container));
    assert_eq!(PNGImage::from_frame(vec![1, 2], 4, 3), Err(ImageError::Container));
}

#[test]
fn a_frame_fits_while_one_buffer_holds_its_rows() {
    assert!(check_frame_fits(ColorType::Rgba, BitDepth::Eight, 160, 160));
    assert!(check_frame_fits(ColorType::Rgba, BitDepth::Sixteen, 0, 0));
    assert!(check_frame_fits(ColorType::Grayscale, BitDepth::One, u32::MAX, 1));
    assert_eq!(
        check_frame_fits(ColorType::Rgba, BitDepth::Sixteen, u32::MAX, u32::MAX),
        (u32::MAX as u128 * 8 + 1) * (u32::MAX as u128) <= isize::MAX as u128
    );
}

#[test]
fn read_takes_shape_and_pixels_from_the_stream() {
    let pixels = [0x12, 0x34, 0x56, 0x78, 0x9A, 0xBC];
    let stream = encode(3, 2, png::ColorType::Grayscale, png::BitDepth::Eight, None, &pixels);
    let image = PNGImage::read(&stream).unwrap();
    // neither the stream itself nor a constant: the decoded frame
    assert_ne!(image.data, stream);
    assert_eq!(image.data, pixels.to_vec());
    assert_eq!(image.color_type, ColorType::Grayscale);
    assert_eq!(image.bit_depth, BitDepth::Eight);

    let pixels = [1, 2, 3, 4, 5, 6, 7, 8, 9, 10, 11, 12];
    let stream = encode(1, 2, png::ColorType::Rgb, png::BitDepth::Sixteen, None, &pixels);
    let image = PNGImage::read(&stream).unwrap();
    assert_eq!(image.data, pixels.to_vec());
    assert_eq!(image.color_type, ColorType::Rgb);
    assert_eq!(image.bit_depth, BitDepth::Sixteen);
}

#[test]
fn read_keeps_rows_of_four_bits_packed() {
    // three pixels of four bits a row: two bytes a row
    let pixels = [0x12, 0x30, 0x45, 0x60];
    let palette = [0u8; 48];
    let stream =
        encode(3, 2, png::ColorType::Indexed, png::BitDepth::Four, Some(&palette), &pixels);
    let image = PNGImage::read(&stream).unwrap();
    assert_eq!(image.data, pixels.to_vec());
    assert_eq!(image.color_type, ColorType::Indexed);
    assert_eq!(image.bit_depth, BitDepth::Four);
}

#[test]
fn read_rejects_what_is_no_png() {
    assert_eq!(PNGImage::read(&[]), Err(ImageError::Container));
    assert_eq!(PNGImage::read(b"not a png at all"), Err(ImageError::Container));
    let stream = encode(2, 2, png::ColorType::Grayscale, png::BitDepth::Eight, None, &[1, 2, 3, 4]);
    assert_eq!(PNGImage::read(&stream[..stream.len() / 2]), Err(ImageError::Container));
}

#[test]
fn as_png_writes_rgba_of_eight_bits() {
    let native = NativeImage::read(&[0xF3, 0x0F], ImageFormat::IA8, 2, 1).unwrap();
    let mut stream = vec![];
    native.as_png(&mut stream).unwrap();
    let (info, data) = decode(&stream);
    assert_eq!((info.width, info.height), (2, 1));
    assert_eq!(info.color_type, png::ColorType::Rgba);
    assert_eq!(info.bit_depth, png::BitDepth::Eight);
    assert!(info.palette.is_none());
    assert_eq!(data, vec![0xF0, 0xF0, 0xF0, 0x30, 0x00, 0x00, 0x00, 0xF0]);
}

#[test]
fn as_png_writes_indices_with_a_placeholder_palette() {
    let native = NativeImage::read(&[0xAB, 0x01], ImageFormat::CI4, 2, 2).unwrap();
    let mut stream = vec![];
    native.as_png(&mut stream).unwrap();
    let (info, data) = decode(&stream);
    assert_eq!((info.width, info.height), (2, 2));
    assert_eq!(info.color_type, png::ColorType::Indexed);
    assert_eq!(info.bit_depth, png::BitDepth::Eight);
    assert_eq!(info.palette.as_deref(), Some(&[10u8; 256][..]));
    assert_eq!(data, vec![0xA, 0xB, 0x0, 0x1]);
    assert_eq!(native.png_palette(), Some(vec![10u8; 256]));
}

#[test]
fn as_png_is_the_stream_of_the_png_crate() {
    let bytes: Vec<u8> = (0..6 * 5 * 4).map(|i| (i * 13) as u8).collect();
    let native = NativeImage::read(&bytes, ImageFormat::RGBA32, 6, 5).unwrap();
    let mut stream = vec![];
    native.as_png(&mut stream).unwrap();
    assert_eq!(stream, encode(6, 5, png::ColorType::Rgba, png::BitDepth::Eight, None, &bytes));

    let bytes: Vec<u8> = (0..6 * 5).map(|i| (i * 13) as u8).collect();
    let native = NativeImage::read(&bytes, ImageFormat::CI8, 6, 5).unwrap();
    let mut stream = vec![];
    native.as_png(&mut stream).unwrap();
    let palette = [10u8; 256];
    assert_eq!(
        stream,
        encode(6, 5, png::ColorType::Indexed, png::BitDepth::Eight, Some(&palette), &bytes)
    );
}

#[test]
fn as_png_appends_and_leaves_the_writer_alone_on_failure() {
    let native = NativeImage::read(&[1, 2, 3, 4], ImageFormat::I8, 2, 2).unwrap();
    let mut stream = vec![0xEE];
    native.as_png(&mut stream).unwrap();
    assert_eq!(stream[0], 0xEE);
    assert_eq!(&stream[1..9], &[137, 80, 78, 71, 13, 10, 26, 10]);

    let short = NativeImage::read(&[1, 2, 3], ImageFormat::I8, 2, 2).unwrap();
    let mut stream = vec![0xEE];
    assert_eq!(short.as_png(&mut stream), Err(ImageError::TruncatedInput));
    assert_eq!(stream, vec![0xEE]);

    let short = NativeImage::read(&[1, 2, 3], ImageFormat::CI8, 2, 2).unwrap();
    assert_eq!(short.as_png(&mut stream), Err(ImageError::TruncatedInput));
    assert_eq!(short.png_image(), Err(ImageError::TruncatedInput));
    assert_eq!(stream, vec![0xEE]);
}

#[test]
fn an_image_without_pixels_is_refused_by_the_container() {
    let empty = NativeImage::read(&[], ImageFormat::RGBA32, 0, 4).unwrap();
    let mut stream = vec![];
    assert_eq!(empty.png_image().map(|i| i.data), Ok(vec![]));
    assert_eq!(empty.as_png(&mut stream), Err(ImageError::Container));
    assert!(stream.is_empty());
    let empty = NativeImage::read(&[], ImageFormat::CI8, 4, 0).unwrap();
    assert_eq!(empty.as_png(&mut stream), Err(ImageError::Container));
    assert!(stream.is_empty());
}

#[test]
fn png_image_of_an_indexed_format_needs_no_palette() {
    let native = NativeImage::read(&[0x12, 0x34, 0x5F], ImageFormat::CI4, 5, 1).unwrap();
    assert_eq!(
        native.png_image(),
        Ok(PNGImage {
            data: vec![1, 2, 3, 4, 5],
            color_type: ColorType::Indexed,
            bit_depth: BitDepth::Eight
        })
    );
    let native = NativeImage::read(&[0x12, 0x34], ImageFormat::I8, 1, 2).unwrap();
    assert_eq!(
        native.png_image(),
        Ok(PNGImage {
            data: vec![0x12, 0x12, 0x12, 0x12, 0x34, 0x34, 0x34, 0x34],
            color_type: ColorType::Rgba,
            bit_depth: BitDepth::Eight
        })
    );
    assert_eq!(native.png_palette(), None);
}
