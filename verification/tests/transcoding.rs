use std::io::Cursor;

use file_converter::codec::{decode_as, encode, transcode};
use file_converter::converter::Converter;
use file_converter::failure::Failure;
use file_converter::format::ImageExt;
use image::{ColorType, DynamicImage, GenericImageView, ImageFormat, Rgba, RgbaImage};

/// A picture of 5 by 3 pixels in which no two pixels are alike and the alpha
/// of every pixel differs from full.
fn translucent() -> RgbaImage {
    RgbaImage::from_fn(5, 3, |x, y| {
        Rgba([(40 * x) as u8, (80 * y) as u8, (10 * x + y) as u8, (16 * x + 50 * y + 7) as u8])
    })
}

fn file_of(image: &DynamicImage, format: ImageFormat) -> Vec<u8> {
    let mut out = Cursor::new(Vec::new());
    image.write_to(&mut out, format).unwrap();
    out.into_inner()
}

fn translucent_file(format: ImageFormat) -> Vec<u8> {
    file_of(&DynamicImage::ImageRgba8(translucent()), format)
}

fn opened(bytes: &[u8], format: ImageFormat) -> DynamicImage {
    assert_eq!(image::guess_format(bytes).unwrap(), format);
    image::load_from_memory_with_format(bytes, format).unwrap()
}

#[test]
fn png_to_jpeg_and_back_keeps_the_size() {
    let png = translucent_file(ImageFormat::Png);
    let jpeg = transcode(&png, "png", ImageExt::JPEG).unwrap();
    assert_eq!(opened(&jpeg, ImageFormat::Jpeg).dimensions(), (5, 3));
    let back = transcode(&jpeg, "jpg", ImageExt::PNG).unwrap();
    assert_eq!(opened(&back, ImageFormat::Png).dimensions(), (5, 3));
}

#[test]
fn a_jpeg_file_has_three_channels_and_no_alpha() {
    let png = translucent_file(ImageFormat::Png);
    let jpeg = transcode(&png, "png", ImageExt::JPEG).unwrap();
    let image = opened(&jpeg, ImageFormat::Jpeg);
    assert_eq!(image.color(), ColorType::Rgb8);
    assert!(!image.color().has_alpha());
    assert_eq!(image.color().channel_count(), 3);
}

#[test]
fn a_grey_image_becomes_a_jpeg_file_of_three_channels() {
    let grey = DynamicImage::ImageLuma8(image::GrayImage::from_fn(4, 4, |x, y| {
        image::Luma([(60 * x + 3 * y) as u8])
    }));
    let jpeg = transcode(&file_of(&grey, ImageFormat::Png), "png", ImageExt::JPEG).unwrap();
    let image = opened(&jpeg, ImageFormat::Jpeg);
    assert_eq!(image.color(), ColorType::Rgb8);
    assert_eq!(image.dimensions(), (4, 4));
}

#[test]
fn a_png_file_keeps_the_alpha_channel_as_it_was() {
    for (format, extension) in
        [(ImageFormat::Qoi, "qoi"), (ImageFormat::Tiff, "tiff"), (ImageFormat::Tga, "tga")]
    {
        let source = translucent_file(format);
        let png = transcode(&source, extension, ImageExt::PNG).unwrap();
        let image = opened(&png, ImageFormat::Png);
        assert_eq!(image.color(), ColorType::Rgba8);
        assert_eq!(image.to_rgba8(), translucent());
    }
}

#[test]
fn a_png_file_holds_the_pixels_of_its_source() {
    let bmp = file_of(&DynamicImage::ImageRgba8(translucent()).to_rgb8().into(), ImageFormat::Bmp);
    let png = transcode(&bmp, "bmp", ImageExt::PNG).unwrap();
    let image = opened(&png, ImageFormat::Png);
    assert_eq!(image.color(), ColorType::Rgb8);
    assert_eq!(image.to_rgb8(), DynamicImage::ImageRgba8(translucent()).to_rgb8());
}

#[test]
fn sixteen_bit_samples_stay_sixteen_bit_in_png() {
    let deep = DynamicImage::ImageRgba8(translucent()).to_rgba16();
    let tiff = file_of(&DynamicImage::ImageRgba16(deep.clone()), ImageFormat::Tiff);
    let png = transcode(&tiff, "tif", ImageExt::PNG).unwrap();
    let image = opened(&png, ImageFormat::Png);
    assert_eq!(image.color(), ColorType::Rgba16);
    assert_eq!(image.to_rgba16(), deep);
}

#[test]
fn the_same_source_gives_the_same_file() {
    let png = translucent_file(ImageFormat::Png);
    for target in [ImageExt::PNG, ImageExt::JPEG] {
        let once = transcode(&png, "png", target).unwrap();
        let again = transcode(&png, "png", target).unwrap();
        assert_eq!(once, again);
    }
}

#[test]
fn the_source_is_read_as_its_extension_says() {
    let png = translucent_file(ImageFormat::Png);
    assert!(transcode(&png, "png", ImageExt::JPEG).is_ok());
    assert!(transcode(&png, "PNG", ImageExt::JPEG).is_ok());
    assert!(transcode(&png, "apng", ImageExt::JPEG).is_ok());
    assert!(matches!(transcode(&png, "bmp", ImageExt::JPEG), Err(Failure::Decode { .. })));
    assert!(matches!(transcode(&png, "jpg", ImageExt::PNG), Err(Failure::Decode { .. })));
}

#[test]
fn an_extension_that_names_no_format_is_refused() {
    let png = translucent_file(ImageFormat::Png);
    for extension in ["", "txt", "pn", "png ", "image"] {
        match transcode(&png, extension, ImageExt::JPEG) {
            Err(Failure::UnknownFormat { extension: refused }) => assert_eq!(refused, extension),
            other => panic!("{:?}", other),
        }
    }
}

#[test]
fn a_file_that_is_no_image_gives_nothing_to_write() {
    let sources: [&[u8]; 4] = [b"", b"not an image", b"\x89PNG\r\n\x1a\n", &[0xff, 0xd8, 0xff, 0xe0]];
    for source in sources {
        for (extension, target) in [("png", ImageExt::JPEG), ("jpg", ImageExt::PNG)] {
            assert!(matches!(transcode(source, extension, target), Err(Failure::Decode { .. })));
        }
    }
    let form = Converter { file_path: String::from("/dir/broken.png"), ext: ImageExt::JPEG };
    assert!(matches!(form.convert(b"not an image"), Err(Failure::Decode { .. })));
}

#[test]
fn a_truncated_file_gives_nothing_to_write() {
    let png = translucent_file(ImageFormat::Png);
    let half = &png[..png.len() / 2];
    assert!(matches!(transcode(half, "png", ImageExt::JPEG), Err(Failure::Decode { .. })));
}

#[test]
fn the_cause_of_a_decoding_failure_is_the_decoders_text() {
    let expected =
        image::load_from_memory_with_format(b"not an image", ImageFormat::Png).unwrap_err();
    match transcode(b"not an image", "png", ImageExt::JPEG) {
        Err(Failure::Decode { cause }) => assert_eq!(cause, expected.to_string()),
        other => panic!("{:?}", other),
    }
}

#[test]
fn an_image_too_wide_for_jpeg_fails_at_the_output() {
    let wide = DynamicImage::new_luma8(65536, 1);
    let png = file_of(&wide, ImageFormat::Png);
    match transcode(&png, "png", ImageExt::JPEG) {
        Err(failure @ Failure::Output { .. }) => {
            assert!(!failure.is_fatal());
            assert!(failure.notice(ImageExt::JPEG).starts_with("Conversion to JPEG failed: "));
        }
        other => panic!("{:?}", other),
    }
    assert!(transcode(&png, "png", ImageExt::PNG).is_ok());
}

#[test]
fn samples_that_png_cannot_hold_fail_at_the_output() {
    let bright = DynamicImage::ImageRgb32F(image::Rgb32FImage::from_pixel(
        2,
        2,
        image::Rgb([0.25, 0.5, 1.0]),
    ));
    let hdr = file_of(&bright, ImageFormat::Hdr);
    match transcode(&hdr, "hdr", ImageExt::PNG) {
        Err(failure @ Failure::Output { .. }) => {
            assert!(!failure.is_fatal());
            assert!(failure.notice(ImageExt::PNG).starts_with("Conversion failed: "));
        }
        other => panic!("{:?}", other),
    }
    let jpeg = transcode(&hdr, "hdr", ImageExt::JPEG).unwrap();
    assert_eq!(opened(&jpeg, ImageFormat::Jpeg).dimensions(), (2, 2));
}

#[test]
fn decoding_gives_the_image_of_the_file() {
    let source = DynamicImage::ImageRgba8(translucent());
    for (format, extension) in
        [(ImageFormat::Png, "png"), (ImageFormat::Png, "PNG"), (ImageFormat::Qoi, "qoi")]
    {
        assert_eq!(decode_as(&file_of(&source, format), extension).unwrap(), source);
    }
}

#[test]
fn decoding_fails_as_converting_does() {
    let png = translucent_file(ImageFormat::Png);
    assert_eq!(
        decode_as(&png, "txt"),
        Err(Failure::UnknownFormat { extension: String::from("txt") })
    );
    assert_eq!(decode_as(&png, ""), Err(Failure::UnknownFormat { extension: String::new() }));
    let expected =
        image::load_from_memory_with_format(b"not an image", ImageFormat::Png).unwrap_err();
    assert_eq!(
        decode_as(b"not an image", "png"),
        Err(Failure::Decode { cause: expected.to_string() })
    );
}

#[test]
fn what_was_decoded_is_fit_to_be_encoded() {
    let png = translucent_file(ImageFormat::Png);
    let image = decode_as(&png, "png").unwrap();
    for target in [ImageExt::PNG, ImageExt::JPEG] {
        assert_eq!(encode(&image, target).unwrap(), transcode(&png, "png", target).unwrap());
    }
}

#[test]
fn encoding_takes_any_image() {
    let image = DynamicImage::ImageRgba8(translucent());
    let png = encode(&image, ImageExt::PNG).unwrap();
    assert_eq!(opened(&png, ImageFormat::Png), image);
    let jpeg = encode(&image, ImageExt::JPEG).unwrap();
    let shown = opened(&jpeg, ImageFormat::Jpeg);
    assert_eq!(shown.dimensions(), (5, 3));
    assert_eq!(shown.color(), ColorType::Rgb8);
}

#[test]
fn jpeg_encoding_is_that_of_the_rgb_image() {
    let image = DynamicImage::ImageRgba8(translucent());
    let expected = file_of(&DynamicImage::ImageRgb8(image.to_rgb8()), ImageFormat::Jpeg);
    assert_eq!(encode(&image, ImageExt::JPEG).unwrap(), expected);
    assert_eq!(encode(&image, ImageExt::PNG).unwrap(), file_of(&image, ImageFormat::Png));
}

#[test]
fn an_image_without_pixels_is_not_encoded() {
    let empty = DynamicImage::new_rgb8(0, 0);
    assert!(encode(&empty, ImageExt::JPEG).is_err());
}

#[test]
fn converting_says_what_to_write_and_where() {
    let bmp = file_of(&DynamicImage::ImageRgba8(translucent()).to_rgb8().into(), ImageFormat::Bmp);
    let form = Converter { file_path: String::from("/dir/photo.bmp"), ext: ImageExt::JPEG };
    let conversion = form.convert(&bmp).unwrap();
    assert_eq!(conversion.path, "/dir/photo.jpg");
    assert_eq!(conversion.bytes, transcode(&bmp, "bmp", ImageExt::JPEG).unwrap());
    assert_eq!(opened(&conversion.bytes, ImageFormat::Jpeg).dimensions(), (5, 3));

    let form = Converter { file_path: String::from("/dir/photo.bmp"), ext: ImageExt::PNG };
    let conversion = form.convert(&bmp).unwrap();
    assert_eq!(conversion.path, "/dir/photo.png");
    assert_eq!(opened(&conversion.bytes, ImageFormat::Png).dimensions(), (5, 3));
}

#[test]
fn converting_reads_the_extension_in_any_case() {
    let png = translucent_file(ImageFormat::Png);
    let form = Converter { file_path: String::from("IMG.PNG"), ext: ImageExt::JPEG };
    let conversion = form.convert(&png).unwrap();
    assert_eq!(conversion.path, "IMG.jpg");
    assert_eq!(conversion.bytes, transcode(&png, "png", ImageExt::JPEG).unwrap());
}

#[test]
fn converting_a_file_without_an_extension_fails() {
    let png = translucent_file(ImageFormat::Png);
    let form = Converter { file_path: String::from("/dir/photo"), ext: ImageExt::JPEG };
    match form.convert(&png) {
        Err(failure @ Failure::UnknownFormat { .. }) => assert!(failure.is_fatal()),
        other => panic!("{:?}", other.map(|c| c.path)),
    }
}
