//! Decoding and encoding, which the `image` crate does. This module holds the
//! calls into it, what is taken on trust of each, and the order in which an
//! image passes through them on its way to a target format.

use vstd::prelude::*;

use crate::failure::{Failure, Fault};
use crate::format::ImageExt;
use crate::outcome::{told, viewed};

verus! {

#[verifier::external_type_specification]
#[verifier::external_body]
pub struct ExDynamicImage(image::DynamicImage);

#[verifier::external_type_specification]
#[verifier::external_body]
pub struct ExImageFormat(image::ImageFormat);

/// The format that `ImageFormat::from_extension` finds for an extension.
pub uninterp spec fn format_of(extension: Seq<char>) -> Option<image::ImageFormat>;

/// What `load_from_memory_with_format` does with `bytes` read as `format`:
/// the image or the text of the error that it returns, or nothing where it
/// does not return. The crate's notes say that decoders may panic on hostile
/// input, and not on which.
pub uninterp spec fn decoder_outcome(bytes: Seq<u8>, format: image::ImageFormat) -> Option<
    Result<image::DynamicImage, Seq<char>>,
>;

/// Whether the decoder comes back from `bytes` read as `format`, with an image
/// or with an error.
pub open spec fn comes_back(bytes: Seq<u8>, format: image::ImageFormat) -> bool {
    decoder_outcome(bytes, format) is Some
}

/// What the decoder makes of `bytes` read as `format`, where it comes back
/// from them: the image, or the text of its error.
pub open spec fn decoding(bytes: Seq<u8>, format: image::ImageFormat) -> Result<
    image::DynamicImage,
    Seq<char>,
> {
    decoder_outcome(bytes, format).unwrap()
}

/// Whether the buffer of an image, which `DynamicImage::as_bytes` hands out,
/// holds the samples of its pixels and nothing after them. The encoders take
/// no buffer of another length than the pixels need.
pub uninterp spec fn tight(image: image::DynamicImage) -> bool;

/// Width and height of an image, as `DynamicImage::width` and `height` give them.
pub uninterp spec fn extent(image: image::DynamicImage) -> (u32, u32);

/// The samples of the image that `DynamicImage::to_rgb8` returns: red, green
/// and blue of each pixel, row by row.
pub uninterp spec fn rgb8_of(image: image::DynamicImage) -> Seq<u8>;

/// What `DynamicImage::write_to` writes for an image as PNG, or the text of its
/// error.
pub uninterp spec fn png_of(image: image::DynamicImage) -> Result<Seq<u8>, Seq<char>>;

/// What `image::write_buffer_with_format` writes as JPEG for red, green and
/// blue samples of 8 bits, in rows of the given width, or the text of its
/// error.
pub uninterp spec fn jpeg_of(width: u32, height: u32, samples: Seq<u8>) -> Result<
    Seq<u8>,
    Seq<char>,
>;

/// An image of three 8-bit samples per pixel, red, green and blue, row by row.
/// It has no alpha channel to hold.
struct RgbPicture {
    width: u32,
    height: u32,
    samples: Vec<u8>,
}

impl RgbPicture {
    /// The samples are those of the pixels, three for each, and no more.
    spec fn complete(&self) -> bool {
        self.samples@.len() == 3 * self.width * self.height
    }
}

/// `ImageFormat::from_extension`: the format that goes by a file extension,
/// whatever the case of its letters; `None` for an extension that the crate
/// does not list. The empty extension is not in its list.
#[verifier::external_body]
fn format_for(extension: &str) -> (format: Option<image::ImageFormat>)
    ensures
        format == format_of(extension@),
        extension@.len() == 0 ==> format is None,
{
    image::ImageFormat::from_extension(extension)
}

/// `image::load_from_memory_with_format`: decodes `bytes` as an image of the
/// given format. Bytes on which the decoder panics are left out. The buffer of
/// a decoded image is made to the length that its pixels need. The error's
/// text is what its `Display` writes.
#[verifier::external_body]
pub(crate) fn decode(bytes: &[u8], format: image::ImageFormat) -> (decoded: Result<
    image::DynamicImage,
    String,
>)
    requires
        comes_back(bytes@, format),
    ensures
        decoder_outcome(bytes@, format) == Some(told(decoded)),
        decoded matches Ok(image) ==> tight(image),
{
    image::load_from_memory_with_format(bytes, format).map_err(|e| e.to_string())
}

/// `DynamicImage::to_rgb8`: a copy of the image with three 8-bit samples per
/// pixel. The copy has the width and height of the image. Its buffer is made
/// to the length that its pixels need, or is a copy of that of the image.
#[verifier::external_body]
fn flatten(image: &image::DynamicImage) -> (rgb: RgbPicture)
    requires
        tight(*image),
    ensures
        (rgb.width, rgb.height) == extent(*image),
        rgb.samples@ == rgb8_of(*image),
        rgb.complete(),
{
    let rgb = image.to_rgb8();
    RgbPicture { width: rgb.width(), height: rgb.height(), samples: rgb.into_raw() }
}

/// `DynamicImage::write_to` with `ImageFormat::Png`, into memory. The encoder
/// panics on a buffer that is longer than the pixels need: such an image is
/// left out.
#[verifier::external_body]
fn encode_png(image: &image::DynamicImage) -> (encoded: Result<Vec<u8>, String>)
    requires
        tight(*image),
    ensures
        viewed(encoded) == png_of(*image),
{
    let mut out = std::io::Cursor::new(Vec::new());
    match image.write_to(&mut out, image::ImageFormat::Png) {
        Ok(()) => Ok(out.into_inner()),
        Err(e) => Err(e.to_string()),
    }
}

/// `image::write_buffer_with_format` with `ExtendedColorType::Rgb8` and
/// `ImageFormat::Jpeg`, into memory. The encoder panics on a buffer of another
/// length than the pixels need: such a picture is left out.
#[verifier::external_body]
fn encode_jpeg(picture: &RgbPicture) -> (encoded: Result<Vec<u8>, String>)
    requires
        picture.complete(),
    ensures
        viewed(encoded) == jpeg_of(picture.width, picture.height, picture.samples@),
{
    let mut out = std::io::Cursor::new(Vec::new());
    match image::write_buffer_with_format(
        &mut out,
        &picture.samples,
        picture.width,
        picture.height,
        image::ExtendedColorType::Rgb8,
        image::ImageFormat::Jpeg,
    ) {
        Ok(()) => Ok(out.into_inner()),
        Err(e) => Err(e.to_string()),
    }
}

/// The file that an image becomes in a target format. PNG takes the image as
/// it is, with the channels it has. JPEG has no alpha channel: it takes the
/// red, green and blue of the image, in the image's own width and height.
pub open spec fn encoded(image: image::DynamicImage, target: ImageExt) -> Result<
    Seq<u8>,
    Seq<char>,
> {
    match target {
        ImageExt::PNG => png_of(image),
        ImageExt::JPEG => jpeg_of(extent(image).0, extent(image).1, rgb8_of(image)),
    }
}

/// Encodes an image in the target format. The image is one that a decoder
/// made, or any other whose buffer ends with its last pixel.
pub fn encode(image: &image::DynamicImage, target: ImageExt) -> (out: Result<Vec<u8>, String>)
    requires
        tight(*image),
    ensures
        viewed(out) == encoded(*image, target),
{
    match target {
        ImageExt::PNG => encode_png(image),
        ImageExt::JPEG => {
            let rgb = flatten(image);
            encode_jpeg(&rgb)
        },
    }
}

/// The outcome of a conversion whose source was decoded: that of the encoder,
/// its error being a failure of the output.
pub open spec fn output(encoded: Result<Seq<u8>, Seq<char>>) -> Result<Seq<u8>, Fault> {
    match encoded {
        Ok(file) => Ok(file),
        Err(cause) => Err(Fault::Output { cause }),
    }
}

/// Whether the decoder that goes by `extension` comes back from `bytes`. An
/// extension that names no format brings no decoder to them.
pub open spec fn decoder_returns(bytes: Seq<u8>, extension: Seq<char>) -> bool {
    match format_of(extension) {
        Some(format) => comes_back(bytes, format),
        None => true,
    }
}

/// What the bytes of a source file are, read as the format that goes by the
/// file's extension: the image, or why there is none.
pub open spec fn decoded_as(bytes: Seq<u8>, extension: Seq<char>) -> Result<
    image::DynamicImage,
    Fault,
> {
    match format_of(extension) {
        None => Err(Fault::UnknownFormat { extension }),
        Some(format) => match decoding(bytes, format) {
            Err(cause) => Err(Fault::Decode { cause }),
            Ok(image) => Ok(image),
        },
    }
}

/// What the bytes of a source file become in a target format, read as the
/// format that goes by the file's extension: the bytes of the converted file,
/// or the first thing that went wrong on the way.
pub open spec fn transcoded(bytes: Seq<u8>, extension: Seq<char>, target: ImageExt) -> Result<
    Seq<u8>,
    Fault,
> {
    match decoded_as(bytes, extension) {
        Err(fault) => Err(fault),
        Ok(image) => output(encoded(image, target)),
    }
}

/// A source that does not decode gives no file, whatever the target: the
/// failure is that of the decoder.
pub proof fn lemma_undecodable_source_gives_no_file(
    bytes: Seq<u8>,
    extension: Seq<char>,
    format: image::ImageFormat,
    cause: Seq<char>,
    target: ImageExt,
)
    requires
        format_of(extension) == Some(format),
        decoding(bytes, format) == Err::<image::DynamicImage, Seq<char>>(cause),
    ensures
        transcoded(bytes, extension, target) == Err::<Seq<u8>, Fault>(Fault::Decode { cause }),
{
}

/// A source that decodes is handed on whole. The PNG file is made of the
/// decoded image itself, so of every channel that it has. The JPEG file is
/// made of three samples for each pixel, in the width and height of the
/// decoded image.
pub proof fn lemma_decoded_image_is_encoded(
    bytes: Seq<u8>,
    extension: Seq<char>,
    format: image::ImageFormat,
    image: image::DynamicImage,
)
    requires
        format_of(extension) == Some(format),
        decoding(bytes, format) == Ok::<image::DynamicImage, Seq<char>>(image),
    ensures
        transcoded(bytes, extension, ImageExt::PNG) == output(png_of(image)),
        transcoded(bytes, extension, ImageExt::JPEG) == output(
            jpeg_of(extent(image).0, extent(image).1, rgb8_of(image)),
        ),
{
}

/// Decodes the bytes of a source file as the format that goes by its
/// extension. Only a file with an extension is decoded. The image is fit to
/// be encoded. The bytes are such that the decoder comes back from them.
pub fn decode_as(bytes: &[u8], extension: &str) -> (out: Result<image::DynamicImage, Failure>)
    requires
        decoder_returns(bytes@, extension@),
    ensures
        told(out) == decoded_as(bytes@, extension@),
        out matches Ok(image) ==> tight(image) && extension@.len() > 0,
{
    match format_for(extension) {
        Some(format) => match decode(bytes, format) {
            Ok(image) => Ok(image),
            Err(cause) => Err(Failure::Decode { cause }),
        },
        None => Err(Failure::UnknownFormat { extension: String::from_str(extension) }),
    }
}

/// Decodes the bytes of a source file by its extension and encodes the image
/// in the target format. Only a file with an extension is converted. The
/// bytes are such that the decoder comes back from them.
pub fn transcode(bytes: &[u8], extension: &str, target: ImageExt) -> (out: Result<
    Vec<u8>,
    Failure,
>)
    requires
        decoder_returns(bytes@, extension@),
    ensures
        viewed(out) == transcoded(bytes@, extension@, target),
        out is Ok ==> extension@.len() > 0,
{
    let image = match decode_as(bytes, extension) {
        Ok(image) => image,
        Err(failure) => {
            return Err(failure);
        },
    };
    match encode(&image, target) {
        Ok(file) => Ok(file),
        Err(cause) => Err(Failure::Output { cause }),
    }
}

} // verus!
