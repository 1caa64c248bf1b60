//! The icon of the window: an image file of any format that is known by its
//! first bytes, as the rows of RGBA pixels that a window asks for.

use vstd::prelude::*;

use crate::codec::{comes_back, decode, decoding, extent};
use crate::outcome::{told, viewed};

verus! {

/// What `image::guess_format` makes of the beginning of `bytes`: the format
/// that begins so, or the text of its error.
pub uninterp spec fn guessed(bytes: Seq<u8>) -> Result<image::ImageFormat, Seq<char>>;

/// The buffer of the image that `DynamicImage::into_rgba8` returns: red,
/// green, blue and alpha of each pixel, row by row, and whatever the buffer
/// holds behind the last pixel.
pub uninterp spec fn rgba8_of(image: image::DynamicImage) -> Seq<u8>;

/// An icon: four 8-bit samples per pixel, red, green, blue and alpha, row by
/// row.
#[derive(Debug, PartialEq, Eq)]
pub struct Icon {
    pub rgba: Vec<u8>,
    pub width: u32,
    pub height: u32,
}

impl View for Icon {
    type V = (Seq<u8>, u32, u32);

    /// The samples, the width and the height.
    open spec fn view(&self) -> (Seq<u8>, u32, u32) {
        (self.rgba@, self.width, self.height)
    }
}

/// The icon that shows an image: in the width and height of the image, the
/// four samples of each of its pixels and nothing after them.
pub open spec fn icon_of(image: image::DynamicImage) -> (Seq<u8>, u32, u32) {
    let (width, height) = extent(image);
    (rgba8_of(image).take(4 * width * height), width, height)
}

/// The icon that comes of an attempt to decode: that of the image, or the
/// decoder's error as it is.
pub open spec fn icon_of_decoded(decoded: Result<image::DynamicImage, Seq<char>>) -> Result<
    (Seq<u8>, u32, u32),
    Seq<char>,
> {
    match decoded {
        Ok(image) => Ok(icon_of(image)),
        Err(cause) => Err(cause),
    }
}

/// The icon that the bytes of an image file give. The format is the one that
/// the bytes begin like; bytes that begin like none, or that are no image of
/// the format they begin like, give the error of that step.
pub open spec fn icon_loaded(bytes: Seq<u8>) -> Result<(Seq<u8>, u32, u32), Seq<char>> {
    match guessed(bytes) {
        Ok(format) => icon_of_decoded(decoding(bytes, format)),
        Err(cause) => Err(cause),
    }
}

/// Whether the decoder for the format that `bytes` begin like comes back from
/// them. Bytes that begin like no format go to no decoder.
pub open spec fn icon_decoder_returns(bytes: Seq<u8>) -> bool {
    match guessed(bytes) {
        Ok(format) => comes_back(bytes, format),
        Err(_) => true,
    }
}

/// `image::guess_format`: the format whose signature, out of the crate's fixed
/// list, the bytes begin with. The error's text is what its `Display` writes.
#[verifier::external_body]
fn guess(bytes: &[u8]) -> (format: Result<image::ImageFormat, String>)
    ensures
        told(format) == guessed(bytes@),
{
    image::guess_format(bytes).map_err(|e| e.to_string())
}

/// `DynamicImage::into_rgba8`: the image with four 8-bit samples per pixel, in
/// the width and height that it has. Its buffer holds at least the samples of
/// all its pixels.
#[verifier::external_body]
fn rgba(image: image::DynamicImage) -> (icon: Icon)
    ensures
        (icon.width, icon.height) == extent(image),
        icon.rgba@ == rgba8_of(image),
        icon.rgba@.len() >= 4 * icon.width * icon.height,
{
    let rgba = image.into_rgba8();
    Icon { width: rgba.width(), height: rgba.height(), rgba: rgba.into_raw() }
}

impl Icon {
    /// The samples are those of the pixels, four for each, and no more.
    pub open spec fn exact(&self) -> bool {
        self.rgba@.len() == 4 * self.width * self.height
    }

    /// Makes the icon that shows an image.
    pub fn of(image: image::DynamicImage) -> (icon: Icon)
        ensures
            icon@ == icon_of(image),
            icon.exact(),
    {
        let mut icon = rgba(image);
        let width: usize = icon.width as usize;
        let height: usize = icon.height as usize;
        proof {
            let w = width as int;
            let h = height as int;
            assert(4 * w * h == 4 * (w * h) && 0 <= w * h) by (nonlinear_arith)
                requires
                    0 <= w,
                    0 <= h,
            ;
            assert(4 * w * h == 4 * icon.width * icon.height);
            assert(icon.rgba@.len() == icon.rgba.len());
        }
        let pixels: usize = width * height;
        let samples: usize = 4 * pixels;
        icon.rgba.truncate(samples);
        assert(icon.rgba@ =~= rgba8_of(image).take(samples as int));
        icon
    }
}

/// Makes an icon of what a decoder returned: the icon of the image, or the
/// decoder's error, handed on as it is.
pub fn icon_of_loaded(decoded: Result<image::DynamicImage, String>) -> (loaded: Result<
    Icon,
    String,
>)
    ensures
        viewed(loaded) == icon_of_decoded(told(decoded)),
        loaded matches Ok(icon) ==> icon.exact(),
{
    match decoded {
        Ok(image) => Ok(Icon::of(image)),
        Err(cause) => Err(cause),
    }
}

/// Makes an icon of the bytes of an image file. The same bytes give the same
/// icon. Bytes that are no image give no icon, but the text of the error. The
/// bytes are such that their decoder comes back from them.
pub fn load_icon(bytes: &[u8]) -> (loaded: Result<Icon, String>)
    requires
        icon_decoder_returns(bytes@),
    ensures
        viewed(loaded) == icon_loaded(bytes@),
        loaded matches Ok(icon) ==> icon.exact(),
{
    match guess(bytes) {
        Ok(format) => icon_of_loaded(decode(bytes, format)),
        Err(cause) => Err(cause),
    }
}

} // verus!
