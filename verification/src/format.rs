//! The formats that an image can be converted to.

use vstd::prelude::*;

use crate::path::plain;
use crate::text::{lowered, same_text};

verus! {

/// A target format. The selector of the form offers exactly these two.
#[derive(Clone, Copy, Debug, PartialEq, Eq, Structural)]
pub enum ImageExt {
    PNG,
    JPEG,
}

impl ImageExt {
    /// The name under which the format is offered and reported.
    pub open spec fn label(self) -> Seq<char> {
        match self {
            ImageExt::PNG => "PNG"@,
            ImageExt::JPEG => "JPEG"@,
        }
    }

    /// The extension that a file converted to this format gets.
    pub open spec fn suffix(self) -> Seq<char> {
        match self {
            ImageExt::PNG => "png"@,
            ImageExt::JPEG => "jpg"@,
        }
    }

    /// Whether a file whose lower-cased extension is `extension` is taken to
    /// be in this format already. JPEG files go by two extensions.
    pub open spec fn covers(self, extension: Seq<char>) -> bool {
        match self {
            ImageExt::PNG => extension == "png"@,
            ImageExt::JPEG => extension == "jpeg"@ || extension == "jpg"@,
        }
    }

    /// The name of the format, as `label` gives it.
    pub fn name(self) -> (name: &'static str)
        ensures
            name@ == self.label(),
    {
        match self {
            ImageExt::PNG => "PNG",
            ImageExt::JPEG => "JPEG",
        }
    }

    /// The extension of the format, as `suffix` gives it.
    pub fn extension(self) -> (extension: &'static str)
        ensures
            extension@ == self.suffix(),
    {
        match self {
            ImageExt::PNG => "png",
            ImageExt::JPEG => "jpg",
        }
    }

    /// Tells whether `extension`, already lower-cased, is one of this format.
    pub fn matches(self, extension: &str) -> (yes: bool)
        ensures
            yes == self.covers(extension@),
    {
        match self {
            ImageExt::PNG => same_text(extension, "png"),
            ImageExt::JPEG => same_text(extension, "jpeg") || same_text(extension, "jpg"),
        }
    }
}

/// The extension that a format gives is one that it goes by: plain, and in
/// lower case as it is.
pub proof fn lemma_suffix_is_covered(format: ImageExt)
    ensures
        plain(format.suffix()),
        lowered(format.suffix()) == format.suffix(),
        format.covers(format.suffix()),
{
    reveal_strlit("png");
    reveal_strlit("jpg");
    assert(lowered(format.suffix()) =~= format.suffix());
}

} // verus!
