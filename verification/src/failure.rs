//! The ways in which a conversion ends without a converted file.

use vstd::prelude::*;

use crate::format::ImageExt;

verus! {

/// Why a conversion gave no file.
#[derive(Debug, PartialEq, Eq)]
pub enum Failure {
    /// The extension of the source names no image format.
    UnknownFormat { extension: String },
    /// The source could not be read as an image: the file cannot be read, or
    /// it is no image of the format that its extension names.
    Decode { cause: String },
    /// The image could not be encoded in the target format, or the encoded
    /// file could not be written.
    Output { cause: String },
}

/// A `Failure` with its texts as sequences of characters.
pub enum Fault {
    UnknownFormat { extension: Seq<char> },
    Decode { cause: Seq<char> },
    Output { cause: Seq<char> },
}

impl View for Failure {
    type V = Fault;

    open spec fn view(&self) -> Fault {
        match self {
            Failure::UnknownFormat { extension } => Fault::UnknownFormat { extension: extension@ },
            Failure::Decode { cause } => Fault::Decode { cause: cause@ },
            Failure::Output { cause } => Fault::Output { cause: cause@ },
        }
    }
}

impl Fault {
    /// Whether the converter cannot go on after this. A source that cannot be
    /// read as an image is fatal; a target that cannot be produced ends the
    /// attempt only.
    pub open spec fn fatal(self) -> bool {
        !(self is Output)
    }

    /// The line that reports this, for a conversion to `target`.
    pub open spec fn notice(self, target: ImageExt) -> Seq<char> {
        match self {
            Fault::UnknownFormat { extension } => "Image could not be opened: unknown format: "@
                + extension,
            Fault::Decode { cause } => "Image could not be opened: "@ + cause,
            Fault::Output { cause } => match target {
                ImageExt::PNG => "Conversion failed: "@ + cause,
                ImageExt::JPEG => "Conversion to JPEG failed: "@ + cause,
            },
        }
    }
}

impl Failure {
    /// Tells whether the converter cannot go on after this failure.
    pub fn is_fatal(&self) -> (fatal: bool)
        ensures
            fatal == self@.fatal(),
    {
        match self {
            Failure::Output { .. } => false,
            _ => true,
        }
    }

    /// The line that reports this failure, for a conversion to `target`.
    pub fn notice(&self, target: ImageExt) -> (line: String)
        ensures
            line@ == self@.notice(target),
    {
        match self {
            Failure::UnknownFormat { extension } => String::from_str(
                "Image could not be opened: unknown format: ",
            ).concat(extension.as_str()),
            Failure::Decode { cause } => String::from_str("Image could not be opened: ").concat(
                cause.as_str(),
            ),
            Failure::Output { cause } => match target {
                ImageExt::PNG => String::from_str("Conversion failed: ").concat(cause.as_str()),
                ImageExt::JPEG => String::from_str("Conversion to JPEG failed: ").concat(
                    cause.as_str(),
                ),
            },
        }
    }
}

} // verus!
