//! The form of the converter and what a press of its button leads to.

use vstd::prelude::*;

use crate::codec::{decoder_returns, transcode, transcoded};
use crate::failure::{Failure, Fault};
use crate::format::{lemma_suffix_is_covered, ImageExt};
use crate::outcome::viewed;
use crate::path::{
    extension_of, lemma_extension_ignores_case, lemma_renamed_keeps_stem, names_file, renamed,
    source_extension, with_extension,
};
use crate::text::lowered;

verus! {

/// What a press of the button leads to.
#[derive(Clone, Copy, Debug, PartialEq, Eq, Structural)]
pub enum Verdict {
    /// There is no file at the path: nothing is read, nothing is written.
    Missing,
    /// The file is in the selected format already: nothing is read, nothing
    /// is written.
    Already,
    /// The file is to be read and converted.
    Convert,
}

/// A converted file: its bytes, and the path to write them to.
#[derive(Debug, PartialEq, Eq)]
pub struct Conversion {
    pub path: String,
    pub bytes: Vec<u8>,
}

impl View for Conversion {
    type V = (Seq<char>, Seq<u8>);

    /// The path and the bytes.
    open spec fn view(&self) -> (Seq<char>, Seq<u8>) {
        (self.path@, self.bytes@)
    }
}

/// The verdict on a path and a target format, given whether a file exists at
/// the path. The extension decides in any case of its letters.
pub open spec fn verdict(path: Seq<char>, target: ImageExt, exists: bool) -> Verdict {
    if !exists {
        Verdict::Missing
    } else if target.covers(extension_of(path)) {
        Verdict::Already
    } else {
        Verdict::Convert
    }
}

/// The line that reports a verdict; a file that is to be converted is not
/// reported.
pub open spec fn verdict_notice(verdict: Verdict, target: ImageExt) -> Option<Seq<char>> {
    match verdict {
        Verdict::Missing => Some("File does not exist"@),
        Verdict::Already => Some("Already a "@ + target.label() + " file!"@),
        Verdict::Convert => None,
    }
}

/// What the file at `path` becomes when it is converted to `target`, given its
/// bytes: the path and the bytes of the converted file, or the failure. The
/// converted file stands beside the source, under the same name but for the
/// extension, which is that of the target.
pub open spec fn converted(path: Seq<char>, target: ImageExt, bytes: Seq<u8>) -> Result<
    (Seq<char>, Seq<u8>),
    Fault,
> {
    match transcoded(bytes, extension_of(path), target) {
        Ok(file) => Ok((renamed(path, target.suffix()), file)),
        Err(fault) => Err(fault),
    }
}

/// Paths that differ only in the case of their letters get the same verdict.
pub proof fn lemma_verdict_ignores_case(
    path: Seq<char>,
    other: Seq<char>,
    target: ImageExt,
    exists: bool,
)
    requires
        lowered(path) == lowered(other),
    ensures
        verdict(path, target, exists) == verdict(other, target, exists),
{
    lemma_extension_ignores_case(path);
    lemma_extension_ignores_case(other);
}

/// A converted file is in its format by its name: asked to convert it to the
/// same format again, the converter leaves it alone.
pub proof fn lemma_converted_file_is_left_alone(path: Seq<char>, target: ImageExt)
    requires
        names_file(path),
    ensures
        verdict(renamed(path, target.suffix()), target, true) == Verdict::Already,
{
    lemma_suffix_is_covered(target);
    lemma_renamed_keeps_stem(path, target.suffix());
}

/// A conversion does not write over its source: where a file is to be
/// converted, the converted file goes by another path.
pub proof fn lemma_source_is_spared(path: Seq<char>, target: ImageExt)
    requires
        names_file(path),
        verdict(path, target, true) == Verdict::Convert,
    ensures
        renamed(path, target.suffix()) != path,
{
    lemma_converted_file_is_left_alone(path, target);
}

/// The form: the path that was typed and the format that was selected. Both
/// are the user's to change at any time; the path is looked at only when a
/// conversion is asked for.
pub struct Converter {
    pub file_path: String,
    pub ext: ImageExt,
}

impl Converter {
    /// The form as it is at startup: no path, and PNG selected.
    pub fn new() -> (form: Self)
        ensures
            form.file_path@ == Seq::<char>::empty(),
            form.ext == ImageExt::PNG,
    {
        Self { ext: ImageExt::PNG, file_path: String::new() }
    }

    /// Takes the text of the path as it was typed, whatever it holds. The
    /// selected format stays as it is.
    pub fn set_path(&mut self, text: &str)
        ensures
            final(self).file_path@ == text@,
            final(self).ext == old(self).ext,
    {
        self.file_path = String::from_str(text);
    }

    /// Selects a target format. The path stays as it is.
    pub fn select(&mut self, ext: ImageExt)
        ensures
            final(self).ext == ext,
            final(self).file_path == old(self).file_path,
    {
        self.ext = ext;
    }

    /// Decides what a press of the button leads to. `exists` tells whether a
    /// file exists at the path of the form.
    pub fn check(&self, exists: bool) -> (answer: Verdict)
        ensures
            answer == verdict(self.file_path@, self.ext, exists),
    {
        if !exists {
            return Verdict::Missing;
        }
        let extension = source_extension(self.file_path.as_str());
        if self.ext.matches(extension.as_str()) {
            Verdict::Already
        } else {
            Verdict::Convert
        }
    }

    /// The line to print for a verdict, if it calls for one.
    pub fn notice(&self, answer: Verdict) -> (line: Option<String>)
        ensures
            line.deep_view() == verdict_notice(answer, self.ext),
    {
        match answer {
            Verdict::Missing => Some(String::from_str("File does not exist")),
            Verdict::Already => Some(
                String::from_str("Already a ").concat(self.ext.name()).concat(" file!"),
            ),
            Verdict::Convert => None,
        }
    }

    /// The path of the converted file: that of the source, in its directory
    /// and under its name, with the extension of the selected format.
    pub fn output_path(&self) -> (path: String)
        ensures
            path@ == renamed(self.file_path@, self.ext.suffix()),
    {
        with_extension(self.file_path.as_str(), self.ext.extension())
    }

    /// Converts the file of the form, given its bytes: says what to write, and
    /// where. A failure leaves nothing to write. Where the verdict on the file
    /// was to convert it, what is written does not go over the source. The
    /// bytes are such that the decoder for the file's extension comes back
    /// from them.
    pub fn convert(&self, bytes: &[u8]) -> (out: Result<Conversion, Failure>)
        requires
            decoder_returns(bytes@, extension_of(self.file_path@)),
        ensures
            viewed(out) == converted(self.file_path@, self.ext, bytes@),
            verdict(self.file_path@, self.ext, true) == Verdict::Convert ==> (out matches Ok(
                conversion,
            ) ==> conversion.path@ != self.file_path@),
    {
        let extension = source_extension(self.file_path.as_str());
        match transcode(bytes, extension.as_str(), self.ext) {
            Ok(file) => {
                proof {
                    if verdict(self.file_path@, self.ext, true) == Verdict::Convert {
                        lemma_source_is_spared(self.file_path@, self.ext);
                    }
                }
                Ok(Conversion { path: self.output_path(), bytes: file })
            },
            Err(failure) => Err(failure),
        }
    }
}

} // verus!
