//! One attempt at a conversion, step by step. The library reads no file and
//! writes none: it says what is to be done next, and is told what came of it.
//!
//! An attempt begins with `Event::Pressed`. Each `Action` that asks for
//! something is answered by the `Event` of the same name, until an action ends
//! the attempt.

use vstd::prelude::*;

use crate::codec::{decoder_returns, decoding, format_of, transcoded};
use crate::converter::{converted, verdict, verdict_notice, Conversion, Converter, Verdict};
use crate::failure::{Failure, Fault};
use crate::format::ImageExt;
use crate::path::{extension_of, renamed};

verus! {

/// What happened outside the library.
pub enum Event {
    /// The button was pressed. `exists` tells whether a file exists at the
    /// path of the form.
    Pressed { exists: bool },
    /// The source was read: its bytes, or why it could not be read.
    Read(Result<Vec<u8>, String>),
    /// The converted file was written, or it was not, and why.
    Written(Result<(), String>),
}

/// What is to be done next.
#[derive(Debug, PartialEq, Eq)]
pub enum Action {
    /// Print the line. The attempt is over.
    Report { line: String },
    /// Read the file at the path of the form.
    Read,
    /// Write the converted file.
    Write { conversion: Conversion },
    /// The source cannot be read as an image: give up with this message.
    Abort { line: String },
    /// Nothing is left to do. The attempt is over.
    Rest,
}

/// An `Event` with its bytes and texts as sequences.
pub enum Happening {
    Pressed { exists: bool },
    Read(Result<Seq<u8>, Seq<char>>),
    Written(Result<(), Seq<char>>),
}

/// An `Action` with its bytes and texts as sequences.
pub enum Step {
    Report { line: Seq<char> },
    Read,
    Write { path: Seq<char>, bytes: Seq<u8> },
    Abort { line: Seq<char> },
    Rest,
}

impl View for Event {
    type V = Happening;

    open spec fn view(&self) -> Happening {
        match self {
            Event::Pressed { exists } => Happening::Pressed { exists: *exists },
            Event::Read(Ok(bytes)) => Happening::Read(Ok(bytes@)),
            Event::Read(Err(cause)) => Happening::Read(Err(cause@)),
            Event::Written(Ok(_)) => Happening::Written(Ok(())),
            Event::Written(Err(cause)) => Happening::Written(Err(cause@)),
        }
    }
}

impl View for Action {
    type V = Step;

    open spec fn view(&self) -> Step {
        match self {
            Action::Report { line } => Step::Report { line: line@ },
            Action::Read => Step::Read,
            Action::Write { conversion } => Step::Write {
                path: conversion.path@,
                bytes: conversion.bytes@,
            },
            Action::Abort { line } => Step::Abort { line: line@ },
            Action::Rest => Step::Rest,
        }
    }
}

/// The step that a failure calls for. A source that is no image ends more than
/// the attempt; any other failure is reported.
pub open spec fn failed(fault: Fault, target: ImageExt) -> Step {
    if fault.fatal() {
        Step::Abort { line: fault.notice(target) }
    } else {
        Step::Report { line: fault.notice(target) }
    }
}

/// The answer to a press of the button: the report that the verdict on the
/// file calls for, or the request to read the file.
pub open spec fn answer(path: Seq<char>, target: ImageExt, exists: bool) -> Step {
    match verdict_notice(verdict(path, target, exists), target) {
        Some(line) => Step::Report { line },
        None => Step::Read,
    }
}

/// What follows an event, for a form with the given path and target.
///
/// A press of the button is answered by the verdict on the file. The bytes
/// that were read are converted, and the converted file is to be written
/// beside the source; bytes of a file that is not to be converted are
/// answered like the press itself. A file that was written ends the attempt in
/// silence; one that could not be written is reported like one that could not
/// be encoded.
pub open spec fn reaction(path: Seq<char>, target: ImageExt, event: Happening) -> Step {
    match event {
        Happening::Pressed { exists } => answer(path, target, exists),
        Happening::Read(Err(cause)) => failed(Fault::Decode { cause }, target),
        Happening::Read(Ok(bytes)) => if verdict(path, target, true) == Verdict::Convert {
            match converted(path, target, bytes) {
                Ok((path, bytes)) => Step::Write { path, bytes },
                Err(fault) => failed(fault, target),
            }
        } else {
            answer(path, target, true)
        },
        Happening::Written(Ok(_)) => Step::Rest,
        Happening::Written(Err(cause)) => failed(Fault::Output { cause }, target),
    }
}

/// Whether the event is one that the library can answer: where it brings the
/// bytes of a file that is to be converted, the decoder for the file's
/// extension comes back from them.
pub open spec fn answerable(path: Seq<char>, target: ImageExt, event: Happening) -> bool {
    match event {
        Happening::Read(Ok(bytes)) => verdict(path, target, true) == Verdict::Convert
            ==> decoder_returns(bytes, extension_of(path)),
        _ => true,
    }
}

/// The action that a failure calls for.
fn fail(failure: Failure, target: ImageExt) -> (action: Action)
    ensures
        action@ == failed(failure@, target),
{
    let line = failure.notice(target);
    if failure.is_fatal() {
        Action::Abort { line }
    } else {
        Action::Report { line }
    }
}

impl Converter {
    /// The action that answers a press of the button.
    fn answer(&self, exists: bool) -> (action: Action)
        ensures
            action@ == answer(self.file_path@, self.ext, exists),
    {
        match self.notice(self.check(exists)) {
            Some(line) => Action::Report { line },
            None => Action::Read,
        }
    }

    /// Says what is to be done next, after `event`. Whatever the event is,
    /// nothing is to be written over the file of the form. Bytes that are to
    /// be converted are such that their decoder comes back from them.
    pub fn react(&self, event: Event) -> (action: Action)
        requires
            answerable(self.file_path@, self.ext, event@),
        ensures
            action@ == reaction(self.file_path@, self.ext, event@),
            (action matches Action::Write { conversion } ==> conversion.path@
                != self.file_path@),
    {
        match event {
            Event::Pressed { exists } => self.answer(exists),
            Event::Read(Err(cause)) => fail(Failure::Decode { cause }, self.ext),
            Event::Read(Ok(bytes)) => {
                if self.check(true) == Verdict::Convert {
                    match self.convert(bytes.as_slice()) {
                        Ok(conversion) => Action::Write { conversion },
                        Err(failure) => fail(failure, self.ext),
                    }
                } else {
                    self.answer(true)
                }
            },
            Event::Written(Ok(_)) => Action::Rest,
            Event::Written(Err(cause)) => fail(Failure::Output { cause }, self.ext),
        }
    }
}

/// Without a file at the path, a press of the button gives the report that the
/// file does not exist, whatever the path and the target are. Nothing is read
/// and nothing is written.
pub proof fn lemma_missing_file_is_reported(path: Seq<char>, target: ImageExt)
    ensures
        reaction(path, target, Happening::Pressed { exists: false }) == (Step::Report {
            line: "File does not exist"@,
        }),
{
}

/// A file that goes by an extension of the target format is reported as being
/// in that format already. Nothing is read and nothing is written.
pub proof fn lemma_file_in_format_is_reported(path: Seq<char>, target: ImageExt)
    requires
        target.covers(extension_of(path)),
    ensures
        reaction(path, target, Happening::Pressed { exists: true }) == (Step::Report {
            line: "Already a "@ + target.label() + " file!"@,
        }),
{
}

/// A source that its decoder refuses is given up. Nothing is written, not
/// even in part.
pub proof fn lemma_undecodable_source_is_given_up(
    path: Seq<char>,
    target: ImageExt,
    bytes: Seq<u8>,
    format: image::ImageFormat,
)
    requires
        format_of(extension_of(path)) == Some(format),
        decoding(bytes, format) is Err,
    ensures
        !(reaction(path, target, Happening::Read(Ok(bytes))) is Write),
        verdict(path, target, true) == Verdict::Convert ==> reaction(
            path,
            target,
            Happening::Read(Ok(bytes)),
        ) is Abort,
{
}

/// Only a file that was read and converted is followed by a write, and what
/// is written then is the converted file, beside the source.
pub proof fn lemma_only_a_converted_file_is_written(
    path: Seq<char>,
    target: ImageExt,
    event: Happening,
)
    requires
        reaction(path, target, event) is Write,
    ensures
        event matches Happening::Read(Ok(bytes)) && transcoded(bytes, extension_of(path), target)
            == Ok::<Seq<u8>, Fault>(reaction(path, target, event)->bytes),
        reaction(path, target, event)->path == renamed(path, target.suffix()),
{
}

} // verus!
