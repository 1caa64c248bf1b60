//! The rules of a small image converter: which file a request is about, whether
//! there is anything to do, what the converted file is called and what it holds.
//!
//! The library touches no file and draws no window. A caller tells it what it
//! found on disk and performs what the library answers.

pub mod attempt;
pub mod codec;
pub mod converter;
pub mod failure;
pub mod format;
pub mod icon;
pub mod outcome;
pub mod path;
pub mod text;
