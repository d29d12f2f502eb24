//! Errors of the gzip tools.

use crate::text::concat;
use vstd::prelude::*;

verus! {

/// Errors of the gzip tools.
#[derive(Debug)]
pub enum Error {
    /// The input lacks the `.gz` extension needed to name the output.
    InvalidExtension { path: String },
    /// No output file name can be derived from the input path.
    InvalidOutputFilename { path: String },
    /// The input could not be opened.
    OpenInput { path: String, source: std::io::Error },
    /// The output exists and overwriting was not requested.
    OutputExists { path: String },
    /// The output could not be created.
    CreateOutput { path: String, source: std::io::Error },
    /// Compression failed.
    Compression { path: String, message: String },
    /// Decompression failed.
    Decompression { path: String, message: String },
    /// The input could not be removed after processing.
    RemoveFile { path: String, source: std::io::Error },
}

/// The message of each error that carries no I/O error.
pub open spec fn spec_plain_message(e: Error) -> Option<Seq<char>> {
    match e {
        Error::InvalidExtension { path } => Some(path@ + ": unknown suffix -- ignored"@),
        Error::InvalidOutputFilename { path } => Some(
            path@ + ": cannot derive an output file name"@,
        ),
        Error::OutputExists { path } => Some(path@ + " already exists"@),
        Error::Compression { path, message } => Some(
            "compression failed for "@ + path@ + ": "@ + message@,
        ),
        Error::Decompression { path, message } => Some(
            "decompression failed for "@ + path@ + ": "@ + message@,
        ),
        _ => None,
    }
}

/// The start of the message of each error that carries an I/O error; the
/// text of the I/O error follows it.
pub open spec fn spec_io_message_prefix(e: Error) -> Option<Seq<char>> {
    match e {
        Error::OpenInput { path, .. } => Some("cannot open "@ + path@ + ": "@),
        Error::CreateOutput { path, .. } => Some("cannot create "@ + path@ + ": "@),
        Error::RemoveFile { path, .. } => Some("cannot remove "@ + path@ + ": "@),
        _ => None,
    }
}

/// Whether `text` is what the `Display` implementation of an I/O error writes.
pub open spec fn spec_is_io_text(source: &std::io::Error, text: Seq<char>) -> bool {
    exists|t: String|
        #[trigger] vstd::string::to_string_from_display_ensures::<std::io::Error>(source, t)
            && t@ == text
}

/// The I/O error that an error carries, if any.
pub open spec fn spec_io_source(e: Error) -> Option<std::io::Error> {
    match e {
        Error::OpenInput { source, .. } => Some(source),
        Error::CreateOutput { source, .. } => Some(source),
        Error::RemoveFile { source, .. } => Some(source),
        _ => None,
    }
}

fn with_io_text(prefix: String, source: &std::io::Error) -> (s: String)
    ensures
        s@.len() >= prefix@.len(),
        s@.subrange(0, prefix@.len() as int) == prefix@,
        spec_is_io_text(source, s@.subrange(prefix@.len() as int, s@.len() as int)),
{
    let text = source.to_string();
    let s = concat(prefix.as_str(), text.as_str());
    assert(s@.subrange(0, prefix@.len() as int) =~= prefix@);
    assert(s@.subrange(prefix@.len() as int, s@.len() as int) =~= text@);
    s
}

impl Error {
    /// A human-readable description of the error.
    pub fn message(&self) -> (s: String)
        ensures
            spec_plain_message(*self) matches Some(m) ==> s@ == m,
            spec_io_message_prefix(*self) matches Some(p) ==> s@.len() >= p.len()
                && s@.subrange(0, p.len() as int) == p && spec_is_io_text(
                &spec_io_source(*self).unwrap(),
                s@.subrange(p.len() as int, s@.len() as int),
            ),
    {
        match self {
            Error::InvalidExtension { path } => concat(path.as_str(), ": unknown suffix -- ignored"),
            Error::InvalidOutputFilename { path } => concat(
                path.as_str(),
                ": cannot derive an output file name",
            ),
            Error::OutputExists { path } => concat(path.as_str(), " already exists"),
            Error::Compression { path, message } => {
                let a = concat("compression failed for ", path.as_str());
                let b = concat(a.as_str(), ": ");
                concat(b.as_str(), message.as_str())
            },
            Error::Decompression { path, message } => {
                let a = concat("decompression failed for ", path.as_str());
                let b = concat(a.as_str(), ": ");
                concat(b.as_str(), message.as_str())
            },
            Error::OpenInput { path, source } => {
                let a = concat("cannot open ", path.as_str());
                let b = concat(a.as_str(), ": ");
                with_io_text(b, source)
            },
            Error::CreateOutput { path, source } => {
                let a = concat("cannot create ", path.as_str());
                let b = concat(a.as_str(), ": ");
                with_io_text(b, source)
            },
            Error::RemoveFile { path, source } => {
                let a = concat("cannot remove ", path.as_str());
                let b = concat(a.as_str(), ": ");
                with_io_text(b, source)
            },
        }
    }
}

} // verus!
