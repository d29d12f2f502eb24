//! Error values used by the wrapper and their liblzma status codes.

use crate::text::{decimal, spec_decimal};
use vstd::prelude::*;

verus! {

/// `lzma_ret` value `LZMA_OK`.
pub const LZMA_OK: u32 = 0;
/// `lzma_ret` value `LZMA_STREAM_END`.
pub const LZMA_STREAM_END: u32 = 1;
/// `lzma_ret` value `LZMA_NO_CHECK`.
pub const LZMA_NO_CHECK: u32 = 2;
/// `lzma_ret` value `LZMA_UNSUPPORTED_CHECK`.
pub const LZMA_UNSUPPORTED_CHECK: u32 = 3;
/// `lzma_ret` value `LZMA_GET_CHECK`.
pub const LZMA_GET_CHECK: u32 = 4;
/// `lzma_ret` value `LZMA_MEM_ERROR`.
pub const LZMA_MEM_ERROR: u32 = 5;
/// `lzma_ret` value `LZMA_MEMLIMIT_ERROR`.
pub const LZMA_MEMLIMIT_ERROR: u32 = 6;
/// `lzma_ret` value `LZMA_FORMAT_ERROR`.
pub const LZMA_FORMAT_ERROR: u32 = 7;
/// `lzma_ret` value `LZMA_OPTIONS_ERROR`.
pub const LZMA_OPTIONS_ERROR: u32 = 8;
/// `lzma_ret` value `LZMA_DATA_ERROR`.
pub const LZMA_DATA_ERROR: u32 = 9;
/// `lzma_ret` value `LZMA_BUF_ERROR`.
pub const LZMA_BUF_ERROR: u32 = 10;
/// `lzma_ret` value `LZMA_PROG_ERROR`.
pub const LZMA_PROG_ERROR: u32 = 11;
/// `lzma_ret` value `LZMA_SEEK_NEEDED`.
pub const LZMA_SEEK_NEEDED: u32 = 12;

/// Error values returned by encoder/decoder operations.
#[derive(Debug, Clone, Copy, PartialEq, Eq, Structural)]
pub enum Error {
    /// Stream reached `LZMA_STREAM_END`; treated as success by callers.
    StreamEnd,
    /// Memory allocation failed (`LZMA_MEM_ERROR`).
    MemError,
    /// Configured memory limit was exceeded (`LZMA_MEMLIMIT_ERROR`).
    MemLimitError,
    /// Input bytes are not recognised (`LZMA_FORMAT_ERROR`).
    FormatError,
    /// Invalid encoder/decoder options (`LZMA_OPTIONS_ERROR`).
    OptionsError,
    /// Corrupted input (`LZMA_DATA_ERROR`).
    DataError,
    /// Not enough output space to make progress (`LZMA_BUF_ERROR`).
    BufError,
    /// Misuse of the liblzma API (`LZMA_PROG_ERROR`).
    ProgError,
    /// Integrity check type is not supported (`LZMA_UNSUPPORTED_CHECK`).
    UnsupportedCheck,
    /// Fallback for error codes not known to this wrapper.
    Unknown(u32),
}

/// Type alias for `Result<T, Error>`.
pub type Result<T> = core::result::Result<T, Error>;

/// The error that a non-`LZMA_OK` status code stands for.
pub open spec fn spec_error_of_code(code: u32) -> Error {
    if code == LZMA_STREAM_END {
        Error::StreamEnd
    } else if code == LZMA_MEM_ERROR {
        Error::MemError
    } else if code == LZMA_MEMLIMIT_ERROR {
        Error::MemLimitError
    } else if code == LZMA_FORMAT_ERROR {
        Error::FormatError
    } else if code == LZMA_OPTIONS_ERROR {
        Error::OptionsError
    } else if code == LZMA_DATA_ERROR {
        Error::DataError
    } else if code == LZMA_BUF_ERROR {
        Error::BufError
    } else if code == LZMA_PROG_ERROR {
        Error::ProgError
    } else if code == LZMA_UNSUPPORTED_CHECK {
        Error::UnsupportedCheck
    } else {
        Error::Unknown(code)
    }
}

/// The status code that an error stands for.
pub open spec fn spec_code_of_error(e: Error) -> u32 {
    match e {
        Error::StreamEnd => LZMA_STREAM_END,
        Error::MemError => LZMA_MEM_ERROR,
        Error::MemLimitError => LZMA_MEMLIMIT_ERROR,
        Error::FormatError => LZMA_FORMAT_ERROR,
        Error::OptionsError => LZMA_OPTIONS_ERROR,
        Error::DataError => LZMA_DATA_ERROR,
        Error::BufError => LZMA_BUF_ERROR,
        Error::ProgError => LZMA_PROG_ERROR,
        Error::UnsupportedCheck => LZMA_UNSUPPORTED_CHECK,
        Error::Unknown(code) => code,
    }
}

/// An error value that conversion from a status code can produce: an `Unknown`
/// value never carries `LZMA_OK` or a code that has a variant of its own.
pub open spec fn spec_is_canonical(e: Error) -> bool {
    match e {
        Error::Unknown(code) => code != LZMA_OK && spec_error_of_code(code) == Error::Unknown(code),
        _ => true,
    }
}

/// What `result_from_lzma_ret` gives for a status code and a success value.
pub open spec fn spec_result_of_code<T>(code: u32, value: T) -> Result<T> {
    if code == LZMA_OK {
        Ok(value)
    } else {
        Err(spec_error_of_code(code))
    }
}

impl Error {
    /// Convert a raw `lzma_ret` status code into an error value.
    ///
    /// `LZMA_OK` is success and has no error value.
    pub fn from(ret: u32) -> (e: Error)
        requires
            ret != LZMA_OK,
        ensures
            e == spec_error_of_code(ret),
    {
        if ret == LZMA_STREAM_END {
            Error::StreamEnd
        } else if ret == LZMA_MEM_ERROR {
            Error::MemError
        } else if ret == LZMA_MEMLIMIT_ERROR {
            Error::MemLimitError
        } else if ret == LZMA_FORMAT_ERROR {
            Error::FormatError
        } else if ret == LZMA_OPTIONS_ERROR {
            Error::OptionsError
        } else if ret == LZMA_DATA_ERROR {
            Error::DataError
        } else if ret == LZMA_BUF_ERROR {
            Error::BufError
        } else if ret == LZMA_PROG_ERROR {
            Error::ProgError
        } else if ret == LZMA_UNSUPPORTED_CHECK {
            Error::UnsupportedCheck
        } else {
            Error::Unknown(ret)
        }
    }

    /// Return the raw `lzma_ret` code for the current variant.
    pub fn to_raw(self) -> (code: u32)
        ensures
            code == spec_code_of_error(self),
    {
        match self {
            Error::StreamEnd => LZMA_STREAM_END,
            Error::MemError => LZMA_MEM_ERROR,
            Error::MemLimitError => LZMA_MEMLIMIT_ERROR,
            Error::FormatError => LZMA_FORMAT_ERROR,
            Error::OptionsError => LZMA_OPTIONS_ERROR,
            Error::DataError => LZMA_DATA_ERROR,
            Error::BufError => LZMA_BUF_ERROR,
            Error::ProgError => LZMA_PROG_ERROR,
            Error::UnsupportedCheck => LZMA_UNSUPPORTED_CHECK,
            Error::Unknown(code) => code,
        }
    }
}

/// The message describing each error value.
pub open spec fn spec_error_message(e: Error) -> Seq<char> {
    match e {
        Error::StreamEnd => "End of stream reached"@,
        Error::MemError => "Memory allocation failed"@,
        Error::MemLimitError => "Memory usage limit was reached"@,
        Error::FormatError => "File format not recognized"@,
        Error::OptionsError => "Invalid or unsupported options"@,
        Error::DataError => "Data is corrupt"@,
        Error::BufError => "No progress is possible"@,
        Error::ProgError => "Programming error"@,
        Error::UnsupportedCheck => "Integrity check type is not supported"@,
        Error::Unknown(code) => "Unknown error code: "@ + spec_decimal(code as nat),
    }
}

impl Error {
    /// A human-readable description of the error.
    pub fn message(&self) -> (s: String)
        ensures
            s@ == spec_error_message(*self),
    {
        match self {
            Error::StreamEnd => String::from_str("End of stream reached"),
            Error::MemError => String::from_str("Memory allocation failed"),
            Error::MemLimitError => String::from_str("Memory usage limit was reached"),
            Error::FormatError => String::from_str("File format not recognized"),
            Error::OptionsError => String::from_str("Invalid or unsupported options"),
            Error::DataError => String::from_str("Data is corrupt"),
            Error::BufError => String::from_str("No progress is possible"),
            Error::ProgError => String::from_str("Programming error"),
            Error::UnsupportedCheck => String::from_str("Integrity check type is not supported"),
            Error::Unknown(code) => {
                let mut s = String::from_str("Unknown error code: ");
                let digits = decimal(*code as u64);
                s.append(digits.as_str());
                s
            },
        }
    }
}

/// Translate a `liblzma` status code into a `Result`.
pub fn result_from_lzma_ret<T>(ret: u32, value: T) -> (r: Result<T>)
    ensures
        r == spec_result_of_code(ret, value),
{
    if ret == LZMA_OK {
        Ok(value)
    } else {
        Err(Error::from(ret))
    }
}

/// Every status code other than `LZMA_OK` survives the trip to an error value and back.
pub proof fn lemma_code_roundtrip(code: u32)
    requires
        code != LZMA_OK,
    ensures
        spec_code_of_error(spec_error_of_code(code)) == code,
        spec_is_canonical(spec_error_of_code(code)),
{
}

/// Every error value that a status code can produce survives the trip to its code and back.
pub proof fn lemma_error_roundtrip(e: Error)
    requires
        spec_is_canonical(e),
    ensures
        spec_code_of_error(e) != LZMA_OK,
        spec_error_of_code(spec_code_of_error(e)) == e,
{
}

} // verus!
