//! Integrity check algorithms supported by liblzma.

use crate::error::Error;
use crate::raw::{LZMA_CHECK_CRC32, LZMA_CHECK_CRC64, LZMA_CHECK_NONE, LZMA_CHECK_SHA256};
use vstd::prelude::*;

verus! {

/// Enum mirroring `lzma_check` values.
#[derive(Debug, Clone, Copy, PartialEq, Eq, Structural)]
pub enum IntegrityCheck {
    /// Do not embed a check value.
    NoCheck,
    /// CRC32 checksum.
    Crc32,
    /// CRC64 checksum.
    Crc64,
    /// SHA-256 hash.
    Sha256,
}

/// Size in bytes of a stored check value of each kind.
pub open spec fn spec_check_size(c: IntegrityCheck) -> usize {
    match c {
        IntegrityCheck::NoCheck => 0,
        IntegrityCheck::Crc32 => 4,
        IntegrityCheck::Crc64 => 8,
        IntegrityCheck::Sha256 => 32,
    }
}

/// The `lzma_check` identifier of each kind.
pub open spec fn spec_check_id(c: IntegrityCheck) -> u32 {
    match c {
        IntegrityCheck::NoCheck => LZMA_CHECK_NONE,
        IntegrityCheck::Crc32 => LZMA_CHECK_CRC32,
        IntegrityCheck::Crc64 => LZMA_CHECK_CRC64,
        IntegrityCheck::Sha256 => LZMA_CHECK_SHA256,
    }
}

/// The kind that an `lzma_check` identifier names, if this wrapper knows it.
pub open spec fn spec_check_of_id(id: u32) -> Option<IntegrityCheck> {
    if id == LZMA_CHECK_NONE {
        Some(IntegrityCheck::NoCheck)
    } else if id == LZMA_CHECK_CRC32 {
        Some(IntegrityCheck::Crc32)
    } else if id == LZMA_CHECK_CRC64 {
        Some(IntegrityCheck::Crc64)
    } else if id == LZMA_CHECK_SHA256 {
        Some(IntegrityCheck::Sha256)
    } else {
        None
    }
}

impl IntegrityCheck {
    /// Return the number of bytes required to store the check value.
    pub fn size(&self) -> (n: usize)
        ensures
            n == spec_check_size(*self),
    {
        match self {
            IntegrityCheck::NoCheck => 0,
            IntegrityCheck::Crc32 => 4,
            IntegrityCheck::Crc64 => 8,
            IntegrityCheck::Sha256 => 32,
        }
    }

    /// The `lzma_check` identifier of this kind.
    pub fn to_raw(self) -> (id: u32)
        ensures
            id == spec_check_id(self),
    {
        match self {
            IntegrityCheck::NoCheck => LZMA_CHECK_NONE,
            IntegrityCheck::Crc32 => LZMA_CHECK_CRC32,
            IntegrityCheck::Crc64 => LZMA_CHECK_CRC64,
            IntegrityCheck::Sha256 => LZMA_CHECK_SHA256,
        }
    }

    /// Convert a raw `lzma_check` identifier into a kind.
    ///
    /// Identifiers that this wrapper does not know give [`Error::UnsupportedCheck`].
    pub fn try_from(check: u32) -> (r: Result<IntegrityCheck, Error>)
        ensures
            r == (match spec_check_of_id(check) {
                Some(c) => Ok(c),
                None => Err(Error::UnsupportedCheck),
            }),
    {
        if check == LZMA_CHECK_NONE {
            Ok(IntegrityCheck::NoCheck)
        } else if check == LZMA_CHECK_CRC32 {
            Ok(IntegrityCheck::Crc32)
        } else if check == LZMA_CHECK_CRC64 {
            Ok(IntegrityCheck::Crc64)
        } else if check == LZMA_CHECK_SHA256 {
            Ok(IntegrityCheck::Sha256)
        } else {
            Err(Error::UnsupportedCheck)
        }
    }
}

impl From<IntegrityCheck> for u32 {
    fn from(check: IntegrityCheck) -> (id: u32) {
        check.to_raw()
    }
}

impl vstd::std_specs::convert::FromSpecImpl<IntegrityCheck> for u32 {
    open spec fn obeys_from_spec() -> bool {
        true
    }

    open spec fn from_spec(check: IntegrityCheck) -> u32 {
        spec_check_id(check)
    }
}

/// Converting a kind to its identifier and back gives the kind again.
pub proof fn lemma_check_id_roundtrip(c: IntegrityCheck)
    ensures
        spec_check_of_id(spec_check_id(c)) == Some(c),
{
}

/// An identifier that names a kind is that kind's identifier.
pub proof fn lemma_check_of_id_inverse(id: u32)
    ensures
        spec_check_of_id(id) matches Some(c) ==> spec_check_id(c) == id,
{
}

} // verus!
