//! Verified core of a safe liblzma wrapper and of a small gzip command-line tool.
//!
//! The crate keeps the decisions of the wrapper (error codes, decoder flags,
//! encoder presets and filter chains, XZ stream header and footer decoding,
//! the bookkeeping that follows each coding step) and the rules of the gzip
//! tools (argument parsing, output naming, clean-up) as verified functions.

pub mod bytes;
pub mod coder;
pub mod decoder;
pub mod encoder;
pub mod error;
pub mod gzip;
pub mod ioerr;
pub mod raw;
pub mod stream;
pub mod text;

pub use error::{Error, Result};

use vstd::prelude::*;

verus! {

/// High-level equivalent of `lzma_action` used by encoders and decoders.
#[derive(Debug, Clone, Copy, PartialEq, Eq, Structural)]
pub enum Action {
    /// Continue processing input data (`LZMA_RUN`).
    Run,
    /// Finalise the stream; no more input will be provided (`LZMA_FINISH`).
    Finish,
    /// Flush pending data while keeping the stream open (`LZMA_SYNC_FLUSH`).
    SyncFlush,
    /// Finish the current block and create a recovery point (`LZMA_FULL_FLUSH`).
    FullFlush,
    /// Finish the current block and insert an MT decoding barrier (`LZMA_FULL_BARRIER`).
    FullBarrier,
}

/// `lzma_action` value of `LZMA_RUN`.
pub const LZMA_RUN: u32 = 0;
/// `lzma_action` value of `LZMA_SYNC_FLUSH`.
pub const LZMA_SYNC_FLUSH: u32 = 1;
/// `lzma_action` value of `LZMA_FULL_FLUSH`.
pub const LZMA_FULL_FLUSH: u32 = 2;
/// `lzma_action` value of `LZMA_FINISH`.
pub const LZMA_FINISH: u32 = 3;
/// `lzma_action` value of `LZMA_FULL_BARRIER`.
pub const LZMA_FULL_BARRIER: u32 = 4;

/// The `lzma_action` number that liblzma expects for each action.
pub open spec fn spec_action_code(action: Action) -> u32 {
    match action {
        Action::Run => LZMA_RUN,
        Action::Finish => LZMA_FINISH,
        Action::SyncFlush => LZMA_SYNC_FLUSH,
        Action::FullFlush => LZMA_FULL_FLUSH,
        Action::FullBarrier => LZMA_FULL_BARRIER,
    }
}

impl Action {
    /// Convert to the raw `lzma_action` value.
    pub fn to_raw(self) -> (code: u32)
        ensures
            code == spec_action_code(self),
    {
        match self {
            Action::Run => LZMA_RUN,
            Action::Finish => LZMA_FINISH,
            Action::SyncFlush => LZMA_SYNC_FLUSH,
            Action::FullFlush => LZMA_FULL_FLUSH,
            Action::FullBarrier => LZMA_FULL_BARRIER,
        }
    }
}

/// Distinct actions are passed to liblzma as distinct numbers.
pub proof fn lemma_action_code_injective(a: Action, b: Action)
    ensures
        spec_action_code(a) == spec_action_code(b) ==> a == b,
{
}

} // verus!
