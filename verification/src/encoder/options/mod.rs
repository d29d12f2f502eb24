//! Encoder configuration helpers.

pub mod check;
pub mod filter;
pub mod present;

pub use check::IntegrityCheck;
pub use filter::{
    BcjOptions, CompressionMode, DeltaOptions, FilterConfig, FilterOptions, FilterType,
    LzmaOptions, OwnedFilterOptions, RawFilter, RawFilters,
};
pub use present::Compression;
pub mod lzma1;

pub use lzma1::Lzma1Options;

use crate::raw::{spec_zeroed_mt, zeroed_mt, MtOptions};
use check::spec_check_id;
use filter::{prepare_filters, spec_is_chain_for};
use present::spec_preset;
use vstd::prelude::*;

verus! {

/// Options forwarded to `lzma_stream_encoder_mt`.
#[derive(Debug, Clone)]
pub struct Options {
    /// Compression preset; ignored when `filters` is non-empty.
    pub level: Compression,
    /// Integrity check to embed in the output stream.
    pub check: IntegrityCheck,
    /// Number of worker threads (0/1 means single-threaded).
    pub threads: u32,
    /// Maximum size of a block in bytes; `0` uses liblzma defaults.
    pub block_size: u64,
    /// Timeout in milliseconds; `0` disables timeouts.
    pub timeout: u32,
    /// Optional filter chain; when present the preset is ignored.
    pub filters: Vec<FilterConfig>,
}

impl Default for Options {
    fn default() -> (o: Options)
        ensures
            o.level == Compression::Level6,
            o.check == IntegrityCheck::Crc32,
            o.threads == 0,
            o.block_size == 0,
            o.timeout == 0,
            o.filters@.len() == 0,
    {
        Options {
            level: Compression::Level6,
            check: IntegrityCheck::Crc32,
            threads: 0,
            block_size: 0,
            timeout: 0,
            filters: Vec::new(),
        }
    }
}

/// The `lzma_mt` structure that an encoder configuration is passed to liblzma as.
pub open spec fn spec_encoder_mt(o: Options) -> MtOptions {
    MtOptions {
        threads: o.threads,
        block_size: o.block_size,
        timeout: o.timeout,
        preset: spec_preset(o.level),
        check: spec_check_id(o.check),
        has_filters: o.filters@.len() > 0,
        ..spec_zeroed_mt()
    }
}

impl Options {
    /// Set the compression preset.
    pub fn with_level(self, level: Compression) -> (o: Options)
        ensures
            o.level == level,
            o.check == self.check,
            o.threads == self.threads,
            o.block_size == self.block_size,
            o.timeout == self.timeout,
            o.filters@ == self.filters@,
    {
        let mut o = self;
        o.level = level;
        o
    }

    /// Set the integrity check.
    pub fn with_check(self, check: IntegrityCheck) -> (o: Options)
        ensures
            o.level == self.level,
            o.check == check,
            o.threads == self.threads,
            o.block_size == self.block_size,
            o.timeout == self.timeout,
            o.filters@ == self.filters@,
    {
        let mut o = self;
        o.check = check;
        o
    }

    /// Set the number of worker threads.
    pub fn with_threads(self, threads: u32) -> (o: Options)
        ensures
            o.level == self.level,
            o.check == self.check,
            o.threads == threads,
            o.block_size == self.block_size,
            o.timeout == self.timeout,
            o.filters@ == self.filters@,
    {
        let mut o = self;
        o.threads = threads;
        o
    }

    /// Set the block size in bytes.
    pub fn with_block_size(self, block_size: u64) -> (o: Options)
        ensures
            o.level == self.level,
            o.check == self.check,
            o.threads == self.threads,
            o.block_size == block_size,
            o.timeout == self.timeout,
            o.filters@ == self.filters@,
    {
        let mut o = self;
        o.block_size = block_size;
        o
    }

    /// Set the timeout in milliseconds.
    pub fn with_timeout(self, timeout: u32) -> (o: Options)
        ensures
            o.level == self.level,
            o.check == self.check,
            o.threads == self.threads,
            o.block_size == self.block_size,
            o.timeout == timeout,
            o.filters@ == self.filters@,
    {
        let mut o = self;
        o.timeout = timeout;
        o
    }

    /// Replace the filter chain.
    pub fn with_filters(self, filters: Vec<FilterConfig>) -> (o: Options)
        ensures
            o.level == self.level,
            o.check == self.check,
            o.threads == self.threads,
            o.block_size == self.block_size,
            o.timeout == self.timeout,
            o.filters@ == filters@,
    {
        let mut o = self;
        o.filters = filters;
        o
    }

    /// Append a filter to the existing chain.
    pub fn with_filter(self, filter: FilterConfig) -> (o: Options)
        ensures
            o.level == self.level,
            o.check == self.check,
            o.threads == self.threads,
            o.block_size == self.block_size,
            o.timeout == self.timeout,
            o.filters@ == self.filters@.push(filter),
    {
        let mut o = self;
        o.filters.push(filter);
        o
    }

    /// Convert to the raw `lzma_mt` structure and the filter chain it refers to, if any.
    ///
    /// A chain is prepared exactly when filters are configured.
    pub fn to_lzma_options(&self) -> (r: (MtOptions, Option<RawFilters>))
        requires
            self.filters@.len() < usize::MAX,
        ensures
            r.0 == spec_encoder_mt(*self),
            r.1 is Some <==> self.filters@.len() > 0,
            r.1 matches Some(raw) ==> spec_is_chain_for(raw, self.filters@),
    {
        let mut options = zeroed_mt();
        options.threads = self.threads;
        options.block_size = self.block_size;
        options.timeout = self.timeout;
        options.preset = self.level.to_preset();
        options.check = self.check.to_raw();
        let prepared = if self.filters.len() == 0 {
            None
        } else {
            let prepared = prepare_filters(self.filters.as_slice());
            options.has_filters = true;
            Some(prepared)
        };
        (options, prepared)
    }
}

} // verus!
