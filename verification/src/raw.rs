//! Plain-value models of the liblzma structures that the wrapper fills in.
//!
//! liblzma takes its configuration as C structures; this module holds the
//! same fields as plain Rust values so that the code that fills them can be
//! verified. Pointer fields are represented by what they point to.

use vstd::prelude::*;

verus! {

/// `lzma_mode` value `LZMA_MODE_FAST`.
pub const LZMA_MODE_FAST: u32 = 1;
/// `lzma_mode` value `LZMA_MODE_NORMAL`.
pub const LZMA_MODE_NORMAL: u32 = 2;

/// `lzma_match_finder` value `LZMA_MF_HC3`.
pub const LZMA_MF_HC3: u32 = 0x03;
/// `lzma_match_finder` value `LZMA_MF_HC4`.
pub const LZMA_MF_HC4: u32 = 0x04;
/// `lzma_match_finder` value `LZMA_MF_BT2`.
pub const LZMA_MF_BT2: u32 = 0x12;
/// `lzma_match_finder` value `LZMA_MF_BT3`.
pub const LZMA_MF_BT3: u32 = 0x13;
/// `lzma_match_finder` value `LZMA_MF_BT4`.
pub const LZMA_MF_BT4: u32 = 0x14;

/// `lzma_check` value `LZMA_CHECK_NONE`.
pub const LZMA_CHECK_NONE: u32 = 0;
/// `lzma_check` value `LZMA_CHECK_CRC32`.
pub const LZMA_CHECK_CRC32: u32 = 1;
/// `lzma_check` value `LZMA_CHECK_CRC64`.
pub const LZMA_CHECK_CRC64: u32 = 4;
/// `lzma_check` value `LZMA_CHECK_SHA256`.
pub const LZMA_CHECK_SHA256: u32 = 10;

/// `lzma_reserved_enum` value `LZMA_RESERVED_ENUM`.
pub const LZMA_RESERVED_ENUM: u32 = 0;

/// `lzma_delta_type` value `LZMA_DELTA_TYPE_BYTE`.
pub const LZMA_DELTA_TYPE_BYTE: u32 = 0;

/// The `lzma_mt` structure passed to the multi-threaded encoder and decoder.
///
/// `has_filters` stands for the `filters` pointer: it is set exactly when a
/// filter chain is attached.
#[derive(Debug, Clone, Copy, PartialEq, Eq, Structural)]
pub struct MtOptions {
    pub flags: u32,
    pub threads: u32,
    pub block_size: u64,
    pub timeout: u32,
    pub preset: u32,
    pub has_filters: bool,
    pub check: u32,
    pub reserved_enum1: u32,
    pub reserved_enum2: u32,
    pub reserved_enum3: u32,
    pub reserved_int1: u32,
    pub reserved_int2: u32,
    pub reserved_int3: u32,
    pub reserved_int4: u32,
    pub memlimit_threading: u64,
    pub memlimit_stop: u64,
    pub reserved_int7: u64,
    pub reserved_int8: u64,
}

/// An `lzma_mt` with every field zero, as the wrapper starts from.
pub open spec fn spec_zeroed_mt() -> MtOptions {
    MtOptions {
        flags: 0,
        threads: 0,
        block_size: 0,
        timeout: 0,
        preset: 0,
        has_filters: false,
        check: 0,
        reserved_enum1: 0,
        reserved_enum2: 0,
        reserved_enum3: 0,
        reserved_int1: 0,
        reserved_int2: 0,
        reserved_int3: 0,
        reserved_int4: 0,
        memlimit_threading: 0,
        memlimit_stop: 0,
        reserved_int7: 0,
        reserved_int8: 0,
    }
}

/// Build an `lzma_mt` with every field zero.
pub fn zeroed_mt() -> (mt: MtOptions)
    ensures
        mt == spec_zeroed_mt(),
{
    MtOptions {
        flags: 0,
        threads: 0,
        block_size: 0,
        timeout: 0,
        preset: 0,
        has_filters: false,
        check: 0,
        reserved_enum1: 0,
        reserved_enum2: 0,
        reserved_enum3: 0,
        reserved_int1: 0,
        reserved_int2: 0,
        reserved_int3: 0,
        reserved_int4: 0,
        memlimit_threading: 0,
        memlimit_stop: 0,
        reserved_int7: 0,
        reserved_int8: 0,
    }
}

/// The `lzma_options_lzma` structure.
///
/// `has_preset_dict` stands for the `preset_dict` pointer: it is set exactly
/// when a preset dictionary is attached (its bytes are owned next to the structure).
#[derive(Debug, Clone, Copy, PartialEq, Eq, Structural)]
pub struct RawLzmaOptions {
    pub dict_size: u32,
    pub has_preset_dict: bool,
    pub preset_dict_size: u32,
    pub lc: u32,
    pub lp: u32,
    pub pb: u32,
    pub mode: u32,
    pub nice_len: u32,
    pub mf: u32,
    pub depth: u32,
    pub ext_flags: u32,
    pub ext_size_low: u32,
    pub ext_size_high: u32,
}

/// The `lzma_options_bcj` structure.
#[derive(Debug, Clone, Copy, PartialEq, Eq, Structural)]
pub struct RawBcjOptions {
    pub start_offset: u32,
}

/// The `lzma_options_delta` structure.
#[derive(Debug, Clone, Copy, PartialEq, Eq, Structural)]
pub struct RawDeltaOptions {
    pub type_: u32,
    pub dist: u32,
}

} // verus!
