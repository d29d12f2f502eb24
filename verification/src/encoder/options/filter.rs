//! Helper types describing filter chains passed to liblzma.

use crate::bytes::copy_bytes;
use crate::raw::{
    RawBcjOptions, RawDeltaOptions, RawLzmaOptions, LZMA_DELTA_TYPE_BYTE, LZMA_MF_BT2, LZMA_MF_BT3,
    LZMA_MF_BT4, LZMA_MF_HC3, LZMA_MF_HC4, LZMA_MODE_FAST, LZMA_MODE_NORMAL,
};
use crate::stream::index::LZMA_VLI_UNKNOWN;
use vstd::prelude::*;

verus! {

/// Single element of an encoder filter chain.
#[derive(Debug, Clone)]
pub struct FilterConfig {
    /// Which filter to apply.
    pub filter_type: FilterType,
    /// Optional filter-specific configuration.
    pub options: Option<FilterOptions>,
}

/// Filter-specific configuration payloads.
#[derive(Debug, Clone)]
pub enum FilterOptions {
    /// Options for LZMA1/LZMA2 filters.
    Lzma(LzmaOptions),
    /// Options for BCJ filters.
    Bcj(BcjOptions),
    /// Options for the delta filter.
    Delta(DeltaOptions),
}

/// Filter identifiers mirroring the constants in liblzma.
#[derive(Debug, Clone, Copy, PartialEq, Eq, Structural)]
pub enum FilterType {
    /// `LZMA_FILTER_LZMA1`.
    Lzma1,
    /// `LZMA_FILTER_LZMA1EXT`.
    Lzma1Ext,
    /// `LZMA_FILTER_LZMA2`.
    Lzma2,
    /// `LZMA_FILTER_X86`.
    X86,
    /// `LZMA_FILTER_POWERPC`.
    PowerPc,
    /// `LZMA_FILTER_IA64`.
    Ia64,
    /// `LZMA_FILTER_ARM`.
    Arm,
    /// `LZMA_FILTER_ARMTHUMB`.
    ArmThumb,
    /// `LZMA_FILTER_ARM64`.
    Arm64,
    /// `LZMA_FILTER_SPARC`.
    Sparc,
    /// `LZMA_FILTER_RISCV`.
    RiscV,
    /// `LZMA_FILTER_DELTA`.
    Delta,
}

/// The liblzma filter identifier of each filter.
pub open spec fn spec_filter_id(t: FilterType) -> u64 {
    match t {
        FilterType::Lzma1 => 0x4000_0000_0000_0001,
        FilterType::Lzma1Ext => 0x4000_0000_0000_0002,
        FilterType::Lzma2 => 0x21,
        FilterType::X86 => 0x04,
        FilterType::PowerPc => 0x05,
        FilterType::Ia64 => 0x06,
        FilterType::Arm => 0x07,
        FilterType::ArmThumb => 0x08,
        FilterType::Arm64 => 0x0A,
        FilterType::Sparc => 0x09,
        FilterType::RiscV => 0x0B,
        FilterType::Delta => 0x03,
    }
}

/// Whether a filter is one of the LZMA filters.
pub open spec fn spec_is_lzma_filter(t: FilterType) -> bool {
    t == FilterType::Lzma1 || t == FilterType::Lzma1Ext || t == FilterType::Lzma2
}

impl FilterType {
    /// Returns the numeric filter ID as expected by liblzma.
    pub fn to_lzma_id(self) -> (id: u64)
        ensures
            id == spec_filter_id(self),
    {
        match self {
            FilterType::Lzma1 => 0x4000_0000_0000_0001,
            FilterType::Lzma1Ext => 0x4000_0000_0000_0002,
            FilterType::Lzma2 => 0x21,
            FilterType::X86 => 0x04,
            FilterType::PowerPc => 0x05,
            FilterType::Ia64 => 0x06,
            FilterType::Arm => 0x07,
            FilterType::ArmThumb => 0x08,
            FilterType::Arm64 => 0x0A,
            FilterType::Sparc => 0x09,
            FilterType::RiscV => 0x0B,
            FilterType::Delta => 0x03,
        }
    }
}

/// Distinct filters have distinct identifiers.
pub proof fn lemma_filter_id_injective(a: FilterType, b: FilterType)
    ensures
        spec_filter_id(a) == spec_filter_id(b) ==> a == b,
{
}

/// Compression mode offered by liblzma.
#[derive(Debug, Clone, Copy, PartialEq, Eq, Structural)]
pub enum CompressionMode {
    /// Faster compression, lower ratio (`LZMA_MODE_FAST`).
    Fast,
    /// Better ratio, slower (`LZMA_MODE_NORMAL`).
    Normal,
}

/// The `lzma_mode` value of each mode.
pub open spec fn spec_compression_mode_code(m: CompressionMode) -> u32 {
    match m {
        CompressionMode::Fast => LZMA_MODE_FAST,
        CompressionMode::Normal => LZMA_MODE_NORMAL,
    }
}

impl CompressionMode {
    /// The `lzma_mode` value of this mode.
    pub fn to_raw(self) -> (code: u32)
        ensures
            code == spec_compression_mode_code(self),
    {
        match self {
            CompressionMode::Fast => LZMA_MODE_FAST,
            CompressionMode::Normal => LZMA_MODE_NORMAL,
        }
    }
}

impl From<CompressionMode> for u32 {
    fn from(mode: CompressionMode) -> (code: u32) {
        mode.to_raw()
    }
}

impl vstd::std_specs::convert::FromSpecImpl<CompressionMode> for u32 {
    open spec fn obeys_from_spec() -> bool {
        true
    }

    open spec fn from_spec(mode: CompressionMode) -> u32 {
        spec_compression_mode_code(mode)
    }
}

/// Match finder algorithms supported by liblzma.
#[derive(Debug, Clone, Copy, PartialEq, Eq, Structural)]
pub enum MatchFinder {
    /// Hash chain with 2-/3-byte hashing (`LZMA_MF_HC3`).
    Hc3,
    /// Hash chain with 2-/3-/4-byte hashing (`LZMA_MF_HC4`).
    Hc4,
    /// Binary tree with 2-byte hashing (`LZMA_MF_BT2`).
    Bt2,
    /// Binary tree with 2-/3-byte hashing (`LZMA_MF_BT3`).
    Bt3,
    /// Binary tree with 2-/3-/4-byte hashing (`LZMA_MF_BT4`).
    Bt4,
}

/// The `lzma_match_finder` value of each match finder.
pub open spec fn spec_match_finder_code(mf: MatchFinder) -> u32 {
    match mf {
        MatchFinder::Hc3 => LZMA_MF_HC3,
        MatchFinder::Hc4 => LZMA_MF_HC4,
        MatchFinder::Bt2 => LZMA_MF_BT2,
        MatchFinder::Bt3 => LZMA_MF_BT3,
        MatchFinder::Bt4 => LZMA_MF_BT4,
    }
}

impl MatchFinder {
    /// The `lzma_match_finder` value of this match finder.
    pub fn to_raw(self) -> (code: u32)
        ensures
            code == spec_match_finder_code(self),
    {
        match self {
            MatchFinder::Hc3 => LZMA_MF_HC3,
            MatchFinder::Hc4 => LZMA_MF_HC4,
            MatchFinder::Bt2 => LZMA_MF_BT2,
            MatchFinder::Bt3 => LZMA_MF_BT3,
            MatchFinder::Bt4 => LZMA_MF_BT4,
        }
    }
}

impl From<MatchFinder> for u32 {
    fn from(mf: MatchFinder) -> (code: u32) {
        mf.to_raw()
    }
}

impl vstd::std_specs::convert::FromSpecImpl<MatchFinder> for u32 {
    open spec fn obeys_from_spec() -> bool {
        true
    }

    open spec fn from_spec(mf: MatchFinder) -> u32 {
        spec_match_finder_code(mf)
    }
}

/// Parameters for the LZMA1/LZMA2 filters exposed via liblzma.
#[derive(Debug, Clone)]
pub struct LzmaOptions {
    /// Dictionary size in bytes.
    pub dict_size: u32,
    /// Literal context bits.
    pub lc: u32,
    /// Literal position bits.
    pub lp: u32,
    /// Position bits used for match distances.
    pub pb: u32,
    /// Compression mode (`Fast` or `Normal`).
    pub mode: CompressionMode,
    /// Upper bound for search length when looking for matches.
    pub nice_len: u32,
    /// Match finder algorithm.
    pub mf: MatchFinder,
    /// Maximum search depth; 0 lets liblzma decide.
    pub depth: u32,
    /// Optional preset dictionary bytes.
    pub preset_dict: Option<Vec<u8>>,
    /// Extra flags used only by the LZMA1EXT format.
    pub ext_flags: u32,
    /// Uncompressed size low bits (LZMA1EXT).
    pub ext_size_low: u32,
    /// Uncompressed size high bits (LZMA1EXT).
    pub ext_size_high: u32,
}

/// Default dictionary size (8 MiB).
pub const LZMA_DICT_SIZE_DEFAULT: u32 = 0x80_0000;
/// Default number of literal context bits.
pub const LZMA_LC_DEFAULT: u32 = 3;
/// Default number of literal position bits.
pub const LZMA_LP_DEFAULT: u32 = 0;
/// Default number of position bits.
pub const LZMA_PB_DEFAULT: u32 = 2;

impl Default for LzmaOptions {
    fn default() -> (o: LzmaOptions)
        ensures
            o.dict_size == LZMA_DICT_SIZE_DEFAULT,
            o.lc == LZMA_LC_DEFAULT,
            o.lp == LZMA_LP_DEFAULT,
            o.pb == LZMA_PB_DEFAULT,
            o.mode == CompressionMode::Normal,
            o.nice_len == 64,
            o.mf == MatchFinder::Hc4,
            o.depth == 0,
            o.preset_dict is None,
            o.ext_flags == 0,
            o.ext_size_low == 0,
            o.ext_size_high == 0,
    {
        LzmaOptions {
            dict_size: LZMA_DICT_SIZE_DEFAULT,
            lc: LZMA_LC_DEFAULT,
            lp: LZMA_LP_DEFAULT,
            pb: LZMA_PB_DEFAULT,
            mode: CompressionMode::Normal,
            nice_len: 64,
            mf: MatchFinder::Hc4,
            depth: 0,
            preset_dict: None,
            ext_flags: 0,
            ext_size_low: 0,
            ext_size_high: 0,
        }
    }
}

/// Options for BCJ (Branch/Call/Jump) filters.
#[derive(Debug, Clone, Copy, PartialEq, Eq, Structural)]
pub struct BcjOptions {
    /// Start offset added to converted branch targets.
    pub start_offset: u32,
}

impl Default for BcjOptions {
    fn default() -> (o: BcjOptions)
        ensures
            o.start_offset == 0,
    {
        BcjOptions { start_offset: 0 }
    }
}

/// Options for the delta pre-processing filter.
#[derive(Debug, Clone, Copy, PartialEq, Eq, Structural)]
pub struct DeltaOptions {
    /// Distance in bytes to look back when computing the delta.
    pub distance: u32,
}

impl Default for DeltaOptions {
    fn default() -> (o: DeltaOptions)
        ensures
            o.distance == 1,
    {
        DeltaOptions { distance: 1 }
    }
}

/// Keeps the option structures of a filter chain, one per filter.
#[derive(Debug, Clone)]
pub enum OwnedFilterOptions {
    /// LZMA1/2 options and optional preset dictionary.
    Lzma { opts: RawLzmaOptions, dict: Option<Vec<u8>> },
    /// BCJ filter options.
    Bcj(RawBcjOptions),
    /// Delta filter options.
    Delta(RawDeltaOptions),
    /// No options (for filters that do not require them).
    Empty,
}

/// One entry of an `lzma_filter` chain.
///
/// `options` stands for the `options` pointer: the position, in the owned
/// option list of the chain, of the structure it points to.
#[derive(Debug, Clone, Copy, PartialEq, Eq, Structural)]
pub struct RawFilter {
    /// Filter identifier (`0` terminates the chain).
    pub id: u64,
    /// Position of the filter's options in the owned list, `None` for a null pointer.
    pub options: Option<usize>,
}

/// Prepared filter chain plus the owned option storage.
#[derive(Debug, Clone)]
pub struct RawFilters {
    /// The filter chain as expected by liblzma (terminated by an entry with id `0`).
    pub filters: Vec<RawFilter>,
    /// Owned option buffers that the chain refers to.
    pub owned: Vec<OwnedFilterOptions>,
}

impl RawFilter {
    /// The id liblzma reads for this entry: the filter's id, or, at the entry
    /// that ends the chain (the one without options), `LZMA_VLI_UNKNOWN`,
    /// which is how liblzma marks the end of a chain.
    pub fn liblzma_id(&self) -> (id: u64)
        ensures
            id == (if self.options is None {
                LZMA_VLI_UNKNOWN
            } else {
                self.id
            }),
    {
        match self.options {
            None => LZMA_VLI_UNKNOWN,
            Some(_) => self.id,
        }
    }
}

impl RawFilters {
    /// Return the filter chain to hand to liblzma, or `None` (a null pointer) when it is empty.
    pub fn as_ptr(&self) -> (p: Option<&Vec<RawFilter>>)
        ensures
            p is None <==> self.filters@.len() == 0,
            p matches Some(v) ==> v@ == self.filters@,
    {
        if self.filters.len() == 0 {
            None
        } else {
            Some(&self.filters)
        }
    }
}

/// The LZMA options structure that liblzma gets when no options are given.
pub open spec fn spec_default_raw_lzma() -> RawLzmaOptions {
    RawLzmaOptions {
        dict_size: LZMA_DICT_SIZE_DEFAULT,
        has_preset_dict: false,
        preset_dict_size: 0,
        lc: LZMA_LC_DEFAULT,
        lp: LZMA_LP_DEFAULT,
        pb: LZMA_PB_DEFAULT,
        mode: LZMA_MODE_NORMAL,
        nice_len: 64,
        mf: LZMA_MF_HC4,
        depth: 0,
        ext_flags: 0,
        ext_size_low: 0,
        ext_size_high: 0,
    }
}

/// The LZMA options structure that liblzma gets for user options.
pub open spec fn spec_raw_lzma_of(lo: LzmaOptions) -> RawLzmaOptions {
    RawLzmaOptions {
        dict_size: lo.dict_size,
        has_preset_dict: lo.preset_dict is Some,
        preset_dict_size: match lo.preset_dict {
            Some(d) => d@.len() as u32,
            None => 0,
        },
        lc: lo.lc,
        lp: lo.lp,
        pb: lo.pb,
        mode: spec_compression_mode_code(lo.mode),
        nice_len: lo.nice_len,
        mf: spec_match_finder_code(lo.mf),
        depth: lo.depth,
        ext_flags: lo.ext_flags,
        ext_size_low: lo.ext_size_low,
        ext_size_high: lo.ext_size_high,
    }
}

/// Whether `owned` holds the LZMA options built from `user` (the defaults when `None`).
pub open spec fn spec_is_lzma_owned(owned: OwnedFilterOptions, user: Option<LzmaOptions>) -> bool {
    match owned {
        OwnedFilterOptions::Lzma { opts, dict } => match user {
            None => opts == spec_default_raw_lzma() && dict is None,
            Some(lo) => {
                &&& opts == spec_raw_lzma_of(lo)
                &&& dict is Some <==> lo.preset_dict is Some
                &&& dict is Some ==> dict.unwrap()@ == lo.preset_dict.unwrap()@
            },
        },
        _ => false,
    }
}

/// The user LZMA options found in a filter configuration, if it holds LZMA ones.
pub open spec fn spec_lzma_part(o: Option<FilterOptions>) -> Option<LzmaOptions> {
    match o {
        Some(FilterOptions::Lzma(lo)) => Some(lo),
        _ => None,
    }
}

/// The user delta options found in a filter configuration, if it holds delta ones.
pub open spec fn spec_delta_part(o: Option<FilterOptions>) -> Option<DeltaOptions> {
    match o {
        Some(FilterOptions::Delta(d)) => Some(d),
        _ => None,
    }
}

/// The user BCJ options found in a filter configuration, if it holds BCJ ones.
pub open spec fn spec_bcj_part(o: Option<FilterOptions>) -> Option<BcjOptions> {
    match o {
        Some(FilterOptions::Bcj(b)) => Some(b),
        _ => None,
    }
}

/// The delta options structure liblzma gets for optional user options.
pub open spec fn spec_raw_delta_of(user: Option<DeltaOptions>) -> RawDeltaOptions {
    RawDeltaOptions {
        type_: LZMA_DELTA_TYPE_BYTE,
        dist: match user {
            Some(d) => d.distance,
            None => 1,
        },
    }
}

/// The BCJ options structure liblzma gets for optional user options.
pub open spec fn spec_raw_bcj_of(user: Option<BcjOptions>) -> RawBcjOptions {
    RawBcjOptions {
        start_offset: match user {
            Some(b) => b.start_offset,
            None => 0,
        },
    }
}

/// Whether `owned` holds the option structure that a filter configuration calls for:
/// LZMA options for the LZMA filters, delta options for the delta filter and BCJ
/// options for the branch filters, each from the matching user options or the defaults.
pub open spec fn spec_owned_matches(owned: OwnedFilterOptions, cfg: FilterConfig) -> bool {
    if spec_is_lzma_filter(cfg.filter_type) {
        spec_is_lzma_owned(owned, spec_lzma_part(cfg.options))
    } else if cfg.filter_type == FilterType::Delta {
        owned == OwnedFilterOptions::Delta(spec_raw_delta_of(spec_delta_part(cfg.options)))
    } else {
        owned == OwnedFilterOptions::Bcj(spec_raw_bcj_of(spec_bcj_part(cfg.options)))
    }
}

/// Whether `raw` is the chain prepared for `configs`: one entry per filter, in
/// order, each pointing at its own option structure, then the terminator.
pub open spec fn spec_is_chain_for(raw: RawFilters, configs: Seq<FilterConfig>) -> bool {
    &&& raw.filters@.len() == configs.len() + 1
    &&& raw.owned@.len() == configs.len()
    &&& forall|i: int|
        0 <= i < configs.len() ==> {
            &&& #[trigger] raw.filters@[i] == RawFilter {
                id: spec_filter_id(configs[i].filter_type),
                options: Some(i as usize),
            }
            &&& spec_owned_matches(raw.owned@[i], configs[i])
        }
    &&& raw.filters@[configs.len() as int] == RawFilter { id: 0, options: None }
}

/// Creates the LZMA options structure for an LZMA filter.
fn create_lzma_filter(user_options: Option<&LzmaOptions>) -> (owned: OwnedFilterOptions)
    ensures
        spec_is_lzma_owned(
            owned,
            match user_options {
                Some(lo) => Some(*lo),
                None => None,
            },
        ),
{
    let mut opts = RawLzmaOptions {
        dict_size: LZMA_DICT_SIZE_DEFAULT,
        has_preset_dict: false,
        preset_dict_size: 0,
        lc: LZMA_LC_DEFAULT,
        lp: LZMA_LP_DEFAULT,
        pb: LZMA_PB_DEFAULT,
        mode: LZMA_MODE_NORMAL,
        nice_len: 64,
        mf: LZMA_MF_HC4,
        depth: 0,
        ext_flags: 0,
        ext_size_low: 0,
        ext_size_high: 0,
    };
    let dict_owned = match user_options {
        Some(lo) => {
            opts.dict_size = lo.dict_size;
            opts.lc = lo.lc;
            opts.lp = lo.lp;
            opts.pb = lo.pb;
            opts.mode = lo.mode.to_raw();
            opts.nice_len = lo.nice_len;
            opts.mf = lo.mf.to_raw();
            opts.depth = lo.depth;
            opts.ext_flags = lo.ext_flags;
            opts.ext_size_low = lo.ext_size_low;
            opts.ext_size_high = lo.ext_size_high;
            match &lo.preset_dict {
                Some(d) => {
                    let copy = copy_bytes(d);
                    opts.has_preset_dict = true;
                    opts.preset_dict_size = copy.len() as u32;
                    Some(copy)
                },
                None => None,
            }
        },
        None => None,
    };
    OwnedFilterOptions::Lzma { opts, dict: dict_owned }
}

/// Creates the delta options structure for the delta filter.
fn create_delta_filter(user_options: Option<&DeltaOptions>) -> (owned: OwnedFilterOptions)
    ensures
        owned == OwnedFilterOptions::Delta(
            spec_raw_delta_of(
                match user_options {
                    Some(d) => Some(*d),
                    None => None,
                },
            ),
        ),
{
    let mut opts = RawDeltaOptions { type_: LZMA_DELTA_TYPE_BYTE, dist: DeltaOptions::default().distance };
    if let Some(d) = user_options {
        opts.dist = d.distance;
    }
    OwnedFilterOptions::Delta(opts)
}

/// Creates the BCJ options structure for a branch filter.
fn create_bcj_filter(user_options: Option<&BcjOptions>) -> (owned: OwnedFilterOptions)
    ensures
        owned == OwnedFilterOptions::Bcj(
            spec_raw_bcj_of(
                match user_options {
                    Some(b) => Some(*b),
                    None => None,
                },
            ),
        ),
{
    let mut opts = RawBcjOptions { start_offset: BcjOptions::default().start_offset };
    if let Some(b) = user_options {
        opts.start_offset = b.start_offset;
    }
    OwnedFilterOptions::Bcj(opts)
}

/// Prepares a liblzma filter chain and collects the owned option structures.
///
/// Each configuration becomes one chain entry that refers to its own option
/// structure; the chain is terminated by an entry with id `0` and no options.
pub fn prepare_filters(configs: &[FilterConfig]) -> (raw: RawFilters)
    requires
        configs@.len() < usize::MAX,
    ensures
        spec_is_chain_for(raw, configs@),
{
    let mut filters: Vec<RawFilter> = Vec::new();
    let mut owned: Vec<OwnedFilterOptions> = Vec::new();
    let mut i: usize = 0;
    while i < configs.len()
        invariant
            i <= configs@.len(),
            configs@.len() < usize::MAX,
            filters@.len() == i,
            owned@.len() == i,
            forall|j: int|
                0 <= j < i ==> {
                    &&& #[trigger] filters@[j] == RawFilter {
                        id: spec_filter_id(configs@[j].filter_type),
                        options: Some(j as usize),
                    }
                    &&& spec_owned_matches(owned@[j], configs@[j])
                },
        decreases configs@.len() - i,
    {
        let cfg = &configs[i];
        let owned_opts = match cfg.filter_type {
            FilterType::Lzma1 | FilterType::Lzma1Ext | FilterType::Lzma2 => {
                let lzma_opts = match &cfg.options {
                    Some(FilterOptions::Lzma(lo)) => Some(lo),
                    _ => None,
                };
                create_lzma_filter(lzma_opts)
            },
            FilterType::Delta => {
                let delta_opts = match &cfg.options {
                    Some(FilterOptions::Delta(d)) => Some(d),
                    _ => None,
                };
                create_delta_filter(delta_opts)
            },
            _ => {
                let bcj_opts = match &cfg.options {
                    Some(FilterOptions::Bcj(b)) => Some(b),
                    _ => None,
                };
                create_bcj_filter(bcj_opts)
            },
        };
        filters.push(RawFilter { id: cfg.filter_type.to_lzma_id(), options: Some(i) });
        owned.push(owned_opts);
        i = i + 1;
    }
    filters.push(RawFilter { id: 0, options: None });
    RawFilters { filters, owned }
}

/// In a prepared chain, the LZMA options of a filter configured with its own
/// LZMA options carry every one of the user's fields unchanged, and the entry
/// names that filter.
pub proof fn lemma_chain_keeps_lzma_options(
    raw: RawFilters,
    configs: Seq<FilterConfig>,
    i: int,
    lo: LzmaOptions,
)
    requires
        spec_is_chain_for(raw, configs),
        0 <= i < configs.len(),
        configs[i].filter_type == FilterType::Lzma1 || configs[i].filter_type
            == FilterType::Lzma1Ext || configs[i].filter_type == FilterType::Lzma2,
        configs[i].options == Some(FilterOptions::Lzma(lo)),
    ensures
        raw.filters@[i].id == spec_filter_id(configs[i].filter_type),
        raw.owned@[i] matches OwnedFilterOptions::Lzma { opts, dict } && {
            &&& opts.dict_size == lo.dict_size
            &&& opts.lc == lo.lc
            &&& opts.lp == lo.lp
            &&& opts.pb == lo.pb
            &&& opts.nice_len == lo.nice_len
            &&& opts.depth == lo.depth
            &&& opts.mode == (match lo.mode {
                CompressionMode::Fast => LZMA_MODE_FAST,
                CompressionMode::Normal => LZMA_MODE_NORMAL,
            })
            &&& opts.mf == (match lo.mf {
                MatchFinder::Hc3 => LZMA_MF_HC3,
                MatchFinder::Hc4 => LZMA_MF_HC4,
                MatchFinder::Bt2 => LZMA_MF_BT2,
                MatchFinder::Bt3 => LZMA_MF_BT3,
                MatchFinder::Bt4 => LZMA_MF_BT4,
            })
            &&& opts.ext_flags == lo.ext_flags
            &&& opts.ext_size_low == lo.ext_size_low
            &&& opts.ext_size_high == lo.ext_size_high
            &&& opts.has_preset_dict == lo.preset_dict is Some
            &&& dict is Some == lo.preset_dict is Some
            &&& (lo.preset_dict matches Some(d) ==> dict.unwrap()@ == d@)
        },
{
    assert(raw.filters@[i] == RawFilter { id: spec_filter_id(configs[i].filter_type), options: Some(i as usize) });
    assert(spec_owned_matches(raw.owned@[i], configs[i]));
}

/// In a prepared chain, an LZMA filter configured without LZMA options gets
/// liblzma's defaults, a delta filter gets its distance (1 by default) and a
/// branch filter its start offset (0 by default).
pub proof fn lemma_chain_defaults_and_small_options(
    raw: RawFilters,
    configs: Seq<FilterConfig>,
    i: int,
)
    requires
        spec_is_chain_for(raw, configs),
        0 <= i < configs.len(),
    ensures
        (spec_is_lzma_filter(configs[i].filter_type) && !(configs[i].options matches Some(
            FilterOptions::Lzma(_),
        ))) ==> (raw.owned@[i] matches OwnedFilterOptions::Lzma { opts, dict } && opts.dict_size
            == LZMA_DICT_SIZE_DEFAULT && opts.lc == LZMA_LC_DEFAULT && opts.lp == LZMA_LP_DEFAULT
            && opts.pb == LZMA_PB_DEFAULT && dict is None),
        configs[i].filter_type == FilterType::Delta ==> (raw.owned@[i] matches OwnedFilterOptions::Delta(
            d,
        ) && d.dist == (match configs[i].options {
            Some(FilterOptions::Delta(user)) => user.distance,
            _ => 1u32,
        })),
        !spec_is_lzma_filter(configs[i].filter_type) && configs[i].filter_type != FilterType::Delta
            ==> (raw.owned@[i] matches OwnedFilterOptions::Bcj(b) && b.start_offset == (
        match configs[i].options {
            Some(FilterOptions::Bcj(user)) => user.start_offset,
            _ => 0u32,
        })),
{
    assert(raw.filters@[i] == RawFilter { id: spec_filter_id(configs[i].filter_type), options: Some(i as usize) });
    assert(spec_owned_matches(raw.owned@[i], configs[i]));
}

} // verus!
