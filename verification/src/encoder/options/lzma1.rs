//! LZMA1 encoder options.
//!
//! These settings correspond to `lzma_options_lzma` from liblzma and are used by the legacy
//! `.lzma` (also known as "`LZMA_Alone`") container format.

use crate::raw::{
    RawLzmaOptions, LZMA_MF_BT2, LZMA_MF_BT3, LZMA_MF_BT4, LZMA_MF_HC3, LZMA_MF_HC4,
    LZMA_MODE_FAST, LZMA_MODE_NORMAL,
};
use vstd::prelude::*;

verus! {

/// LZMA match finder mode.
#[derive(Debug, Clone, Copy, PartialEq, Eq, Structural)]
pub enum Mode {
    /// Fast mode (`LZMA_MODE_FAST`).
    Fast,
    /// Normal mode (`LZMA_MODE_NORMAL`).
    Normal,
}

/// The `lzma_mode` value of each mode.
pub open spec fn spec_mode_code(m: Mode) -> u32 {
    match m {
        Mode::Fast => LZMA_MODE_FAST,
        Mode::Normal => LZMA_MODE_NORMAL,
    }
}

impl Mode {
    /// The `lzma_mode` value of this mode.
    pub fn to_raw(self) -> (code: u32)
        ensures
            code == spec_mode_code(self),
    {
        match self {
            Mode::Fast => LZMA_MODE_FAST,
            Mode::Normal => LZMA_MODE_NORMAL,
        }
    }
}

impl From<Mode> for u32 {
    fn from(value: Mode) -> (code: u32) {
        value.to_raw()
    }
}

impl vstd::std_specs::convert::FromSpecImpl<Mode> for u32 {
    open spec fn obeys_from_spec() -> bool {
        true
    }

    open spec fn from_spec(value: Mode) -> u32 {
        spec_mode_code(value)
    }
}

/// Match finder algorithm selection.
#[derive(Debug, Clone, Copy, PartialEq, Eq, Structural)]
pub enum MatchFinder {
    /// Hash chain match finder (`LZMA_MF_HC3`).
    Hc3,
    /// Hash chain match finder (`LZMA_MF_HC4`).
    Hc4,
    /// Binary tree match finder (`LZMA_MF_BT2`).
    Bt2,
    /// Binary tree match finder (`LZMA_MF_BT3`).
    Bt3,
    /// Binary tree match finder (`LZMA_MF_BT4`).
    Bt4,
}

/// The `lzma_match_finder` value of each match finder.
pub open spec fn spec_mf_code(m: MatchFinder) -> u32 {
    match m {
        MatchFinder::Hc3 => LZMA_MF_HC3,
        MatchFinder::Hc4 => LZMA_MF_HC4,
        MatchFinder::Bt2 => LZMA_MF_BT2,
        MatchFinder::Bt3 => LZMA_MF_BT3,
        MatchFinder::Bt4 => LZMA_MF_BT4,
    }
}

impl MatchFinder {
    /// The `lzma_match_finder` value of this match finder.
    pub fn to_raw(self) -> (code: u32)
        ensures
            code == spec_mf_code(self),
    {
        match self {
            MatchFinder::Hc3 => LZMA_MF_HC3,
            MatchFinder::Hc4 => LZMA_MF_HC4,
            MatchFinder::Bt2 => LZMA_MF_BT2,
            MatchFinder::Bt3 => LZMA_MF_BT3,
            MatchFinder::Bt4 => LZMA_MF_BT4,
        }
    }
}

impl From<MatchFinder> for u32 {
    fn from(value: MatchFinder) -> (code: u32) {
        value.to_raw()
    }
}

impl vstd::std_specs::convert::FromSpecImpl<MatchFinder> for u32 {
    open spec fn obeys_from_spec() -> bool {
        true
    }

    open spec fn from_spec(value: MatchFinder) -> u32 {
        spec_mf_code(value)
    }
}

/// Encoder options for LZMA1 (`lzma_options_lzma`).
#[derive(Debug, Clone, Copy, PartialEq, Eq, Structural)]
pub struct Lzma1Options {
    raw: RawLzmaOptions,
}

impl View for Lzma1Options {
    type V = RawLzmaOptions;

    closed spec fn view(&self) -> RawLzmaOptions {
        self.raw
    }
}

/// The wrapper's own conservative configuration: an 8 MiB dictionary, three
/// literal context bits, no literal position bits, two position bits, normal
/// mode, nice length 64, the BT4 match finder and liblzma's choice of depth.
/// A configuration taken from a liblzma preset is built by the program from
/// what liblzma reports, with this one as the fallback.
pub open spec fn spec_default_lzma1() -> RawLzmaOptions {
    RawLzmaOptions {
        dict_size: 0x80_0000,
        has_preset_dict: false,
        preset_dict_size: 0,
        lc: 3,
        lp: 0,
        pb: 2,
        mode: LZMA_MODE_NORMAL,
        nice_len: 64,
        mf: LZMA_MF_BT4,
        depth: 0,
        ext_flags: 0,
        ext_size_low: 0,
        ext_size_high: 0,
    }
}

impl Default for Lzma1Options {
    fn default() -> (o: Lzma1Options)
        ensures
            o@ == spec_default_lzma1(),
    {
        Lzma1Options {
            raw: RawLzmaOptions {
                dict_size: 0x80_0000,
                has_preset_dict: false,
                preset_dict_size: 0,
                lc: 3,
                lp: 0,
                pb: 2,
                mode: LZMA_MODE_NORMAL,
                nice_len: 64,
                mf: LZMA_MF_BT4,
                depth: 0,
                ext_flags: 0,
                ext_size_low: 0,
                ext_size_high: 0,
            },
        }
    }
}

impl Lzma1Options {
    /// Dictionary size in bytes.
    pub fn with_dict_size(self, dict_size: u32) -> (o: Lzma1Options)
        ensures
            o@ == (RawLzmaOptions { dict_size, ..self@ }),
    {
        let mut o = self;
        o.raw.dict_size = dict_size;
        o
    }

    /// Literal context bits (lc).
    pub fn with_lc(self, lc: u32) -> (o: Lzma1Options)
        ensures
            o@ == (RawLzmaOptions { lc, ..self@ }),
    {
        let mut o = self;
        o.raw.lc = lc;
        o
    }

    /// Literal position bits (lp).
    pub fn with_lp(self, lp: u32) -> (o: Lzma1Options)
        ensures
            o@ == (RawLzmaOptions { lp, ..self@ }),
    {
        let mut o = self;
        o.raw.lp = lp;
        o
    }

    /// Position bits (pb).
    pub fn with_pb(self, pb: u32) -> (o: Lzma1Options)
        ensures
            o@ == (RawLzmaOptions { pb, ..self@ }),
    {
        let mut o = self;
        o.raw.pb = pb;
        o
    }

    /// Encoder mode (fast/normal).
    pub fn with_mode(self, mode: Mode) -> (o: Lzma1Options)
        ensures
            o@ == (RawLzmaOptions { mode: spec_mode_code(mode), ..self@ }),
    {
        let mut o = self;
        o.raw.mode = mode.to_raw();
        o
    }

    /// Nice length.
    pub fn with_nice_len(self, nice_len: u32) -> (o: Lzma1Options)
        ensures
            o@ == (RawLzmaOptions { nice_len, ..self@ }),
    {
        let mut o = self;
        o.raw.nice_len = nice_len;
        o
    }

    /// Match finder.
    pub fn with_match_finder(self, mf: MatchFinder) -> (o: Lzma1Options)
        ensures
            o@ == (RawLzmaOptions { mf: spec_mf_code(mf), ..self@ }),
    {
        let mut o = self;
        o.raw.mf = mf.to_raw();
        o
    }

    /// Maximum match finder depth. Use 0 for liblzma defaults.
    pub fn with_depth(self, depth: u32) -> (o: Lzma1Options)
        ensures
            o@ == (RawLzmaOptions { depth, ..self@ }),
    {
        let mut o = self;
        o.raw.depth = depth;
        o
    }

    /// Options holding exactly the structure liblzma filled in (for a preset,
    /// by `lzma_lzma_preset`).
    pub fn from_raw(raw: RawLzmaOptions) -> (o: Lzma1Options)
        ensures
            o@ == raw,
    {
        Lzma1Options { raw }
    }

    /// Borrow the raw liblzma options.
    pub fn as_raw(&self) -> (r: &RawLzmaOptions)
        ensures
            *r == self@,
    {
        &self.raw
    }
}

} // verus!
