//! Decoder configuration shared by the decoders.

use crate::raw::{spec_zeroed_mt, zeroed_mt, MtOptions};
use vstd::prelude::*;

verus! {

/// Wrapper around liblzma's `lzma_decoder_flag` bit-field.
#[derive(Debug, Clone, Copy, PartialEq, Eq, Structural)]
pub struct Flags {
    /// The raw bit-field.
    pub bits: u32,
}

impl View for Flags {
    type V = u32;

    open spec fn view(&self) -> u32 {
        self.bits
    }
}

/// Whether every bit of `flag` is set in `bits`.
pub open spec fn spec_contains(bits: u32, flag: u32) -> bool {
    bits & flag == flag
}

impl Flags {
    /// Report that the input stream lacks an integrity check (`LZMA_TELL_NO_CHECK`).
    #[allow(non_snake_case)]
    pub fn NO_CHECK() -> (f: Flags)
        ensures
            f@ == 0x01,
    {
        Flags { bits: 0x01 }
    }

    /// Report unsupported check types (`LZMA_TELL_UNSUPPORTED_CHECK`).
    #[allow(non_snake_case)]
    pub fn UNSUPPORTED_CHECK() -> (f: Flags)
        ensures
            f@ == 0x02,
    {
        Flags { bits: 0x02 }
    }

    /// Emit a status once the integrity check type becomes known (`LZMA_TELL_ANY_CHECK`).
    #[allow(non_snake_case)]
    pub fn ANY_CHECK() -> (f: Flags)
        ensures
            f@ == 0x04,
    {
        Flags { bits: 0x04 }
    }

    /// Process concatenated `.xz` streams (`LZMA_CONCATENATED`).
    #[allow(non_snake_case)]
    pub fn CONCATENATED() -> (f: Flags)
        ensures
            f@ == 0x08,
    {
        Flags { bits: 0x08 }
    }

    /// Skip verification of integrity checks (`LZMA_IGNORE_CHECK`).
    #[allow(non_snake_case)]
    pub fn IGNORE_CHECK() -> (f: Flags)
        ensures
            f@ == 0x10,
    {
        Flags { bits: 0x10 }
    }

    /// The set with no flag.
    pub fn empty() -> (f: Flags)
        ensures
            f@ == 0,
    {
        Flags { bits: 0 }
    }

    /// A set holding exactly the given bits, known or not.
    pub fn from_bits_retain(bits: u32) -> (f: Flags)
        ensures
            f@ == bits,
    {
        Flags { bits }
    }

    /// The raw bits of the set.
    pub fn bits(&self) -> (b: u32)
        ensures
            b == self@,
    {
        self.bits
    }

    /// Whether every flag of `other` is set in `self`.
    pub fn contains(&self, other: Flags) -> (b: bool)
        ensures
            b == spec_contains(self@, other@),
    {
        self.bits & other.bits == other.bits
    }

    /// Check whether `NO_CHECK` is present.
    pub fn is_no_check(&self) -> (b: bool)
        ensures
            b == spec_contains(self@, 0x01),
    {
        self.contains(Flags::NO_CHECK())
    }

    /// Check whether `UNSUPPORTED_CHECK` is present.
    pub fn is_unsupported_check(&self) -> (b: bool)
        ensures
            b == spec_contains(self@, 0x02),
    {
        self.contains(Flags::UNSUPPORTED_CHECK())
    }

    /// Check whether `ANY_CHECK` is present.
    pub fn is_any_check(&self) -> (b: bool)
        ensures
            b == spec_contains(self@, 0x04),
    {
        self.contains(Flags::ANY_CHECK())
    }

    /// Check whether concatenated stream support is enabled.
    pub fn is_concatenated(&self) -> (b: bool)
        ensures
            b == spec_contains(self@, 0x08),
    {
        self.contains(Flags::CONCATENATED())
    }

    /// Check whether integrity verification is disabled.
    pub fn is_ignore_check(&self) -> (b: bool)
        ensures
            b == spec_contains(self@, 0x10),
    {
        self.contains(Flags::IGNORE_CHECK())
    }

    /// Expose the raw bit-field expected by liblzma.
    pub fn to_liblzma_flags(&self) -> (b: u32)
        ensures
            b == self@,
    {
        self.bits()
    }
}

impl core::ops::BitOr for Flags {
    type Output = Flags;

    fn bitor(self, rhs: Flags) -> (f: Flags) {
        Flags { bits: self.bits | rhs.bits }
    }
}

impl vstd::std_specs::ops::BitOrSpecImpl for Flags {
    open spec fn obeys_bitor_spec() -> bool {
        true
    }

    open spec fn bitor_req(self, rhs: Flags) -> bool {
        true
    }

    open spec fn bitor_spec(self, rhs: Flags) -> Flags {
        Flags { bits: self.bits | rhs.bits }
    }
}

impl Default for Flags {
    fn default() -> (f: Flags)
        ensures
            f@ == 0,
    {
        Flags::empty()
    }
}

/// A flag set in a union is set in the union exactly when it is set in one of its parts.
pub proof fn lemma_union_contains(a: u32, b: u32, flag: u32)
    requires
        flag == 0x01 || flag == 0x02 || flag == 0x04 || flag == 0x08 || flag == 0x10,
    ensures
        spec_contains(a | b, flag) == (spec_contains(a, flag) || spec_contains(b, flag)),
{
    assert(flag == 0x01 || flag == 0x02 || flag == 0x04 || flag == 0x08 || flag == 0x10 ==>
        ((a | b) & flag == flag) == ((a & flag == flag) || (b & flag == flag))) by (bit_vector);
}

/// Configuration passed to `lzma_stream_decoder_mt` and friends.
#[derive(Debug, Clone, Copy, PartialEq, Eq, Structural)]
pub struct Options {
    /// Number of worker threads (1 means single-threaded).
    pub threads: u32,
    /// Soft memory limit; the decoder may fall back to fewer threads when exceeded.
    pub memlimit: u64,
    /// Hard memory limit that aborts the operation when exceeded.
    pub memlimit_stop: u64,
    /// Behavioural flags, see [`Flags`].
    pub flags: Flags,
    /// Timeout in milliseconds; `0` disables timeouts.
    pub timeout: u32,
}

/// The default decoder configuration.
pub open spec fn spec_default_options() -> Options {
    Options {
        threads: 1,
        memlimit: u64::MAX,
        memlimit_stop: u64::MAX,
        flags: Flags { bits: 0 },
        timeout: 0,
    }
}

/// The `lzma_mt` structure that a decoder configuration is passed to liblzma as.
pub open spec fn spec_decoder_mt(o: Options) -> MtOptions {
    MtOptions {
        threads: o.threads,
        timeout: o.timeout,
        flags: o.flags@,
        memlimit_threading: o.memlimit,
        memlimit_stop: o.memlimit_stop,
        ..spec_zeroed_mt()
    }
}

impl Default for Options {
    fn default() -> (o: Options)
        ensures
            o == spec_default_options(),
    {
        Options {
            threads: 1,
            memlimit: u64::MAX,
            memlimit_stop: u64::MAX,
            flags: Flags::empty(),
            timeout: 0,
        }
    }
}

impl Options {
    /// Set the soft memory limit in bytes.
    pub fn with_memlimit(self, memlimit: u64) -> (o: Options)
        ensures
            o == (Options { memlimit, ..self }),
    {
        let mut o = self;
        o.memlimit = memlimit;
        o
    }

    /// Set decoder flags.
    pub fn with_flags(self, flags: Flags) -> (o: Options)
        ensures
            o == (Options { flags, ..self }),
    {
        let mut o = self;
        o.flags = flags;
        o
    }

    /// Convert to the raw `lzma_mt` structure expected by liblzma.
    pub fn to_lzma_options(&self) -> (mt: MtOptions)
        ensures
            mt == spec_decoder_mt(*self),
    {
        let mut options = zeroed_mt();
        options.threads = self.threads;
        options.timeout = self.timeout;
        options.flags = self.flags.to_liblzma_flags();
        options.memlimit_threading = self.memlimit;
        options.memlimit_stop = self.memlimit_stop;
        options
    }
}

} // verus!
