//! The compression step of the gzip tools, on bytes in memory.

use crate::gzip::config::CliConfig;
use crate::gzip::error::Error;
use std::io::Read;
use std::io::Write;
use vstd::prelude::*;

verus! {

/// The gzip file that flate2 writes for `data` at a compression level, with its
/// default header (no name, no time stamp).
pub uninterp spec fn spec_gzip_encode(data: Seq<u8>, level: u32) -> Seq<u8>;

/// What flate2 reads back from the first gzip member of `data`, or `None` when
/// it reports an error.
pub uninterp spec fn spec_gzip_decode(data: Seq<u8>) -> Option<Seq<u8>>;

/// Calls `flate2::write::GzEncoder::new` over an empty `Vec` with
/// `flate2::Compression::new(level)`, writes all of `data` and calls `finish`.
/// The result is the gzip file named by `spec_gzip_encode`, and the call
/// succeeds: writing into a `Vec` cannot fail, and the deflate stream reports
/// no error on the buffers the encoder hands it. Levels above 10 trip a debug
/// assertion in flate2's deflater, so only the levels 0 to 9 are admitted.
#[verifier::external_body]
fn gzip_encode(data: &[u8], level: u32) -> (r: core::result::Result<Vec<u8>, std::io::Error>)
    requires
        level <= 9,
    ensures
        r is Ok,
        r matches Ok(v) ==> v@ == spec_gzip_encode(data@, level),
{
    let mut encoder = flate2::write::GzEncoder::new(Vec::new(), flate2::Compression::new(level));
    encoder.write_all(data)?;
    encoder.finish()
}

/// Calls `flate2::read::GzDecoder::new` over `data` and `read_to_end` into an
/// empty `Vec`. The result is the one named by `spec_gzip_decode`; on the gzip
/// file that flate2 itself wrote for some bytes at a level of at most 9, the
/// decoder gives those bytes back.
#[verifier::external_body]
fn gzip_decode(data: &[u8]) -> (r: core::result::Result<Vec<u8>, std::io::Error>)
    ensures
        r matches Ok(v) ==> spec_gzip_decode(data@) == Some(v@),
        r is Err ==> spec_gzip_decode(data@) is None,
        forall|orig: Seq<u8>, level: u32|
            (level <= 9 && data@ == spec_gzip_encode(orig, level)) ==> (r is Ok && r->Ok_0@
                == orig),
{
    let mut decoder = flate2::read::GzDecoder::new(data);
    let mut out = Vec::new();
    decoder.read_to_end(&mut out)?;
    Ok(out)
}

/// The compression level a configuration asks for: its level, 6 by default,
/// at most 9.
pub open spec fn spec_level(config: CliConfig) -> u32 {
    let level = match config.level {
        Some(l) => l,
        None => 6,
    };
    if level > 9 {
        9
    } else {
        level
    }
}

/// The compression level a configuration asks for.
pub fn compression_level(config: &CliConfig) -> (level: u32)
    ensures
        level == spec_level(*config),
        level <= 9,
{
    let level = match config.level {
        Some(l) => l,
        None => 6,
    };
    if level > 9 {
        9
    } else {
        level
    }
}

/// Compresses data into the gzip format at the configured level; this always
/// succeeds.
pub fn compress_bytes(input: &[u8], config: &CliConfig) -> (r: core::result::Result<Vec<u8>, Error>)
    ensures
        r is Ok,
        r matches Ok(v) ==> v@ == spec_gzip_encode(input@, spec_level(*config)),
{
    let level = compression_level(config);
    match gzip_encode(input, level) {
        Ok(v) => Ok(v),
        Err(e) => Err(Error::Compression { path: String::from_str("(input)"), message: e.to_string() }),
    }
}

/// Decompresses gzip data.
///
/// Data compressed by [`compress_bytes`] under any configuration comes back
/// unchanged.
pub fn decompress_bytes(input: &[u8]) -> (r: core::result::Result<Vec<u8>, Error>)
    ensures
        r matches Ok(v) ==> spec_gzip_decode(input@) == Some(v@),
        r is Err ==> spec_gzip_decode(input@) is None,
        r matches Err(e) ==> (e matches Error::Decompression { path, .. } && path@ == "(input)"@),
        forall|orig: Seq<u8>, config: CliConfig|
            input@ == #[trigger] spec_gzip_encode(orig, spec_level(config)) ==> (r is Ok
                && r->Ok_0@ == orig),
{
    let r = gzip_decode(input);
    proof {
        assert forall|orig: Seq<u8>, config: CliConfig|
            input@ == #[trigger] spec_gzip_encode(orig, spec_level(config)) implies (r is Ok
            && r->Ok_0@ == orig) by {
            assert(spec_level(config) <= 9);
        }
    }
    match r {
        Ok(v) => Ok(v),
        Err(e) => Err(
            Error::Decompression { path: String::from_str("(input)"), message: e.to_string() },
        ),
    }
}

} // verus!
