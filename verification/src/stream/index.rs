//! XZ stream header and footer flags, and the entries of an index.

use crate::encoder::options::check::{spec_check_id, spec_check_of_id};
use crate::encoder::options::IntegrityCheck;
use crate::error::{Error, Result};
use vstd::prelude::*;

verus! {

/// Size in bytes of an XZ Stream Header and of an XZ Stream Footer.
pub const HEADER_SIZE: usize = 12;

/// `lzma_vli` value `LZMA_VLI_UNKNOWN`.
pub const LZMA_VLI_UNKNOWN: u64 = u64::MAX;

/// The CRC32 (IEEE 802.3) of a byte sequence, as computed by flate2.
pub uninterp spec fn spec_crc32(data: Seq<u8>) -> u32;

/// Calls `flate2::Crc::new`, `update` with all of `data`, then `sum`: the CRC32
/// of `data`. The contract names the result; it does not spell out the CRC32
/// algorithm.
#[verifier::external_body]
fn crc32(data: &[u8]) -> (c: u32)
    ensures
        c == spec_crc32(data@),
{
    let mut crc = flate2::Crc::new();
    crc.update(data);
    crc.sum()
}

/// The little-endian 32-bit number stored in `s` at `off`.
pub open spec fn spec_read32le(s: Seq<u8>, off: int) -> u32 {
    (s[off] as int + s[off + 1] as int * 0x100 + s[off + 2] as int * 0x1_0000
        + s[off + 3] as int * 0x100_0000) as u32
}

fn read32le(s: &[u8; 12], off: usize) -> (v: u32)
    requires
        off + 4 <= 12,
    ensures
        v == spec_read32le(s@, off as int),
{
    s[off] as u32 + s[off + 1] as u32 * 0x100 + s[off + 2] as u32 * 0x1_0000 + s[off + 3] as u32
        * 0x100_0000
}

/// The magic bytes that open an XZ Stream Header.
pub open spec fn spec_header_magic() -> Seq<u8> {
    seq![0xFDu8, 0x37u8, 0x7Au8, 0x58u8, 0x5Au8, 0x00u8]
}

/// The magic bytes that close an XZ Stream Footer.
pub open spec fn spec_footer_magic() -> Seq<u8> {
    seq![0x59u8, 0x5Au8]
}

/// The check identifier held by the two Stream Flags bytes, or `None` when a
/// reserved bit is set.
pub open spec fn spec_stream_flags_check(b0: u8, b1: u8) -> Option<u32> {
    if b0 != 0 || b1 & 0xF0 != 0 {
        None
    } else {
        Some((b1 & 0x0F) as u32)
    }
}

/// What liblzma's `lzma_stream_header_decode` reports for a Stream Header: the
/// check identifier, or the error.
pub open spec fn spec_raw_header(h: Seq<u8>) -> Result<u32> {
    if h.subrange(0, 6) != spec_header_magic() {
        Err(Error::FormatError)
    } else if spec_crc32(h.subrange(6, 8)) != spec_read32le(h, 8) {
        Err(Error::DataError)
    } else {
        match spec_stream_flags_check(h[6], h[7]) {
            Some(id) => Ok(id),
            None => Err(Error::OptionsError),
        }
    }
}

/// What liblzma's `lzma_stream_footer_decode` reports for a Stream Footer: the
/// check identifier and the Backward Size, or the error.
pub open spec fn spec_raw_footer(f: Seq<u8>) -> Result<(u32, u64)> {
    if f.subrange(10, 12) != spec_footer_magic() {
        Err(Error::FormatError)
    } else if spec_crc32(f.subrange(4, 10)) != spec_read32le(f, 0) {
        Err(Error::DataError)
    } else {
        match spec_stream_flags_check(f[8], f[9]) {
            Some(id) => Ok((id, ((spec_read32le(f, 4) as int + 1) * 4) as u64)),
            None => Err(Error::OptionsError),
        }
    }
}

/// Stream flags containing metadata about the stream format.
#[derive(Debug, Clone, Copy, PartialEq, Eq, Structural)]
pub struct StreamFlags {
    /// Stream format version (currently always 0).
    pub version: u32,
    /// Size of the Index field (in the Stream Footer).
    /// Set to `None` when read from Stream Header.
    pub backward_size: Option<u64>,
    /// Integrity check algorithm used for this stream.
    pub check: IntegrityCheck,
}

/// The `lzma_stream_flags` structure.
#[derive(Debug, Clone, Copy, PartialEq, Eq, Structural)]
pub struct RawStreamFlags {
    pub version: u32,
    pub backward_size: u64,
    pub check: u32,
}

/// The flags that a raw structure stands for, if its check is one this wrapper knows.
pub open spec fn spec_flags_of_raw(raw: RawStreamFlags) -> Option<StreamFlags> {
    match spec_check_of_id(raw.check) {
        Some(c) => Some(
            StreamFlags {
                version: raw.version,
                backward_size: if raw.backward_size == LZMA_VLI_UNKNOWN {
                    None
                } else {
                    Some(raw.backward_size)
                },
                check: c,
            },
        ),
        None => None,
    }
}

/// The raw structure that flags are passed to liblzma as.
pub open spec fn spec_raw_of_flags(f: StreamFlags) -> RawStreamFlags {
    RawStreamFlags {
        version: f.version,
        backward_size: match f.backward_size {
            Some(b) => b,
            None => LZMA_VLI_UNKNOWN,
        },
        check: spec_check_id(f.check),
    }
}

/// What `StreamFlags::decode_header` gives for a Stream Header.
pub open spec fn spec_decode_header(h: Seq<u8>) -> Result<StreamFlags> {
    match spec_raw_header(h) {
        Err(e) => Err(e),
        Ok(id) => match spec_check_of_id(id) {
            Some(c) => Ok(StreamFlags { version: 0, backward_size: None, check: c }),
            None => Err(Error::OptionsError),
        },
    }
}

/// What `StreamFlags::decode_footer` gives for a Stream Footer.
pub open spec fn spec_decode_footer(f: Seq<u8>) -> Result<StreamFlags> {
    match spec_raw_footer(f) {
        Err(e) => Err(e),
        Ok((id, backward)) => match spec_check_of_id(id) {
            Some(c) => Ok(StreamFlags { version: 0, backward_size: Some(backward), check: c }),
            None => Err(Error::OptionsError),
        },
    }
}

/// What `StreamFlags::compare_header_footer` gives: the header's error, else the
/// footer's error, else `DataError` when the two name different checks.
pub open spec fn spec_compare_header_footer(h: Seq<u8>, f: Seq<u8>) -> Result<()> {
    match spec_raw_header(h) {
        Err(e) => Err(e),
        Ok(hid) => match spec_raw_footer(f) {
            Err(e) => Err(e),
            Ok((fid, _)) => if hid == fid {
                Ok(())
            } else {
                Err(Error::DataError)
            },
        },
    }
}

fn decode_flags_bytes(b0: u8, b1: u8) -> (r: Option<u32>)
    ensures
        r == spec_stream_flags_check(b0, b1),
{
    if b0 != 0 || b1 & 0xF0 != 0 {
        None
    } else {
        Some((b1 & 0x0F) as u32)
    }
}

/// Decode a Stream Header into its check identifier.
fn raw_header_decode(h: &[u8; 12]) -> (r: Result<u32>)
    ensures
        r == spec_raw_header(h@),
{
    let magic_ok = h[0] == 0xFD && h[1] == 0x37 && h[2] == 0x7A && h[3] == 0x58 && h[4] == 0x5A
        && h[5] == 0x00;
    proof {
        assert(magic_ok <==> h@.subrange(0, 6) =~= spec_header_magic());
    }
    if !magic_ok {
        return Err(Error::FormatError);
    }
    let flags: Vec<u8> = vec![h[6], h[7]];
    proof {
        assert(flags@ =~= h@.subrange(6, 8));
    }
    if crc32(flags.as_slice()) != read32le(h, 8) {
        return Err(Error::DataError);
    }
    match decode_flags_bytes(h[6], h[7]) {
        Some(id) => Ok(id),
        None => Err(Error::OptionsError),
    }
}

/// Decode a Stream Footer into its check identifier and Backward Size.
fn raw_footer_decode(f: &[u8; 12]) -> (r: Result<(u32, u64)>)
    ensures
        r == spec_raw_footer(f@),
{
    let magic_ok = f[10] == 0x59 && f[11] == 0x5A;
    proof {
        assert(magic_ok <==> f@.subrange(10, 12) =~= spec_footer_magic());
    }
    if !magic_ok {
        return Err(Error::FormatError);
    }
    let covered: Vec<u8> = vec![f[4], f[5], f[6], f[7], f[8], f[9]];
    proof {
        assert(covered@ =~= f@.subrange(4, 10));
    }
    if crc32(covered.as_slice()) != read32le(f, 0) {
        return Err(Error::DataError);
    }
    match decode_flags_bytes(f[8], f[9]) {
        Some(id) => {
            let stored = read32le(f, 4);
            let backward: u64 = (stored as u64 + 1) * 4;
            Ok((id, backward))
        },
        None => Err(Error::OptionsError),
    }
}

impl StreamFlags {
    /// Convert from a raw liblzma stream flags structure; `None` for a null
    /// pointer or a check type this wrapper does not know.
    pub fn from_raw(raw: Option<&RawStreamFlags>) -> (r: Option<StreamFlags>)
        ensures
            r == (match raw {
                Some(x) => spec_flags_of_raw(*x),
                None => None,
            }),
    {
        match raw {
            None => None,
            Some(raw) => match IntegrityCheck::try_from(raw.check) {
                Err(_) => None,
                Ok(check) => {
                    let backward_size = if raw.backward_size == LZMA_VLI_UNKNOWN {
                        None
                    } else {
                        Some(raw.backward_size)
                    };
                    Some(StreamFlags { version: raw.version, backward_size, check })
                },
            },
        }
    }

    /// Convert this value into a raw `lzma_stream_flags` structure; an unknown
    /// Backward Size is stored as `LZMA_VLI_UNKNOWN`.
    pub fn to_raw(self) -> (raw: RawStreamFlags)
        ensures
            raw == spec_raw_of_flags(self),
    {
        RawStreamFlags {
            version: self.version,
            backward_size: match self.backward_size {
                Some(b) => b,
                None => LZMA_VLI_UNKNOWN,
            },
            check: self.check.to_raw(),
        }
    }

    /// Decode an XZ Stream Header.
    pub fn decode_header(input: &[u8; 12]) -> (r: Result<StreamFlags>)
        ensures
            r == spec_decode_header(input@),
    {
        let id = raw_header_decode(input)?;
        match IntegrityCheck::try_from(id) {
            Ok(check) => Ok(StreamFlags { version: 0, backward_size: None, check }),
            Err(_) => Err(Error::OptionsError),
        }
    }

    /// Decode an XZ Stream Footer.
    pub fn decode_footer(input: &[u8; 12]) -> (r: Result<StreamFlags>)
        ensures
            r == spec_decode_footer(input@),
    {
        let (id, backward) = raw_footer_decode(input)?;
        match IntegrityCheck::try_from(id) {
            Ok(check) => Ok(StreamFlags { version: 0, backward_size: Some(backward), check }),
            Err(_) => Err(Error::OptionsError),
        }
    }

    /// Decode and compare Stream Header and Stream Footer flags.
    pub fn compare_header_footer(header: &[u8; 12], footer: &[u8; 12]) -> (r: Result<()>)
        ensures
            r == spec_compare_header_footer(header@, footer@),
    {
        let hid = raw_header_decode(header)?;
        let (fid, _) = raw_footer_decode(footer)?;
        if hid == fid {
            Ok(())
        } else {
            Err(Error::DataError)
        }
    }
}

/// Flags that pass through their raw structure come back unchanged, unless
/// their Backward Size is the value that stands for "unknown".
pub proof fn lemma_flags_raw_roundtrip(f: StreamFlags)
    requires
        f.backward_size != Some(LZMA_VLI_UNKNOWN),
    ensures
        spec_flags_of_raw(spec_raw_of_flags(f)) == Some(f),
{
}

/// A decoded footer always carries a Backward Size, a multiple of four of at
/// least four; a decoded header never carries one. Both are of version 0.
pub proof fn lemma_decoded_flags_shape(h: Seq<u8>, f: Seq<u8>)
    ensures
        spec_decode_header(h) matches Ok(flags) ==> flags.version == 0 && flags.backward_size is None,
        spec_decode_footer(f) matches Ok(flags) ==> {
            &&& flags.version == 0
            &&& flags.backward_size matches Some(b) && b >= 4 && b % 4 == 0
        },
{
}

/// A header and a footer that decode to the same check compare equal.
pub proof fn lemma_compare_agrees_with_decoding(h: Seq<u8>, f: Seq<u8>)
    requires
        spec_decode_header(h) is Ok,
        spec_decode_footer(f) is Ok,
    ensures
        spec_compare_header_footer(h, f) is Ok <==> spec_decode_header(h).unwrap().check
            == spec_decode_footer(f).unwrap().check,
{
    let hid = spec_raw_header(h).unwrap();
    let fid = spec_raw_footer(f).unwrap().0;
    crate::encoder::options::check::lemma_check_of_id_inverse(hid);
    crate::encoder::options::check::lemma_check_of_id_inverse(fid);
}

/// Information about a stream stored within an index.
#[derive(Debug, Clone, Copy, PartialEq, Eq, Structural)]
pub struct StreamInfo {
    /// Stream number (1-based).
    pub number: u64,
    /// Number of blocks in the stream.
    pub block_count: u64,
    /// Compressed start offset.
    pub compressed_offset: u64,
    /// Uncompressed start offset.
    pub uncompressed_offset: u64,
    /// Compressed size (without padding).
    pub compressed_size: u64,
    /// Uncompressed size.
    pub uncompressed_size: u64,
    /// Padding size following the stream.
    pub padding: u64,
    /// Stream flags containing format metadata.
    pub flags: Option<StreamFlags>,
}

/// Information about a block stored within an index.
#[derive(Debug, Clone, Copy, PartialEq, Eq, Structural)]
pub struct BlockInfo {
    /// Block number within the current stream (1-based).
    pub number_in_stream: u64,
    /// Block number within the entire file (1-based).
    pub number_in_file: u64,
    /// Compressed start offset within the file.
    pub compressed_file_offset: u64,
    /// Uncompressed start offset within the file.
    pub uncompressed_file_offset: u64,
    /// Total compressed size (including headers).
    pub total_size: u64,
    /// Uncompressed size.
    pub uncompressed_size: u64,
    /// Unpadded size.
    pub unpadded_size: u64,
}

/// Entry returned when walking an index.
#[derive(Debug, Clone, Copy, PartialEq, Eq, Structural)]
pub enum IndexEntry {
    /// Stream entry with its information.
    Stream(StreamInfo),
    /// Block entry with its information.
    Block(BlockInfo),
}

/// Iteration mode when walking an index.
#[derive(Debug, Clone, Copy, PartialEq, Eq, Structural)]
pub enum IndexIterMode {
    /// Iterate over any entry (streams and blocks).
    Any,
    /// Iterate over streams only.
    Stream,
    /// Iterate over blocks only.
    Block,
    /// Iterate over blocks that contain uncompressed data.
    NonEmptyBlock,
}

/// `lzma_index_iter_mode` value `LZMA_INDEX_ITER_ANY`.
pub const LZMA_INDEX_ITER_ANY: u32 = 0;
/// `lzma_index_iter_mode` value `LZMA_INDEX_ITER_STREAM`.
pub const LZMA_INDEX_ITER_STREAM: u32 = 1;
/// `lzma_index_iter_mode` value `LZMA_INDEX_ITER_BLOCK`.
pub const LZMA_INDEX_ITER_BLOCK: u32 = 2;
/// `lzma_index_iter_mode` value `LZMA_INDEX_ITER_NONEMPTY_BLOCK`.
pub const LZMA_INDEX_ITER_NONEMPTY_BLOCK: u32 = 3;

/// The `lzma_index_iter_mode` value of each mode.
pub open spec fn spec_iter_mode_code(m: IndexIterMode) -> u32 {
    match m {
        IndexIterMode::Any => LZMA_INDEX_ITER_ANY,
        IndexIterMode::Stream => LZMA_INDEX_ITER_STREAM,
        IndexIterMode::Block => LZMA_INDEX_ITER_BLOCK,
        IndexIterMode::NonEmptyBlock => LZMA_INDEX_ITER_NONEMPTY_BLOCK,
    }
}

impl IndexIterMode {
    /// The `lzma_index_iter_mode` value of this mode.
    pub fn to_raw(self) -> (code: u32)
        ensures
            code == spec_iter_mode_code(self),
    {
        match self {
            IndexIterMode::Any => LZMA_INDEX_ITER_ANY,
            IndexIterMode::Stream => LZMA_INDEX_ITER_STREAM,
            IndexIterMode::Block => LZMA_INDEX_ITER_BLOCK,
            IndexIterMode::NonEmptyBlock => LZMA_INDEX_ITER_NONEMPTY_BLOCK,
        }
    }
}

impl From<IndexIterMode> for u32 {
    fn from(mode: IndexIterMode) -> (code: u32) {
        mode.to_raw()
    }
}

impl vstd::std_specs::convert::FromSpecImpl<IndexIterMode> for u32 {
    open spec fn obeys_from_spec() -> bool {
        true
    }

    open spec fn from_spec(mode: IndexIterMode) -> u32 {
        spec_iter_mode_code(mode)
    }
}

/// The stream and block records of an `lzma_index_iter`, as liblzma fills them
/// in; `stream_flags` stands for the `flags` pointer (`None` when null).
#[derive(Debug, Clone, Copy, PartialEq, Eq, Structural)]
pub struct RawIndexIter {
    pub stream_flags: Option<RawStreamFlags>,
    pub stream_number: u64,
    pub stream_block_count: u64,
    pub stream_compressed_offset: u64,
    pub stream_uncompressed_offset: u64,
    pub stream_compressed_size: u64,
    pub stream_uncompressed_size: u64,
    pub stream_padding: u64,
    pub block_number_in_file: u64,
    pub block_compressed_file_offset: u64,
    pub block_uncompressed_file_offset: u64,
    pub block_number_in_stream: u64,
    pub block_compressed_stream_offset: u64,
    pub block_uncompressed_stream_offset: u64,
    pub block_uncompressed_size: u64,
    pub block_unpadded_size: u64,
    pub block_total_size: u64,
}

/// The stream information that an iterator position stands for.
pub open spec fn spec_stream_info(r: RawIndexIter) -> StreamInfo {
    StreamInfo {
        number: r.stream_number,
        block_count: r.stream_block_count,
        compressed_offset: r.stream_compressed_offset,
        uncompressed_offset: r.stream_uncompressed_offset,
        compressed_size: r.stream_compressed_size,
        uncompressed_size: r.stream_uncompressed_size,
        padding: r.stream_padding,
        flags: match r.stream_flags {
            Some(raw) => spec_flags_of_raw(raw),
            None => None,
        },
    }
}

/// The block information that an iterator position stands for.
pub open spec fn spec_block_info(r: RawIndexIter) -> BlockInfo {
    BlockInfo {
        number_in_stream: r.block_number_in_stream,
        number_in_file: r.block_number_in_file,
        compressed_file_offset: r.block_compressed_file_offset,
        uncompressed_file_offset: r.block_uncompressed_file_offset,
        total_size: r.block_total_size,
        uncompressed_size: r.block_uncompressed_size,
        unpadded_size: r.block_unpadded_size,
    }
}

/// The entry reported at an iterator position in a mode: a stream entry in
/// stream mode, a block entry in every other mode.
pub open spec fn spec_current_entry(r: RawIndexIter, mode: IndexIterMode) -> IndexEntry {
    match mode {
        IndexIterMode::Stream => IndexEntry::Stream(spec_stream_info(r)),
        _ => IndexEntry::Block(spec_block_info(r)),
    }
}

/// Position of a walk over an index: the iterator records and the mode.
#[derive(Debug, Clone, Copy, PartialEq, Eq, Structural)]
pub struct IndexIterator {
    /// The records liblzma filled in at the current position.
    pub inner: RawIndexIter,
    /// Which entries the walk visits.
    pub mode: IndexIterMode,
}

impl IndexIterator {
    /// An iterator at the given records, walking in the given mode.
    pub fn with_mode(inner: RawIndexIter, mode: IndexIterMode) -> (it: IndexIterator)
        ensures
            it.inner == inner,
            it.mode == mode,
    {
        IndexIterator { inner, mode }
    }

    /// Set the iteration mode for this iterator.
    pub fn set_mode(&mut self, mode: IndexIterMode)
        ensures
            final(self).mode == mode,
            final(self).inner == old(self).inner,
    {
        self.mode = mode;
    }

    /// Information about the current stream entry.
    pub fn stream(&self) -> (s: StreamInfo)
        ensures
            s == spec_stream_info(self.inner),
            s.number == self.inner.stream_number,
            s.block_count == self.inner.stream_block_count,
            s.compressed_offset == self.inner.stream_compressed_offset,
            s.uncompressed_offset == self.inner.stream_uncompressed_offset,
            s.compressed_size == self.inner.stream_compressed_size,
            s.uncompressed_size == self.inner.stream_uncompressed_size,
            s.padding == self.inner.stream_padding,
            self.inner.stream_flags is None ==> s.flags is None,
            self.inner.stream_flags matches Some(raw) ==> (s.flags is Some <==> spec_check_of_id(
                raw.check,
            ) is Some),
            self.inner.stream_flags matches Some(raw) ==> (s.flags matches Some(f) ==> (f.version
                == raw.version && spec_check_id(f.check) == raw.check && (raw.backward_size
                == LZMA_VLI_UNKNOWN ==> f.backward_size is None) && (raw.backward_size
                != LZMA_VLI_UNKNOWN ==> f.backward_size == Some(raw.backward_size)))),
    {
        let flags = StreamFlags::from_raw(self.inner.stream_flags.as_ref());
        StreamInfo {
            number: self.inner.stream_number,
            block_count: self.inner.stream_block_count,
            compressed_offset: self.inner.stream_compressed_offset,
            uncompressed_offset: self.inner.stream_uncompressed_offset,
            compressed_size: self.inner.stream_compressed_size,
            uncompressed_size: self.inner.stream_uncompressed_size,
            padding: self.inner.stream_padding,
            flags,
        }
    }

    /// Information about the current block entry.
    pub fn block(&self) -> (b: BlockInfo)
        ensures
            b == spec_block_info(self.inner),
            b.number_in_stream == self.inner.block_number_in_stream,
            b.number_in_file == self.inner.block_number_in_file,
            b.compressed_file_offset == self.inner.block_compressed_file_offset,
            b.uncompressed_file_offset == self.inner.block_uncompressed_file_offset,
            b.total_size == self.inner.block_total_size,
            b.uncompressed_size == self.inner.block_uncompressed_size,
            b.unpadded_size == self.inner.block_unpadded_size,
    {
        BlockInfo {
            number_in_stream: self.inner.block_number_in_stream,
            number_in_file: self.inner.block_number_in_file,
            compressed_file_offset: self.inner.block_compressed_file_offset,
            uncompressed_file_offset: self.inner.block_uncompressed_file_offset,
            total_size: self.inner.block_total_size,
            uncompressed_size: self.inner.block_uncompressed_size,
            unpadded_size: self.inner.block_unpadded_size,
        }
    }

    /// The entry at the current position, according to the iteration mode.
    pub fn current_entry(&self) -> (e: IndexEntry)
        ensures
            e == spec_current_entry(self.inner, self.mode),
    {
        match self.mode {
            IndexIterMode::Stream => IndexEntry::Stream(self.stream()),
            _ => IndexEntry::Block(self.block()),
        }
    }
}

/// The stream and block information of an iterator position carry each field
/// of liblzma's iterator record under the same name.
pub proof fn lemma_entry_fields_follow_record(r: RawIndexIter)
    ensures
        spec_stream_info(r).number == r.stream_number,
        spec_stream_info(r).block_count == r.stream_block_count,
        spec_stream_info(r).compressed_offset == r.stream_compressed_offset,
        spec_stream_info(r).uncompressed_offset == r.stream_uncompressed_offset,
        spec_stream_info(r).compressed_size == r.stream_compressed_size,
        spec_stream_info(r).uncompressed_size == r.stream_uncompressed_size,
        spec_stream_info(r).padding == r.stream_padding,
        spec_block_info(r).number_in_stream == r.block_number_in_stream,
        spec_block_info(r).number_in_file == r.block_number_in_file,
        spec_block_info(r).compressed_file_offset == r.block_compressed_file_offset,
        spec_block_info(r).uncompressed_file_offset == r.block_uncompressed_file_offset,
        spec_block_info(r).total_size == r.block_total_size,
        spec_block_info(r).uncompressed_size == r.block_uncompressed_size,
        spec_block_info(r).unpadded_size == r.block_unpadded_size,
        r.stream_flags is None ==> spec_stream_info(r).flags is None,
{
}

/// In stream mode the current entry is the stream record; in every other mode
/// it is the block record.
pub proof fn lemma_current_entry_by_mode(r: RawIndexIter, mode: IndexIterMode)
    ensures
        mode == IndexIterMode::Stream ==> (spec_current_entry(r, mode) matches IndexEntry::Stream(
            s,
        ) && s.compressed_offset == r.stream_compressed_offset && s.uncompressed_offset
            == r.stream_uncompressed_offset && s.number == r.stream_number),
        mode != IndexIterMode::Stream ==> (spec_current_entry(r, mode) matches IndexEntry::Block(b)
            && b.compressed_file_offset == r.block_compressed_file_offset
            && b.uncompressed_file_offset == r.block_uncompressed_file_offset
            && b.number_in_file == r.block_number_in_file),
{
}

} // verus!
