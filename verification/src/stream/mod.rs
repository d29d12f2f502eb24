//! Stream-level metadata: XZ stream header and footer flags, and the entries
//! reported when walking an index.

pub mod allocator;
pub mod index;

pub use allocator::StdAllocator;
pub use index::{
    BlockInfo, IndexEntry, IndexIterMode, IndexIterator, RawIndexIter, StreamFlags, StreamInfo,
    HEADER_SIZE,
};
