//! The size decision of the standard allocator handed to liblzma.

use vstd::prelude::*;

verus! {

/// Standard allocator using `malloc`/`free`.
#[derive(Debug, Default, Clone, Copy)]
pub struct StdAllocator;

impl StdAllocator {
    /// How many bytes to request for `nmemb` elements of `size` bytes each:
    /// `None` when the product overflows or is zero, in which case no memory is
    /// requested and the allocation yields a null pointer.
    pub fn alloc_size(&self, nmemb: usize, size: usize) -> (r: Option<usize>)
        ensures
            r matches Some(total) ==> total as int == nmemb as int * size as int && total > 0,
            r is None <==> (nmemb as int * size as int > usize::MAX as int || nmemb as int
                * size as int == 0),
    {
        match nmemb.checked_mul(size) {
            Some(total) => {
                if total > 0 {
                    Some(total)
                } else {
                    None
                }
            },
            None => None,
        }
    }
}

} // verus!
