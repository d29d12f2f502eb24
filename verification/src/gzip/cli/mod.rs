//! Command-line parsing of the gzip, gunzip and zcat tools.

pub mod gunzip_args;
pub mod gzip_args;
pub mod zcat_args;

use crate::text::str_eq;
use vstd::prelude::*;

verus! {

/// The files named so far, as text.
pub open spec fn spec_file_views(files: Seq<String>) -> Seq<Seq<char>> {
    files.map_values(|f: String| f@)
}

/// Whether an argument is one of two spellings of an option.
pub fn is_option(arg: &str, short: &str, long: &str) -> (b: bool)
    ensures
        b == (arg@ == short@ || arg@ == long@),
{
    str_eq(arg, short) || str_eq(arg, long)
}

/// Record a file argument.
pub fn push_file(files: &mut Vec<String>, arg: &String)
    ensures
        spec_file_views(final(files)@) == spec_file_views(old(files)@).push(arg@),
{
    let ghost before = files@;
    files.push(arg.clone());
    proof {
        assert(spec_file_views(files@) =~= spec_file_views(before).push(arg@));
    }
}

} // verus!
