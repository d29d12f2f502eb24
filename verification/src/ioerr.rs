//! Declaration of `std::io::Error`, which some results carry.

use vstd::prelude::*;

verus! {

/// Declares `std::io::Error` so that verified code can hold and return it.
#[verifier::external_type_specification]
#[verifier::external_body]
pub struct ExIoError(std::io::Error);

} // verus!
