//! What a viewer answers after writing to its output sink.

use vstd::prelude::*;

verus! {

/// `std::io::Error`, handed through from a viewer to its caller unread.
#[verifier::external_type_specification]
#[verifier::external_body]
pub struct ExIoError(std::io::Error);

/// The result of one write to an output sink.
pub type WriteResult = Result<(), std::io::Error>;

} // verus!
