//! The types of reqwest that pass through the library.

use vstd::prelude::*;

verus! {

/// `reqwest::blocking::Response`: an answer of the service, with its body
/// yet to be read. Nothing of what one holds is known to the contracts.
#[verifier::external_type_specification]
#[verifier::external_body]
pub struct ExResponse(reqwest::blocking::Response);

} // verus!
