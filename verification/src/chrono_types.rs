//! Declaration of the chrono type that appears in this crate's
//! signatures. The type is opaque here: the crate never looks inside it,
//! it only passes it to and from chrono.

use vstd::prelude::*;

verus! {

/// chrono's timezone-free calendar date.
#[verifier::external_type_specification]
#[verifier::external_body]
pub struct ExNaiveDate(chrono::NaiveDate);

} // verus!
