//! Fresh identifiers for the rows that the service creates.

use vstd::prelude::*;

verus! {

/// `uuid::Uuid::new_v4`, as the 128-bit number that `Uuid::as_u128` gives.
/// The identifier is drawn at random, so nothing is promised of it: two calls
/// may or may not differ.
#[verifier::external_body]
pub(crate) fn fresh_id() -> (id: u128) {
    uuid::Uuid::new_v4().as_u128()
}

} // verus!
