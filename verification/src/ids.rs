//! Allocation of fresh record identifiers.

use vstd::prelude::*;

verus! {

/// Relies on `uuid::Uuid::new_v4` and the `Display` rendering of `Uuid`:
/// a random version-4 UUID in hyphenated form, which is always 36
/// characters long. The value is random, so nothing more is assumed of it;
/// in particular the store itself checks the id against the records it
/// already holds rather than counting on the draw being fresh.
#[verifier::external_body]
pub(crate) fn fresh_id() -> (r: String)
    ensures
        r@.len() == 36,
{
    uuid::Uuid::new_v4().to_string()
}

} // verus!
