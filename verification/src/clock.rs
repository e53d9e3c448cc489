//! The wall clock that timestamps records.

use vstd::prelude::*;

verus! {

/// Relies on `chrono::Utc::now` and `DateTime::timestamp_millis`: the
/// current time as milliseconds since the Unix epoch. The clock can move
/// arbitrarily between calls, so nothing is assumed of the value; the store
/// keeps each record's timestamps ordered on its own.
#[verifier::external_body]
pub(crate) fn now_millis() -> i64 {
    chrono::Utc::now().timestamp_millis()
}

} // verus!
