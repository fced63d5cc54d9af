//! The wall clock.

use vstd::prelude::*;

verus! {

/// `chrono::Utc::now`, as microseconds since the Unix epoch
/// (`DateTime::timestamp_micros`). Nothing is claimed of the value: two
/// readings need not even be ordered.
#[verifier::external_body]
pub(crate) fn now_micros() -> i64 {
    chrono::Utc::now().timestamp_micros()
}

} // verus!
