use vstd::prelude::*;

verus! {

/// Relies on chrono's `Utc::now`, converted with `timestamp_millis`: the current
/// wall-clock instant as milliseconds since the Unix epoch. The value depends on
/// the machine's clock, so nothing is promised of it.
#[verifier::external_body]
pub(crate) fn now_millis() -> i64 {
    chrono::Utc::now().timestamp_millis()
}

} // verus!
