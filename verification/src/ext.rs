//! The two effects this library needs from the outside world: fresh post
//! identifiers and the current time. Both results are nondeterministic, so
//! nothing is promised of them; every caller is verified for every value
//! they may return.

use vstd::prelude::*;

verus! {

/// Relies on uuid's `Uuid::new_v4`, converted by `Uuid::as_u128`: a freshly
/// drawn random version-4 UUID as its 128-bit value. The result is random,
/// so nothing is promised of it.
#[verifier::external_body]
pub(crate) fn fresh_post_id() -> u128 {
    uuid::Uuid::new_v4().as_u128()
}

/// Relies on chrono's `Local::now`, rendered by `DateTime::to_rfc3339`: the
/// current local time as an RFC 3339 string. The result depends on the
/// clock, so nothing is promised of it.
#[verifier::external_body]
pub(crate) fn local_now_rfc3339() -> String {
    chrono::Local::now().to_rfc3339()
}

/// Relies on chrono's `Utc::now`, rendered by `DateTime::to_rfc3339`: the
/// current UTC time as an RFC 3339 string. The result depends on the clock,
/// so nothing is promised of it.
#[verifier::external_body]
pub(crate) fn utc_now_rfc3339() -> String {
    chrono::Utc::now().to_rfc3339()
}

} // verus!
