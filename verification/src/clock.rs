//! Trusted wrappers around the session clock of the `instant` crate
//! (`std::time::Instant` on native targets).  The marker is opaque and
//! what the clock returns depends on the moment of the call, so nothing
//! is promised of these values; the rendering of a duration is verified
//! separately in `text`.

use vstd::prelude::*;

verus! {

#[verifier::external_type_specification]
#[verifier::external_body]
pub struct ExInstant(instant::Instant);

/// Relies on `instant::Instant::now`: an opaque marker of the moment of
/// the call.
#[verifier::external_body]
pub(crate) fn instant_now() -> instant::Instant {
    instant::Instant::now()
}

/// Relies on `Instant::elapsed` and `Duration::as_secs`: the whole
/// seconds since the marker, which depend on the clock.
#[verifier::external_body]
pub(crate) fn elapsed_whole_seconds(t: &instant::Instant) -> u64 {
    t.elapsed().as_secs()
}

} // verus!
