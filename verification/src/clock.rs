use vstd::prelude::*;

verus! {

#[verifier::external_type_specification]
#[verifier::external_body]
pub struct ExInstant(std::time::Instant);

/// Relies on std::time::Instant::now: an opaque reading of the monotonic
/// clock. The value depends on the time of the call, so nothing is promised
/// of it.
#[verifier::external_body]
pub(crate) fn instant_now() -> std::time::Instant {
    std::time::Instant::now()
}

/// Relies on Instant's Ord: whether `now` is at or past `trigger`. The
/// instants are opaque, so nothing is promised of the answer.
#[verifier::external_body]
pub(crate) fn instant_reached(now: &std::time::Instant, trigger: &std::time::Instant) -> bool {
    *now >= *trigger
}

/// Relies on Instant::checked_add: the instant moved forward by `nanos`
/// nanoseconds, or nothing when that overflows the clock's range. The
/// argument is converted with Duration::from_nanos.
#[verifier::external_body]
pub(crate) fn instant_plus_nanos(t: &std::time::Instant, nanos: u64) -> Option<std::time::Instant> {
    t.checked_add(std::time::Duration::from_nanos(nanos))
}

} // verus!
