use vstd::prelude::*;

verus! {

#[verifier::external_type_specification]
#[verifier::external_body]
pub struct ExInstant(std::time::Instant);

/// Relies on `std::time::Instant::now`: a reading of the monotonic clock.
#[verifier::external_body]
pub(crate) fn clock_now() -> (r: std::time::Instant) {
    std::time::Instant::now()
}

/// Relies on `std::time::Instant::elapsed`: the time passed since `start`.
#[verifier::external_body]
pub(crate) fn clock_elapsed(start: &std::time::Instant) -> (r: std::time::Duration) {
    start.elapsed()
}

/// Relies on `std::time::Duration::as_nanos`: the whole nanoseconds that `d` holds.
#[verifier::external_body]
pub(crate) fn whole_nanos(d: &std::time::Duration) -> (r: u128) {
    d.as_nanos()
}

/// `n`, saturating at `u64::MAX`.
pub fn saturating_nanos(n: u128) -> (r: u64)
    ensures
        n <= u64::MAX ==> r == n,
        n > u64::MAX ==> r == u64::MAX,
{
    if n > u64::MAX as u128 {
        u64::MAX
    } else {
        n as u64
    }
}

/// Nanoseconds passed since `start`, saturating at `u64::MAX`.
pub fn nanos_since(start: &std::time::Instant) -> (r: u64) {
    saturating_nanos(whole_nanos(&clock_elapsed(start)))
}

} // verus!
