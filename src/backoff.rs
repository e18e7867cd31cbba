//! The parts of `tokio_retry2::strategy::ExponentialBackoff` that the plans use.
//!
//! The backoff is opaque to Verus; its state is described through the names
//! below, which follow the struct's own fields (`current`, `base`, `factor`,
//! `max_delay`).
use tokio_retry2::strategy::ExponentialBackoff;
use vstd::prelude::*;

verus! {

/// `x`, or `u64::MAX` where `x` does not fit in a `u64`.
pub open spec fn saturate(x: int) -> int {
    if x > u64::MAX {
        u64::MAX as int
    } else {
        x
    }
}

#[verifier::external_type_specification]
#[verifier::external_body]
pub struct ExExponentialBackoff(ExponentialBackoff);

/// The power of the base that the backoff multiplies by its factor on the next step.
pub uninterp spec fn backoff_current(b: ExponentialBackoff) -> u64;

/// The base that the backoff multiplies its current power by after each step.
pub uninterp spec fn backoff_base(b: ExponentialBackoff) -> u64;

/// The factor that each delay is scaled by.
pub uninterp spec fn backoff_factor(b: ExponentialBackoff) -> u64;

/// Whether the backoff has no maximum delay set.
pub uninterp spec fn backoff_uncapped(b: ExponentialBackoff) -> bool;

/// Relies on `ExponentialBackoff::from_millis`: it starts at `base`, with factor 1
/// and no maximum delay.
pub assume_specification[ ExponentialBackoff::from_millis ](base: u64) -> (r: ExponentialBackoff)
    ensures
        backoff_current(r) == base,
        backoff_base(r) == base,
        backoff_factor(r) == 1,
        backoff_uncapped(r),
;

/// Relies on `ExponentialBackoff::factor`: it replaces the factor and keeps the rest.
pub assume_specification[ ExponentialBackoff::factor ](
    b: ExponentialBackoff,
    factor: u64,
) -> (r: ExponentialBackoff)
    ensures
        backoff_current(r) == backoff_current(b),
        backoff_base(r) == backoff_base(b),
        backoff_factor(r) == factor,
        backoff_uncapped(r) == backoff_uncapped(b),
;

/// Relies on `<ExponentialBackoff as Iterator>::next`: without a maximum delay it
/// always yields `current * factor` milliseconds (saturating at `u64::MAX`), then
/// multiplies `current` by the base (saturating likewise).
/// The `Duration` it yields was made by `Duration::from_millis`, so reading it back
/// with `as_millis` gives that `u64` again.
#[verifier::external_body]
pub(crate) fn next_delay_millis(b: &mut ExponentialBackoff) -> (r: Option<u64>)
    requires
        backoff_uncapped(*old(b)),
    ensures
        r == Some(
            saturate(backoff_current(*old(b)) * backoff_factor(*old(b))) as u64,
        ),
        backoff_current(*final(b)) == saturate(backoff_current(*old(b)) * backoff_base(*old(b))),
        backoff_base(*final(b)) == backoff_base(*old(b)),
        backoff_factor(*final(b)) == backoff_factor(*old(b)),
        backoff_uncapped(*final(b)),
{
    b.next().map(|d| d.as_millis() as u64)
}

} // verus!
