//! What this crate reads of a `std::time::Duration`.

use std::time::Duration;
use vstd::prelude::*;

verus! {

/// Nanoseconds in one second.
pub const NANOS_PER_SEC: u32 = 1_000_000_000;

/// The whole seconds that a duration holds: what `Duration::as_secs` returns.
pub uninterp spec fn duration_secs(d: Duration) -> u64;

/// The part of a duration below one second, in nanoseconds: what
/// `Duration::subsec_nanos` returns.
pub uninterp spec fn duration_subsec_nanos(d: Duration) -> u32;

/// `Duration::as_secs` is trusted to return the duration's whole seconds,
/// the same for the same duration every time.
pub assume_specification[ Duration::as_secs ](d: &Duration) -> (secs: u64)
    ensures
        secs == duration_secs(*d),
;

/// `Duration::subsec_nanos` is trusted to return the fractional part of the
/// duration in nanoseconds, which std documents to be below one billion.
pub assume_specification[ Duration::subsec_nanos ](d: &Duration) -> (nanos: u32)
    ensures
        nanos == duration_subsec_nanos(*d),
        nanos < NANOS_PER_SEC,
;

/// The fractional part of a duration is less than a second.
pub open spec fn duration_wf(d: Duration) -> bool {
    duration_subsec_nanos(d) < NANOS_PER_SEC
}

/// The length of a duration in nanoseconds.
pub open spec fn duration_nanos(d: Duration) -> nat {
    (duration_secs(d) as nat) * (NANOS_PER_SEC as nat) + (duration_subsec_nanos(d) as nat)
}

/// A duration of no length at all.
pub open spec fn duration_is_zero(d: Duration) -> bool {
    duration_secs(d) == 0 && duration_subsec_nanos(d) == 0
}

/// Whether a duration has no length.
pub fn is_zero(d: &Duration) -> (zero: bool)
    ensures
        zero == duration_is_zero(*d),
        zero == (duration_nanos(*d) == 0),
{
    d.as_secs() == 0 && d.subsec_nanos() == 0
}

/// The length of a duration in nanoseconds.
pub fn total_nanos(d: &Duration) -> (nanos: u128)
    ensures
        nanos == duration_nanos(*d),
{
    let secs: u64 = d.as_secs();
    let sub: u32 = d.subsec_nanos();
    assert((secs as nat) * (NANOS_PER_SEC as nat) <= 0xffff_ffff_ffff_ffff * 1_000_000_000) by (nonlinear_arith)
        requires
            secs <= 0xffff_ffff_ffff_ffff,
            NANOS_PER_SEC == 1_000_000_000,
    ;
    (secs as u128) * 1_000_000_000 + (sub as u128)
}

} // verus!
