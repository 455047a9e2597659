//! Lengths of time: what the library reads of a `std::time::Duration`.
//!
//! A `Duration` is a count of whole seconds and a count of nanoseconds below
//! one second. The library speaks of its length as one number of nanoseconds.

use std::time::Duration;
use vstd::prelude::*;

verus! {

/// Nanoseconds in one second.
pub const NANOS_PER_SEC: u32 = 1_000_000_000;

/// The length of `d` in nanoseconds: what `Duration::as_nanos` gives, the
/// whole seconds and the nanoseconds below a second taken together.
pub uninterp spec fn duration_nanos(d: Duration) -> nat;

/// `Duration::as_secs`: the whole seconds in `d`, the part below one second
/// left out.
#[verifier::external_body]
pub(crate) fn whole_secs(d: &Duration) -> (secs: u64)
    ensures
        secs == duration_nanos(*d) / (NANOS_PER_SEC as nat),
{
    d.as_secs()
}

/// `Duration::subsec_nanos`: the part of `d` below one second, in
/// nanoseconds.
#[verifier::external_body]
pub(crate) fn nanos_below_sec(d: &Duration) -> (nanos: u32)
    ensures
        nanos == duration_nanos(*d) % (NANOS_PER_SEC as nat),
{
    d.subsec_nanos()
}

/// `Duration::new` on a count of nanoseconds below one second, where nothing
/// is carried into the seconds: the length is `secs` seconds and `nanos`
/// nanoseconds.
#[verifier::external_body]
pub(crate) fn from_parts(secs: u64, nanos: u32) -> (d: Duration)
    requires
        nanos < NANOS_PER_SEC,
    ensures
        duration_nanos(d) == secs * NANOS_PER_SEC + nanos,
{
    Duration::new(secs, nanos)
}

/// The most nanoseconds a `Duration` can hold: all the seconds that 64 bits
/// count, and one nanosecond less than a second more.
pub open spec fn longest_nanos() -> nat {
    18_446_744_073_709_551_615_999_999_999
}

/// The length of `d` in nanoseconds.
pub fn nanos_of(d: &Duration) -> (nanos: u128)
    ensures
        nanos == duration_nanos(*d),
        nanos <= longest_nanos(),
{
    let secs: u64 = whole_secs(d);
    let below: u32 = nanos_below_sec(d);
    (secs as u128) * (NANOS_PER_SEC as u128) + (below as u128)
}

/// A length of `secs` whole seconds.
pub fn seconds(secs: u64) -> (d: Duration)
    ensures
        duration_nanos(d) == secs * NANOS_PER_SEC,
{
    from_parts(secs, 0)
}

/// Whether `a` is no longer than `b`.
pub fn no_longer(a: &Duration, b: &Duration) -> (le: bool)
    ensures
        le == (duration_nanos(*a) <= duration_nanos(*b)),
{
    nanos_of(a) <= nanos_of(b)
}

} // verus!
