//! Wall-clock time in milliseconds.

use std::time::{SystemTime, UNIX_EPOCH};
use vstd::prelude::*;

verus! {

#[verifier::external_type_specification]
#[verifier::external_body]
pub struct ExSystemTime(SystemTime);

/// Relies on `SystemTime::now`: the current reading of the system clock.
/// It depends on the clock, so nothing is stated about it.
#[verifier::external_body]
fn system_now() -> SystemTime {
    SystemTime::now()
}

/// Relies on `SystemTime::duration_since(UNIX_EPOCH)`: the time from the
/// epoch to `t` as whole seconds and the nanoseconds beyond them
/// (`Duration::as_secs`, `Duration::subsec_nanos`, the latter always below
/// one billion), or `None` when `t` lies before the epoch.
#[verifier::external_body]
fn since_epoch(t: &SystemTime) -> (r: Option<(u64, u32)>)
    ensures
        r matches Some((s, n)) ==> n < 1_000_000_000,
{
    t.duration_since(UNIX_EPOCH).ok().map(|d| (d.as_secs(), d.subsec_nanos()))
}

/// Whole milliseconds of a time since the epoch given as seconds and
/// nanoseconds; a time before the epoch (`None`) counts as 0.
pub open spec fn millis_of(since: Option<(u64, u32)>) -> u128 {
    match since {
        Some((s, n)) => (s as u128 * 1000 + (n / 1_000_000) as u128) as u128,
        None => 0,
    }
}

/// Largest value `millis_of` takes on a valid time.
pub const MAX_MILLIS: u128 = 18446744073709551615999;

/// Whole milliseconds of a time since the epoch, given as seconds and the
/// nanoseconds beyond them; a time before the epoch (`None`) reads 0.
pub fn millis_since_epoch(since: Option<(u64, u32)>) -> (r: u128)
    requires
        since matches Some((s, n)) ==> n < 1_000_000_000,
    ensures
        r == millis_of(since),
        r <= MAX_MILLIS,
{
    match since {
        Some((s, n)) => {
            assert(s as u128 * 1000 <= 18446744073709551615000) by (nonlinear_arith)
                requires s <= u64::MAX;
            s as u128 * 1000 + (n / 1_000_000) as u128
        },
        None => 0,
    }
}

/// A later time since the epoch never reads fewer milliseconds.
pub proof fn lemma_millis_monotone(a: Option<(u64, u32)>, b: Option<(u64, u32)>)
    requires
        a matches Some((s, n)) ==> n < 1_000_000_000,
        b matches Some((s, n)) ==> n < 1_000_000_000,
        a matches Some((sa, na)) ==> (b matches Some((sb, nb)) && (sa < sb || (sa == sb
            && na <= nb))),
    ensures
        millis_of(a) <= millis_of(b),
{
    if let Some((sa, na)) = a {
        if let Some((sb, nb)) = b {
            if sa < sb {
                assert(sa as u128 * 1000 + 1000 <= sb as u128 * 1000) by (nonlinear_arith)
                    requires sa < sb;
                assert(na / 1_000_000 < 1000);
            } else {
                assert(na / 1_000_000 <= nb / 1_000_000) by (nonlinear_arith)
                    requires na <= nb;
            }
        }
    }
}

/// Milliseconds since the Unix epoch by the system clock; a clock set before
/// the epoch reads 0.
pub fn timestamp() -> (r: u128)
    ensures
        r <= MAX_MILLIS,
{
    millis_since_epoch(since_epoch(&system_now()))
}

} // verus!
