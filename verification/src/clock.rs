//! Wall-clock time: seconds since the Unix epoch, and identifiers stamped
//! with the current time in nanoseconds.
use vstd::prelude::*;
use vstd::string::*;
use std::time::{Duration, SystemTime};
use crate::num::{decimal, decimal_string};

verus! {

#[verifier::external_type_specification]
#[verifier::external_body]
pub struct ExSystemTime(SystemTime);

/// `SystemTime::now`: the current time of the system clock.  Nothing is
/// stated of it; it depends on the clock.
#[verifier::external_body]
fn system_now() -> (r: SystemTime) {
    SystemTime::now()
}

/// `SystemTime::duration_since(UNIX_EPOCH)`: how long after the Unix epoch
/// `t` lies, or `None` when `t` lies before it.  Nothing is stated of the
/// result; `t` is opaque here.
#[verifier::external_body]
fn duration_since_epoch(t: &SystemTime) -> (r: Option<Duration>) {
    t.duration_since(std::time::UNIX_EPOCH).ok()
}

/// `Duration::as_secs`: the whole seconds of a duration.  Nothing is stated
/// of the result; the duration is opaque here.
#[verifier::external_body]
fn duration_secs(d: &Duration) -> (r: u64) {
    d.as_secs()
}

/// `Duration::as_nanos`: a duration in nanoseconds.  Nothing is stated of
/// the result; the duration is opaque here.
#[verifier::external_body]
fn duration_nanos(d: &Duration) -> (r: u128) {
    d.as_nanos()
}

/// The seconds since the epoch as a signed 64-bit integer, given the whole
/// seconds when the clock reads after the epoch: the bits of the unsigned
/// count taken as signed, or 0 when the clock reads before the epoch.
pub fn epoch_seconds_of(secs: Option<u64>) -> (r: i64)
    ensures
        r == match secs {
            Some(s) => s as i64,
            None => 0i64,
        },
{
    match secs {
        Some(s) => s as i64,
        None => 0,
    }
}

/// The current time in whole seconds since the Unix epoch, or 0 when the
/// clock reads before the epoch.  Every `i64` can come back, since the
/// result rests on the clock; `epoch_seconds_of` states how the clock's
/// reading becomes the result.
pub fn current_epoch_seconds() -> (r: i64) {
    let now = system_now();
    let secs = match duration_since_epoch(&now) {
        Some(d) => Some(duration_secs(&d)),
        None => None,
    };
    epoch_seconds_of(secs)
}

/// The identifier made of `prefix`, a `-` and a count of nanoseconds.
pub open spec fn stamped_id(prefix: Seq<char>, nanos: nat) -> Seq<char> {
    prefix + seq!['-'] + decimal(nanos)
}

/// The identifier made of `prefix`, a `-` and the decimal count `nanos`.
pub fn id_with_stamp(prefix: &str, nanos: u128) -> (r: String)
    ensures
        r@ == stamped_id(prefix@, nanos as nat),
{
    proof {
        reveal_strlit("-");
    }
    let mut s = String::from_str(prefix);
    s.append("-");
    let digits = decimal_string(nanos);
    s.append(digits.as_str());
    s
}

/// A new identifier: `prefix`, a `-`, and the current time in nanoseconds
/// since the Unix epoch (0 when the clock reads before the epoch).
pub fn generate_id(prefix: &str) -> (r: String)
    ensures
        exists|n: nat| r@ == stamped_id(prefix@, n),
{
    let now = system_now();
    let nanos: u128 = match duration_since_epoch(&now) {
        Some(d) => duration_nanos(&d),
        None => 0,
    };
    id_with_stamp(prefix, nanos)
}

} // verus!
