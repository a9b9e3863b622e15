//! The signing key a realm advertises: its id names the realm, and it is
//! valid for a year from the moment it is listed.
use vstd::prelude::*;
use vstd::string::*;

verus! {

/// `x` held to the range of `i64`, as saturating arithmetic does.
pub open spec fn clamp_i64(x: int) -> int {
    if x > i64::MAX {
        i64::MAX as int
    } else if x < i64::MIN {
        i64::MIN as int
    } else {
        x
    }
}

/// One year in milliseconds.
pub const KEY_LIFETIME_MILLIS: i64 = 31_536_000_000;

/// The end of a key's validity in milliseconds, listed at `now_seconds`:
/// the time in milliseconds plus a year, each step saturating.
pub open spec fn key_expiry(now_seconds: int) -> int {
    clamp_i64(clamp_i64(now_seconds * 1000) + KEY_LIFETIME_MILLIS)
}

/// The end of a key's validity in milliseconds.
pub fn key_valid_to(now_seconds: i64) -> (r: i64)
    ensures
        r == key_expiry(now_seconds as int),
{
    let millis: i64 = match now_seconds.checked_mul(1000) {
        Some(m) => m,
        None => if now_seconds > 0 {
            i64::MAX
        } else {
            i64::MIN
        },
    };
    match millis.checked_add(KEY_LIFETIME_MILLIS) {
        Some(v) => v,
        None => i64::MAX,
    }
}

/// The id of a realm's key: `rsa-` and the realm's name.
pub open spec fn key_id_of(realm: Seq<char>) -> Seq<char> {
    "rsa-"@ + realm
}

/// The id of a realm's key.
pub fn key_id(realm: &str) -> (r: String)
    ensures
        r@ == key_id_of(realm@),
{
    let mut id = String::from_str("rsa-");
    id.append(realm);
    id
}

} // verus!
