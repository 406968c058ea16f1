//! Expiry of cached shop data, in Unix seconds.
use vstd::prelude::*;

verus! {

/// Seconds left before `expires_at`, or `None` once it has passed.
pub fn remaining_secs(expires_at: i64, now: i64) -> (r: Option<u64>)
    ensures
        expires_at <= now ==> r is None,
        expires_at > now ==> r == Some((expires_at - now) as u64),
{
    if expires_at <= now {
        None
    } else {
        Some((expires_at as i128 - now as i128) as u64)
    }
}

} // verus!
