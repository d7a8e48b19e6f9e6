//! Deadlines: how long a transfer may live, when it ends, and on which side
//! of the deadline an instant lies.

use vstd::prelude::*;

use crate::error::ErrorCode;

verus! {

/// The longest lifetime of a transfer: seven days, in seconds.
pub const MAX_EXPIRY_SECONDS: i64 = 604_800;

/// The shortest lifetime of a transfer: one hour, in seconds.
pub const MIN_EXPIRY_SECONDS: i64 = 3_600;

/// Whether a lifetime given in hours lies within the allowed window.
pub open spec fn valid_expiry_hours(expiry_hours: i64) -> bool {
    MIN_EXPIRY_SECONDS <= expiry_hours * 3600 <= MAX_EXPIRY_SECONDS
}

/// The deadline of a transfer created at `now` that lives `expiry_hours`
/// hours, or the reason for which there is none.
pub open spec fn expiry_at(now: i64, expiry_hours: i64) -> Result<i64, ErrorCode> {
    if !valid_expiry_hours(expiry_hours) {
        Err(ErrorCode::InvalidExpiry)
    } else if now + expiry_hours * 3600 > i64::MAX {
        Err(ErrorCode::Overflow)
    } else {
        Ok((now + expiry_hours * 3600) as i64)
    }
}

/// Whether the deadline `expiry` has been reached at `now`. The deadline
/// itself counts as reached.
pub open spec fn expired_at(now: i64, expiry: i64) -> bool {
    now >= expiry
}

/// Computes the deadline of a transfer created at `now`.
///
/// The lifetime is validated before it is added to `now`, and the addition
/// is checked: a deadline that would not fit the timestamp is an error, never
/// a wrapped value.
pub fn compute_expiry(now: i64, expiry_hours: i64) -> (deadline: Result<i64, ErrorCode>)
    ensures
        deadline == expiry_at(now, expiry_hours),
{
    let expiry_seconds = match expiry_hours.checked_mul(3600) {
        Some(seconds) => seconds,
        None => {
            return Err(ErrorCode::InvalidExpiry);
        },
    };
    if expiry_seconds < MIN_EXPIRY_SECONDS || expiry_seconds > MAX_EXPIRY_SECONDS {
        return Err(ErrorCode::InvalidExpiry);
    }
    match now.checked_add(expiry_seconds) {
        Some(deadline) => Ok(deadline),
        None => Err(ErrorCode::Overflow),
    }
}

/// Whether the deadline `expiry` has been reached at `now`.
pub fn is_expired(now: i64, expiry: i64) -> (expired: bool)
    ensures
        expired == expired_at(now, expiry),
{
    now >= expiry
}

/// The allowed lifetimes are the whole hours from 1 to 168.
pub proof fn lemma_valid_expiry_hours(expiry_hours: i64)
    ensures
        valid_expiry_hours(expiry_hours) <==> 1 <= expiry_hours <= 168,
{
}

/// A deadline that was computed lies after the moment of creation, by a
/// lifetime within the allowed window.
pub proof fn lemma_expiry_after_now(now: i64, expiry_hours: i64)
    requires
        expiry_at(now, expiry_hours) is Ok,
    ensures
        now < expiry_at(now, expiry_hours)->Ok_0,
        MIN_EXPIRY_SECONDS <= expiry_at(now, expiry_hours)->Ok_0 - now <= MAX_EXPIRY_SECONDS,
{
}

/// An allowed lifetime whose end does not fit the timestamp is refused as
/// an overflow, whatever else holds.
pub proof fn lemma_expiry_overflow(now: i64, expiry_hours: i64)
    requires
        valid_expiry_hours(expiry_hours),
        now + expiry_hours * 3600 > i64::MAX,
    ensures
        expiry_at(now, expiry_hours) == Err::<i64, ErrorCode>(ErrorCode::Overflow),
{
}

} // verus!
