//! What the workflows take from outside: the time and fresh identifiers.
//! The contracts here are believed, not proved.

use vstd::prelude::*;
use crate::models::Clock;

verus! {

/// The version and variant bits of a random (version 4) UUID.
pub open spec fn is_random_uuid(id: u128) -> bool {
    id & 0x0000_0000_0000_f000_c000_0000_0000_0000 == 0x0000_0000_0000_4000_8000_0000_0000_0000
}

/// The seconds of a clock fall within its day, day 719163 being 1 January
/// 1970.
pub open spec fn same_instant(now: Clock) -> bool {
    0 <= now.seconds - (now.day - 719_163) * 86_400 < 86_400
}

/// Calls `uuid::Uuid::new_v4` and hands the identifier on as the 128-bit
/// number that `Uuid::as_u128` gives. Believed of it: the version bits say
/// 4 and the variant bits say RFC 9562. Which identifier comes out is left
/// open; it is drawn from the system's random source, and the call panics
/// where that source fails.
#[verifier::external_body]
pub(crate) fn fresh_txn_group_id() -> (id: u128)
    ensures
        is_random_uuid(id),
{
    uuid::Uuid::new_v4().as_u128()
}

/// Calls `chrono::Utc::now` and hands on the instant as seconds since the
/// Unix epoch (`DateTime::timestamp`) and as the day of the common era of
/// its UTC date (`Datelike::num_days_from_ce`). Believed of it: the seconds
/// fall within that day, day 719163 being 1 January 1970. Which instant
/// comes out is left open. The call panics where the system clock stands
/// before 1970.
#[verifier::external_body]
pub(crate) fn utc_now() -> (now: Clock)
    ensures
        same_instant(now),
{
    let instant = chrono::Utc::now();
    Clock {
        seconds: instant.timestamp(),
        day: chrono::Datelike::num_days_from_ce(&instant.date_naive()),
    }
}

} // verus!
