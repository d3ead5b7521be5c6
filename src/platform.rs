//! The engine's calls into outside crates: fresh identifiers, the clock and
//! the calendar.

use vstd::prelude::*;
use chrono::Datelike;
use rand::Rng;
use crate::model::{Id, Timestamp};

verus! {

/// Relies on `uuid::Uuid::new_v4`: a random version-4 UUID, read as its
/// 128-bit value with `Uuid::as_u128`. Nothing is promised of its value.
#[verifier::external_body]
pub(crate) fn fresh_id() -> (r: Id) {
    uuid::Uuid::new_v4().as_u128()
}

/// Relies on `chrono::Utc::now` and `DateTime::timestamp`: the current time
/// in whole seconds since the Unix epoch. Nothing is promised of its value.
#[verifier::external_body]
pub(crate) fn now_seconds() -> (r: Timestamp) {
    chrono::Utc::now().timestamp()
}

/// Relies on `rand::Rng::gen_range` over `rand::rngs::OsRng`: a number
/// drawn from `low` (included) to `high` (excluded); the range must not be
/// empty.
#[verifier::external_body]
pub(crate) fn draw_between(low: i32, high: i32) -> (r: i32)
    requires
        low < high,
    ensures
        low <= r < high,
{
    rand::rngs::OsRng.gen_range(low..high)
}

/// The UTC calendar year and month of a timestamp, as chrono computes them;
/// `None` outside the range of dates chrono represents.
pub uninterp spec fn civil_month(secs: Timestamp) -> Option<(i32, u32)>;

/// Relies on `chrono::DateTime::from_timestamp` (which returns `None` out of
/// range) and on `Datelike::year` and `Datelike::month` (a month number from
/// 1 to 12).
#[verifier::external_body]
pub(crate) fn calendar_month(secs: Timestamp) -> (r: Option<(i32, u32)>)
    ensures
        r == civil_month(secs),
        r matches Some(ym) ==> 1 <= ym.1 <= 12,
{
    match chrono::DateTime::from_timestamp(secs, 0) {
        Some(d) => Some((d.year(), d.month())),
        None => None,
    }
}

} // verus!
