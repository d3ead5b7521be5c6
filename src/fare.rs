use vstd::prelude::*;
use crate::model::{ParkingHistory, ParkingLot, Timestamp, VehicleType};

verus! {

/// Seconds in one billed hour.
pub const SECONDS_PER_HOUR: i128 = 3600;

/// Hours billed for `elapsed` seconds: every started hour counts as a whole
/// one, and no stay bills less than one hour (zero or negative elapsed time
/// included).
pub open spec fn billed_hours(elapsed: int) -> int {
    if elapsed <= 3600 {
        1
    } else {
        (elapsed + 3599) / 3600
    }
}

/// Hourly rate of a vehicle class in a lot; an unspecified class pays the car
/// rate.
pub open spec fn rate_of(vehicle: VehicleType, lot: ParkingLot) -> u64 {
    match vehicle {
        VehicleType::Motor => lot.motor_cost,
        _ => lot.car_cost,
    }
}

/// Fare owed at `reference` for a stay that began at `check_in`.
pub open spec fn fare_of(hourly: u64, check_in: Timestamp, reference: Timestamp) -> int {
    billed_hours(reference - check_in) * hourly
}

/// Number of hours billed between `check_in` and `reference`.
pub fn hours_billed(check_in: Timestamp, reference: Timestamp) -> (r: u64)
    ensures
        r as int == billed_hours(reference - check_in),
        r >= 1,
{
    let elapsed: i128 = reference as i128 - check_in as i128;
    if elapsed <= SECONDS_PER_HOUR {
        1
    } else {
        let h: i128 = (elapsed + 3599) / SECONDS_PER_HOUR;
        assert(h <= 0x1_0000_0000_0000_0000int / 3600 + 1);
        h as u64
    }
}

/// Flat charge at issuance: the first hour at the vehicle class's rate.
pub fn initial_fare(vehicle: VehicleType, lot: &ParkingLot) -> (r: u64)
    ensures
        r == rate_of(vehicle, *lot),
{
    match vehicle {
        VehicleType::Motor => lot.motor_cost,
        _ => lot.car_cost,
    }
}

/// Fare owed for `hourly` per started hour between `check_in` and
/// `reference`.
pub fn fare_for_rate(hourly: u64, check_in: Timestamp, reference: Timestamp) -> (r: u128)
    ensures
        r as int == fare_of(hourly, check_in, reference),
{
    let h = hours_billed(check_in, reference);
    assert(h as int * hourly as int <= u64::MAX as int * u64::MAX as int) by (nonlinear_arith)
        requires
            h <= u64::MAX,
            hourly <= u64::MAX,
    ;
    assert(0xffff_ffff_ffff_ffffint * 0xffff_ffff_ffff_ffffint <= u128::MAX);
    h as u128 * hourly as u128
}

/// Fare owed at `reference` by a vehicle of class `vehicle` checked into
/// `lot` at `check_in`: the class's hourly rate times the started hours,
/// at least one.
pub fn compute_fare(vehicle: VehicleType, check_in: Timestamp, reference: Timestamp, lot: &ParkingLot) -> (r: u128)
    ensures
        r as int == fare_of(rate_of(vehicle, *lot), check_in, reference),
{
    let rate = initial_fare(vehicle, lot);
    fare_for_rate(rate, check_in, reference)
}

/// Fare a session owes at `now`: its first-hour amount for every started
/// hour from check-in to `now`, at least one hour, so that it grows with the
/// time of the query; `None` while it has no check-in time.
pub open spec fn forecast_of(s: ParkingHistory, now: Timestamp) -> Option<u128> {
    match s.check_in_date {
        Some(c) => Some(fare_of(s.amount, c, now) as u128),
        None => None,
    }
}

/// The fare a session owes at `now`, growing with every started hour.
pub fn forecast_amount(s: &ParkingHistory, now: Timestamp) -> (r: Option<u128>)
    ensures
        r == forecast_of(*s, now),
        r matches Some(x) ==> x as int == fare_of(s.amount, s.check_in_date->0, now),
{
    match s.check_in_date {
        Some(c) => Some(fare_for_rate(s.amount, c, now)),
        None => None,
    }
}

} // verus!
