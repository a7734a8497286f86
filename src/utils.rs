//! Reading the acting user's id from a token, and checking stored times.

use vstd::prelude::*;
use chrono::{NaiveDate, NaiveTime};
use crate::decimal::{i64_of, parse_i64};
use crate::error::{api_error, ApiError, Status};
use crate::guards::JwtAuth;
use crate::models::UtcDateTime;

verus! {

pub open spec fn is_leap_year(y: int) -> bool {
    (y % 4 == 0 && y % 100 != 0) || y % 400 == 0
}

pub open spec fn days_in_month(y: int, m: int) -> int {
    if m == 2 {
        if is_leap_year(y) {
            29
        } else {
            28
        }
    } else if m == 4 || m == 6 || m == 9 || m == 11 {
        30
    } else {
        31
    }
}

/// A calendar date of the proleptic Gregorian calendar within the years that
/// chrono's `NaiveDate` holds.
pub open spec fn valid_date(y: int, m: int, d: int) -> bool {
    -262143 <= y <= 262142 && 1 <= m <= 12 && 1 <= d <= days_in_month(y, m)
}

/// A time of day to the second, without leap seconds.
pub open spec fn valid_time(h: int, m: int, s: int) -> bool {
    h < 24 && m < 60 && s < 60
}

pub open spec fn valid_date_time(t: UtcDateTime) -> bool {
    valid_date(t.year as int, t.month as int, t.day as int) && valid_time(
        t.hour as int,
        t.minute as int,
        t.second as int,
    )
}

/// Relies on `chrono::NaiveDate::from_ymd_opt`: `Some` exactly for a date of
/// the Gregorian calendar between the years -262143 and 262142.
#[verifier::external_body]
fn chrono_date_exists(year: i32, month: u32, day: u32) -> (r: bool)
    ensures
        r == valid_date(year as int, month as int, day as int),
{
    NaiveDate::from_ymd_opt(year, month, day).is_some()
}

/// Relies on `chrono::NaiveTime::from_hms_opt`: `Some` exactly for an hour
/// under 24, a minute under 60 and a second under 60.
#[verifier::external_body]
fn chrono_time_exists(hour: u32, minute: u32, second: u32) -> (r: bool)
    ensures
        r == valid_time(hour as int, minute as int, second as int),
{
    NaiveTime::from_hms_opt(hour, minute, second).is_some()
}

/// The acting user's id: the token's subject read as a decimal `i64`; a
/// subject that is no such number is `Unauthorized`.
pub fn parse_user_id(user: JwtAuth) -> (r: Result<i64, ApiError>)
    ensures
        match i64_of(user.claims.sub@) {
            Some(id) => r matches Ok(v) && v == id,
            None => r matches Err(e) && e.status == Status::Unauthorized
                && e.body.error@ == "Invalid user ID in token"@,
        },
{
    match parse_i64(user.claims.sub.as_str()) {
        Some(id) => Ok(id),
        None => Err(api_error(Status::Unauthorized, "Invalid user ID in token")),
    }
}

/// Checks a stored date and time as a UTC instant; one that names no real
/// date or time of day is a store failure, reported as an internal error.
pub fn parse_date(stored: UtcDateTime) -> (r: Result<UtcDateTime, ApiError>)
    ensures
        valid_date_time(stored) ==> (r matches Ok(t) && t == stored),
        !valid_date_time(stored) ==> (r matches Err(e) && e.status == Status::InternalServerError
            && e.body.error@ == "Database error"@),
{
    if !chrono_date_exists(stored.year, stored.month as u32, stored.day as u32) {
        return Err(api_error(Status::InternalServerError, "Database error"));
    }
    if !chrono_time_exists(stored.hour as u32, stored.minute as u32, stored.second as u32) {
        return Err(api_error(Status::InternalServerError, "Database error"));
    }
    Ok(stored)
}

} // verus!
