//! The RSVP deadline: answers are taken only before the configured date.
use vstd::prelude::*;
use chrono::Datelike;
use std::str::FromStr;
use crate::auth::token::unix_now;

verus! {

/// A day of the calendar.
#[derive(Debug, Clone, Copy, PartialEq, Eq, Structural)]
pub struct CalendarDate {
    pub year: i32,
    pub month: u32,
    pub day: u32,
}

/// `d` has a month from 1 to 12 and a day from 1 to 31.
pub open spec fn plausible_date(d: CalendarDate) -> bool {
    1 <= d.month <= 12 && 1 <= d.day <= 31
}

/// The date `chrono::NaiveDate::from_str` reads from `s` (format `%Y-%m-%d`),
/// as year, month and day; `None` where it refuses `s`.
pub uninterp spec fn naive_date_from_str(s: Seq<char>) -> Option<(i32, u32, u32)>;

/// The UTC calendar day, as year, month and day, that
/// `chrono::DateTime::<Utc>::from_timestamp(secs, 0)` places the moment `secs`
/// seconds after the Unix epoch on; `None` where chrono refuses the moment.
pub uninterp spec fn utc_day_of_timestamp(secs: i64) -> Option<(i32, u32, u32)>;

/// The UTC day of a Unix timestamp, from
/// `chrono::DateTime::<Utc>::from_timestamp(secs, 0)` and its `naive_utc().date()`;
/// chrono documents the month of a date as 1 to 12 and its day as 1 to 31.
#[verifier::external_body]
fn utc_day(secs: i64) -> (r: Option<CalendarDate>)
    ensures
        match r {
            Some(d) => utc_day_of_timestamp(secs) == Some((d.year, d.month, d.day)) && plausible_date(d),
            None => utc_day_of_timestamp(secs) is None,
        },
{
    let d = chrono::DateTime::<chrono::Utc>::from_timestamp(secs, 0)?.naive_utc().date();
    Some(CalendarDate { year: d.year(), month: d.month(), day: d.day() })
}

/// Today's date in UTC, read from the system clock; `None` when the clock is
/// set before the Unix epoch or chrono cannot place it on the calendar.
fn today_utc() -> (r: Option<CalendarDate>)
    ensures
        r matches Some(d) ==> plausible_date(d) && exists|secs: i64|
            utc_day_of_timestamp(secs) == Some((d.year, d.month, d.day)),
{
    match unix_now() {
        Some(secs) => {
            if secs <= 9223372036854775807u64 {
                utc_day(secs as i64)
            } else {
                None
            }
        },
        None => None,
    }
}

/// Reads a date with `chrono::NaiveDate::from_str`; the month and day of a
/// date read are in chrono's documented ranges.
#[verifier::external_body]
fn parse_date(s: &str) -> (r: Option<CalendarDate>)
    ensures
        match r {
            Some(d) => naive_date_from_str(s@) == Some((d.year, d.month, d.day)) && plausible_date(d),
            None => naive_date_from_str(s@) is None,
        },
{
    match chrono::NaiveDate::from_str(s) {
        Ok(d) => Some(CalendarDate { year: d.year(), month: d.month(), day: d.day() }),
        Err(_) => None,
    }
}

/// `a` is an earlier day than `b`: calendar order is the order of
/// (year, month, day).
pub open spec fn date_before(a: CalendarDate, b: CalendarDate) -> bool {
    a.year < b.year || (a.year == b.year && (a.month < b.month || (a.month == b.month && a.day
        < b.day)))
}

/// Whether `a` is an earlier day than `b`.
pub fn is_before(a: &CalendarDate, b: &CalendarDate) -> (r: bool)
    ensures
        r == date_before(*a, *b),
{
    a.year < b.year || (a.year == b.year && (a.month < b.month || (a.month == b.month && a.day
        < b.day)))
}

/// Whether an RSVP request goes on to its handler or is refused.
#[derive(Debug, Clone, Copy, PartialEq, Eq, Structural)]
pub enum RsvpDecision {
    /// The request goes on.
    Proceed,
    /// The request is answered with an empty 403.
    Forbidden,
}

/// The decision on `today` for the deadline `limit`: open strictly before it.
pub open spec fn decision_on(today: CalendarDate, limit: CalendarDate) -> RsvpDecision {
    if date_before(today, limit) {
        RsvpDecision::Proceed
    } else {
        RsvpDecision::Forbidden
    }
}

/// The decision on `today` for the deadline written as `limit_date`; `None` when
/// the deadline is not a date.
pub open spec fn decision_for(today: CalendarDate, limit_date: Seq<char>) -> Option<RsvpDecision> {
    match naive_date_from_str(limit_date) {
        Some((y, m, d)) => Some(decision_on(today, CalendarDate { year: y, month: m, day: d })),
        None => None,
    }
}

/// Keeps RSVP requests out once the deadline has come.
#[derive(Debug, Clone, Copy)]
pub struct RsvpDateMiddleware;

impl RsvpDateMiddleware {
    /// Whether `limit_date` is a deadline the middleware can work with: a
    /// date that `chrono::NaiveDate::from_str` reads.
    pub fn is_valid_limit_date(limit_date: &str) -> (r: bool)
        ensures
            r == (naive_date_from_str(limit_date@) is Some),
    {
        parse_date(limit_date).is_some()
    }

    /// The decision for a request made on `today` with the deadline written
    /// as `limit_date`, which must be a date.
    pub fn call(self, today: CalendarDate, limit_date: &str) -> (r: RsvpDecision)
        requires
            naive_date_from_str(limit_date@) is Some,
        ensures
            decision_for(today, limit_date@) == Some(r),
    {
        match parse_date(limit_date) {
            Some(limit) => {
                if is_before(&today, &limit) {
                    RsvpDecision::Proceed
                } else {
                    RsvpDecision::Forbidden
                }
            },
            // Not reached: the deadline is a date by the precondition.
            None => RsvpDecision::Forbidden,
        }
    }

    /// The decision for a request made now, by the UTC calendar; `None` when
    /// the deadline is not a date or the clock cannot be placed on the
    /// calendar.
    pub fn call_today(self, limit_date: &str) -> (r: Option<RsvpDecision>)
        ensures
            naive_date_from_str(limit_date@) is None ==> r is None,
            r matches Some(g) ==> exists|today: CalendarDate|
                plausible_date(today) && decision_for(today, limit_date@) == Some(g),
            r matches Some(g) ==> exists|today: CalendarDate, secs: i64|
                utc_day_of_timestamp(secs) == Some((today.year, today.month, today.day))
                    && decision_for(today, limit_date@) == Some(g),
    {
        if !Self::is_valid_limit_date(limit_date) {
            return None;
        }
        match today_utc() {
            Some(today) => {
                let g = self.call(today, limit_date);
                proof {
                    let secs = choose|secs: i64|
                        utc_day_of_timestamp(secs) == Some((today.year, today.month, today.day));
                    assert(utc_day_of_timestamp(secs) == Some((today.year, today.month, today.day))
                        && decision_for(today, limit_date@) == Some(g));
                }
                Some(g)
            },
            None => None,
        }
    }
}

/// Once RSVPs are closed they stay closed: a request refused on one day is
/// refused on every later day, and one let through is let through on every
/// earlier day.
pub proof fn lemma_decision_monotone(earlier: CalendarDate, later: CalendarDate, limit_date: Seq<char>)
    requires
        date_before(earlier, later),
        decision_for(later, limit_date) == Some(RsvpDecision::Proceed),
    ensures
        decision_for(earlier, limit_date) == Some(RsvpDecision::Proceed),
{
}

/// With a deadline that reads as the date `(y, m, d)`, a request is let
/// through exactly on the days strictly before it, in the order of year,
/// then month, then day, and refused on the deadline and every day after.
pub proof fn lemma_open_strictly_before_deadline(today: CalendarDate, limit_date: Seq<char>, y: i32, m: u32, d: u32)
    requires
        naive_date_from_str(limit_date) == Some((y, m, d)),
    ensures
        (today.year < y || (today.year == y && today.month < m) || (today.year == y && today.month == m
            && today.day < d)) ==> decision_for(today, limit_date) == Some(RsvpDecision::Proceed),
        (today.year > y || (today.year == y && today.month > m) || (today.year == y && today.month == m
            && today.day >= d)) ==> decision_for(today, limit_date) == Some(RsvpDecision::Forbidden),
{
}

/// A deadline that is not a date decides nothing.
pub proof fn lemma_no_decision_without_deadline(today: CalendarDate, limit_date: Seq<char>)
    requires
        naive_date_from_str(limit_date) is None,
    ensures
        decision_for(today, limit_date) is None,
{
}

/// On the deadline day itself RSVPs are closed.
pub proof fn lemma_closed_on_deadline(limit: CalendarDate)
    ensures
        decision_on(limit, limit) == RsvpDecision::Forbidden,
{
}

} // verus!
