//! Age of the fiscal data against a reference date, and when it counts as
//! stale.

use chrono::Datelike;
use vstd::prelude::*;

use crate::arguments::integer;
use crate::arguments::integer_outcome;
use crate::error::{invalid, FiscalError, FiscalErrorView};

verus! {

/// Days after the audit from which the data counts as stale.
pub const STALE_AFTER_DAYS: i64 = 183;

/// The only target year the data covers.
pub const COVERED_YEAR: u16 = 2026;

/// How old the data is and whether it may still be relied upon.
#[derive(Debug, Clone, Copy, PartialEq, Eq, Structural)]
pub struct Freshness {
    /// Days from the audit to the reference date, never negative.
    pub age_days: i64,
    /// The data is older than the allowed period, or the target year is not covered.
    pub stale: bool,
    /// The year the caller asked about.
    pub target_year: u16,
}

/// The day number of `text` read as a calendar date in `format` by chrono
/// (days of the proleptic Gregorian calendar, 1 January of year 1 being day
/// 1), or `None` where chrono does not read a date.
pub uninterp spec fn chrono_day_number(text: Seq<char>, format: Seq<char>) -> Option<i64>;

/// Reads `text` as a date in `format` with `chrono::NaiveDate::parse_from_str`
/// and numbers the date with `Datelike::num_days_from_ce`. Trusted: the result
/// is the one chrono gives for these two arguments, and fits in an `i32`
/// (the type chrono numbers days with). The difference of two such numbers is
/// the day count chrono gives for the difference of the two dates.
#[verifier::external_body]
fn parse_day_number(text: &str, format: &str) -> (r: Option<i64>)
    ensures
        r == chrono_day_number(text@, format@),
        r matches Some(d) ==> i32::MIN <= d <= i32::MAX,
{
    match chrono::NaiveDate::parse_from_str(text, format) {
        Ok(date) => Some(i64::from(date.num_days_from_ce())),
        Err(_) => None,
    }
}

/// The freshness of data audited on day `audit_day`, seen on day
/// `reference_day`, for the year `target_year`.
pub open spec fn freshness_of(audit_day: int, reference_day: int, target_year: u16) -> Freshness {
    let age = if reference_day - audit_day > 0 {
        reference_day - audit_day
    } else {
        0
    };
    Freshness { age_days: age as i64, stale: age > 183 || target_year != 2026, target_year }
}

/// The freshness of data audited on day `audit_day`, seen on day
/// `reference_day`, for the year `target_year`.
pub fn freshness(audit_day: i64, reference_day: i64, target_year: u16) -> (f: Freshness)
    requires
        i32::MIN <= audit_day <= i32::MAX,
        i32::MIN <= reference_day <= i32::MAX,
    ensures
        f == freshness_of(audit_day as int, reference_day as int, target_year),
{
    let difference = reference_day - audit_day;
    let age_days = if difference > 0 {
        difference
    } else {
        0
    };
    Freshness {
        age_days,
        stale: age_days > STALE_AFTER_DAYS || target_year != COVERED_YEAR,
        target_year,
    }
}

/// What assessing freshness gives: the refusal of an out-of-bounds target
/// year; nothing when the audit date itself cannot be read; the refusal of
/// an unreadable reference date; else the freshness of the data.
pub open spec fn assessment(audited_at: Seq<char>, current_date: Seq<char>, target: Option<i64>) -> Option<
    Result<Freshness, FiscalErrorView>,
> {
    match integer_outcome("annee_cible"@, target, 2026) {
        Err(e) => Some(Err(e)),
        Ok(t) => match chrono_day_number(audited_at, "%Y-%m-%d"@) {
            None => None,
            Some(a) => match chrono_day_number(current_date, "%Y-%m-%d"@) {
                None => Some(
                    Err(
                        FiscalErrorView::InvalidArgument {
                            name: "_current_date"@,
                            reason: "date interne invalide"@,
                        },
                    ),
                ),
                Some(c) => Some(Ok(freshness_of(a as int, c as int, t as u16))),
            },
        },
    }
}

/// Assesses the freshness of data audited on the ISO date `audited_at`, seen
/// on the ISO date `current_date`, for the target year `target` (2026 when
/// not supplied). Gives `None` when the audit date cannot be read.
pub fn assess_freshness(audited_at: &str, current_date: &str, target: Option<i64>) -> (r: Option<
    Result<Freshness, FiscalError>,
>)
    ensures
        match (r, assessment(audited_at@, current_date@, target)) {
            (None, None) => true,
            (Some(Ok(f)), Some(Ok(expected))) => f == expected,
            (Some(Err(e)), Some(Err(expected))) => e@ == expected,
            _ => false,
        },
{
    let target_year = match integer("annee_cible", target, 2026) {
        Ok(t) => t as u16,
        Err(e) => {
            return Some(Err(e));
        },
    };
    let audit_day = match parse_day_number(audited_at, "%Y-%m-%d") {
        Some(d) => d,
        None => {
            return None;
        },
    };
    match parse_day_number(current_date, "%Y-%m-%d") {
        Some(reference_day) => Some(Ok(freshness(audit_day, reference_day, target_year))),
        None => Some(Err(invalid("_current_date", "date interne invalide"))),
    }
}

/// Data seen more than the allowed period after its audit is stale, whatever
/// the target year.
pub proof fn lemma_stale_after_period(audit_day: int, reference_day: int, target_year: u16)
    requires
        reference_day - audit_day > 183,
    ensures
        freshness_of(audit_day, reference_day, target_year).stale,
{
}

/// Data is stale for any year other than the covered one.
pub proof fn lemma_stale_outside_covered_year(audit_day: int, reference_day: int, target_year: u16)
    requires
        target_year != 2026,
    ensures
        freshness_of(audit_day, reference_day, target_year).stale,
{
}

/// Within the allowed period after the audit (or before it), data for the
/// covered year is fresh.
pub proof fn lemma_fresh_within_period(audit_day: int, reference_day: int)
    requires
        reference_day - audit_day <= 183,
        i32::MIN <= audit_day <= i32::MAX,
        i32::MIN <= reference_day <= i32::MAX,
    ensures
        !freshness_of(audit_day, reference_day, 2026).stale,
{
}

/// A later reference date never makes data younger, nor turns stale data
/// fresh.
pub proof fn lemma_age_monotone(audit_day: int, earlier: int, later: int, target_year: u16)
    requires
        earlier <= later,
        i32::MIN <= audit_day <= i32::MAX,
        i32::MIN <= earlier <= i32::MAX,
        i32::MIN <= later <= i32::MAX,
    ensures
        freshness_of(audit_day, earlier, target_year).age_days <= freshness_of(
            audit_day,
            later,
            target_year,
        ).age_days,
        freshness_of(audit_day, earlier, target_year).stale ==> freshness_of(
            audit_day,
            later,
            target_year,
        ).stale,
{
}

/// Seen on the audit day, data has no age; each later day adds one day of
/// age; any day up to the audit leaves it without age.
pub proof fn lemma_age_counts_days(audit_day: int, reference_day: int, target_year: u16)
    requires
        i32::MIN <= audit_day <= i32::MAX,
        i32::MIN <= reference_day < i32::MAX,
    ensures
        freshness_of(audit_day, audit_day, target_year).age_days == 0,
        reference_day >= audit_day ==> freshness_of(audit_day, reference_day + 1, target_year).age_days
            == freshness_of(audit_day, reference_day, target_year).age_days + 1,
        reference_day <= audit_day ==> freshness_of(audit_day, reference_day, target_year).age_days
            == 0,
        freshness_of(audit_day, reference_day, target_year).target_year == target_year,
{
}

} // verus!
