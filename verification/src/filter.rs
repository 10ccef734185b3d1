//! The filter clause of a select: optional `from` and `to` dates become a
//! condition on the week or the date, after the bounds have been checked
//! against each other and against the start of the current week.
//!
//! A calendar date is handled as its day number: the count of days in the
//! proleptic Gregorian calendar in which 1 January of year 1 is day 1.

use vstd::prelude::*;
use vstd::string::StringExecFns;

verus! {

/// Why a pair of date bounds was refused.
#[derive(Clone, Copy, Debug, PartialEq, Eq, Structural)]
pub enum RangeError {
    /// `from` is no calendar date.
    UnparsableFrom,
    /// `to` is no calendar date.
    UnparsableTo,
    /// Both bounds are given and `to` lies before `from`.
    ToBeforeFrom,
    /// Only `to` is given and it lies before the Sunday that began this week.
    ToBeforeCurrentWeek,
    /// Only `to` is given and the clock's day lies outside the calendar, so
    /// that this week has no start to hold `to` against.
    ClockOutOfRange,
}

/// The format in which callers write dates: year, month, day.
pub open spec fn date_format() -> Seq<char> {
    "%Y-%m-%d"@
}

/// The day number of the date that `NaiveDate::parse_from_str` reads from
/// `text` under `format`, if it reads one.
pub uninterp spec fn calendar_day(text: Seq<char>, format: Seq<char>) -> Option<i32>;

/// Calls `NaiveDate::parse_from_str` and, on the date read,
/// `Datelike::num_days_from_ce`. Trusted: the result is the day number that
/// `calendar_day` names, and `None` stands for any parse error.
#[verifier::external_body]
fn parse_calendar_day(text: &str, format: &str) -> (day: Option<i32>)
    requires
        format@ == date_format(),
    ensures
        day == calendar_day(text@, format@),
{
    match chrono::NaiveDate::parse_from_str(text, format) {
        Ok(date) => Some(chrono::Datelike::num_days_from_ce(&date)),
        Err(_) => None,
    }
}

/// How many days after a Sunday the day with this number falls: what
/// `Weekday::num_days_from_sunday` gives for the weekday of the date that
/// `NaiveDate::from_num_days_from_ce_opt` makes of the number; `None`
/// where the calendar has no such day.
pub uninterp spec fn sunday_offset(day: i32) -> Option<u32>;

/// Reads the clock with `Utc::now`, takes its date with
/// `DateTime::date_naive`, and hands out `Datelike::num_days_from_ce` of
/// it. Nothing is claimed of which day it is. The clock must not stand
/// before 1970.
#[verifier::external_body]
fn read_today() -> (day: i32) {
    chrono::Datelike::num_days_from_ce(&chrono::Utc::now().date_naive())
}

/// Calls `NaiveDate::from_num_days_from_ce_opt` and, on the date made,
/// `Datelike::weekday` and `Weekday::num_days_from_sunday`. Trusted: the
/// result is the offset that `sunday_offset` names, it is at most 6, and
/// `None` stands for a day number outside the calendar.
#[verifier::external_body]
fn weekday_offset(day: i32) -> (offset: Option<u32>)
    ensures
        offset == sunday_offset(day),
        offset matches Some(k) ==> k <= 6,
{
    match chrono::NaiveDate::from_num_days_from_ce_opt(day) {
        Some(date) => Some(chrono::Datelike::weekday(&date).num_days_from_sunday()),
        None => None,
    }
}

/// The day number of the Sunday on or before `day`, where the calendar
/// has that day.
pub open spec fn week_start_of(day: i32) -> Option<int> {
    match sunday_offset(day) {
        Some(offset) => Some(day - offset),
        None => None,
    }
}

/// The day number of the day that lies `offset` days before `day`.
pub fn sunday_before(day: i32, offset: u32) -> (start: i64)
    ensures
        start == day - offset,
{
    day as i64 - offset as i64
}

/// The day number of the most recent Sunday on or before `day`.
pub fn week_start(day: i32) -> (start: Option<i64>)
    ensures
        match week_start_of(day) {
            Some(model) => start matches Some(s) && s == model,
            None => start.is_none(),
        },
{
    match weekday_offset(day) {
        Some(offset) => Some(sunday_before(day, offset)),
        None => None,
    }
}

/// The clause for no bounds: the current calendar week onward.
pub open spec fn current_week_clause() -> Seq<char> {
    "week >= DATE_TRUNC(CURRENT_DATE(), week)"@
}

/// The clause for a lower bound alone.
pub open spec fn from_clause(from: Seq<char>) -> Seq<char> {
    "week >= '"@ + from + "'"@
}

/// The clause for an upper bound alone.
pub open spec fn to_clause(to: Seq<char>) -> Seq<char> {
    "week >= DATE_TRUNC(CURRENT_DATE(), week) and week <= '"@ + to + "'"@
}

/// The clause for both bounds.
pub open spec fn between_clause(from: Seq<char>, to: Seq<char>) -> Seq<char> {
    "date >= '"@ + from + "' and date <= '"@ + to + "'"@
}

/// The filter clause for a pair of optional bounds, in a week that began
/// on day `start`.
pub open spec fn filter_clause(from: Option<Seq<char>>, to: Option<Seq<char>>, start: int) -> Result<
    Seq<char>,
    RangeError,
> {
    match (from, to) {
        (None, None) => Ok(current_week_clause()),
        (Some(x), None) => match calendar_day(x, date_format()) {
            None => Err(RangeError::UnparsableFrom),
            Some(_) => Ok(from_clause(x)),
        },
        (None, Some(y)) => match calendar_day(y, date_format()) {
            None => Err(RangeError::UnparsableTo),
            Some(last) => if last < start {
                Err(RangeError::ToBeforeCurrentWeek)
            } else {
                Ok(to_clause(y))
            },
        },
        (Some(x), Some(y)) => match calendar_day(x, date_format()) {
            None => Err(RangeError::UnparsableFrom),
            Some(first) => match calendar_day(y, date_format()) {
                None => Err(RangeError::UnparsableTo),
                Some(last) => if last < first {
                    Err(RangeError::ToBeforeFrom)
                } else {
                    Ok(between_clause(x, y))
                },
            },
        },
    }
}

/// The view of an optional string slice.
pub open spec fn bound_view(bound: Option<&str>) -> Option<Seq<char>> {
    match bound {
        Some(text) => Some(text@),
        None => None,
    }
}

/// Whether a result is the given outcome of the filter rules.
pub open spec fn is_clause(clause: Result<String, RangeError>, model: Result<Seq<char>, RangeError>) -> bool {
    match model {
        Ok(text) => clause matches Ok(c) && c@ == text,
        Err(e) => clause matches Err(x) && x == e,
    }
}

/// Whether the rules for these bounds look at the start of the week.
pub open spec fn needs_clock(from: Option<Seq<char>>, to: Option<Seq<char>>) -> bool {
    from.is_none() && to.is_some() && calendar_day(to.unwrap(), date_format()).is_some()
}

/// Builds the filter clause once the days are known: `first` and `last`
/// are what reading `from` and `to` gave, `start` is the day on which this
/// week began.
pub fn clause_for_days(
    from: Option<&str>,
    to: Option<&str>,
    first: Option<i32>,
    last: Option<i32>,
    start: i64,
) -> (clause: Result<String, RangeError>)
    requires
        from matches Some(x) ==> first == calendar_day(x@, date_format()),
        to matches Some(y) ==> last == calendar_day(y@, date_format()),
    ensures
        is_clause(clause, filter_clause(bound_view(from), bound_view(to), start as int)),
{
    match (from, to) {
        (None, None) => Ok(String::from_str("week >= DATE_TRUNC(CURRENT_DATE(), week)")),
        (Some(x), None) => match first {
            None => Err(RangeError::UnparsableFrom),
            Some(_) => Ok(String::from_str("week >= '").concat(x).concat("'")),
        },
        (None, Some(y)) => match last {
            None => Err(RangeError::UnparsableTo),
            Some(b) => if (b as i64) < start {
                Err(RangeError::ToBeforeCurrentWeek)
            } else {
                Ok(
                    String::from_str(
                        "week >= DATE_TRUNC(CURRENT_DATE(), week) and week <= '",
                    ).concat(y).concat("'"),
                )
            },
        },
        (Some(x), Some(y)) => match first {
            None => Err(RangeError::UnparsableFrom),
            Some(a) => match last {
                None => Err(RangeError::UnparsableTo),
                Some(b) => if b < a {
                    Err(RangeError::ToBeforeFrom)
                } else {
                    Ok(
                        String::from_str("date >= '").concat(x).concat("' and date <= '").concat(
                            y,
                        ).concat("'"),
                    )
                },
            },
        },
    }
}

/// Reads a bound as a calendar date.
pub fn read_bound(bound: Option<&str>) -> (day: Option<i32>)
    ensures
        bound matches Some(text) ==> day == calendar_day(text@, date_format()),
        bound.is_none() ==> day.is_none(),
{
    match bound {
        Some(text) => parse_calendar_day(text, "%Y-%m-%d"),
        None => None,
    }
}

/// Builds the filter clause for a pair of optional bounds in a week that
/// began on day `start`.
pub fn build_filter_at(from: Option<&str>, to: Option<&str>, start: i64) -> (clause: Result<
    String,
    RangeError,
>)
    ensures
        is_clause(clause, filter_clause(bound_view(from), bound_view(to), start as int)),
{
    let first = read_bound(from);
    let last = read_bound(to);
    clause_for_days(from, to, first, last, start)
}

/// The filter clause for a pair of optional bounds on the day `today`.
/// Where an upper bound stands alone and can be read, it is held against
/// the Sunday on or before `today`; no other bounds look at the day.
pub open spec fn filter_on_day(from: Option<Seq<char>>, to: Option<Seq<char>>, today: i32) -> Result<
    Seq<char>,
    RangeError,
> {
    if needs_clock(from, to) {
        match week_start_of(today) {
            Some(start) => filter_clause(from, to, start),
            None => Err(RangeError::ClockOutOfRange),
        }
    } else {
        filter_clause(from, to, 0)
    }
}

/// Builds the filter clause on the day `today`, once the bounds have been
/// read: `first` and `last` are what reading `from` and `to` gave.
pub fn clause_on_day(
    from: Option<&str>,
    to: Option<&str>,
    first: Option<i32>,
    last: Option<i32>,
    today: i32,
) -> (clause: Result<String, RangeError>)
    requires
        from matches Some(x) ==> first == calendar_day(x@, date_format()),
        to matches Some(y) ==> last == calendar_day(y@, date_format()),
    ensures
        is_clause(clause, filter_on_day(bound_view(from), bound_view(to), today)),
{
    if from.is_none() && to.is_some() && last.is_some() {
        match week_start(today) {
            Some(start) => clause_for_days(from, to, first, last, start),
            None => Err(RangeError::ClockOutOfRange),
        }
    } else {
        clause_for_days(from, to, first, last, 0)
    }
}

/// Builds the filter clause for a pair of optional bounds on the day `today`.
pub fn build_filter_on(from: Option<&str>, to: Option<&str>, today: i32) -> (clause: Result<
    String,
    RangeError,
>)
    ensures
        is_clause(clause, filter_on_day(bound_view(from), bound_view(to), today)),
{
    let first = read_bound(from);
    let last = read_bound(to);
    clause_on_day(from, to, first, last, today)
}

/// Builds the filter clause for a pair of optional bounds. The clock is
/// read only where an upper bound stands alone and can be read; the
/// result is then the clause on the day that the clock gave, whichever
/// that is.
pub fn build_filter(from: Option<&str>, to: Option<&str>) -> (clause: Result<String, RangeError>)
    ensures
        !needs_clock(bound_view(from), bound_view(to)) ==> is_clause(
            clause,
            filter_clause(bound_view(from), bound_view(to), 0),
        ),
        exists|today: i32|
            is_clause(clause, #[trigger] filter_on_day(bound_view(from), bound_view(to), today)),
{
    let first = read_bound(from);
    let last = read_bound(to);
    let today: i32 = if from.is_none() && to.is_some() && last.is_some() {
        read_today()
    } else {
        0
    };
    let clause = clause_on_day(from, to, first, last, today);
    assert(is_clause(clause, filter_on_day(bound_view(from), bound_view(to), today)));
    clause
}

/// Without bounds the clause is the current calendar week onward,
/// whatever the week.
pub proof fn no_bounds_mean_the_current_week(start: int)
    ensures
        filter_clause(None, None, start) == Ok::<Seq<char>, RangeError>(current_week_clause()),
{
}

/// Inverted bounds are refused: with both dates readable and `to` before
/// `from`, no clause comes out, whatever the week.
pub proof fn inverted_bounds_are_refused(from: Seq<char>, to: Seq<char>, start: int)
    requires
        calendar_day(from, date_format()).is_some(),
        calendar_day(to, date_format()).is_some(),
        calendar_day(to, date_format()).unwrap() < calendar_day(from, date_format()).unwrap(),
    ensures
        filter_clause(Some(from), Some(to), start) == Err::<Seq<char>, RangeError>(
            RangeError::ToBeforeFrom,
        ),
{
}

/// On a day that the calendar has, an upper bound alone is held against
/// the Sunday on or before that day: it is refused exactly when it lies
/// before that Sunday.
pub proof fn upper_bound_is_held_against_sunday(to: Seq<char>, today: i32)
    requires
        calendar_day(to, date_format()).is_some(),
        sunday_offset(today).is_some(),
    ensures
        filter_on_day(None, Some(to), today).is_err() <==> calendar_day(
            to,
            date_format(),
        ).unwrap() < today - sunday_offset(today).unwrap(),
        filter_on_day(None, Some(to), today).is_err() ==> filter_on_day(None, Some(to), today)
            == Err::<Seq<char>, RangeError>(RangeError::ToBeforeCurrentWeek),
{
}

/// An upper bound alone is refused exactly when it lies before the start
/// of the current week.
pub proof fn stale_upper_bound_is_refused(to: Seq<char>, start: int)
    requires
        calendar_day(to, date_format()).is_some(),
    ensures
        filter_clause(None, Some(to), start).is_err() <==> calendar_day(
            to,
            date_format(),
        ).unwrap() < start,
{
}

} // verus!
