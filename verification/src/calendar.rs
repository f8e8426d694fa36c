use vstd::prelude::*;

use crate::text::{decimal, push_decimal};

verus! {

/// Whether `year` has a 29 February (Gregorian calendar).
pub open spec fn is_leap_year(year: nat) -> bool {
    (year % 4 == 0 && year % 100 != 0) || year % 400 == 0
}

/// The number of days in `year`.
pub open spec fn days_in_year(year: nat) -> nat {
    if is_leap_year(year) {
        366
    } else {
        365
    }
}

/// The number of days in month `month` (1 to 12) of `year`.
pub open spec fn days_in_month(year: nat, month: nat) -> nat {
    if month == 2 {
        if is_leap_year(year) {
            29
        } else {
            28
        }
    } else if month == 4 || month == 6 || month == 9 || month == 11 {
        30
    } else {
        31
    }
}

/// The date (year, month, day) that lies `day` days after the first day of
/// month `month` of `year`, counting on through the months of that year.
pub open spec fn date_in_year(year: nat, month: nat, day: nat) -> (nat, nat, nat)
    decreases 12 - month,
{
    if month < 12 && day >= days_in_month(year, month) {
        date_in_year(year, month + 1, (day - days_in_month(year, month)) as nat)
    } else {
        (year, month, day + 1)
    }
}

/// The date that lies `days` days after 1 January of `year`.
pub open spec fn date_from(year: nat, days: nat) -> (nat, nat, nat)
    decreases days,
{
    if days >= days_in_year(year) {
        date_from(year + 1, (days - days_in_year(year)) as nat)
    } else {
        date_in_year(year, 1, days)
    }
}

/// The calendar date (UTC) of the moment `unix_secs` seconds after the Unix epoch.
pub open spec fn civil_date(unix_secs: nat) -> (nat, nat, nat) {
    date_from(1970, unix_secs / 86400)
}

fn is_leap(year: u64) -> (leap: bool)
    ensures
        leap == is_leap_year(year as nat),
{
    (year % 4 == 0 && year % 100 != 0) || year % 400 == 0
}

fn year_length(year: u64) -> (n: u64)
    ensures
        n == days_in_year(year as nat),
{
    if is_leap(year) {
        366
    } else {
        365
    }
}

fn month_length(year: u64, month: u64) -> (n: u64)
    ensures
        n == days_in_month(year as nat, month as nat),
{
    if month == 2 {
        if is_leap(year) {
            29
        } else {
            28
        }
    } else if month == 4 || month == 6 || month == 9 || month == 11 {
        30
    } else {
        31
    }
}

/// The calendar date (UTC) of a Unix time, as (year, month, day).
pub fn civil_date_of(unix_secs: u64) -> (date: (u64, u64, u64))
    ensures
        (date.0 as nat, date.1 as nat, date.2 as nat) == civil_date(unix_secs as nat),
{
    let total = unix_secs / 86400;
    let mut days = total;
    let mut year: u64 = 1970;
    while days >= year_length(year)
        invariant
            date_from(year as nat, days as nat) == civil_date(unix_secs as nat),
            total == unix_secs / 86400,
            year + days <= 1970 + total,
            days <= total,
        decreases days,
    {
        days = days - year_length(year);
        year = year + 1;
    }
    let mut month: u64 = 1;
    let mut day = days;
    while month < 12 && day >= month_length(year, month)
        invariant
            1 <= month <= 12,
            day <= days,
            date_in_year(year as nat, month as nat, day as nat) == date_from(
                year as nat,
                days as nat,
            ),
            days < days_in_year(year as nat),
            date_from(year as nat, days as nat) == civil_date(unix_secs as nat),
        decreases 12 - month,
    {
        day = day - month_length(year, month);
        month = month + 1;
    }
    (year, month, day + 1)
}

/// Two-digit notation of a month or a day: a leading zero below ten.
pub open spec fn two_digits(n: nat) -> Seq<char> {
    if n < 10 {
        seq!['0'] + decimal(n)
    } else {
        decimal(n)
    }
}

/// The ISO 8601 notation "YYYY-MM-DD" of a date.
pub open spec fn date_text(date: (nat, nat, nat)) -> Seq<char> {
    decimal(date.0) + "-"@ + two_digits(date.1) + "-"@ + two_digits(date.2)
}

fn push_two_digits(out: &mut String, n: u64)
    ensures
        final(out)@ == old(out)@ + two_digits(n as nat),
{
    if n < 10 {
        proof {
            reveal_strlit("0");
        }
        out.append("0");
        push_decimal(out, n);
        assert(final(out)@ =~= old(out)@ + two_digits(n as nat));
    } else {
        push_decimal(out, n);
    }
}

/// The date (UTC) of a Unix time in ISO 8601 notation, such as "2023-11-14".
pub fn date_of(unix_secs: u64) -> (text: String)
    ensures
        text@ == date_text(civil_date(unix_secs as nat)),
{
    let (year, month, day) = civil_date_of(unix_secs);
    let mut text = String::new();
    push_decimal(&mut text, year);
    text.append("-");
    push_two_digits(&mut text, month);
    text.append("-");
    push_two_digits(&mut text, day);
    assert(text@ =~= date_text((year as nat, month as nat, day as nat)));
    text
}

/// The days of the months of `year` before month `month`.
pub open spec fn days_before_month(year: nat, month: nat) -> nat
    decreases month,
{
    if month <= 1 {
        0
    } else {
        days_before_month(year, (month - 1) as nat) + days_in_month(year, (month - 1) as nat)
    }
}

proof fn lemma_date_in_year_valid(year: nat, month: nat, day: nat)
    requires
        1 <= month <= 12,
        days_before_month(year, month) + day < days_in_year(year),
    ensures
        1 <= date_in_year(year, month, day).1 <= 12,
        1 <= date_in_year(year, month, day).2 <= days_in_month(year, date_in_year(year, month, day).1),
        date_in_year(year, month, day).0 == year,
    decreases 12 - month,
{
    if month < 12 && day >= days_in_month(year, month) {
        assert(days_before_month(year, month + 1) == days_before_month(year, month)
            + days_in_month(year, month));
        lemma_date_in_year_valid(year, month + 1, (day - days_in_month(year, month)) as nat);
    } else if month == 12 {
        reveal_with_fuel(days_before_month, 12);
        assert(days_before_month(year, 12) + 31 == days_in_year(year));
    }
}

proof fn lemma_date_from_valid(year: nat, days: nat)
    ensures
        1 <= date_from(year, days).1 <= 12,
        1 <= date_from(year, days).2 <= days_in_month(date_from(year, days).0, date_from(year, days).1),
        date_from(year, days).0 >= year,
    decreases days,
{
    if days >= days_in_year(year) {
        lemma_date_from_valid(year + 1, (days - days_in_year(year)) as nat);
    } else {
        lemma_date_in_year_valid(year, 1, days);
    }
}

/// Every Unix time falls on a real calendar date from 1970 on: the month lies
/// between 1 and 12 and the day within that month's length.
pub proof fn lemma_civil_date_is_valid(unix_secs: nat)
    ensures
        civil_date(unix_secs).0 >= 1970,
        1 <= civil_date(unix_secs).1 <= 12,
        1 <= civil_date(unix_secs).2 <= days_in_month(civil_date(unix_secs).0, civil_date(unix_secs).1),
{
    lemma_date_from_valid(1970, unix_secs / 86400);
}

/// The days of the years from `from` up to, not including, `to`.
pub open spec fn days_in_years(from: nat, to: nat) -> nat
    decreases to - from,
{
    if to <= from {
        0
    } else {
        days_in_year(from) + days_in_years(from + 1, to)
    }
}

proof fn lemma_date_in_year_counts(year: nat, month: nat, day: nat)
    requires
        1 <= month <= 12,
    ensures
        date_in_year(year, month, day).0 == year,
        date_in_year(year, month, day).2 >= 1,
        days_before_month(year, date_in_year(year, month, day).1) + date_in_year(year, month, day).2
            - 1 == days_before_month(year, month) + day,
    decreases 12 - month,
{
    if month < 12 && day >= days_in_month(year, month) {
        assert(days_before_month(year, month + 1) == days_before_month(year, month)
            + days_in_month(year, month));
        lemma_date_in_year_counts(year, month + 1, (day - days_in_month(year, month)) as nat);
    }
}

proof fn lemma_date_from_counts(year: nat, days: nat)
    ensures
        date_from(year, days).0 >= year,
        days_in_years(year, date_from(year, days).0) + days_before_month(
            date_from(year, days).0,
            date_from(year, days).1,
        ) + date_from(year, days).2 - 1 == days,
    decreases days,
{
    if days >= days_in_year(year) {
        lemma_date_from_counts(year + 1, (days - days_in_year(year)) as nat);
        let y = date_from(year, days).0;
        assert(days_in_years(year, y) == days_in_year(year) + days_in_years(year + 1, y));
    } else {
        lemma_date_in_year_counts(year, 1, days);
        assert(days_in_years(year, year) == 0);
        assert(days_before_month(year, 1) == 0);
    }
}

/// The date of a Unix time is the day that many whole days after 1 January
/// 1970: the days of the years since 1970, of the months before it in its year,
/// and of its own month before it add up to the whole days elapsed.
pub proof fn lemma_civil_date_counts_days(unix_secs: nat)
    ensures
        ({
            let (y, m, d) = civil_date(unix_secs);
            days_in_years(1970, y) + days_before_month(y, m) + d - 1 == unix_secs / 86400
        }),
{
    lemma_date_from_counts(1970, unix_secs / 86400);
}

} // verus!
