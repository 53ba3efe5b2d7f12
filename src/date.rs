use chrono::Datelike;
use vstd::prelude::*;

verus! {

/// Smallest year of the proleptic Gregorian calendar that dates here may carry.
pub const MIN_YEAR: i32 = -262143;

/// Largest year of the proleptic Gregorian calendar that dates here may carry.
pub const MAX_YEAR: i32 = 262142;

pub open spec fn is_leap_year(y: int) -> bool {
    (y % 4 == 0 && y % 100 != 0) || y % 400 == 0
}

pub open spec fn month_length(y: int, m: int) -> int {
    if m == 2 {
        if is_leap_year(y) { 29 } else { 28 }
    } else if m == 4 || m == 6 || m == 9 || m == 11 {
        30
    } else {
        31
    }
}

/// A calendar day (UTC, proleptic Gregorian), with the time of day discarded.
#[derive(Debug, Clone, Copy, PartialEq, Eq, Structural)]
pub struct CivilDate {
    pub year: i32,
    pub month: u32,
    pub day: u32,
}

impl CivilDate {
    pub open spec fn is_valid(self) -> bool {
        &&& MIN_YEAR <= self.year <= MAX_YEAR
        &&& 1 <= self.month <= 12
        &&& 1 <= self.day <= month_length(self.year as int, self.month as int)
    }

    /// Number of days from 1970-01-01 to this date (negative before it).
    pub open spec fn day_number(self) -> int {
        let y = if self.month <= 2 { self.year - 1 } else { self.year as int };
        let era = y / 400;
        let yoe = y - era * 400;
        let mp = if self.month > 2 { self.month - 3 } else { self.month + 9 };
        let doy = (153 * mp + 2) / 5 + self.day - 1;
        let doe = yoe * 365 + yoe / 4 - yoe / 100 + doy;
        era * 146097 + doe - 719468
    }

    /// The date with these fields, if they name a day of the calendar.
    pub fn new(year: i32, month: u32, day: u32) -> (r: Option<CivilDate>)
        ensures
            r matches Some(d) ==> d == (CivilDate { year, month, day }),
            r is Some <==> (CivilDate { year, month, day }).is_valid(),
    {
        if year < MIN_YEAR || year > MAX_YEAR || month < 1 || month > 12 || day < 1 {
            return None;
        }
        let leap = (year % 4 == 0 && year % 100 != 0) || year % 400 == 0;
        let len: u32 = if month == 2 {
            if leap { 29 } else { 28 }
        } else if month == 4 || month == 6 || month == 9 || month == 11 {
            30
        } else {
            31
        };
        if day > len {
            None
        } else {
            Some(CivilDate { year, month, day })
        }
    }
}

/// Decimal digits of `n`, most significant first, without leading zeros.
pub open spec fn decimal_digits(n: nat) -> Seq<char>
    decreases n,
{
    if n < 10 {
        seq![digit_char(n)]
    } else {
        decimal_digits(n / 10).push(digit_char(n % 10))
    }
}

pub open spec fn digit_char(d: nat) -> char {
    if d == 0 { '0' }
    else if d == 1 { '1' }
    else if d == 2 { '2' }
    else if d == 3 { '3' }
    else if d == 4 { '4' }
    else if d == 5 { '5' }
    else if d == 6 { '6' }
    else if d == 7 { '7' }
    else if d == 8 { '8' }
    else { '9' }
}

/// `n` in decimal, left-padded with zeros to at least `width` characters.
pub open spec fn zero_padded(n: nat, width: nat) -> Seq<char> {
    let digits = decimal_digits(n);
    if digits.len() < width {
        Seq::new((width - digits.len()) as nat, |i: int| '0') + digits
    } else {
        digits
    }
}

/// A year in ISO 8601 form: four digits from 0 to 9999, else a sign and at least
/// four digits.
pub open spec fn iso_year_text(y: int) -> Seq<char> {
    if 0 <= y <= 9999 {
        zero_padded(y as nat, 4)
    } else if y < 0 {
        seq!['-'] + zero_padded((-y) as nat, 4)
    } else {
        seq!['+'] + zero_padded(y as nat, 4)
    }
}

/// `YYYY-MM-DD`, with the year as `iso_year_text` writes it.
pub open spec fn iso_date_text(d: CivilDate) -> Seq<char> {
    iso_year_text(d.year as int) + seq!['-'] + zero_padded(d.month as nat, 2) + seq!['-']
        + zero_padded(d.day as nat, 2)
}

/// Relies on chrono's `NaiveDate::checked_sub_signed` with `TimeDelta::try_days`:
/// the date `days` days earlier, or `None` when it leaves chrono's calendar range.
#[verifier::external_body]
pub(crate) fn days_before(date: CivilDate, days: i64) -> (r: Option<CivilDate>)
    requires
        date.is_valid(),
    ensures
        r matches Some(c) ==> c.is_valid() && c.day_number() == date.day_number() - days,
        (MIN_YEAR + 3000 <= date.year <= MAX_YEAR - 3000 && -1_000_000 <= days <= 1_000_000)
            ==> r is Some,
{
    let d = chrono::NaiveDate::from_ymd_opt(date.year, date.month, date.day)?;
    let c = d.checked_sub_signed(chrono::TimeDelta::try_days(days)?)?;
    Some(CivilDate { year: c.year(), month: c.month(), day: c.day() })
}

/// Relies on chrono's `Display` for `NaiveDate`: four-digit year for years 0 to 9999,
/// else `{:+05}` of the year; then `-`, two-digit month, `-`, two-digit day.
#[verifier::external_body]
pub(crate) fn date_text(date: CivilDate) -> (r: String)
    requires
        date.is_valid(),
    ensures
        r@ == iso_date_text(date),
{
    match chrono::NaiveDate::from_ymd_opt(date.year, date.month, date.day) {
        Some(d) => d.to_string(),
        None => String::new(),
    }
}

} // verus!
