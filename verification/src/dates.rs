//! Calendar dates of the proleptic Gregorian calendar, in the range that
//! `chrono::NaiveDate` can hold.

use chrono::Datelike;
use vstd::prelude::*;
use crate::text::{decimal_text, digit_char};

verus! {

/// Lowest year that `chrono::NaiveDate` holds.
pub const MIN_YEAR: i32 = -262143;

/// Highest year that `chrono::NaiveDate` holds.
pub const MAX_YEAR: i32 = 262142;

pub open spec fn is_leap_year(y: int) -> bool {
    (y % 4 == 0 && y % 100 != 0) || y % 400 == 0
}

pub open spec fn days_in_month(y: int, m: int) -> int {
    if m == 2 {
        if is_leap_year(y) {
            29
        } else {
            28
        }
    } else if m == 4 || m == 6 || m == 9 || m == 11 {
        30
    } else {
        31
    }
}

/// A day that exists in the calendar and that `chrono::NaiveDate` can hold.
pub open spec fn valid_calendar_date(y: int, m: int, d: int) -> bool {
    &&& MIN_YEAR <= y <= MAX_YEAR
    &&& 1 <= m <= 12
    &&& 1 <= d <= days_in_month(y, m)
}

/// Order of days: `a` lies strictly before `b`.
pub open spec fn day_before(a: (int, int, int), b: (int, int, int)) -> bool {
    a.0 < b.0 || (a.0 == b.0 && (a.1 < b.1 || (a.1 == b.1 && a.2 < b.2)))
}

/// At least four decimal digits, zero-padded on the left.
pub open spec fn four_digits(n: nat) -> Seq<char> {
    if n < 10 {
        "000"@ + decimal_text(n)
    } else if n < 100 {
        "00"@ + decimal_text(n)
    } else if n < 1000 {
        "0"@ + decimal_text(n)
    } else {
        decimal_text(n)
    }
}

/// A year as `%Y` writes it: four digits for 0..=9999, otherwise a sign
/// and at least four digits.
pub open spec fn year_text(y: int) -> Seq<char> {
    if 0 <= y <= 9999 {
        four_digits(y as nat)
    } else if y > 9999 {
        "+"@ + four_digits(y as nat)
    } else {
        "-"@ + four_digits((-y) as nat)
    }
}

/// Two decimal digits of a number below 100 (`%m`, `%d`).
pub open spec fn two_digits(n: nat) -> Seq<char> {
    seq![digit_char(n / 10), digit_char(n % 10)]
}

/// A date in the format `%Y-%m-%d`.
pub open spec fn iso_date_text(year: int, month: nat, day: nat) -> Seq<char> {
    year_text(year) + "-"@ + two_digits(month) + "-"@ + two_digits(day)
}

/// What `chrono::NaiveDate::parse_from_str(text, "%Y-%m-%d")` yields, as
/// (year, month, day), or `None` when it rejects the text.
pub uninterp spec fn chrono_parse_ymd(text: Seq<char>) -> Option<(i32, u32, u32)>;

proof fn lemma_shift_keeps_leap(y: int)
    ensures
        (y + 400000) % 4 == y % 4,
        (y + 400000) % 100 == y % 100,
        (y + 400000) % 400 == y % 400,
{
    vstd::arithmetic::div_mod::lemma_mod_multiples_vanish(100000, y, 4);
    vstd::arithmetic::div_mod::lemma_mod_multiples_vanish(4000, y, 100);
    vstd::arithmetic::div_mod::lemma_mod_multiples_vanish(1000, y, 400);
    assert(4 * 100000 + y == y + 400000);
    assert(100 * 4000 + y == y + 400000);
    assert(400 * 1000 + y == y + 400000);
}

/// A valid calendar date.
#[derive(Clone, Copy, PartialEq, Eq, Debug)]
pub struct CalendarDate {
    year: i32,
    month: u32,
    day: u32,
}

impl CalendarDate {
    /// (year, month, day)
    pub closed spec fn ymd(&self) -> (int, int, int) {
        (self.year as int, self.month as int, self.day as int)
    }

    #[verifier::type_invariant]
    closed spec fn wf(&self) -> bool {
        valid_calendar_date(self.year as int, self.month as int, self.day as int)
    }


    /// The text of the date in the format `%Y-%m-%d`.
    pub closed spec fn iso_text(&self) -> Seq<char> {
        iso_date_text(self.year as int, self.month as nat, self.day as nat)
    }

    /// The date with these parts, where such a day exists.
    pub fn new(year: i32, month: u32, day: u32) -> (r: Option<CalendarDate>)
        ensures
            r is Some <==> valid_calendar_date(year as int, month as int, day as int),
            r matches Some(d) ==> d.ymd() == (year as int, month as int, day as int),
    {
        if year < MIN_YEAR || year > MAX_YEAR || month < 1 || month > 12 || day < 1 {
            return None;
        }
        // Shifting by whole 400-year cycles keeps the leap-year rule.
        let shifted: u64 = (year as i64 + 400000) as u64;
        let leap = (shifted % 4 == 0 && shifted % 100 != 0) || shifted % 400 == 0;
        proof {
            lemma_shift_keeps_leap(year as int);
        }
        let last: u32 = if month == 2 {
            if leap {
                29
            } else {
                28
            }
        } else if month == 4 || month == 6 || month == 9 || month == 11 {
            30
        } else {
            31
        };
        if day > last {
            None
        } else {
            Some(CalendarDate { year, month, day })
        }
    }

    pub fn year(&self) -> (r: i32)
        ensures
            r as int == self.ymd().0,
    {
        self.year
    }

    pub fn month(&self) -> (r: u32)
        ensures
            r as int == self.ymd().1,
    {
        self.month
    }

    pub fn day(&self) -> (r: u32)
        ensures
            r as int == self.ymd().2,
    {
        self.day
    }

    /// Whether this day lies strictly before `other`.
    pub fn is_before(&self, other: &CalendarDate) -> (r: bool)
        ensures
            r == day_before(self.ymd(), other.ymd()),
    {
        self.year < other.year || (self.year == other.year && (self.month < other.month || (
        self.month == other.month && self.day < other.day)))
    }

    /// The date as text in the format `%Y-%m-%d`.
    pub fn to_iso_text(&self) -> (r: String)
        ensures
            r@ == self.iso_text(),
    {
        proof {
            use_type_invariant(self);
        }
        chrono_format_ymd(self.year, self.month, self.day)
    }
}

/// Calls `chrono::NaiveDate::from_ymd_opt` and formats the date with
/// `%Y-%m-%d`. For a valid date `from_ymd_opt` returns `Some`; chrono writes
/// the year zero-padded to four digits (with a sign outside 0..=9999) and the
/// month and day as two digits each.
#[verifier::external_body]
fn chrono_format_ymd(year: i32, month: u32, day: u32) -> (r: String)
    requires
        valid_calendar_date(year as int, month as int, day as int),
    ensures
        r@ == iso_date_text(year as int, month as nat, day as nat),
{
    chrono::NaiveDate::from_ymd_opt(year, month, day).unwrap().format("%Y-%m-%d").to_string()
}

/// Calls `chrono::NaiveDate::parse_from_str(text, "%Y-%m-%d")`. The contract
/// names the outcome `chrono_parse_ymd`; a parsed `NaiveDate` is always a
/// valid date.
#[verifier::external_body]
fn chrono_parse_iso(text: &str) -> (r: Option<(i32, u32, u32)>)
    ensures
        r == chrono_parse_ymd(text@),
        r matches Some(p) ==> valid_calendar_date(p.0 as int, p.1 as int, p.2 as int),
{
    match chrono::NaiveDate::parse_from_str(text, "%Y-%m-%d") {
        Ok(d) => Some((d.year(), d.month(), d.day())),
        Err(_) => None,
    }
}

/// Reads a date written as `%Y-%m-%d`; `None` where `chrono` rejects it.
pub fn parse_iso_date(text: &str) -> (r: Option<CalendarDate>)
    ensures
        r is Some <==> chrono_parse_ymd(text@) is Some,
        r matches Some(d) ==> d.ymd() == (
        (chrono_parse_ymd(text@)->0).0 as int,
        (chrono_parse_ymd(text@)->0).1 as int,
        (chrono_parse_ymd(text@)->0).2 as int,
    ),
{
    match chrono_parse_iso(text) {
        Some((y, m, d)) => CalendarDate::new(y, m, d),
        None => None,
    }
}

/// Reads an optional date the way milestone requests do: text that does not
/// parse is dropped.
pub fn parse_optional_date(text: &Option<String>) -> (r: Option<CalendarDate>)
    ensures
        r is Some <==> (text matches Some(t) && chrono_parse_ymd(t@) is Some),
        r matches Some(d) ==> (text matches Some(t) && d.ymd() == (
        (chrono_parse_ymd(t@)->0).0 as int,
        (chrono_parse_ymd(t@)->0).1 as int,
        (chrono_parse_ymd(t@)->0).2 as int,
    )),
{
    match text {
        Some(t) => parse_iso_date(t.as_str()),
        None => None,
    }
}

} // verus!
