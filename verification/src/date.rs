//! Calendar dates, their ISO text, and the calls into chrono and jiff that read,
//! write and obtain them.
use vstd::prelude::*;
use crate::text::{decimal, push_all, push_char, repeat_char, repeated, u32_to_decimal};
use chrono::Datelike;
use std::str::FromStr;

verus! {

/// The first year that chrono's `NaiveDate` can hold.
pub const MIN_YEAR: i32 = -262143;

/// The last year that chrono's `NaiveDate` can hold.
pub const MAX_YEAR: i32 = 262142;

/// A day of the proleptic Gregorian calendar, held as plain numbers.
#[derive(Debug, Clone, Copy, PartialEq, Eq, Structural)]
pub struct Date {
    pub year: i32,
    pub month: u32,
    pub day: u32,
}

/// Leap years of the proleptic Gregorian calendar.
pub open spec fn is_leap_year(y: int) -> bool {
    y % 4 == 0 && (y % 100 != 0 || y % 400 == 0)
}

/// The number of days in month `m` of year `y`.
pub open spec fn days_in_month(y: int, m: int) -> int {
    if m == 2 {
        if is_leap_year(y) {
            29
        } else {
            28
        }
    } else if m == 4 || m == 6 || m == 9 || m == 11 {
        30
    } else {
        31
    }
}

impl Date {
    /// The date exists in the calendar and lies in the range of chrono's `NaiveDate`.
    pub open spec fn valid(self) -> bool {
        &&& MIN_YEAR <= self.year <= MAX_YEAR
        &&& 1 <= self.month <= 12
        &&& 1 <= self.day <= days_in_month(self.year as int, self.month as int)
    }

    /// Makes a date from year, month and day; `None` where no such day exists
    /// (as `NaiveDate::from_ymd_opt` decides).
    pub fn from_ymd(year: i32, month: u32, day: u32) -> (r: Option<Date>)
        ensures
            r matches Some(d) ==> d == (Date { year, month, day }),
            r is Some <==> (Date { year, month, day }).valid(),
    {
        if year < MIN_YEAR || year > MAX_YEAR || month < 1 || month > 12 || day < 1 {
            return None;
        }
        let leap = year % 4 == 0 && (year % 100 != 0 || year % 400 == 0);
        let last: u32 = if month == 2 {
            if leap {
                29
            } else {
                28
            }
        } else if month == 4 || month == 6 || month == 9 || month == 11 {
            30
        } else {
            31
        };
        if day > last {
            None
        } else {
            Some(Date { year, month, day })
        }
    }

    /// The text of the date as chrono's `Display` writes it (`%Y-%m-%d`, with a sign
    /// and at least four digits for years outside 0 to 9999).
    pub fn to_text(&self) -> (r: String)
        ensures
            r@ == date_text(*self),
    {
        let mut r = year_to_text(self.year);
        push_char(&mut r, '-');
        let m = zero_padded(self.month, 2);
        push_all(&mut r, m.as_str());
        push_char(&mut r, '-');
        let d = zero_padded(self.day, 2);
        push_all(&mut r, d.as_str());
        r
    }
}

/// `s` with zeros in front, up to `w` characters.
pub open spec fn pad_zeros(s: Seq<char>, w: nat) -> Seq<char> {
    if s.len() >= w {
        s
    } else {
        repeated('0', (w - s.len()) as nat) + s
    }
}

/// The year as chrono writes it in a date.
pub open spec fn year_text(y: int) -> Seq<char> {
    if 0 <= y <= 9999 {
        pad_zeros(decimal(y as nat), 4)
    } else if y < 0 {
        seq!['-'] + pad_zeros(decimal((-y) as nat), 4)
    } else {
        seq!['+'] + pad_zeros(decimal(y as nat), 4)
    }
}

/// A date as chrono's `Display` writes it: year, month and day joined by `-`.
pub open spec fn date_text(d: Date) -> Seq<char> {
    year_text(d.year as int) + seq!['-'] + pad_zeros(decimal(d.month as nat), 2) + seq!['-']
        + pad_zeros(decimal(d.day as nat), 2)
}

/// `n` in decimal with zeros in front up to `w` digits.
pub fn zero_padded(n: u32, w: usize) -> (r: String)
    ensures
        r@ == pad_zeros(decimal(n as nat), w as nat),
{
    let digits = u32_to_decimal(n);
    let len = digits.as_str().unicode_len();
    if len >= w {
        digits
    } else {
        let mut r = repeat_char('0', w - len);
        push_all(&mut r, digits.as_str());
        r
    }
}

fn year_to_text(y: i32) -> (r: String)
    ensures
        r@ == year_text(y as int),
{
    if 0 <= y && y <= 9999 {
        zero_padded(y as u32, 4)
    } else if y < 0 {
        let a: i64 = -(y as i64);
        let mut r = String::new();
        push_char(&mut r, '-');
        let digits = zero_padded(a as u32, 4);
        push_all(&mut r, digits.as_str());
        assert(r@ =~= seq!['-'] + pad_zeros(decimal((-y) as nat), 4));
        r
    } else {
        let mut r = String::new();
        push_char(&mut r, '+');
        let digits = zero_padded(y as u32, 4);
        push_all(&mut r, digits.as_str());
        assert(r@ =~= seq!['+'] + pad_zeros(decimal(y as nat), 4));
        r
    }
}

// ---------------------------------------------------------------------------
// chrono
// ---------------------------------------------------------------------------

/// What `NaiveDate::parse_from_str(s, fmt)` decides: whether `s` parses as a date in
/// the format `fmt`.
pub uninterp spec fn chrono_parses_date(s: Seq<char>, fmt: Seq<char>) -> bool;

/// `chrono::NaiveDate::parse_from_str`: whether it returns `Ok` is named by
/// `chrono_parses_date`, a function of the text and the format alone.
#[verifier::external_body]
pub(crate) fn chrono_date_parses(s: &str, fmt: &str) -> (r: bool)
    ensures
        r == chrono_parses_date(s@, fmt@),
{
    chrono::NaiveDate::parse_from_str(s, fmt).is_ok()
}

/// What `NaiveDate::format(fmt).to_string()` writes for a date.
pub uninterp spec fn chrono_format(d: Date, fmt: Seq<char>) -> Seq<char>;

/// The formats written here: the weekday's name, the month's name and the year.
pub open spec fn name_format(fmt: Seq<char>) -> bool {
    fmt == "%A"@ || fmt == "%B"@ || fmt == "%Y"@
}

/// `chrono::NaiveDate::format` followed by `to_string`, on the `NaiveDate` built by
/// `from_ymd_opt` from the date's fields (which succeeds for a valid date): the text is
/// named by `chrono_format`, a function of the date and the format alone. Only the three
/// formats of `name_format` are admitted: `to_string` panics on a format that chrono cannot
/// write.
#[verifier::external_body]
pub(crate) fn chrono_formatted(d: &Date, fmt: &str) -> (r: String)
    requires
        d.valid(),
        name_format(fmt@),
    ensures
        r@ == chrono_format(*d, fmt@),
{
    let date = chrono::NaiveDate::from_ymd_opt(d.year, d.month, d.day).unwrap();
    date.format(fmt).to_string()
}

/// `chrono::Local::now().date_naive()`: today's date in the local time zone. It depends
/// on the clock and the time zone, so nothing more than its validity is claimed.
#[verifier::external_body]
pub(crate) fn chrono_today() -> (r: Date)
    ensures
        r.valid(),
{
    let today = chrono::Local::now().date_naive();
    Date { year: today.year(), month: today.month(), day: today.day() }
}

// ---------------------------------------------------------------------------
// jiff
// ---------------------------------------------------------------------------

/// jiff's civil dates lie in the years -9999 to 9999 and always exist in the calendar.
pub open spec fn jiff_range(d: Date) -> bool {
    d.valid() && -9999 <= d.year <= 9999
}

/// A parse outcome with the error text taken by its view.
pub open spec fn date_outcome(r: Result<Date, String>) -> Result<Date, Seq<char>> {
    match r {
        Ok(d) => Ok(d),
        Err(e) => Err(e@),
    }
}

/// A parse outcome that is the date `d`.
pub open spec fn reads_as(r: Result<Date, String>, d: Date) -> bool {
    r matches Ok(x) && x == d
}

/// What `jiff::civil::Date::from_str` returns for a text: the date, or the `Display` text
/// of its error.
pub uninterp spec fn jiff_date_from_str(s: Seq<char>) -> Result<Date, Seq<char>>;

/// `<jiff::civil::Date as FromStr>::from_str`: the outcome is named by
/// `jiff_date_from_str`, a function of the text alone; a date it returns lies in jiff's range.
/// As its source shows (a year of four digits, then `-`, two digits of month, `-`, two digits
/// of day), it reads back the text `date_text` writes for a date of the years 0 to 9999.
#[verifier::external_body]
pub(crate) fn jiff_parse_date(s: &str) -> (r: Result<Date, String>)
    ensures
        date_outcome(r) == jiff_date_from_str(s@),
        r matches Ok(d) ==> jiff_range(d),
        forall|d: Date| d.valid() && 0 <= d.year <= 9999 && s@ == #[trigger] date_text(d) ==> reads_as(r, d),
{
    match jiff::civil::Date::from_str(s) {
        Ok(d) => Ok(Date { year: d.year() as i32, month: d.month() as u32, day: d.day() as u32 }),
        Err(e) => Err(e.to_string()),
    }
}

/// What `jiff::civil::Date::strptime(fmt, s)` returns: the date, or the `Display` text
/// of its error.
pub uninterp spec fn jiff_strptime(fmt: Seq<char>, s: Seq<char>) -> Result<Date, Seq<char>>;

/// `jiff::civil::Date::strptime`: the outcome is named by `jiff_strptime`, a function of the
/// format and the text alone; a date it returns lies in jiff's range. As its source shows
/// (`%Y` takes an optional sign and up to four digits, `%m` and `%d` two digits each), with the
/// format `%Y-%m-%d` it reads back the text `date_text` writes for a date of the years -9999 to
/// 9999.
#[verifier::external_body]
pub(crate) fn jiff_strptime_date(fmt: &str, s: &str) -> (r: Result<Date, String>)
    ensures
        date_outcome(r) == jiff_strptime(fmt@, s@),
        r matches Ok(d) ==> jiff_range(d),
        forall|d: Date| d.valid() && -9999 <= d.year <= 9999 && fmt@ == "%Y-%m-%d"@ && s@ == #[trigger] date_text(d) ==> reads_as(r, d),
{
    match jiff::civil::Date::strptime(fmt, s) {
        Ok(d) => Ok(Date { year: d.year() as i32, month: d.month() as u32, day: d.day() as u32 }),
        Err(e) => Err(e.to_string()),
    }
}

/// `jiff::Zoned::now()` taken as a civil date: today in the system time zone. It depends on
/// the clock and the time zone, so nothing more than the range of jiff's dates is claimed.
#[verifier::external_body]
pub(crate) fn jiff_today() -> (r: Date)
    ensures
        jiff_range(r),
{
    let today = jiff::Zoned::now().date();
    Date { year: today.year() as i32, month: today.month() as u32, day: today.day() as u32 }
}

} // verus!
