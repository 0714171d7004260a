//! Calendar dates as plain values, and the date text used by the cache.
use chrono::Datelike;
use vstd::prelude::*;

verus! {

/// Oldest year that a chrono `NaiveDate` can hold.
pub const MIN_YEAR: i32 = -262143;

/// Latest year that a chrono `NaiveDate` can hold.
pub const MAX_YEAR: i32 = 262142;

/// A day of the proleptic Gregorian calendar.
#[derive(Clone, Copy, Debug, PartialEq, Eq, Structural)]
pub struct Date {
    pub year: i32,
    pub month: u32,
    pub day: u32,
}

pub open spec fn is_leap_year(y: int) -> bool {
    (y % 4 == 0 && y % 100 != 0) || y % 400 == 0
}

pub open spec fn days_in_month(y: int, m: int) -> int {
    if m == 2 {
        if is_leap_year(y) { 29 } else { 28 }
    } else if m == 4 || m == 6 || m == 9 || m == 11 {
        30
    } else {
        31
    }
}

/// The triple names an existing day in the range that chrono represents.
pub open spec fn valid_date(y: int, m: int, d: int) -> bool {
    MIN_YEAR <= y <= MAX_YEAR && 1 <= m <= 12 && 1 <= d <= days_in_month(y, m)
}

/// What chrono read from a text with a pattern: year, month and day, or
/// nothing where the text does not match.
pub uninterp spec fn parsed_date(text: Seq<char>, pattern: Seq<char>) -> Option<(int, int, int)>;

/// The pattern of the dates that the remote API reports: `YYYY-MM-DD`.
pub open spec fn ymd_pattern() -> Seq<char> {
    seq!['%', 'Y', '-', '%', 'm', '-', '%', 'd']
}

/// The pattern of cache file names: `dd-mm-yyyy`.
pub open spec fn dmy_pattern() -> Seq<char> {
    seq!['%', 'd', '-', '%', 'm', '-', '%', 'Y']
}

pub open spec fn digit(n: int) -> char {
    seq!['0', '1', '2', '3', '4', '5', '6', '7', '8', '9'][n]
}

/// Decimal digits of `n`, without leading zeros.
pub open spec fn decimal(n: nat) -> Seq<char>
    decreases n,
{
    if n < 10 {
        seq![digit(n as int)]
    } else {
        decimal(n / 10).push(digit((n % 10) as int))
    }
}

/// Decimal digits of `n`, with zeros in front up to four digits.
pub open spec fn at_least_four_digits(n: nat) -> Seq<char> {
    let d = decimal(n);
    if d.len() < 4 {
        Seq::new((4 - d.len()) as nat, |i: int| '0') + d
    } else {
        d
    }
}

/// A year as `%Y` writes it: four digits, with a sign outside `0..=9999`.
pub open spec fn year_text(y: int) -> Seq<char> {
    if 0 <= y <= 9999 {
        at_least_four_digits(y as nat)
    } else if y < 0 {
        seq!['-'] + at_least_four_digits((-y) as nat)
    } else {
        seq!['+'] + at_least_four_digits(y as nat)
    }
}

pub open spec fn two_digits(n: int) -> Seq<char> {
    seq![digit(n / 10), digit(n % 10)]
}

/// A date written as `dd-mm-yyyy`.
pub open spec fn dmy_text(y: int, m: int, d: int) -> Seq<char> {
    two_digits(d) + seq!['-'] + two_digits(m) + seq!['-'] + year_text(y)
}

/// The day `a` comes after the day `b`, both given as (year, month, day).
pub open spec fn later(a: (int, int, int), b: (int, int, int)) -> bool {
    a.0 > b.0 || (a.0 == b.0 && (a.1 > b.1 || (a.1 == b.1 && a.2 > b.2)))
}

impl Date {
    pub open spec fn wf(&self) -> bool {
        valid_date(self.year as int, self.month as int, self.day as int)
    }

    pub open spec fn triple(&self) -> (int, int, int) {
        (self.year as int, self.month as int, self.day as int)
    }

    pub open spec fn dmy(&self) -> Seq<char> {
        dmy_text(self.year as int, self.month as int, self.day as int)
    }

    /// `self` comes after `other` in the calendar.
    pub open spec fn spec_after(&self, other: &Date) -> bool {
        later(self.triple(), other.triple())
    }

    /// Whether `self` comes after `other` in the calendar.
    pub fn after(&self, other: &Date) -> (r: bool)
        ensures
            r == self.spec_after(other),
    {
        self.year > other.year || (self.year == other.year && (self.month > other.month || (
        self.month == other.month && self.day > other.day)))
    }

    /// Writes the date as `dd-mm-yyyy`, the stem of a cache file name.
    pub fn to_dmy(&self) -> (r: String)
        requires
            self.wf(),
        ensures
            r@ == self.dmy(),
    {
        proof {
            reveal_strlit("%d-%m-%Y");
            assert("%d-%m-%Y"@ =~= dmy_pattern());
        }
        format_date(self, "%d-%m-%Y")
    }
}

/// Declares `chrono::ParseError`, which `NaiveDate::parse_from_str` returns
/// for a text that does not match its pattern; it is carried unopened.
#[verifier::external_type_specification]
#[verifier::external_body]
pub struct ExChronoParseError(chrono::ParseError);

/// Relies on chrono's `NaiveDate::parse_from_str`: its outcome depends on the
/// text and the pattern alone, and a `NaiveDate` is always a valid day in
/// chrono's year range.
#[verifier::external_body]
pub(crate) fn parse_date(text: &str, pattern: &str) -> (r: Result<Date, chrono::ParseError>)
    ensures
        match r {
            Ok(d) => d.wf() && parsed_date(text@, pattern@) == Some(d.triple()),
            Err(_) => parsed_date(text@, pattern@) is None,
        },
{
    chrono::NaiveDate::parse_from_str(text, pattern).map(
        |n| Date { year: n.year(), month: n.month(), day: n.day() },
    )
}

/// Relies on chrono's `NaiveDate::from_ymd_opt`, which accepts every valid
/// date, and on `NaiveDate::format` with `%d-%m-%Y`: `%d` and `%m` write two
/// digits, `%Y` writes at least four digits, with a sign outside `0..=9999`.
#[verifier::external_body]
fn format_date(d: &Date, pattern: &str) -> (r: String)
    requires
        d.wf(),
        pattern@ == dmy_pattern(),
    ensures
        r@ == d.dmy(),
{
    chrono::NaiveDate::from_ymd_opt(d.year, d.month, d.day).unwrap().format(pattern).to_string()
}

} // verus!
