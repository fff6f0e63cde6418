//! Notes of calendar days: the namespace and the header of a date.

use crate::error::JournalError;
use crate::text::{decimal, decimal_text, int_text, signed_decimal, texts};
use vstd::prelude::*;
use vstd::string::*;

verus! {

/// Leap years of the proleptic Gregorian calendar.
pub open spec fn is_leap_year(year: int) -> bool {
    year % 4 == 0 && (year % 100 != 0 || year % 400 == 0)
}

/// The number of days of a month.
pub open spec fn days_in_month(year: int, month: int) -> int {
    if month == 2 {
        if is_leap_year(year) {
            29
        } else {
            28
        }
    } else if month == 4 || month == 6 || month == 9 || month == 11 {
        30
    } else {
        31
    }
}

/// The days that can be named: a day that its month has, a month of the
/// year, and a year that the calendar library can hold.
pub open spec fn valid_date(year: int, month: int, day: int) -> bool {
    &&& -262143 <= year <= 262142
    &&& 1 <= month <= 12
    &&& 1 <= day <= days_in_month(year, month)
}

/// A day written out: the weekday's name, the day of the month padded with a
/// space to two places, the month's name and the year.
pub uninterp spec fn long_date_text(year: int, month: int, day: int) -> Seq<char>;

/// The namespace of a day's note: year, month and day as decimal numerals.
pub open spec fn date_namespace(year: int, month: int, day: int) -> Seq<Seq<char>>
    recommends
        month >= 0,
        day >= 0,
{
    seq![int_text(year), decimal_text(month as nat), decimal_text(day as nat)]
}

/// The header of a day's note.
pub open spec fn date_header(year: int, month: int, day: int) -> Seq<char> {
    "# "@ + long_date_text(year, month, day)
}

/// `chrono::NaiveDate::from_ymd_opt`, then `NaiveDate::format` with the
/// pattern `%A %e %B %Y`. Believed, not proved: a date is made exactly of a
/// day that exists, in a year from -262143 to 262142; the text that comes
/// back depends on year, month and day alone.
#[verifier::external_body]
fn long_date(year: i32, month: u32, day: u32) -> (text: Option<String>)
    ensures
        text.is_some() == valid_date(year as int, month as int, day as int),
        text matches Some(t) ==> t@ == long_date_text(year as int, month as int, day as int),
{
    match chrono::NaiveDate::from_ymd_opt(year, month, day) {
        Some(date) => Some(date.format("%A %e %B %Y").to_string()),
        None => None,
    }
}

/// `chrono::Local::now`, read as year, month and day through
/// `chrono::Datelike`. Believed, not proved: the date that comes back is a
/// day that exists, in a year from -262143 to 262142, as every date of the
/// calendar library is. Which day it is the clock decides. Where the system
/// clock stands before 1970 the calendar library stops the program.
#[verifier::external_body]
fn today() -> (date: (i32, u32, u32))
    ensures
        valid_date(date.0 as int, date.1 as int, date.2 as int),
{
    let date = chrono::Local::now().date_naive();
    (chrono::Datelike::year(&date), chrono::Datelike::month(&date), chrono::Datelike::day(&date))
}

/// A day's note: the namespace that names it and the header it starts with.
#[derive(Clone, Debug)]
pub struct DatedNote {
    /// Year, month and day.
    pub namespace: Vec<String>,
    /// The heading of a fresh note.
    pub header: String,
}

impl DatedNote {
    /// Whether this is the note of the given day.
    pub open spec fn is_for(&self, year: int, month: int, day: int) -> bool {
        &&& texts(self.namespace@) == date_namespace(year, month, day)
        &&& self.header@ == date_header(year, month, day)
    }
}

/// The note of a day, or the error of a day that the calendar does not have.
pub fn for_date(year: i32, month: u32, day: u32) -> (note: Result<DatedNote, JournalError>)
    ensures
        note.is_ok() == valid_date(year as int, month as int, day as int),
        note matches Err(e) ==> e == JournalError::InvalidDate,
        note matches Ok(n) ==> n.is_for(year as int, month as int, day as int),
{
    match long_date(year, month, day) {
        None => Err(JournalError::InvalidDate),
        Some(text) => {
            let header = String::from_str("# ").concat(text.as_str());
            let namespace = vec![
                signed_decimal(year),
                decimal(month as u64),
                decimal(day as u64),
            ];
            assert(texts(namespace@) =~= date_namespace(year as int, month as int, day as int));
            Ok(DatedNote { namespace, header })
        },
    }
}

/// The note of the current local day. The clock decides which day that is;
/// whichever it is, it has a note.
pub fn for_today() -> (note: DatedNote)
    ensures
        exists|year: int, month: int, day: int|
            valid_date(year, month, day) && #[trigger] note.is_for(year, month, day),
{
    let (year, month, day) = today();
    let note = for_date(year, month, day).unwrap();
    assert(note.is_for(year as int, month as int, day as int));
    note
}

} // verus!
