//! Calendar dates of the proleptic Gregorian calendar, as chrono's
//! `NaiveDate` represents them, and their texts.

use crate::decimal::{all_ascii_digits, digits_value, is_ascii_digit, parse_decimal};
use chrono::Datelike;
use vstd::prelude::*;
use vstd::utf8::is_char_boundary;

verus! {

/// The earliest year that chrono's `NaiveDate` represents.
pub const MIN_YEAR: i32 = -262143;

/// The latest year that chrono's `NaiveDate` represents.
pub const MAX_YEAR: i32 = 262142;

/// Leap years of the proleptic Gregorian calendar (year 0 is a leap year).
pub open spec fn is_leap_year(year: int) -> bool {
    year % 4 == 0 && (year % 100 != 0 || year % 400 == 0)
}

/// Number of days of a month (1 to 12) in a given year.
pub open spec fn days_in_month(year: int, month: int) -> int {
    if month == 2 {
        if is_leap_year(year) { 29 } else { 28 }
    } else if month == 4 || month == 6 || month == 9 || month == 11 {
        30
    } else {
        31
    }
}

/// The calendar day `year-month-day` exists and lies in chrono's range.
pub open spec fn is_valid_ymd(year: int, month: int, day: int) -> bool {
    &&& MIN_YEAR <= year <= MAX_YEAR
    &&& 1 <= month <= 12
    &&& 1 <= day <= days_in_month(year, month)
}

/// `is_valid_ymd` on a (year, month, day) triple.
pub open spec fn is_valid_date(date: (i32, u32, u32)) -> bool {
    is_valid_ymd(date.0 as int, date.1 as int, date.2 as int)
}

/// The decimal digit character of `d` (0 to 9).
pub open spec fn digit_char(d: nat) -> char {
    (d + 48) as char
}

/// The decimal digits of `n`, most significant first, without leading zeros.
pub open spec fn decimal_digits(n: nat) -> Seq<char>
    decreases n,
{
    if n < 10 {
        seq![digit_char(n)]
    } else {
        decimal_digits(n / 10).push(digit_char(n % 10))
    }
}

/// The decimal digits of `n`, with zeros in front up to `width` characters.
pub open spec fn zero_padded(n: nat, width: nat) -> Seq<char> {
    let digits = decimal_digits(n);
    if digits.len() < width {
        Seq::new((width - digits.len()) as nat, |i: int| '0') + digits
    } else {
        digits
    }
}

/// The year as chrono writes it: four digits for years 0 to 9999, and
/// otherwise a sign followed by at least four digits.
pub open spec fn year_text(year: int) -> Seq<char> {
    if 0 <= year <= 9999 {
        zero_padded(year as nat, 4)
    } else if year < 0 {
        seq!['-'] + zero_padded((-year) as nat, 4)
    } else {
        seq!['+'] + zero_padded(year as nat, 4)
    }
}

/// The ISO 8601 text `YYYY-MM-DD` of a date, as chrono writes it.
pub open spec fn iso_date_text(date: (i32, u32, u32)) -> Seq<char> {
    year_text(date.0 as int) + seq!['-'] + zero_padded(date.1 as nat, 2) + seq!['-']
        + zero_padded(date.2 as nat, 2)
}

/// What `chrono::NaiveDate::parse_from_str(text, "%Y%m%d")` gives, as the
/// year, month and day of the parsed date.
pub uninterp spec fn chrono_parse_compact(text: Seq<char>) -> Option<(i32, u32, u32)>;

/// `chrono::NaiveDate::from_ymd_opt`, with the date it makes read back
/// through `Datelike::{year, month, day}`.
///
/// Claims, as chrono documents it: a date is made exactly when the day
/// exists in the calendar and the year lies in chrono's range, and the
/// date made has the year, month and day it was asked for.
#[verifier::external_body]
fn chrono_from_ymd_opt(year: i32, month: u32, day: u32) -> (r: Option<(i32, u32, u32)>)
    ensures
        r is Some <==> is_valid_ymd(year as int, month as int, day as int),
        r matches Some(t) ==> t == (year, month, day),
{
    match chrono::NaiveDate::from_ymd_opt(year, month, day) {
        Some(date) => Some((date.year(), date.month(), date.day())),
        None => None,
    }
}

/// `Display` of `chrono::NaiveDate` (through `to_string`), on the date
/// `year-month-day`.
///
/// Claims: the text is `YYYY-MM-DD`, the year written as `iso_date_text`
/// says (chrono's `Debug` impl, which `Display` calls, writes two digits
/// for each of month and day and pads or signs the year).
#[verifier::external_body]
fn chrono_display(year: i32, month: u32, day: u32) -> (text: String)
    requires
        is_valid_ymd(year as int, month as int, day as int),
    ensures
        text@ == iso_date_text((year, month, day)),
{
    chrono::NaiveDate::from_ymd_opt(year, month, day).unwrap().to_string()
}

/// `chrono::NaiveDate::format` with the pattern `%Y-%m-%d`, on the date
/// `year-month-day`.
///
/// Claims: the text is the same `YYYY-MM-DD` text as `Display` writes
/// (`%Y` pads years 0 to 9999 to four digits and signs the others,
/// `%m` and `%d` write two digits).
#[verifier::external_body]
fn chrono_format_ymd(year: i32, month: u32, day: u32) -> (text: String)
    requires
        is_valid_ymd(year as int, month as int, day as int),
    ensures
        text@ == iso_date_text((year, month, day)),
{
    chrono::NaiveDate::from_ymd_opt(year, month, day).unwrap().format("%Y-%m-%d").to_string()
}

/// `chrono::NaiveDate::parse_from_str(text, "%Y%m%d")`, with the date it
/// parses read back through `Datelike::{year, month, day}`.
///
/// Claims: the result is `chrono_parse_compact` of the text, and a parsed
/// date is a day that chrono represents. Which texts chrono accepts
/// (signs, widths, surrounding spaces) is left to the name.
#[verifier::external_body]
fn chrono_parse_from_str_compact(text: &str) -> (r: Option<(i32, u32, u32)>)
    ensures
        r == chrono_parse_compact(text@),
        r matches Some(t) ==> is_valid_date(t),
{
    match chrono::NaiveDate::parse_from_str(text, "%Y%m%d") {
        Ok(date) => Some((date.year(), date.month(), date.day())),
        Err(_) => None,
    }
}

/// The date that an eight-byte `YYYYMMDD` text stands for on the release
/// form: the year read as an `i32`, month and day read as `u32`, and the
/// three making a day of the calendar.
pub open spec fn compact_date(bytes: Seq<u8>) -> Option<(i32, u32, u32)> {
    if bytes.len() != 8 {
        None
    } else {
        let year = parse_decimal(bytes.subrange(0, 4), true);
        let month = parse_decimal(bytes.subrange(4, 6), false);
        let day = parse_decimal(bytes.subrange(6, 8), false);
        if year is Some && month is Some && day is Some && is_valid_ymd(
            year.unwrap(),
            month.unwrap(),
            day.unwrap(),
        ) {
            Some((year.unwrap() as i32, month.unwrap() as u32, day.unwrap() as u32))
        } else {
            None
        }
    }
}

/// Cutting an eight-byte text into its year, month and day parts, in the
/// order the form reads them, falls on character boundaries: at byte 4
/// always, and at byte 6 once the year part has been read.
pub open spec fn compact_date_cuts_ok(bytes: Seq<u8>) -> bool {
    bytes.len() == 8 ==> {
        &&& is_char_boundary(bytes, 4)
        &&& parse_decimal(bytes.subrange(0, 4), true) is Some ==> is_char_boundary(bytes, 6)
    }
}

/// The ASCII digit byte of `d` (0 to 9).
pub open spec fn digit_byte(d: int) -> u8 {
    (d + 48) as u8
}

/// The `YYYYMMDD` text of a date whose year lies in 0 to 9999.
pub open spec fn compact_text(date: (i32, u32, u32)) -> Seq<u8> {
    let (y, m, d) = (date.0 as int, date.1 as int, date.2 as int);
    seq![
        digit_byte(y / 1000),
        digit_byte((y / 100) % 10),
        digit_byte((y / 10) % 10),
        digit_byte(y % 10),
        digit_byte(m / 10),
        digit_byte(m % 10),
        digit_byte(d / 10),
        digit_byte(d % 10),
    ]
}

proof fn lemma_four_digits(a: u8, b: u8, c: u8, e: u8)
    requires
        is_ascii_digit(a),
        is_ascii_digit(b),
        is_ascii_digit(c),
        is_ascii_digit(e),
    ensures
        all_ascii_digits(seq![a, b, c, e]),
        digits_value(seq![a, b, c, e]) == (a - 48) * 1000 + (b - 48) * 100 + (c - 48) * 10 + (e
            - 48),
{
    reveal_with_fuel(digits_value, 5);
    assert(seq![a, b, c, e].drop_last() =~= seq![a, b, c]);
    assert(seq![a, b, c].drop_last() =~= seq![a, b]);
    assert(seq![a, b].drop_last() =~= seq![a]);
    assert(seq![a].drop_last() =~= Seq::<u8>::empty());
}

proof fn lemma_two_digits(a: u8, b: u8)
    requires
        is_ascii_digit(a),
        is_ascii_digit(b),
    ensures
        all_ascii_digits(seq![a, b]),
        digits_value(seq![a, b]) == (a - 48) * 10 + (b - 48),
{
    reveal_with_fuel(digits_value, 3);
    assert(seq![a, b].drop_last() =~= seq![a]);
    assert(seq![a].drop_last() =~= Seq::<u8>::empty());
}

/// Law: a date written the way the release form asks for it
/// (`YYYYMMDD`, a year from 0 to 9999) is read back as that very date.
pub proof fn lemma_compact_text_reads_back(date: (i32, u32, u32))
    requires
        is_valid_date(date),
        0 <= date.0 <= 9999,
    ensures
        compact_date(compact_text(date)) == Some(date),
{
    let (y, m, d) = (date.0 as int, date.1 as int, date.2 as int);
    let t = compact_text(date);
    assert(y == (y / 1000) * 1000 + ((y / 100) % 10) * 100 + ((y / 10) % 10) * 10 + y % 10)
        by (nonlinear_arith)
        requires
            0 <= y <= 9999,
    ;
    assert(0 <= y / 1000 <= 9) by (nonlinear_arith)
        requires
            0 <= y <= 9999,
    ;
    assert(m == (m / 10) * 10 + m % 10 && 0 <= m / 10 <= 9) by (nonlinear_arith)
        requires
            1 <= m <= 12,
    ;
    assert(d == (d / 10) * 10 + d % 10 && 0 <= d / 10 <= 9) by (nonlinear_arith)
        requires
            1 <= d <= 31,
    ;
    let ys = t.subrange(0, 4);
    let ms = t.subrange(4, 6);
    let ds = t.subrange(6, 8);
    assert(ys =~= seq![t[0], t[1], t[2], t[3]]);
    assert(ms =~= seq![t[4], t[5]]);
    assert(ds =~= seq![t[6], t[7]]);
    lemma_four_digits(t[0], t[1], t[2], t[3]);
    lemma_two_digits(t[4], t[5]);
    lemma_two_digits(t[6], t[7]);
    assert(parse_decimal(ys, true) == Some(y));
    assert(parse_decimal(ms, false) == Some(m));
    assert(parse_decimal(ds, false) == Some(d));
}

/// Law: whatever the text, the date the release form reads from it is a
/// day of the calendar in chrono's range.
pub proof fn lemma_compact_date_exists(bytes: Seq<u8>)
    ensures
        compact_date(bytes) matches Some(date) ==> is_valid_date(date),
{
}

proof fn lemma_zero_padded_two(n: nat)
    requires
        n < 100,
    ensures
        zero_padded(n, 2) == seq![digit_char(n / 10), digit_char(n % 10)],
{
    reveal_with_fuel(decimal_digits, 3);
    if n < 10 {
        assert(decimal_digits(n) == seq![digit_char(n)]);
        assert(zero_padded(n, 2) =~= seq![digit_char(n / 10), digit_char(n % 10)]);
    } else {
        assert(decimal_digits(n / 10) == seq![digit_char(n / 10)]);
        assert(zero_padded(n, 2) =~= seq![digit_char(n / 10), digit_char(n % 10)]);
    }
}

proof fn lemma_zero_padded_four(n: nat)
    requires
        n < 10000,
    ensures
        zero_padded(n, 4) == seq![
            digit_char(n / 1000),
            digit_char((n / 100) % 10),
            digit_char((n / 10) % 10),
            digit_char(n % 10),
        ],
{
    reveal_with_fuel(decimal_digits, 5);
    let expected = seq![
        digit_char(n / 1000),
        digit_char((n / 100) % 10),
        digit_char((n / 10) % 10),
        digit_char(n % 10),
    ];
    if n < 10 {
        assert(decimal_digits(n) == seq![digit_char(n)]);
        assert(zero_padded(n, 4) =~= expected);
    } else if n < 100 {
        assert(decimal_digits(n / 10) == seq![digit_char(n / 10)]);
        assert(decimal_digits(n) =~= seq![digit_char(n / 10), digit_char(n % 10)]);
        assert(zero_padded(n, 4) =~= expected);
    } else if n < 1000 {
        assert(decimal_digits(n / 100) == seq![digit_char(n / 100)]);
        assert((n / 10) / 10 == n / 100);
        assert(decimal_digits(n / 10) =~= seq![digit_char(n / 100), digit_char((n / 10) % 10)]);
        assert(decimal_digits(n) =~= seq![
            digit_char(n / 100),
            digit_char((n / 10) % 10),
            digit_char(n % 10),
        ]);
        assert(zero_padded(n, 4) =~= expected);
    } else {
        assert(decimal_digits(n / 1000) == seq![digit_char(n / 1000)]);
        assert((n / 10) / 10 == n / 100);
        assert((n / 100) / 10 == n / 1000);
        assert(decimal_digits(n / 100) =~= seq![digit_char(n / 1000), digit_char((n / 100) % 10)]);
        assert(decimal_digits(n / 10) =~= seq![
            digit_char(n / 1000),
            digit_char((n / 100) % 10),
            digit_char((n / 10) % 10),
        ]);
        assert(decimal_digits(n) =~= expected);
    }
}

/// The characters of an ASCII byte sequence.
pub open spec fn ascii_chars(bytes: Seq<u8>) -> Seq<char> {
    bytes.map_values(|b: u8| b as char)
}

/// Law: the `YYYY-MM-DD` text of a date (year 0 to 9999) is its `YYYYMMDD`
/// text with a dash after the year and after the month, so the confirmed
/// date shows the digits typed into the release form.
pub proof fn lemma_iso_text_of_compact_text(date: (i32, u32, u32))
    requires
        is_valid_date(date),
        0 <= date.0 <= 9999,
    ensures
        iso_date_text(date) == ascii_chars(compact_text(date).subrange(0, 4)) + seq!['-']
            + ascii_chars(compact_text(date).subrange(4, 6)) + seq!['-'] + ascii_chars(
            compact_text(date).subrange(6, 8),
        ),
{
    let (y, m, d) = (date.0 as nat, date.1 as nat, date.2 as nat);
    lemma_zero_padded_four(y);
    lemma_zero_padded_two(m);
    lemma_zero_padded_two(d);
    let t = compact_text(date);
    assert(ascii_chars(t.subrange(0, 4)) =~= zero_padded(y, 4));
    assert(ascii_chars(t.subrange(4, 6)) =~= zero_padded(m, 2));
    assert(ascii_chars(t.subrange(6, 8)) =~= zero_padded(d, 2));
}

/// Law: an eight-digit text is read digit for digit. Its year is the
/// number its first four digits write, its month the next two, its day
/// the last two; it reads as a date exactly when that day exists, and then
/// as that very day, never another one.
pub proof fn lemma_digits_read_as_typed(b: Seq<u8>)
    requires
        b.len() == 8,
        forall|i: int| 0 <= i < 8 ==> is_ascii_digit(#[trigger] b[i]),
    ensures
        ({
            let y = (b[0] - 48) * 1000 + (b[1] - 48) * 100 + (b[2] - 48) * 10 + (b[3] - 48);
            let m = (b[4] - 48) * 10 + (b[5] - 48);
            let d = (b[6] - 48) * 10 + (b[7] - 48);
            &&& compact_date(b) is Some <==> is_valid_ymd(y, m, d)
            &&& compact_date(b) matches Some(x) ==> x.0 as int == y && x.1 as int == m && x.2
                as int == d
        }),
{
    assert(is_ascii_digit(b[0]) && is_ascii_digit(b[1]) && is_ascii_digit(b[2]) && is_ascii_digit(b[3]));
    assert(is_ascii_digit(b[4]) && is_ascii_digit(b[5]) && is_ascii_digit(b[6]) && is_ascii_digit(b[7]));
    assert(b.subrange(0, 4) =~= seq![b[0], b[1], b[2], b[3]]);
    assert(b.subrange(4, 6) =~= seq![b[4], b[5]]);
    assert(b.subrange(6, 8) =~= seq![b[6], b[7]]);
    lemma_four_digits(b[0], b[1], b[2], b[3]);
    lemma_two_digits(b[4], b[5]);
    lemma_two_digits(b[6], b[7]);
}

/// A day of the calendar, with a year in chrono's range.
#[derive(Clone, Copy, Debug, PartialEq, Eq)]
pub struct CalendarDate {
    year: i32,
    month: u32,
    day: u32,
}

impl View for CalendarDate {
    type V = (i32, u32, u32);

    /// The year, month (1 to 12) and day of the month (from 1).
    closed spec fn view(&self) -> (i32, u32, u32) {
        (self.year, self.month, self.day)
    }
}

impl CalendarDate {
    #[verifier::type_invariant]
    spec fn exists_in_calendar(self) -> bool {
        is_valid_ymd(self.year as int, self.month as int, self.day as int)
    }

    /// The date `year-month-day`, or `None` where that day does not exist
    /// or lies outside chrono's range.
    pub fn from_ymd_opt(year: i32, month: u32, day: u32) -> (r: Option<CalendarDate>)
        ensures
            r is Some <==> is_valid_ymd(year as int, month as int, day as int),
            r matches Some(date) ==> date@ == (year, month, day),
    {
        match chrono_from_ymd_opt(year, month, day) {
            Some(t) => Some(CalendarDate { year: t.0, month: t.1, day: t.2 }),
            None => None,
        }
    }

    /// The date that chrono parses from `text` with the pattern `%Y%m%d`.
    pub fn parse_compact(text: &str) -> (r: Option<CalendarDate>)
        ensures
            match chrono_parse_compact(text@) {
                Some(t) => r matches Some(date) && date@ == t,
                None => r is None,
            },
    {
        match chrono_parse_from_str_compact(text) {
            Some(t) => Some(CalendarDate { year: t.0, month: t.1, day: t.2 }),
            None => None,
        }
    }

    pub fn year(&self) -> (r: i32)
        ensures
            r == self@.0,
    {
        self.year
    }

    pub fn month(&self) -> (r: u32)
        ensures
            r == self@.1,
    {
        self.month
    }

    pub fn day(&self) -> (r: u32)
        ensures
            r == self@.2,
    {
        self.day
    }

    /// The `YYYY-MM-DD` text of the date, as chrono displays it.
    pub fn to_string(&self) -> (text: String)
        ensures
            text@ == iso_date_text(self@),
    {
        proof {
            use_type_invariant(self);
        }
        chrono_display(self.year, self.month, self.day)
    }

    /// The date formatted with the pattern `%Y-%m-%d`.
    pub fn format_ymd(&self) -> (text: String)
        ensures
            text@ == iso_date_text(self@),
    {
        proof {
            use_type_invariant(self);
        }
        chrono_format_ymd(self.year, self.month, self.day)
    }
}

} // verus!
