//! Calendar dates and the fixed `YYYY-MM-DD HH:MM` date-time format used by
//! the assignment pages.

use vstd::prelude::*;
use crate::text::digit_str;

verus! {

/// A calendar date in the proleptic Gregorian calendar, year 0 through 9999.
#[derive(Clone, Copy, Debug, PartialEq, Eq, Structural)]
pub struct Date {
    pub year: u32,
    pub month: u32,
    pub day: u32,
}

/// A naive local date-time, to minute precision.
#[derive(Clone, Copy, Debug, PartialEq, Eq, Structural)]
pub struct DateTime {
    pub year: u32,
    pub month: u32,
    pub day: u32,
    pub hour: u32,
    pub minute: u32,
}

pub open spec fn is_leap_year(y: int) -> bool {
    (y % 4 == 0 && y % 100 != 0) || y % 400 == 0
}

pub open spec fn days_in_month(y: int, m: int) -> int {
    if m == 4 || m == 6 || m == 9 || m == 11 {
        30
    } else if m == 2 {
        if is_leap_year(y) {
            29
        } else {
            28
        }
    } else {
        31
    }
}

pub open spec fn valid_date(y: int, m: int, d: int) -> bool {
    &&& 0 <= y <= 9999
    &&& 1 <= m <= 12
    &&& 1 <= d <= days_in_month(y, m)
}

/// The rank of a date in a linear count of days, so that calendar distance
/// between two dates is the difference of their day numbers. The origin is
/// arbitrary; only differences matter.
pub open spec fn day_number_of(y: int, m: int, d: int) -> int {
    let yy = if m <= 2 {
        y + 399
    } else {
        y + 400
    };
    let mm = if m <= 2 {
        m + 9
    } else {
        m - 3
    };
    let era = yy / 400;
    let yoe = yy % 400;
    let doy = (153 * mm + 2) / 5 + d - 1;
    let doe = yoe * 365 + yoe / 4 - yoe / 100 + doy;
    era * 146097 + doe
}

fn days_in_month_exec(y: u32, m: u32) -> (r: u32)
    requires
        1 <= m <= 12,
    ensures
        r == days_in_month(y as int, m as int),
{
    if m == 4 || m == 6 || m == 9 || m == 11 {
        30
    } else if m == 2 {
        if y % 4 == 0 && (y % 100 != 0 || y % 400 == 0) {
            29
        } else {
            28
        }
    } else {
        31
    }
}

impl Date {
    pub open spec fn well_formed(self) -> bool {
        valid_date(self.year as int, self.month as int, self.day as int)
    }

    /// Builds a date, accepting exactly the valid calendar dates.
    pub fn new(year: u32, month: u32, day: u32) -> (r: Option<Date>)
        ensures
            r is Some <==> valid_date(year as int, month as int, day as int),
            r matches Some(d) ==> d == (Date { year, month, day }) && d.well_formed(),
    {
        if year <= 9999 && 1 <= month && month <= 12 && 1 <= day && day <= days_in_month_exec(
            year,
            month,
        ) {
            Some(Date { year, month, day })
        } else {
            None
        }
    }

    pub open spec fn spec_day_number(self) -> int {
        day_number_of(self.year as int, self.month as int, self.day as int)
    }

    pub fn day_number(&self) -> (r: u32)
        requires
            self.well_formed(),
        ensures
            r == self.spec_day_number(),
    {
        let (yy, mm): (u32, u32) = if self.month <= 2 {
            (self.year + 399, self.month + 9)
        } else {
            (self.year + 400, self.month - 3)
        };
        let era: u32 = yy / 400;
        let yoe: u32 = yy % 400;
        let doy: u32 = (153 * mm + 2) / 5 + self.day - 1;
        let doe: u32 = yoe * 365 + yoe / 4 - yoe / 100 + doy;
        era * 146097 + doe
    }
}

impl DateTime {
    pub open spec fn well_formed(self) -> bool {
        &&& valid_date(self.year as int, self.month as int, self.day as int)
        &&& self.hour <= 23
        &&& self.minute <= 59
    }

    /// The calendar date of this date-time, dropping the time of day.
    pub fn date(&self) -> (r: Date)
        ensures
            r == self.spec_date(),
    {
        Date { year: self.year, month: self.month, day: self.day }
    }

    pub open spec fn spec_date(self) -> Date {
        Date { year: self.year, month: self.month, day: self.day }
    }
}

pub open spec fn is_digit_char(c: char) -> bool {
    '0' <= c && c <= '9'
}

pub open spec fn digit_val(c: char) -> int {
    c as int - '0' as int
}

/// The inverse of `digit_val` on 0 through 9.
pub open spec fn char_of_digit(d: int) -> char {
    if d == 0 {
        '0'
    } else if d == 1 {
        '1'
    } else if d == 2 {
        '2'
    } else if d == 3 {
        '3'
    } else if d == 4 {
        '4'
    } else if d == 5 {
        '5'
    } else if d == 6 {
        '6'
    } else if d == 7 {
        '7'
    } else if d == 8 {
        '8'
    } else {
        '9'
    }
}

/// Whether `s` has the shape `YYYY-MM-DD HH:MM`: sixteen characters, digits in
/// the numeric positions and the fixed punctuation between them.
pub open spec fn datetime_text_shape(s: Seq<char>) -> bool {
    &&& s.len() == 16
    &&& is_digit_char(s[0]) && is_digit_char(s[1]) && is_digit_char(s[2]) && is_digit_char(s[3])
    &&& s[4] == '-'
    &&& is_digit_char(s[5]) && is_digit_char(s[6])
    &&& s[7] == '-'
    &&& is_digit_char(s[8]) && is_digit_char(s[9])
    &&& s[10] == ' '
    &&& is_digit_char(s[11]) && is_digit_char(s[12])
    &&& s[13] == ':'
    &&& is_digit_char(s[14]) && is_digit_char(s[15])
}

pub open spec fn text_year(s: Seq<char>) -> int {
    1000 * digit_val(s[0]) + 100 * digit_val(s[1]) + 10 * digit_val(s[2]) + digit_val(s[3])
}

pub open spec fn text_month(s: Seq<char>) -> int {
    10 * digit_val(s[5]) + digit_val(s[6])
}

pub open spec fn text_day(s: Seq<char>) -> int {
    10 * digit_val(s[8]) + digit_val(s[9])
}

pub open spec fn text_hour(s: Seq<char>) -> int {
    10 * digit_val(s[11]) + digit_val(s[12])
}

pub open spec fn text_minute(s: Seq<char>) -> int {
    10 * digit_val(s[14]) + digit_val(s[15])
}

/// Whether `s` is a well-formed date-time cell: the fixed shape, and the
/// fields within calendar range.
pub open spec fn valid_datetime_text(s: Seq<char>) -> bool {
    &&& datetime_text_shape(s)
    &&& 1 <= text_month(s) <= 12
    &&& 1 <= text_day(s) <= days_in_month(text_year(s), text_month(s))
    &&& text_hour(s) <= 23
    &&& text_minute(s) <= 59
}

pub open spec fn datetime_of_text(s: Seq<char>) -> DateTime {
    DateTime {
        year: text_year(s) as u32,
        month: text_month(s) as u32,
        day: text_day(s) as u32,
        hour: text_hour(s) as u32,
        minute: text_minute(s) as u32,
    }
}

/// The one text that denotes `dt` in the fixed `YYYY-MM-DD HH:MM` format.
pub open spec fn canonical_text(dt: DateTime) -> Seq<char> {
    seq![
        char_of_digit(dt.year as int / 1000),
        char_of_digit((dt.year as int / 100) % 10),
        char_of_digit((dt.year as int / 10) % 10),
        char_of_digit(dt.year as int % 10),
        '-',
        char_of_digit(dt.month as int / 10),
        char_of_digit(dt.month as int % 10),
        '-',
        char_of_digit(dt.day as int / 10),
        char_of_digit(dt.day as int % 10),
        ' ',
        char_of_digit(dt.hour as int / 10),
        char_of_digit(dt.hour as int % 10),
        ':',
        char_of_digit(dt.minute as int / 10),
        char_of_digit(dt.minute as int % 10),
    ]
}

/// Reads the digit at position `i`, or `None` where another character stands.
fn read_digit(s: &str, i: usize) -> (r: Option<u32>)
    requires
        i < s@.len(),
    ensures
        r is Some <==> is_digit_char(s@[i as int]),
        r matches Some(v) ==> v == digit_val(s@[i as int]) && v <= 9,
{
    let c = s.get_char(i);
    if '0' <= c && c <= '9' {
        Some(c as u32 - '0' as u32)
    } else {
        None
    }
}

/// Reads the two-digit number at positions `i` and `i + 1`.
fn read_two_digits(s: &str, i: usize) -> (r: Option<u32>)
    requires
        i < usize::MAX,
        i + 1 < s@.len(),
    ensures
        r is Some <==> is_digit_char(s@[i as int]) && is_digit_char(s@[i + 1]),
        r matches Some(v) ==> v == 10 * digit_val(s@[i as int]) + digit_val(s@[i + 1]) && v <= 99,
{
    match (read_digit(s, i), read_digit(s, i + 1)) {
        (Some(a), Some(b)) => Some(10 * a + b),
        _ => None,
    }
}

/// Parses a date-time cell in the fixed `YYYY-MM-DD HH:MM` format, accepting
/// exactly the well-formed texts.
pub fn parse_datetime(s: &str) -> (r: Option<DateTime>)
    ensures
        r is Some <==> valid_datetime_text(s@),
        r matches Some(dt) ==> dt == datetime_of_text(s@) && dt.well_formed(),
{
    if s.unicode_len() != 16 {
        return None;
    }
    if s.get_char(4) != '-' || s.get_char(7) != '-' || s.get_char(10) != ' ' || s.get_char(13)
        != ':' {
        return None;
    }
    let (y_hi, y_lo) = match (read_two_digits(s, 0), read_two_digits(s, 2)) {
        (Some(a), Some(b)) => (a, b),
        _ => { return None },
    };
    let year: u32 = 100 * y_hi + y_lo;
    let month: u32 = match read_two_digits(s, 5) {
        Some(v) => v,
        _ => { return None },
    };
    let day: u32 = match read_two_digits(s, 8) {
        Some(v) => v,
        _ => { return None },
    };
    let hour: u32 = match read_two_digits(s, 11) {
        Some(v) => v,
        _ => { return None },
    };
    let minute: u32 = match read_two_digits(s, 14) {
        Some(v) => v,
        _ => { return None },
    };
    if month < 1 || month > 12 {
        return None;
    }
    if day < 1 || day > days_in_month_exec(year, month) {
        return None;
    }
    if hour > 23 || minute > 59 {
        return None;
    }
    Some(DateTime { year, month, day, hour, minute })
}

impl DateTime {
    /// Renders this date-time in the fixed `YYYY-MM-DD HH:MM` format.
    pub fn render(&self) -> (r: String)
        requires
            self.well_formed(),
        ensures
            r@ == canonical_text(*self),
    {
        let mut s = String::new();
        s.append(digit_str(self.year / 1000));
        s.append(digit_str(self.year / 100 % 10));
        s.append(digit_str(self.year / 10 % 10));
        s.append(digit_str(self.year % 10));
        s.append("-");
        s.append(digit_str(self.month / 10));
        s.append(digit_str(self.month % 10));
        s.append("-");
        s.append(digit_str(self.day / 10));
        s.append(digit_str(self.day % 10));
        s.append(" ");
        s.append(digit_str(self.hour / 10));
        s.append(digit_str(self.hour % 10));
        s.append(":");
        s.append(digit_str(self.minute / 10));
        s.append(digit_str(self.minute % 10));
        proof {
            reveal_strlit("-");
            reveal_strlit(" ");
            reveal_strlit(":");
            assert(s@ =~= canonical_text(*self));
        }
        s
    }
}

/// `char_of_digit` and `digit_val` are mutual inverses on single digits.
proof fn lemma_digit_char_val(d: int)
    requires
        0 <= d <= 9,
    ensures
        is_digit_char(char_of_digit(d)),
        digit_val(char_of_digit(d)) == d,
{
}

/// Law: rendering and parsing are mutual inverses — a well-formed
/// date-time has exactly one text in the fixed format, and parsing that
/// text gives the date-time back.
pub proof fn lemma_canonical_text_round_trip(dt: DateTime)
    requires
        dt.well_formed(),
    ensures
        valid_datetime_text(canonical_text(dt)),
        datetime_of_text(canonical_text(dt)) == dt,
{
    let s = canonical_text(dt);
    let y = dt.year as int;
    let mo = dt.month as int;
    let d = dt.day as int;
    let h = dt.hour as int;
    let mi = dt.minute as int;
    lemma_digit_char_val(y / 1000);
    lemma_digit_char_val((y / 100) % 10);
    lemma_digit_char_val((y / 10) % 10);
    lemma_digit_char_val(y % 10);
    lemma_digit_char_val(mo / 10);
    lemma_digit_char_val(mo % 10);
    lemma_digit_char_val(d / 10);
    lemma_digit_char_val(d % 10);
    lemma_digit_char_val(h / 10);
    lemma_digit_char_val(h % 10);
    lemma_digit_char_val(mi / 10);
    lemma_digit_char_val(mi % 10);
    assert(text_year(s) == 1000 * (y / 1000) + 100 * ((y / 100) % 10) + 10 * ((y / 10) % 10) + y
        % 10);
    assert(1000 * (y / 1000) + 100 * ((y / 100) % 10) + 10 * ((y / 10) % 10) + y % 10 == y) by {
        assert(y / 10 == 10 * (y / 100) + (y / 10) % 10);
        assert(y / 100 == 10 * (y / 1000) + (y / 100) % 10);
        assert(y == 10 * (y / 10) + y % 10);
    }
    assert(text_month(s) == mo) by {
        assert(mo == 10 * (mo / 10) + mo % 10);
    }
    assert(text_day(s) == d) by {
        assert(d == 10 * (d / 10) + d % 10);
    }
    assert(text_hour(s) == h) by {
        assert(h == 10 * (h / 10) + h % 10);
    }
    assert(text_minute(s) == mi) by {
        assert(mi == 10 * (mi / 10) + mi % 10);
    }
}

/// The calendar successor of a date: the next day, rolling over month and
/// year ends.
pub open spec fn spec_next_day(y: int, m: int, d: int) -> (int, int, int) {
    if d < days_in_month(y, m) {
        (y, m, d + 1)
    } else if m < 12 {
        (y, m + 1, 1)
    } else {
        (y + 1, 1, 1)
    }
}

/// Law: the day number counts calendar days — every valid date's calendar
/// successor has the next day number, so the difference of two day numbers
/// is the number of calendar days between the dates.
pub proof fn lemma_day_number_counts_days(y: int, m: int, d: int)
    requires
        valid_date(y, m, d),
        !(y == 9999 && m == 12 && d == 31),
    ensures
        ({
            let (y2, m2, d2) = spec_next_day(y, m, d);
            &&& valid_date(y2, m2, d2)
            &&& day_number_of(y2, m2, d2) == day_number_of(y, m, d) + 1
        }),
{
    broadcast use vstd::arithmetic::div_mod::group_div_basics;

    let dim = days_in_month(y, m);
    if d < dim {
        // Same month: only the day-of-year term moves, by one.
    } else if m == 2 {
        lemma_day_number_crosses_february(y);
    } else if m < 12 {
        // The remaining month ends keep the shifted year, so only the
        // day-of-year term moves, by that month's length.
        if m == 1 {
            assert((153 * 10 + 2) / 5 == 306);
            assert((153 * 11 + 2) / 5 == 337);
        } else if m == 3 {
            assert((153 * 0 + 2) / 5 == 0);
            assert((153 * 1 + 2) / 5 == 31);
        } else if m == 4 {
            assert((153 * 1 + 2) / 5 == 31);
            assert((153 * 2 + 2) / 5 == 61);
        } else if m == 5 {
            assert((153 * 2 + 2) / 5 == 61);
            assert((153 * 3 + 2) / 5 == 92);
        } else if m == 6 {
            assert((153 * 3 + 2) / 5 == 92);
            assert((153 * 4 + 2) / 5 == 122);
        } else if m == 7 {
            assert((153 * 4 + 2) / 5 == 122);
            assert((153 * 5 + 2) / 5 == 153);
        } else if m == 8 {
            assert((153 * 5 + 2) / 5 == 153);
            assert((153 * 6 + 2) / 5 == 184);
        } else if m == 9 {
            assert((153 * 6 + 2) / 5 == 184);
            assert((153 * 7 + 2) / 5 == 214);
        } else if m == 10 {
            assert((153 * 7 + 2) / 5 == 214);
            assert((153 * 8 + 2) / 5 == 245);
        } else {
            assert((153 * 8 + 2) / 5 == 245);
            assert((153 * 9 + 2) / 5 == 275);
        }
    } else {
        // December's end: in the shifted (March-first) year both dates fall
        // in the same era and year-of-era, so again only the day-of-year
        // term moves.
        assert((153 * 9 + 2) / 5 == 275);
        assert((153 * 10 + 2) / 5 == 306);
    }
}

/// The February case of `lemma_day_number_counts_days`: crossing into March
/// moves to the next shifted year, and the leap rule of the year matches
/// the quadrennial and centennial steps of the year-of-era terms exactly.
proof fn lemma_day_number_crosses_february(y: int)
    requires
        0 <= y <= 9999,
    ensures
        day_number_of(y, 3, 1) == day_number_of(y, 2, days_in_month(y, 2)) + 1,
{
    vstd::arithmetic::div_mod::lemma_fundamental_div_mod(y + 399, 400);
    vstd::arithmetic::div_mod::lemma_mod_bound(y + 399, 400);
    let q = (y + 399) / 400;
    let r = (y + 399) % 400;
    if r == 399 {
        // The year-of-era wraps: `y` is a multiple of 400, a leap year.
        vstd::arithmetic::div_mod::lemma_fundamental_div_mod_converse(y + 400, 400, q + 1, 0);
        assert(y == 400 * q);
        vstd::arithmetic::div_mod::lemma_mod_multiples_basic(q, 400);
        assert(y % 400 == 0);
        assert(is_leap_year(y));
        assert((153 * 11 + 2) / 5 == 337);
        assert(399int / 4 == 99 && 399int / 100 == 3);
    } else {
        vstd::arithmetic::div_mod::lemma_fundamental_div_mod_converse(y + 400, 400, q, r + 1);
        // `y` and `r + 1` agree modulo 4, 100 and 400.
        assert(y == 400 * (q - 1) + (r + 1));
        assert(y == 4 * (100 * (q - 1)) + (r + 1)) by {
            assert(400 * (q - 1) == 4 * (100 * (q - 1))) by (nonlinear_arith);
        }
        vstd::arithmetic::div_mod::lemma_mod_multiples_vanish(100 * (q - 1), r + 1, 4);
        assert(y % 4 == (r + 1) % 4);
        assert(y == 100 * (4 * (q - 1)) + (r + 1)) by {
            assert(400 * (q - 1) == 100 * (4 * (q - 1))) by (nonlinear_arith);
        }
        vstd::arithmetic::div_mod::lemma_mod_multiples_vanish(4 * (q - 1), r + 1, 100);
        assert(y % 100 == (r + 1) % 100);
        vstd::arithmetic::div_mod::lemma_mod_multiples_vanish(q - 1, r + 1, 400);
        vstd::arithmetic::div_mod::lemma_small_mod((r + 1) as nat, 400nat);
        assert(y % 400 == r + 1);
        // The quadrennial step of the year-of-era term.
        vstd::arithmetic::div_mod::lemma_fundamental_div_mod(r, 4);
        vstd::arithmetic::div_mod::lemma_mod_bound(r, 4);
        if r % 4 == 3 {
            vstd::arithmetic::div_mod::lemma_fundamental_div_mod_converse(r + 1, 4, r / 4 + 1, 0);
        } else {
            vstd::arithmetic::div_mod::lemma_fundamental_div_mod_converse(r + 1, 4, r / 4, r % 4 + 1);
        }
        // The centennial step.
        vstd::arithmetic::div_mod::lemma_fundamental_div_mod(r, 100);
        vstd::arithmetic::div_mod::lemma_mod_bound(r, 100);
        if r % 100 == 99 {
            vstd::arithmetic::div_mod::lemma_fundamental_div_mod_converse(r + 1, 100, r / 100 + 1, 0);
        } else {
            vstd::arithmetic::div_mod::lemma_fundamental_div_mod_converse(
                r + 1,
                100,
                r / 100,
                r % 100 + 1,
            );
        }
        // A centennial step is always a quadrennial one.
        if (r + 1) % 100 == 0 {
            assert(r + 1 == 100 * ((r + 1) / 100));
            assert(r + 1 == 4 * (25 * ((r + 1) / 100))) by (nonlinear_arith)
                requires r + 1 == 100 * ((r + 1) / 100);
            vstd::arithmetic::div_mod::lemma_mod_multiples_basic(25 * ((r + 1) / 100), 4);
            assert((r + 1) % 4 == 0);
        }
        assert((153 * 11 + 2) / 5 == 337);
    }
}

} // verus!
