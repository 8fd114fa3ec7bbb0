//! Timestamps of records: a calendar date and a time of day, written
//! `YYYY-MM-DD`, a separator (`T`, `t` or a space), `HH:MM:SS`, then
//! optionally a fraction of a second (`.` and one or more digits), then
//! optionally a zone (`Z`, `z`, or `+HH:MM` / `-HH:MM`).

use vstd::prelude::*;

verus! {

pub open spec fn is_digit(c: char) -> bool {
    '0' <= c && c <= '9'
}

pub open spec fn digit_value(c: char) -> int {
    c as int - '0' as int
}

/// The number written by the two digits at `at`, if two digits stand there.
pub open spec fn two_digits(text: Seq<char>, at: int) -> Option<int> {
    if 0 <= at && at + 2 <= text.len() && is_digit(text[at]) && is_digit(text[at + 1]) {
        Some(10 * digit_value(text[at]) + digit_value(text[at + 1]))
    } else {
        None
    }
}

/// The number written by the four digits at `at`, if four digits stand there.
pub open spec fn four_digits(text: Seq<char>, at: int) -> Option<int> {
    match (two_digits(text, at), two_digits(text, at + 2)) {
        (Some(high), Some(low)) => Some(100 * high + low),
        _ => None,
    }
}

pub open spec fn is_leap_year(year: int) -> bool {
    year % 4 == 0 && (year % 100 != 0 || year % 400 == 0)
}

pub open spec fn days_in_month(year: int, month: int) -> int {
    if month == 2 {
        if is_leap_year(year) {
            29
        } else {
            28
        }
    } else if month == 4 || month == 6 || month == 9 || month == 11 {
        30
    } else {
        31
    }
}

/// Whether the calendar has this day.
pub open spec fn valid_date(year: int, month: int, day: int) -> bool {
    1 <= month <= 12 && 1 <= day <= days_in_month(year, month)
}

/// Whether the clock shows this time.
pub open spec fn valid_time(hour: int, minute: int, second: int) -> bool {
    0 <= hour <= 23 && 0 <= minute <= 59 && 0 <= second <= 59
}

pub open spec fn is_separator(c: char) -> bool {
    c == 'T' || c == 't' || c == ' '
}

/// How many digits stand in a row from `at` on.
pub open spec fn digit_run(text: Seq<char>, at: int) -> int
    decreases text.len() - at,
{
    if 0 <= at < text.len() && is_digit(text[at]) {
        1 + digit_run(text, at + 1)
    } else {
        0
    }
}

/// How many characters the fraction of a second at `at` takes: none where
/// no `.` stands there. `None` where a `.` stands there without a digit
/// behind it.
pub open spec fn fraction_len(text: Seq<char>, at: int) -> Option<int> {
    if 0 <= at < text.len() && text[at] == '.' {
        if digit_run(text, at + 1) >= 1 {
            Some(1 + digit_run(text, at + 1))
        } else {
            None
        }
    } else {
        Some(0)
    }
}

/// Whether what stands from `at` to the end is a zone, or nothing.
pub open spec fn valid_zone(text: Seq<char>, at: int) -> bool {
    ||| at == text.len()
    ||| at + 1 == text.len() && (text[at] == 'Z' || text[at] == 'z')
    ||| {
        &&& at + 6 == text.len()
        &&& text[at] == '+' || text[at] == '-'
        &&& text[at + 3] == ':'
        &&& two_digits(text, at + 1) matches Some(hours)
        &&& two_digits(text, at + 4) matches Some(minutes)
        &&& hours <= 23 && minutes <= 59
    }
}

/// Whether a text is a timestamp a record may carry: it is written in the
/// form above and names a day the calendar has and a time the clock shows.
/// Such a text is never empty.
pub open spec fn valid_timestamp(text: Seq<char>) -> bool {
    &&& text.len() >= 19
    &&& text[4] == '-' && text[7] == '-'
    &&& is_separator(text[10])
    &&& text[13] == ':' && text[16] == ':'
    &&& four_digits(text, 0) matches Some(year)
    &&& two_digits(text, 5) matches Some(month)
    &&& two_digits(text, 8) matches Some(day)
    &&& two_digits(text, 11) matches Some(hour)
    &&& two_digits(text, 14) matches Some(minute)
    &&& two_digits(text, 17) matches Some(second)
    &&& valid_date(year, month, day)
    &&& valid_time(hour, minute, second)
    &&& fraction_len(text, 19) matches Some(fraction)
    &&& valid_zone(text, 19 + fraction)
}

/// A valid timestamp is not empty: it has at least the nineteen characters
/// of the date and the time.
pub proof fn lemma_valid_timestamp_not_empty(text: Seq<char>)
    requires
        valid_timestamp(text),
    ensures
        text.len() >= 19,
{
}

fn chars_of(text: &str) -> (v: Vec<char>)
    ensures
        v@ == text@,
{
    let mut v: Vec<char> = Vec::new();
    for c in it: text.chars()
        invariant
            it.seq() == text@,
            v@ == it.seq().take(it.index() as int),
    {
        v.push(c);
    }
    v
}

fn read_digit(c: char) -> (r: Option<u32>)
    ensures
        r matches Some(d) ==> is_digit(c) && d == digit_value(c) && d <= 9,
        r.is_none() ==> !is_digit(c),
{
    if c >= '0' && c <= '9' {
        Some(c as u32 - '0' as u32)
    } else {
        None
    }
}

fn read_two_digits(text: &Vec<char>, at: usize) -> (r: Option<u32>)
    requires
        at <= usize::MAX - 2,
    ensures
        r matches Some(n) ==> two_digits(text@, at as int) == Some(n as int) && n <= 99,
        r.is_none() ==> two_digits(text@, at as int).is_none(),
{
    if at + 2 > text.len() {
        return None;
    }
    match (read_digit(text[at]), read_digit(text[at + 1])) {
        (Some(high), Some(low)) => Some(10 * high + low),
        _ => None,
    }
}

fn check_date(year: u32, month: u32, day: u32) -> (r: bool)
    ensures
        r == valid_date(year as int, month as int, day as int),
{
    if month < 1 || month > 12 || day < 1 {
        return false;
    }
    let leap = year % 4 == 0 && (year % 100 != 0 || year % 400 == 0);
    let days: u32 = if month == 2 {
        if leap {
            29
        } else {
            28
        }
    } else if month == 4 || month == 6 || month == 9 || month == 11 {
        30
    } else {
        31
    };
    day <= days
}

fn count_digits(text: &Vec<char>, at: usize) -> (r: usize)
    requires
        at <= text.len(),
    ensures
        r == digit_run(text@, at as int),
        at + r <= text.len(),
{
    let mut end: usize = at;
    while end < text.len() && read_digit(text[end]).is_some()
        invariant
            at <= end <= text.len(),
            digit_run(text@, at as int) == (end - at) + digit_run(text@, end as int),
        decreases text.len() - end,
    {
        end += 1;
    }
    end - at
}

fn check_zone(text: &Vec<char>, at: usize) -> (r: bool)
    requires
        at <= text.len(),
    ensures
        r == valid_zone(text@, at as int),
{
    let rest = text.len() - at;
    if rest == 0 {
        true
    } else if rest == 1 {
        text[at] == 'Z' || text[at] == 'z'
    } else if rest == 6 {
        if !(text[at] == '+' || text[at] == '-') || text[at + 3] != ':' {
            return false;
        }
        match (read_two_digits(text, at + 1), read_two_digits(text, at + 4)) {
            (Some(hours), Some(minutes)) => hours <= 23 && minutes <= 59,
            _ => false,
        }
    } else {
        false
    }
}

fn check_timestamp(text: &Vec<char>) -> (r: bool)
    ensures
        r == valid_timestamp(text@),
{
    if text.len() < 19 {
        return false;
    }
    if text[4] != '-' || text[7] != '-' || text[13] != ':' || text[16] != ':' {
        return false;
    }
    if !(text[10] == 'T' || text[10] == 't' || text[10] == ' ') {
        return false;
    }
    let year = match (read_two_digits(text, 0), read_two_digits(text, 2)) {
        (Some(high), Some(low)) => 100 * high + low,
        _ => {
            return false;
        },
    };
    let month = match read_two_digits(text, 5) {
        Some(n) => n,
        None => {
            return false;
        },
    };
    let day = match read_two_digits(text, 8) {
        Some(n) => n,
        None => {
            return false;
        },
    };
    let hour = match read_two_digits(text, 11) {
        Some(n) => n,
        None => {
            return false;
        },
    };
    let minute = match read_two_digits(text, 14) {
        Some(n) => n,
        None => {
            return false;
        },
    };
    let second = match read_two_digits(text, 17) {
        Some(n) => n,
        None => {
            return false;
        },
    };
    if !check_date(year, month, day) || hour > 23 || minute > 59 || second > 59 {
        return false;
    }
    let mut at: usize = 19;
    if at < text.len() && text[at] == '.' {
        let digits = count_digits(text, at + 1);
        if digits == 0 {
            return false;
        }
        at = at + 1 + digits;
    }
    check_zone(text, at)
}

/// Decides `valid_timestamp`.
pub fn is_valid_timestamp(text: &str) -> (r: bool)
    ensures
        r == valid_timestamp(text@),
{
    let chars = chars_of(text);
    check_timestamp(&chars)
}

} // verus!
