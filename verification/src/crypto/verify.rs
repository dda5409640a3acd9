//! Which signing keys are trusted: fingerprint allow-lists and the retirement of
//! a rotated-out official key.

use vstd::prelude::*;

use crate::error::{display_prefix, ErrorKind, HypoError};
use crate::registry::types::KeyRotation;
use crate::text::{
    chars_eq_ignore_ascii_case, chars_index_of, concat, eq_ignore_ascii_case, index_of,
    lemma_index_of_from, slice_chars, str_chars,
};

verus! {

// ── Decimal numbers and splitting ─────────────────────────────────────

pub open spec fn is_digit(c: char) -> bool {
    '0' <= c && c <= '9'
}

pub open spec fn all_digits(d: Seq<char>) -> bool {
    forall|i: int| 0 <= i < d.len() ==> #[trigger] is_digit(d[i])
}

/// The value of a string of decimal digits.
pub open spec fn decimal_value(d: Seq<char>) -> nat
    decreases d.len(),
{
    if d.len() == 0 {
        0
    } else {
        decimal_value(d.drop_last()) * 10 + ((d.last() as int - 48) as nat)
    }
}

/// `u32::from_str`: an optional `+`, then one or more decimal digits whose value
/// fits in a `u32`.
pub open spec fn parse_u32(s: Seq<char>) -> Option<u32> {
    let d = if s.len() > 0 && s[0] == '+' {
        s.drop_first()
    } else {
        s
    };
    if d.len() == 0 || !all_digits(d) || decimal_value(d) > u32::MAX {
        None
    } else {
        Some(decimal_value(d) as u32)
    }
}

/// `i32::from_str`: an optional sign, then one or more decimal digits whose signed
/// value fits in an `i32`.
pub open spec fn parse_i32(s: Seq<char>) -> Option<i32> {
    if s.len() > 0 && s[0] == '-' {
        let d = s.drop_first();
        if d.len() == 0 || !all_digits(d) || decimal_value(d) > 2147483648 {
            None
        } else {
            Some((0 - decimal_value(d)) as i32)
        }
    } else {
        let d = if s.len() > 0 && s[0] == '+' {
            s.drop_first()
        } else {
            s
        };
        if d.len() == 0 || !all_digits(d) || decimal_value(d) > i32::MAX {
            None
        } else {
            Some(decimal_value(d) as i32)
        }
    }
}

proof fn lemma_decimal_prefix(d: Seq<char>, k: int)
    requires
        0 <= k < d.len(),
    ensures
        decimal_value(d.take(k + 1)) == decimal_value(d.take(k)) * 10 + ((d[k] as int - 48) as nat),
{
    assert(d.take(k + 1).drop_last() == d.take(k));
}

proof fn lemma_decimal_monotone(d: Seq<char>, k: int)
    requires
        0 <= k <= d.len(),
    ensures
        decimal_value(d.take(k)) <= decimal_value(d),
    decreases d.len() - k,
{
    if k < d.len() {
        lemma_decimal_prefix(d, k);
        lemma_decimal_monotone(d, k + 1);
    } else {
        assert(d.take(k) == d);
    }
}

/// Value of the digits `d` if it is at most `bound`.
fn digits_value(d: &Vec<char>, bound: u64) -> (r: Option<u64>)
    ensures
        r matches Some(v) ==> d@.len() > 0 && all_digits(d@) && decimal_value(d@) <= bound
            && v == decimal_value(d@),
        r is None ==> d@.len() == 0 || !all_digits(d@) || decimal_value(d@) > bound,
{
    if d.len() == 0 {
        return None;
    }
    let mut i: usize = 0;
    while i < d.len()
        invariant
            i <= d@.len(),
            forall|j: int| 0 <= j < i ==> #[trigger] is_digit(d@[j]),
        decreases d@.len() - i,
    {
        if !('0' <= d[i] && d[i] <= '9') {
            assert(!is_digit(d@[i as int]));
            return None;
        }
        i = i + 1;
    }
    let mut v: u128 = 0;
    let mut k: usize = 0;
    assert(d@.take(0) =~= Seq::<char>::empty());
    while k < d.len()
        invariant
            k <= d@.len(),
            all_digits(d@),
            v <= bound,
            v == decimal_value(d@.take(k as int)),
        decreases d@.len() - k,
    {
        let c = d[k];
        assert(is_digit(d@[k as int]));
        let digit: u128 = (c as u32 - 48) as u128;
        proof {
            lemma_decimal_prefix(d@, k as int);
        }
        let next: u128 = v * 10 + digit;
        if next > bound as u128 {
            proof {
                lemma_decimal_monotone(d@, k as int + 1);
            }
            return None;
        }
        v = next;
        k = k + 1;
    }
    assert(d@.take(d@.len() as int) == d@);
    Some(v as u64)
}

/// `u64::from_str`: an optional `+`, then one or more decimal digits whose value
/// fits in a `u64`.
pub open spec fn parse_u64(s: Seq<char>) -> Option<u64> {
    let d = if s.len() > 0 && s[0] == '+' {
        s.drop_first()
    } else {
        s
    };
    if d.len() == 0 || !all_digits(d) || decimal_value(d) > u64::MAX {
        None
    } else {
        Some(decimal_value(d) as u64)
    }
}

/// Parses an unsigned 64-bit decimal number as `u64::from_str` does.
pub fn parse_u64_chars(s: &Vec<char>) -> (r: Option<u64>)
    ensures
        r == parse_u64(s@),
{
    let d = if s.len() > 0 && s[0] == '+' {
        slice_chars(s, 1, s.len())
    } else {
        slice_chars(s, 0, s.len())
    };
    assert(s@.subrange(0, s@.len() as int) == s@);
    digits_value(&d, 18446744073709551615)
}

/// Parses an unsigned 32-bit decimal number as `u32::from_str` does.
pub fn parse_u32_chars(s: &Vec<char>) -> (r: Option<u32>)
    ensures
        r == parse_u32(s@),
{
    let d = if s.len() > 0 && s[0] == '+' {
        slice_chars(s, 1, s.len())
    } else {
        slice_chars(s, 0, s.len())
    };
    assert(s@.subrange(0, s@.len() as int) == s@);
    match digits_value(&d, 4294967295) {
        Some(v) => Some(v as u32),
        None => None,
    }
}

/// Parses a signed 32-bit decimal number as `i32::from_str` does.
pub fn parse_i32_chars(s: &Vec<char>) -> (r: Option<i32>)
    ensures
        r == parse_i32(s@),
{
    if s.len() > 0 && s[0] == '-' {
        let d = slice_chars(s, 1, s.len());
        match digits_value(&d, 2147483648) {
            Some(v) => Some((0 - (v as i64)) as i32),
            None => None,
        }
    } else {
        let d = if s.len() > 0 && s[0] == '+' {
            slice_chars(s, 1, s.len())
        } else {
            slice_chars(s, 0, s.len())
        };
        assert(s@.subrange(0, s@.len() as int) == s@);
        match digits_value(&d, 2147483647) {
            Some(v) => Some(v as i32),
            None => None,
        }
    }
}

/// The pieces of `s` between occurrences of `c`, as `str::split` with a character
/// pattern gives them.
pub open spec fn split_on(s: Seq<char>, c: char) -> Seq<Seq<char>>
    decreases s.len(),
{
    match index_of(s, c) {
        None => seq![s],
        Some(i) => {
            proof {
                lemma_index_of_from(s, c, 0);
            }
            seq![s.subrange(0, i)] + split_on(s.subrange(i + 1, s.len() as int), c)
        },
    }
}

/// The character views of a sequence of character vectors.
pub open spec fn char_vec_views(v: Seq<Vec<char>>) -> Seq<Seq<char>> {
    v.map_values(|x: Vec<char>| x@)
}

/// Splits `v` at every `c`.
pub fn split_chars(v: &Vec<char>, c: char) -> (r: Vec<Vec<char>>)
    ensures
        char_vec_views(r@) == split_on(v@, c),
    decreases v@.len(),
{
    let n = v.len();
    match chars_index_of(v, c) {
        None => {
            let mut out: Vec<Vec<char>> = Vec::new();
            out.push(slice_chars(v, 0, n));
            assert(v@.subrange(0, n as int) == v@);
            assert(char_vec_views(out@) =~= seq![v@]);
            out
        },
        Some(i) => {
            let head = slice_chars(v, 0, i);
            let tail = slice_chars(v, i + 1, n);
            let mut rest = split_chars(&tail, c);
            let ghost rest_views = char_vec_views(rest@);
            rest.insert(0, head);
            assert(char_vec_views(rest@) =~= seq![v@.subrange(0, i as int)] + rest_views);
            rest
        },
    }
}

// ── ISO 8601 timestamps ───────────────────────────────────────────────

/// Whether `year` is a leap year of the Gregorian calendar.
pub open spec fn is_leap_year(year: int) -> bool {
    (year % 4 == 0 && year % 100 != 0) || year % 400 == 0
}

/// Days from January 1 to the first of `month` in a common year.
pub open spec fn month_start_days(month: int) -> int {
    if month == 1 {
        0
    } else if month == 2 {
        31
    } else if month == 3 {
        59
    } else if month == 4 {
        90
    } else if month == 5 {
        120
    } else if month == 6 {
        151
    } else if month == 7 {
        181
    } else if month == 8 {
        212
    } else if month == 9 {
        243
    } else if month == 10 {
        273
    } else if month == 11 {
        304
    } else {
        334
    }
}

/// The number of days in `month` of `year` (Gregorian calendar).
pub open spec fn month_length(year: int, month: int) -> int {
    if month == 2 {
        if is_leap_year(year) { 29 } else { 28 }
    } else if month == 4 || month == 6 || month == 9 || month == 11 {
        30
    } else {
        31
    }
}

/// A calendar date from 1970 on: a month from 1 to 12 and a day that the month has.
pub open spec fn date_in_range(year: int, month: int, day: int) -> bool {
    &&& year >= 1970
    &&& 1 <= month <= 12
    &&& 1 <= day <= month_length(year, month)
}

/// The leap years of the Gregorian calendar from 1970 up to, not including, `year`.
pub open spec fn leap_years_since_1970(year: int) -> int {
    (year - 1969) / 4 - (year - 1901) / 100 + (year - 1601) / 400
}

/// The day number of a date, 1970-01-01 being day 0 (Gregorian calendar).
pub open spec fn epoch_days(year: int, month: int, day: int) -> int {
    (year - 1970) * 365 + leap_years_since_1970(year) + month_start_days(month) + day - 1 + if is_leap_year(
        year,
    ) && month > 2 {
        1int
    } else {
        0int
    }
}

proof fn lemma_step_count(n: int, k: int)
    requires
        n >= 0,
        k > 0,
    ensures
        (n + 1) / k - n / k == (if (n + 1) % k == 0 { 1int } else { 0int }),
{
    vstd::arithmetic::div_mod::lemma_fundamental_div_mod(n, k);
    let q = n / k;
    let r = n % k;
    assert(n == q * k + r) by (nonlinear_arith)
        requires
            n == k * q + r,
    {
        assert(k * q == q * k);
    }
    if r + 1 < k {
        vstd::arithmetic::div_mod::lemma_fundamental_div_mod_converse(n + 1, k, q, r + 1);
    } else {
        assert(n + 1 == (q + 1) * k + 0) by (nonlinear_arith)
            requires
                n == q * k + r,
                r + 1 == k,
        ;
        vstd::arithmetic::div_mod::lemma_fundamental_div_mod_converse(n + 1, k, q + 1, 0);
    }
}

proof fn lemma_mod_shift(y: int, k: int, m: int)
    requires
        k > 0,
    ensures
        (y - k * m) % k == y % k,
{
    vstd::arithmetic::div_mod::lemma_fundamental_div_mod(y, k);
    let q = y / k;
    let r = y % k;
    assert(y - k * m == (q - m) * k + r) by (nonlinear_arith)
        requires
            y == k * q + r,
    ;
    vstd::arithmetic::div_mod::lemma_fundamental_div_mod_converse(y - k * m, k, q - m, r);
}

/// Consecutive dates are one day apart: 1970-01-01 is day 0; the day after a day
/// that is not the last of its month is the next day number; the first of the
/// next month follows the last day of a month; and January 1 follows December 31
/// of the year before.
pub proof fn law_consecutive_dates(year: int, month: int, day: int)
    requires
        date_in_range(year, month, day),
    ensures
        epoch_days(1970, 1, 1) == 0,
        day < month_length(year, month) ==> epoch_days(year, month, day + 1) == epoch_days(year, month, day) + 1,
        month < 12 ==> epoch_days(year, month + 1, 1) == epoch_days(year, month, month_length(year, month)) + 1,
        epoch_days(year + 1, 1, 1) == epoch_days(year, 12, 31) + 1,
{
    let y = year;
    assert(leap_years_since_1970(1970) == 0);
    lemma_step_count(y - 1969, 4);
    lemma_step_count(y - 1901, 100);
    lemma_step_count(y - 1601, 400);
    lemma_mod_shift(y, 4, 492);
    lemma_mod_shift(y, 100, 19);
    lemma_mod_shift(y, 400, 4);
    assert(y + 1 - 1969 == (y - 1969) + 1);
    assert((y - 1969 + 1) % 4 == y % 4) by {
        assert(y - 1968 == y - 4 * 492);
    }
    assert((y - 1901 + 1) % 100 == y % 100) by {
        assert(y - 1900 == y - 100 * 19);
    }
    assert((y - 1601 + 1) % 400 == y % 400) by {
        assert(y - 1600 == y - 400 * 4);
    }
    assert(y % 400 == 0 ==> y % 100 == 0) by {
        if y % 400 == 0 {
            vstd::arithmetic::div_mod::lemma_fundamental_div_mod(y, 400);
            lemma_mod_shift(0, 100, -4 * (y / 400));
            assert(y == 400 * (y / 400));
            assert(y - 100 * (4 * (y / 400)) == 0) by (nonlinear_arith)
                requires
                    y == 400 * (y / 400),
            ;
            lemma_mod_shift(y, 100, 4 * (y / 400));
        }
    }
    assert(y % 100 == 0 ==> y % 4 == 0) by {
        if y % 100 == 0 {
            vstd::arithmetic::div_mod::lemma_fundamental_div_mod(y, 100);
            assert(y - 4 * (25 * (y / 100)) == 0) by (nonlinear_arith)
                requires
                    y == 100 * (y / 100),
            ;
            lemma_mod_shift(y, 4, 25 * (y / 100));
        }
    }
    assert(leap_years_since_1970(y + 1) == leap_years_since_1970(y) + if is_leap_year(y) {
        1int
    } else {
        0int
    });
}

/// The fields `(year, month, day, hour, minute, second)` of a `YYYY-MM-DDTHH:MM:SSZ`
/// timestamp, each parsed as Rust parses numbers.
pub open spec fn iso8601_fields(s: Seq<char>) -> Option<(i32, u32, u32, u32, u32, u32)> {
    if !(s.len() > 0 && s.last() == 'Z') {
        None
    } else {
        let parts = split_on(s.drop_last(), 'T');
        if parts.len() != 2 {
            None
        } else {
            let date = split_on(parts[0], '-');
            let time = split_on(parts[1], ':');
            if date.len() != 3 || time.len() != 3 {
                None
            } else {
                match (
                    parse_i32(date[0]),
                    parse_u32(date[1]),
                    parse_u32(date[2]),
                    parse_u32(time[0]),
                    parse_u32(time[1]),
                    parse_u32(time[2]),
                ) {
                    (Some(y), Some(mo), Some(d), Some(h), Some(mi), Some(se)) => Some(
                        (y, mo, d, h, mi, se),
                    ),
                    _ => None,
                }
            }
        }
    }
}

/// Fields that name an instant from 1970 on: a valid date, hours below 24,
/// minutes and seconds below 60.
pub open spec fn fields_in_range(f: (i32, u32, u32, u32, u32, u32)) -> bool {
    &&& date_in_range(f.0 as int, f.1 as int, f.2 as int)
    &&& f.3 < 24
    &&& f.4 < 60
    &&& f.5 < 60
}

/// The Unix time (seconds) of a `YYYY-MM-DDTHH:MM:SSZ` timestamp; `None` when the
/// text does not have that form or names no instant from 1970 on.
pub open spec fn iso8601_seconds(s: Seq<char>) -> Option<int> {
    match iso8601_fields(s) {
        None => None,
        Some((y, mo, d, h, mi, se)) => if fields_in_range((y, mo, d, h, mi, se)) {
            Some(epoch_days(y as int, mo as int, d as int) * 86400 + h * 3600 + mi * 60 + se)
        } else {
            None
        },
    }
}

/// Whether `year` is a leap year.
pub fn is_leap(year: i32) -> (r: bool)
    ensures
        r == is_leap_year(year as int),
{
    let a: u32 = if year < 0 {
        (0 - (year as i64)) as u32
    } else {
        year as u32
    };
    proof {
        lemma_divisible_abs(year as int, 4);
        lemma_divisible_abs(year as int, 100);
        lemma_divisible_abs(year as int, 400);
    }
    (a % 4 == 0 && a % 100 != 0) || a % 400 == 0
}

proof fn lemma_divisible_abs(y: int, k: int)
    requires
        k > 0,
    ensures
        (y % k == 0) == ((-y) % k == 0),
{
    if y % k == 0 {
        assert(-y == k * (-(y / k))) by (nonlinear_arith)
            requires
                y % k == 0,
                k > 0,
        {
            assert(y == k * (y / k) + y % k);
        }
        vstd::arithmetic::div_mod::lemma_mod_multiples_basic(-(y / k), k);
        assert(k * (-(y / k)) == (-(y / k)) * k) by (nonlinear_arith);
    }
    if (-y) % k == 0 {
        assert(y == k * (-((-y) / k))) by (nonlinear_arith)
            requires
                (-y) % k == 0,
                k > 0,
        {
            assert(-y == k * ((-y) / k) + (-y) % k);
        }
        vstd::arithmetic::div_mod::lemma_mod_multiples_basic(-((-y) / k), k);
        assert(k * (-((-y) / k)) == (-((-y) / k)) * k) by (nonlinear_arith);
    }
}

/// The number of days in `month` of `year`.
fn days_in_month(year: i32, month: u32) -> (r: u32)
    ensures
        r == month_length(year as int, month as int),
{
    if month == 2 {
        if is_leap(year) { 29 } else { 28 }
    } else if month == 4 || month == 6 || month == 9 || month == 11 {
        30
    } else {
        31
    }
}

/// The day number of a date, counting 1970-01-01 as day 0 (Gregorian calendar).
pub fn days_from_epoch(year: i32, month: u32, day: u32) -> (r: u64)
    requires
        date_in_range(year as int, month as int, day as int),
    ensures
        r == epoch_days(year as int, month as int, day as int),
{
    let y = year as u64;
    let m = month as u64;
    let d = day as u64;
    let centuries = (y - 1901) / 100;
    assert(centuries <= (y - 1969) / 4) by (nonlinear_arith)
        requires
            y >= 1970,
            centuries == (y - 1901) / 100,
    {
        assert(100 * centuries <= y - 1901);
        assert(4 * centuries <= y - 1969);
    }
    let y_days = (y - 1970) * 365 + ((y - 1969) / 4 - centuries) + (y - 1601) / 400;
    let month_days: [u64; 12] = [0, 31, 59, 90, 120, 151, 181, 212, 243, 273, 304, 334];
    let leap: u64 = if is_leap(year) && m > 2 {
        1
    } else {
        0
    };
    let md = month_days[(m - 1) as usize];
    assert(md == month_start_days(month as int));
    y_days + md + d - 1 + leap
}

/// Parses a `YYYY-MM-DDTHH:MM:SSZ` timestamp to Unix time in seconds; `None` when
/// the text has another form or names no instant from 1970 on (such as month 13).
pub fn parse_iso8601(s: &str) -> (r: Option<u64>)
    ensures
        r matches Some(t) ==> iso8601_seconds(s@) == Some(t as int),
        r is None ==> iso8601_seconds(s@) is None,
{
    let v = str_chars(s);
    let n = v.len();
    if !(n > 0 && v[n - 1] == 'Z') {
        return None;
    }
    let body = slice_chars(&v, 0, n - 1);
    assert(body@ == v@.drop_last());
    let parts = split_chars(&body, 'T');
    if parts.len() != 2 {
        return None;
    }
    assert(char_vec_views(parts@)[0] == parts@[0]@);
    assert(char_vec_views(parts@)[1] == parts@[1]@);
    let date = split_chars(&parts[0], '-');
    let time = split_chars(&parts[1], ':');
    if date.len() != 3 || time.len() != 3 {
        return None;
    }
    assert(char_vec_views(date@)[0] == date@[0]@ && char_vec_views(date@)[1] == date@[1]@
        && char_vec_views(date@)[2] == date@[2]@);
    assert(char_vec_views(time@)[0] == time@[0]@ && char_vec_views(time@)[1] == time@[1]@
        && char_vec_views(time@)[2] == time@[2]@);
    let year = match parse_i32_chars(&date[0]) {
        Some(x) => x,
        None => return None,
    };
    let month = match parse_u32_chars(&date[1]) {
        Some(x) => x,
        None => return None,
    };
    let day = match parse_u32_chars(&date[2]) {
        Some(x) => x,
        None => return None,
    };
    let hour = match parse_u32_chars(&time[0]) {
        Some(x) => x,
        None => return None,
    };
    let min = match parse_u32_chars(&time[1]) {
        Some(x) => x,
        None => return None,
    };
    let sec = match parse_u32_chars(&time[2]) {
        Some(x) => x,
        None => return None,
    };
    if !(year >= 1970 && 1 <= month && month <= 12 && hour < 24 && min < 60 && sec < 60) {
        return None;
    }
    if !(1 <= day && day <= days_in_month(year, month)) {
        return None;
    }
    let days = days_from_epoch(year, month, day);
    assert(days <= 800000000000u64) by (nonlinear_arith)
        requires
            days == epoch_days(year as int, month as int, day as int),
            year >= 1970,
            month <= 12,
            day <= 31,
            year <= i32::MAX,
    {
        assert(month_start_days(month as int) <= 334);
        assert(leap_years_since_1970(year as int) <= year as int);
    }
    Some(days * 86400 + hour as u64 * 3600 + min as u64 * 60 + sec as u64)
}

// ── Key rotation ──────────────────────────────────────────────────────

/// Whether the old key of `rotation` is retired at Unix time `now`: it is once
/// `now` has reached the retirement time, and it counts as retired when the
/// retirement time does not parse.
pub open spec fn key_retired_at(rotation: KeyRotation, now: int) -> bool {
    match iso8601_seconds(rotation.old_key_retired_at@) {
        None => true,
        Some(t) => now >= t,
    }
}

/// Retirement is permanent: an old key retired at some time stays retired at
/// every later time.
pub proof fn law_retirement_is_permanent(rotation: KeyRotation, earlier: int, later: int)
    requires
        earlier <= later,
        key_retired_at(rotation, earlier),
    ensures
        key_retired_at(rotation, later),
{
}

/// Whether the old key of `rotation` is retired at Unix time `now`; when it is,
/// signatures by the old key (`registry.sig.old`) are to be rejected.
pub fn is_old_key_retired_at(rotation: &KeyRotation, now: u64) -> (r: bool)
    ensures
        r == key_retired_at(*rotation, now as int),
{
    match parse_iso8601(rotation.old_key_retired_at.as_str()) {
        None => true,
        Some(retired_at) => now >= retired_at,
    }
}

/// Whether the old key of `rotation` is retired now (UTC system clock).
pub fn is_old_key_retired(rotation: &KeyRotation) -> (r: bool)
    ensures
        iso8601_seconds(rotation.old_key_retired_at@) is None ==> r,
        exists|now: u64| r == key_retired_at(*rotation, now as int),
{
    match parse_iso8601(rotation.old_key_retired_at.as_str()) {
        None => {
            assert(key_retired_at(*rotation, 0));
            true
        },
        Some(retired_at) => {
            let now = crate::registry::cache::now_secs();
            let r = now >= retired_at;
            assert(r == key_retired_at(*rotation, now as int));
            r
        },
    }
}

// ── Trusted fingerprints ──────────────────────────────────────────────

/// Whether a fingerprint is in the trusted list, up to ASCII case.
pub open spec fn fingerprint_in(fingerprint: Seq<char>, trusted: Seq<String>) -> bool {
    exists|i: int| 0 <= i < trusted.len() && eq_ignore_ascii_case(#[trigger] trusted[i]@, fingerprint)
}

/// Checks that a signer's fingerprint (hexadecimal) is in the trusted list,
/// ignoring ASCII case.
pub fn check_fingerprint_trusted(fingerprint: &str, trusted_fingerprints: &[String]) -> (r: Result<
    (),
    HypoError,
>)
    ensures
        r is Ok <==> fingerprint_in(fingerprint@, trusted_fingerprints@),
        r matches Err(e) ==> e@ == (
            ErrorKind::SignatureVerification,
            "证书指纹 "@ + fingerprint@ + " 不在受信任列表中"@,
        ),
{
    let fp = str_chars(fingerprint);
    let mut i: usize = 0;
    while i < trusted_fingerprints.len()
        invariant
            i <= trusted_fingerprints@.len(),
            fp@ == fingerprint@,
            forall|j: int|
                0 <= j < i ==> !eq_ignore_ascii_case(
                    (#[trigger] trusted_fingerprints@[j])@,
                    fingerprint@,
                ),
        decreases trusted_fingerprints@.len() - i,
    {
        let t = str_chars(trusted_fingerprints[i].as_str());
        if chars_eq_ignore_ascii_case(&t, &fp) {
            return Ok(());
        }
        i = i + 1;
    }
    let a = concat("证书指纹 ", fingerprint);
    Err(HypoError::SignatureVerification(concat(a.as_str(), " 不在受信任列表中")))
}

// ── Signature results ─────────────────────────────────────────────────

/// Whether `fingerprint` is one of `allowed`, ignoring ASCII case.
pub open spec fn signer_allowed(fingerprint: Seq<char>, allowed: Seq<Seq<char>>) -> bool {
    exists|i: int| 0 <= i < allowed.len() && eq_ignore_ascii_case(#[trigger] allowed[i], fingerprint)
}

/// The detail text of a failed signature check: a signature error's own detail,
/// or the displayed text of any other error.
pub open spec fn signature_detail(e: (ErrorKind, Seq<char>)) -> Seq<char> {
    if e.0 == ErrorKind::SignatureVerification {
        e.1
    } else {
        display_prefix(e.0) + e.1
    }
}

/// What is wrong with the outcome of a detached-signature check, if anything.
/// `sig` is the fingerprint of the certificate that verified the signature, or
/// the reason it did not verify; the signer must be one of `allowed`.
pub open spec fn signature_error(sig: Result<String, HypoError>, allowed: Seq<Seq<char>>) -> Option<Seq<char>> {
    match sig {
        Err(e) => Some(signature_detail(e@)),
        Ok(fp) => if signer_allowed(fp@, allowed) {
            None
        } else {
            Some("证书指纹 "@ + fp@ + " 不在受信任列表中"@)
        },
    }
}

/// Accepts the outcome of a detached-signature check when the signature verified
/// and its signer is one of `allowed`; otherwise gives the signature error.
pub fn check_signature(sig: &Result<String, HypoError>, allowed: &[String]) -> (r: Result<(), HypoError>)
    ensures
        match signature_error(*sig, allowed@.map_values(|s: String| s@)) {
            None => r is Ok,
            Some(m) => r matches Err(e) && e@ == (ErrorKind::SignatureVerification, m),
        },
{
    match sig {
        Err(e) => {
            if e.kind() == ErrorKind::SignatureVerification {
                Err(HypoError::SignatureVerification(e.detail().clone()))
            } else {
                Err(HypoError::SignatureVerification(e.message()))
            }
        },
        Ok(fp) => {
            let r = check_fingerprint_trusted(fp.as_str(), allowed);
            proof {
                let views = allowed@.map_values(|s: String| s@);
                if fingerprint_in(fp@, allowed@) {
                    let i = choose|i: int| 0 <= i < allowed@.len() && eq_ignore_ascii_case(#[trigger] allowed@[i]@, fp@);
                    assert(views[i] == allowed@[i]@);
                }
                if signer_allowed(fp@, views) {
                    let i = choose|i: int| 0 <= i < views.len() && eq_ignore_ascii_case(#[trigger] views[i], fp@);
                    assert(views[i] == allowed@[i]@);
                    assert(fingerprint_in(fp@, allowed@));
                }
            }
            r
        },
    }
}

} // verus!

