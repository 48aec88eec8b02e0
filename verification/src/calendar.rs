//! The proleptic Gregorian calendar as a mathematical model: which
//! (year, month, day) triples are dates, how many days lie between a date
//! and 1970-01-01, and how a date is written out as text.
use vstd::prelude::*;

use crate::decimal::{
    all_ascii_digits, decimal_digits, digit_char, digits_value, lemma_digit_char_injective,
    lemma_padded_decimal, zero_padded,
};

verus! {

/// A year is a leap year when it is divisible by 4, except centuries that
/// are not divisible by 400.
pub open spec fn is_leap_year(y: int) -> bool {
    (y % 4 == 0 && y % 100 != 0) || y % 400 == 0
}

pub open spec fn year_length(y: int) -> int {
    if is_leap_year(y) {
        366
    } else {
        365
    }
}

pub open spec fn days_in_month(y: int, m: int) -> int {
    if m == 2 {
        if is_leap_year(y) {
            29
        } else {
            28
        }
    } else if m == 4 || m == 6 || m == 9 || m == 11 {
        30
    } else {
        31
    }
}

/// Number of days of year `y` that come before the first day of month `m`.
pub open spec fn days_before_month(y: int, m: int) -> int {
    let leap_day: int = if m > 2 && is_leap_year(y) {
        1
    } else {
        0
    };
    let common: int = if m <= 1 {
        0
    } else if m == 2 {
        31
    } else if m == 3 {
        59
    } else if m == 4 {
        90
    } else if m == 5 {
        120
    } else if m == 6 {
        151
    } else if m == 7 {
        181
    } else if m == 8 {
        212
    } else if m == 9 {
        243
    } else if m == 10 {
        273
    } else if m == 11 {
        304
    } else {
        334
    };
    common + leap_day
}

/// Signed count of the leap years in `[0, y)` (negative when `y < 0`).
pub open spec fn leap_years_before(y: int) -> int {
    (y + 3) / 4 - (y + 99) / 100 + (y + 399) / 400
}

/// Days from 1970-01-01 to the first of January of year `y`.
pub open spec fn days_before_year(y: int) -> int {
    365 * y + leap_years_before(y) - 719528
}

/// Days from 1970-01-01 to the date `y-m-d` (negative before the epoch).
pub open spec fn days_from_civil(y: int, m: int, d: int) -> int {
    days_before_year(y) + days_before_month(y, m) + d - 1
}

pub open spec fn is_valid_date(y: int, m: int, d: int) -> bool {
    1 <= m <= 12 && 1 <= d <= days_in_month(y, m)
}

/// The first year of the range of dates that the date library can hold.
pub open spec fn min_year() -> int {
    -262143
}

/// The last year of the range of dates that the date library can hold.
pub open spec fn max_year() -> int {
    262142
}

pub open spec fn is_supported_date(y: int, m: int, d: int) -> bool {
    is_valid_date(y, m, d) && min_year() <= y <= max_year()
}

/// Day number (since the epoch) of the first supported date.
pub open spec fn first_supported_day() -> int {
    days_from_civil(min_year(), 1, 1)
}

/// Day number (since the epoch) of the last supported date.
pub open spec fn last_supported_day() -> int {
    days_from_civil(max_year(), 12, 31)
}

/// A Unix timestamp (seconds) whose day falls within the supported dates.
pub open spec fn is_supported_timestamp(ts: int) -> bool {
    first_supported_day() <= ts / 86400 <= last_supported_day()
}

/// The supported date whose day number is `n`.
pub open spec fn date_of_day(n: int) -> (int, int, int) {
    choose|t: (int, int, int)| is_supported_date(t.0, t.1, t.2) && days_from_civil(t.0, t.1, t.2) == n
}

// ---------------------------------------------------------------------------
// Writing dates as text.
// ---------------------------------------------------------------------------
/// Two-digit, zero-padded form of a number below 100.
pub open spec fn two_digits(v: int) -> Seq<char> {
    seq![digit_char(v / 10), digit_char(v % 10)]
}

/// A year as `%Y` writes it: four zero-padded digits for years 0 to 9999,
/// otherwise an explicit sign followed by at least four digits.
pub open spec fn year_text(y: int) -> Seq<char> {
    if 0 <= y < 10000 {
        zero_padded(decimal_digits(y as nat), 4)
    } else if y < 0 {
        seq!['-'] + zero_padded(decimal_digits((-y) as nat), 4)
    } else {
        seq!['+'] + zero_padded(decimal_digits(y as nat), 4)
    }
}

/// The date as `%Y-%m-%d` writes it.
pub open spec fn iso_date_text(y: int, m: int, d: int) -> Seq<char> {
    year_text(y) + seq!['-'] + two_digits(m) + seq!['-'] + two_digits(d)
}

/// The text is what `%Y-%m-%d` writes for some supported date.
pub open spec fn is_iso_date_text(s: Seq<char>) -> bool {
    exists|t: (int, int, int)| is_supported_date(t.0, t.1, t.2) && s == iso_date_text(t.0, t.1, t.2)
}

/// The date as `%d-%m-%Y` writes it.
pub open spec fn dmy_date_text(y: int, m: int, d: int) -> Seq<char> {
    two_digits(d) + seq!['-'] + two_digits(m) + seq!['-'] + year_text(y)
}

// ---------------------------------------------------------------------------
// Lemmas.
// ---------------------------------------------------------------------------
proof fn lemma_floor_div_step(x: int, k: int)
    requires
        k > 0,
    ensures
        (x + 1) / k - x / k == (if (x + 1) % k == 0 {
            1int
        } else {
            0int
        }),
{
    let q0 = x / k;
    let r0 = x % k;
    let q1 = (x + 1) / k;
    let r1 = (x + 1) % k;
    vstd::arithmetic::div_mod::lemma_fundamental_div_mod(x, k);
    vstd::arithmetic::div_mod::lemma_fundamental_div_mod(x + 1, k);
    vstd::arithmetic::div_mod::lemma_mod_bound(x, k);
    vstd::arithmetic::div_mod::lemma_mod_bound(x + 1, k);
    assert(k * (q1 - q0) == 1 + r0 - r1) by (nonlinear_arith)
        requires
            x == k * q0 + r0,
            x + 1 == k * q1 + r1,
    ;
    if r1 == 0 {
        assert(k * (q1 - q0) == 1 + r0);
        assert(q1 - q0 == 1) by (nonlinear_arith)
            requires
                k * (q1 - q0) == 1 + r0,
                0 <= r0 < k,
        ;
    } else {
        assert(q1 - q0 == 0) by (nonlinear_arith)
            requires
                k * (q1 - q0) == 1 + r0 - r1,
                0 <= r0 < k,
                1 <= r1 < k,
        ;
    }
}

proof fn lemma_mod_shift(y: int, k: int)
    requires
        k > 0,
    ensures
        (y + k) % k == y % k,
{
    vstd::arithmetic::div_mod::lemma_mod_add_multiples_vanish(y, k);
}

/// Consecutive years are `year_length` days apart.
pub proof fn lemma_days_before_next_year(y: int)
    ensures
        days_before_year(y + 1) == days_before_year(y) + year_length(y),
{
    lemma_floor_div_step(y + 3, 4);
    lemma_floor_div_step(y + 99, 100);
    lemma_floor_div_step(y + 399, 400);
    lemma_mod_shift(y, 4);
    lemma_mod_shift(y, 100);
    lemma_mod_shift(y, 400);
}

/// Later years start at least 365 days per year later.
pub proof fn lemma_days_before_year_monotonic(a: int, b: int)
    requires
        a <= b,
    ensures
        days_before_year(a) + 365 * (b - a) <= days_before_year(b),
    decreases b - a,
{
    if a < b {
        lemma_days_before_year_monotonic(a, b - 1);
        lemma_days_before_next_year(b - 1);
    }
}

/// The day of the year of a valid date lies within its year.
pub proof fn lemma_day_of_year_bounds(y: int, m: int, d: int)
    requires
        is_valid_date(y, m, d),
    ensures
        0 <= days_before_month(y, m) + d - 1 < year_length(y),
{
}

proof fn lemma_month_order(y: int, m1: int, d1: int, m2: int, d2: int)
    requires
        is_valid_date(y, m1, d1),
        is_valid_date(y, m2, d2),
        m1 < m2,
    ensures
        days_before_month(y, m1) + d1 < days_before_month(y, m2) + d2,
{
}

/// Distinct valid dates have distinct day numbers.
pub proof fn lemma_days_from_civil_injective(y1: int, m1: int, d1: int, y2: int, m2: int, d2: int)
    requires
        is_valid_date(y1, m1, d1),
        is_valid_date(y2, m2, d2),
        days_from_civil(y1, m1, d1) == days_from_civil(y2, m2, d2),
    ensures
        y1 == y2,
        m1 == m2,
        d1 == d2,
{
    lemma_day_of_year_bounds(y1, m1, d1);
    lemma_day_of_year_bounds(y2, m2, d2);
    if y1 < y2 {
        lemma_days_before_next_year(y1);
        lemma_days_before_year_monotonic(y1 + 1, y2);
    } else if y2 < y1 {
        lemma_days_before_next_year(y2);
        lemma_days_before_year_monotonic(y2 + 1, y1);
    }
    assert(y1 == y2);
    if m1 < m2 {
        lemma_month_order(y1, m1, d1, m2, d2);
    } else if m2 < m1 {
        lemma_month_order(y1, m2, d2, m1, d1);
    }
}

/// Law: day numbers count days from 1970-01-01, which is day 0: the day
/// after a valid date, within its month, at the turn of a month or at the
/// turn of a year, has the next day number.
pub proof fn law_day_numbers_count_days(y: int, m: int, d: int)
    requires
        is_valid_date(y, m, d),
    ensures
        days_from_civil(1970, 1, 1) == 0,
        d < days_in_month(y, m) ==> days_from_civil(y, m, d + 1) == days_from_civil(y, m, d) + 1,
        d == days_in_month(y, m) && m < 12 ==> days_from_civil(y, m + 1, 1) == days_from_civil(y, m, d)
            + 1,
        d == days_in_month(y, m) && m == 12 ==> days_from_civil(y + 1, 1, 1) == days_from_civil(y, m, d)
            + 1,
{
    lemma_days_before_next_year(y);
}

/// The supported date of a day number is the date that has it.
pub proof fn lemma_date_of_day(y: int, m: int, d: int)
    requires
        is_supported_date(y, m, d),
    ensures
        date_of_day(days_from_civil(y, m, d)) == (y, m, d),
{
    let n = days_from_civil(y, m, d);
    let w = (y, m, d);
    assert(is_supported_date(w.0, w.1, w.2) && days_from_civil(w.0, w.1, w.2) == n);
    let t = date_of_day(n);
    assert(is_supported_date(t.0, t.1, t.2) && days_from_civil(t.0, t.1, t.2) == n);
    lemma_days_from_civil_injective(y, m, d, t.0, t.1, t.2);
}

/// Two-digit texts of numbers below 100 tell the numbers apart.
pub proof fn lemma_two_digits_injective(a: int, b: int)
    requires
        0 <= a < 100,
        0 <= b < 100,
        two_digits(a) == two_digits(b),
    ensures
        a == b,
{
    assert(two_digits(a)[0] == two_digits(b)[0]);
    assert(two_digits(a)[1] == two_digits(b)[1]);
    lemma_digit_char_injective(a / 10, b / 10);
    lemma_digit_char_injective(a % 10, b % 10);
}

/// The year text is digits only for years 0 to 9999, and starts with a sign
/// otherwise; after the sign, the digits stand for the magnitude.
proof fn lemma_year_text_shape(y: int)
    ensures
        year_text(y).len() >= 1,
        0 <= y < 10000 ==> all_ascii_digits(year_text(y)) && digits_value(year_text(y)) == y,
        y < 0 ==> year_text(y)[0] == '-' && digits_value(year_text(y).drop_first()) == -y,
        y >= 10000 ==> year_text(y)[0] == '+' && digits_value(year_text(y).drop_first()) == y,
{
    if 0 <= y < 10000 {
        lemma_padded_decimal(y as nat, 4);
    } else if y < 0 {
        lemma_padded_decimal((-y) as nat, 4);
        assert(year_text(y).drop_first() =~= zero_padded(decimal_digits((-y) as nat), 4));
    } else {
        lemma_padded_decimal(y as nat, 4);
        assert(year_text(y).drop_first() =~= zero_padded(decimal_digits(y as nat), 4));
    }
}

/// Distinct years have distinct year texts.
pub proof fn lemma_year_text_injective(y1: int, y2: int)
    requires
        year_text(y1) == year_text(y2),
    ensures
        y1 == y2,
{
    lemma_year_text_shape(y1);
    lemma_year_text_shape(y2);
    let c = year_text(y1)[0];
    assert(!is_ascii_digit_char('-') && !is_ascii_digit_char('+'));
    if 0 <= y1 < 10000 {
        assert(is_ascii_digit_char(c));
    }
    if 0 <= y2 < 10000 {
        assert(is_ascii_digit_char(year_text(y2)[0]));
    }
}

spec fn is_ascii_digit_char(c: char) -> bool {
    crate::decimal::is_ascii_digit(c)
}

/// Distinct valid dates have distinct `%Y-%m-%d` texts.
pub proof fn lemma_iso_date_text_injective(y1: int, m1: int, d1: int, y2: int, m2: int, d2: int)
    requires
        is_valid_date(y1, m1, d1),
        is_valid_date(y2, m2, d2),
        iso_date_text(y1, m1, d1) == iso_date_text(y2, m2, d2),
    ensures
        y1 == y2,
        m1 == m2,
        d1 == d2,
{
    let s1 = iso_date_text(y1, m1, d1);
    let s2 = iso_date_text(y2, m2, d2);
    let n1: int = year_text(y1).len() as int;
    let n2: int = year_text(y2).len() as int;
    assert(s1.len() == n1 + 6);
    assert(s2.len() == n2 + 6);
    assert(s1.subrange(0, n1) =~= year_text(y1));
    assert(s2.subrange(0, n2) =~= year_text(y2));
    assert(s1.subrange(n1 + 1, n1 + 3) =~= two_digits(m1));
    assert(s2.subrange(n2 + 1, n2 + 3) =~= two_digits(m2));
    assert(s1.subrange(n1 + 4, n1 + 6) =~= two_digits(d1));
    assert(s2.subrange(n2 + 4, n2 + 6) =~= two_digits(d2));
    lemma_year_text_injective(y1, y2);
    lemma_two_digits_injective(m1, m2);
    lemma_two_digits_injective(d1, d2);
}

/// A supported date's day lies in the supported range of days.
pub proof fn lemma_supported_day_range(y: int, m: int, d: int)
    requires
        is_supported_date(y, m, d),
    ensures
        first_supported_day() <= days_from_civil(y, m, d) <= last_supported_day(),
{
    lemma_day_of_year_bounds(y, m, d);
    lemma_days_before_year_monotonic(min_year(), y);
    lemma_days_before_next_year(y);
    lemma_days_before_year_monotonic(y + 1, max_year() + 1);
    lemma_days_before_next_year(max_year());
}

proof fn lemma_find_year(n: int, y: int) -> (found: int)
    requires
        days_before_year(y) <= n,
        n < days_before_year(max_year() + 1),
        y <= max_year(),
    ensures
        y <= found <= max_year(),
        days_before_year(found) <= n < days_before_year(found + 1),
    decreases max_year() - y,
{
    lemma_days_before_next_year(y);
    if n < days_before_year(y + 1) {
        y
    } else {
        if y == max_year() {
            assert(false);
        }
        lemma_find_year(n, y + 1)
    }
}

proof fn lemma_find_month(y: int, doy: int) -> (found: (int, int))
    requires
        0 <= doy < year_length(y),
    ensures
        is_valid_date(y, found.0, found.1),
        days_before_month(y, found.0) + found.1 - 1 == doy,
{
    let m: int = if doy < days_before_month(y, 2) {
        1
    } else if doy < days_before_month(y, 3) {
        2
    } else if doy < days_before_month(y, 4) {
        3
    } else if doy < days_before_month(y, 5) {
        4
    } else if doy < days_before_month(y, 6) {
        5
    } else if doy < days_before_month(y, 7) {
        6
    } else if doy < days_before_month(y, 8) {
        7
    } else if doy < days_before_month(y, 9) {
        8
    } else if doy < days_before_month(y, 10) {
        9
    } else if doy < days_before_month(y, 11) {
        10
    } else if doy < days_before_month(y, 12) {
        11
    } else {
        12
    };
    (m, doy - days_before_month(y, m) + 1)
}

/// Every day in the supported range is the day of a supported date, so
/// `date_of_day` finds it.
pub proof fn lemma_supported_day_has_date(n: int)
    requires
        first_supported_day() <= n <= last_supported_day(),
    ensures
        is_supported_date(date_of_day(n).0, date_of_day(n).1, date_of_day(n).2),
        days_from_civil(date_of_day(n).0, date_of_day(n).1, date_of_day(n).2) == n,
{
    lemma_days_before_next_year(max_year());
    let y = lemma_find_year(n, min_year());
    lemma_days_before_next_year(y);
    let md = lemma_find_month(y, n - days_before_year(y));
    let w = (y, md.0, md.1);
    assert(is_supported_date(w.0, w.1, w.2) && days_from_civil(w.0, w.1, w.2) == n);
}

} // verus!
