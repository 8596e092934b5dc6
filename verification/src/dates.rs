//! `YYYY-MM-DD` due dates and their day number since 1970-01-01.

use vstd::prelude::*;

verus! {

/// Gregorian leap-year rule.
pub open spec fn is_leap_year(y: int) -> bool {
    y % 4 == 0 && (y % 100 != 0 || y % 400 == 0)
}

pub open spec fn days_in_year(y: int) -> int {
    if is_leap_year(y) { 366 } else { 365 }
}

/// Length of month `m` (1..=12) of year `y`.
pub open spec fn days_in_month(y: int, m: int) -> int {
    if m == 2 {
        if is_leap_year(y) { 29 } else { 28 }
    } else if m == 4 || m == 6 || m == 9 || m == 11 {
        30
    } else {
        31
    }
}

/// Days of year `y` that come before the first of month `m`.
pub open spec fn days_before_month(y: int, m: int) -> int
    decreases m,
{
    if m <= 1 { 0 } else { days_before_month(y, m - 1) + days_in_month(y, m - 1) }
}

/// Days from 1970-01-01 to the first of January of year `y` (negative before 1970).
pub open spec fn days_before_year(y: int) -> int
    decreases (if y >= 1970 { y - 1970 } else { 1970 - y }),
{
    if y == 1970 {
        0
    } else if y > 1970 {
        days_before_year(y - 1) + days_in_year(y - 1)
    } else {
        days_before_year(y + 1) - days_in_year(y)
    }
}

/// Day number of the proleptic Gregorian date `y-m-d`, counted from 1970-01-01 = 0.
pub open spec fn epoch_day(y: int, m: int, d: int) -> int {
    days_before_year(y) + days_before_month(y, m) + d - 1
}

/// Leap days counted by the Gregorian rule among the years 1..=x.
spec fn leap_days_through(x: int) -> int {
    x / 4 - x / 100 + x / 400
}

proof fn lemma_floor_step(y: int, k: int)
    requires
        k > 0,
    ensures
        y / k - (y - 1) / k == (if y % k == 0 { 1int } else { 0int }),
{
    vstd::arithmetic::div_mod::lemma_fundamental_div_mod(y, k);
    vstd::arithmetic::div_mod::lemma_fundamental_div_mod(y - 1, k);
    assert(y / k - (y - 1) / k == (if y % k == 0 { 1int } else { 0int })) by (nonlinear_arith)
        requires
            k > 0,
            y == k * (y / k) + y % k,
            y - 1 == k * ((y - 1) / k) + (y - 1) % k,
            0 <= y % k < k,
            0 <= (y - 1) % k < k,
    ;
}

proof fn lemma_leap_step(y: int)
    ensures
        leap_days_through(y) - leap_days_through(y - 1) == (if is_leap_year(y) { 1int } else { 0int }),
{
    lemma_floor_step(y, 4);
    lemma_floor_step(y, 100);
    lemma_floor_step(y, 400);
    let a = y % 4;
    let b = y % 100;
    let c = y % 400;
    assert(c == 0 ==> b == 0 && a == 0) by {
        vstd::arithmetic::div_mod::lemma_fundamental_div_mod(y, 400);
        if c == 0 {
            assert(y == 400 * (y / 400));
            vstd::arithmetic::div_mod::lemma_mod_multiples_basic(4 * (y / 400), 100);
            vstd::arithmetic::div_mod::lemma_mod_multiples_basic(100 * (y / 400), 4);
            assert(y == 100 * (4 * (y / 400)));
            assert(y == 4 * (100 * (y / 400)));
        }
    }
    assert(b == 0 ==> a == 0) by {
        vstd::arithmetic::div_mod::lemma_fundamental_div_mod(y, 100);
        if b == 0 {
            assert(y == 100 * (y / 100));
            vstd::arithmetic::div_mod::lemma_mod_multiples_basic(25 * (y / 100), 4);
            assert(y == 4 * (25 * (y / 100)));
        }
    }
}

/// Closed form of `days_before_year`.
proof fn lemma_days_before_year(y: int)
    ensures
        days_before_year(y) == 365 * y + leap_days_through(y - 1) - 719527,
    decreases (if y >= 1970 { y - 1970 } else { 1970 - y }),
{
    if y == 1970 {
        assert(leap_days_through(1969) == 477);
    } else if y > 1970 {
        lemma_days_before_year(y - 1);
        lemma_leap_step(y - 1);
    } else {
        lemma_days_before_year(y + 1);
        lemma_leap_step(y);
    }
}


/// Leap days of a year written as `400 * era + yoe` with `0 <= yoe < 400`.
proof fn lemma_leap_days_by_era(yp: int, era: int, yoe: int)
    requires
        yp == 400 * era + yoe,
        0 <= yoe < 400,
    ensures
        leap_days_through(yp) == 97 * era + yoe / 4 - yoe / 100,
{
    assert(yp / 4 == 100 * era + yoe / 4);
    assert(yp / 100 == 4 * era + yoe / 100);
    assert(yp / 400 == era);
}

/// `days_before_month` in the March-based form used by the civil-date algorithm.
proof fn lemma_days_before_month_shifted(y: int, m: int)
    requires
        1 <= m <= 12,
    ensures
        m > 2 ==> days_before_month(y, m) == 59 + (if is_leap_year(y) { 1int } else { 0int })
            + (153 * (m - 3) + 2) / 5,
        m <= 2 ==> days_before_month(y, m) == (153 * (m + 9) + 2) / 5 - 306,
{
    reveal_with_fuel(days_before_month, 12);
}

/// Hinnant's civil-date algorithm: `(y, m, d)` to days since 1970-01-01.
fn days_from_civil(y: i64, m: u32, d: u32) -> (r: i64)
    requires
        i32::MIN <= y <= i32::MAX,
        1 <= m <= 12,
        1 <= d,
    ensures
        r == epoch_day(y as int, m as int, d as int),
{
    let yp = if m <= 2 { y - 1 } else { y };
    let era = (if yp >= 0 { yp } else { yp - 399 }) / 400;
    assert(era == yp / 400);
    let yoe = (yp - era * 400) as u64;
    let mp = if m > 2 { m - 3 } else { m + 9 };
    let doy = (153 * mp as u64 + 2) / 5 + d as u64 - 1;
    let doe = yoe * 365 + yoe / 4 - yoe / 100 + doy;
    proof {
        lemma_leap_days_by_era(yp as int, era as int, yoe as int);
        lemma_days_before_month_shifted(y as int, m as int);
        lemma_days_before_year(y as int);
        lemma_leap_step(y as int);
    }
    era * 146097 + doe as i64 - 719468
}


/// An ASCII decimal digit.
pub open spec fn is_digit_byte(b: u8) -> bool {
    48 <= b <= 57
}

/// Every byte of `b[lo..hi]` is an ASCII digit.
pub open spec fn all_digit_bytes(b: Seq<u8>, lo: int, hi: int) -> bool {
    forall|i: int| lo <= i < hi ==> is_digit_byte(#[trigger] b[i])
}

/// The number written in decimal by the digits `b[lo..hi]`.
pub open spec fn decimal_value(b: Seq<u8>, lo: int, hi: int) -> int
    decreases hi - lo,
{
    if hi <= lo {
        0
    } else {
        decimal_value(b, lo, hi - 1) * 10 + (b[hi - 1] - 48)
    }
}

/// The bytes have the shape `DDDD-DD-DD`.
pub open spec fn has_date_layout(b: Seq<u8>) -> bool {
    &&& b.len() == 10
    &&& b[4] == 45 && b[7] == 45
    &&& all_digit_bytes(b, 0, 4)
    &&& all_digit_bytes(b, 5, 7)
    &&& all_digit_bytes(b, 8, 10)
}

pub open spec fn date_year(b: Seq<u8>) -> int {
    decimal_value(b, 0, 4)
}

pub open spec fn date_month(b: Seq<u8>) -> int {
    decimal_value(b, 5, 7)
}

pub open spec fn date_day(b: Seq<u8>) -> int {
    decimal_value(b, 8, 10)
}

/// `s` is a due date that the contract accepts: `YYYY-MM-DD` naming a real
/// calendar day of a year from 1970 to 2200.
pub open spec fn is_valid_due_date(s: Seq<char>) -> bool {
    let b = vstd::utf8::encode_utf8(s);
    &&& has_date_layout(b)
    &&& 1970 <= date_year(b) <= 2200
    &&& 1 <= date_month(b) <= 12
    &&& 1 <= date_day(b) <= days_in_month(date_year(b), date_month(b))
}

/// Day number since 1970-01-01 of the date that `s` writes.
pub open spec fn due_date_day(s: Seq<char>) -> int {
    let b = vstd::utf8::encode_utf8(s);
    epoch_day(date_year(b), date_month(b), date_day(b))
}

/// The message that rejects due date `s`.
pub open spec fn bad_due_date_message(s: Seq<char>) -> Seq<char> {
    "bad due_date \""@ + s + "\": must be a valid YYYY-MM-DD"@
}

fn bad_due_date(s: &str) -> (msg: String)
    ensures
        msg@ == bad_due_date_message(s@),
{
    let mut msg = "bad due_date \"".to_owned();
    msg.append(s);
    msg.append("\": must be a valid YYYY-MM-DD");
    msg
}

/// Reads the decimal number `b[lo..hi]`; `None` when a byte there is not a digit.
fn decimal_field(b: &[u8], lo: usize, hi: usize) -> (r: Option<i64>)
    requires
        lo <= hi <= b@.len(),
        hi - lo <= 4,
    ensures
        match r {
            Some(v) => all_digit_bytes(b@, lo as int, hi as int) && v == decimal_value(b@, lo as int, hi as int),
            None => !all_digit_bytes(b@, lo as int, hi as int),
        },
{
    let mut v: i64 = 0;
    let mut i: usize = lo;
    while i < hi
        invariant
            lo <= i <= hi <= b@.len(),
            hi - lo <= 4,
            all_digit_bytes(b@, lo as int, i as int),
            v == decimal_value(b@, lo as int, i as int),
            0 <= v,
            i - lo == 0 ==> v < 1,
            i - lo == 1 ==> v < 10,
            i - lo == 2 ==> v < 100,
            i - lo == 3 ==> v < 1000,
            v < 10000,
        decreases hi - i,
    {
        let c = b[i];
        if c < 48 || c > 57 {
            return None;
        }
        v = v * 10 + (c - 48) as i64;
        i = i + 1;
    }
    Some(v)
}

/// Parse YYYY-MM-DD into days since the Unix epoch. Rejects impossible dates.
pub fn parse_due_date(s: &str) -> (r: Result<i64, String>)
    ensures
        match r {
            Ok(day) => is_valid_due_date(s@) && day == due_date_day(s@),
            Err(msg) => !is_valid_due_date(s@) && msg@ == bad_due_date_message(s@),
        },
{
    let b = s.as_bytes();
    if b.len() != 10 || b[4] != 45u8 || b[7] != 45u8 {
        return Err(bad_due_date(s));
    }
    let y = match decimal_field(b, 0, 4) {
        Some(v) => v,
        None => return Err(bad_due_date(s)),
    };
    let m = match decimal_field(b, 5, 7) {
        Some(v) => v,
        None => return Err(bad_due_date(s)),
    };
    let d = match decimal_field(b, 8, 10) {
        Some(v) => v,
        None => return Err(bad_due_date(s)),
    };
    if !(1970 <= y && y <= 2200) || !(1 <= m && m <= 12) {
        return Err(bad_due_date(s));
    }
    let leap = y % 4 == 0 && (y % 100 != 0 || y % 400 == 0);
    let days_in_month: i64 = if m == 2 {
        if leap { 29 } else { 28 }
    } else if m == 4 || m == 6 || m == 9 || m == 11 {
        30
    } else {
        31
    };
    if !(1 <= d && d <= days_in_month) {
        return Err(bad_due_date(s));
    }
    Ok(days_from_civil(y, m as u32, d as u32))
}


// ---------------------------------------------------------------------------
// Laws of the day numbering
// ---------------------------------------------------------------------------

/// `y-m-d` names a real day of the proleptic Gregorian calendar.
pub open spec fn is_calendar_date(y: int, m: int, d: int) -> bool {
    1 <= m <= 12 && 1 <= d <= days_in_month(y, m)
}

/// The calendar day after `y-m-d`.
pub open spec fn next_date(y: int, m: int, d: int) -> (int, int, int) {
    if d < days_in_month(y, m) {
        (y, m, d + 1)
    } else if m < 12 {
        (y, m + 1, 1)
    } else {
        (y + 1, 1, 1)
    }
}

/// `y1-m1-d1` comes before `y2-m2-d2` on the calendar.
pub open spec fn date_before(y1: int, m1: int, d1: int, y2: int, m2: int, d2: int) -> bool {
    ||| y1 < y2
    ||| (y1 == y2 && m1 < m2)
    ||| (y1 == y2 && m1 == m2 && d1 < d2)
}

proof fn lemma_year_step(y: int)
    ensures
        days_before_year(y + 1) == days_before_year(y) + days_in_year(y),
{
    if y >= 1970 {
        assert(days_before_year(y + 1) == days_before_year(y) + days_in_year(y));
    } else {
        assert(days_before_year(y) == days_before_year(y + 1) - days_in_year(y));
    }
}

proof fn lemma_year_monotone(y1: int, y2: int)
    requires
        y1 <= y2,
    ensures
        days_before_year(y1) + (y2 - y1) * 365 <= days_before_year(y2),
    decreases y2 - y1,
{
    if y1 < y2 {
        lemma_year_monotone(y1, y2 - 1);
        lemma_year_step(y2 - 1);
    }
}

/// The days of a calendar date fall within its year, in month order.
proof fn lemma_within_year(y: int, m: int, d: int)
    requires
        is_calendar_date(y, m, d),
    ensures
        0 <= days_before_month(y, m) + d - 1 < days_in_year(y),
        forall|m2: int| m < m2 <= 12 ==> days_before_month(y, m) + d - 1 < #[trigger] days_before_month(y, m2),
{
    reveal_with_fuel(days_before_month, 13);
    assert forall|m2: int| m < m2 <= 12 implies days_before_month(y, m) + d - 1 < #[trigger] days_before_month(
        y,
        m2,
    ) by {
        reveal_with_fuel(days_before_month, 13);
    }
}

/// Consecutive calendar days have consecutive day numbers.
pub proof fn law_next_day_is_next_number(y: int, m: int, d: int)
    requires
        is_calendar_date(y, m, d),
    ensures
        is_calendar_date(next_date(y, m, d).0, next_date(y, m, d).1, next_date(y, m, d).2),
        epoch_day(next_date(y, m, d).0, next_date(y, m, d).1, next_date(y, m, d).2) == epoch_day(y, m, d) + 1,
{
    reveal_with_fuel(days_before_month, 13);
    lemma_year_step(y);
}

/// Day numbers follow calendar order: one date comes before another exactly
/// when its day number is smaller. So comparing day numbers, as the overdue
/// check does, compares dates.
pub proof fn law_day_number_follows_calendar(y1: int, m1: int, d1: int, y2: int, m2: int, d2: int)
    requires
        is_calendar_date(y1, m1, d1),
        is_calendar_date(y2, m2, d2),
    ensures
        date_before(y1, m1, d1, y2, m2, d2) <==> epoch_day(y1, m1, d1) < epoch_day(y2, m2, d2),
        (y1 == y2 && m1 == m2 && d1 == d2) <==> epoch_day(y1, m1, d1) == epoch_day(y2, m2, d2),
{
    lemma_within_year(y1, m1, d1);
    lemma_within_year(y2, m2, d2);
    if y1 < y2 {
        lemma_year_monotone(y1 + 1, y2);
        lemma_year_step(y1);
    } else if y2 < y1 {
        lemma_year_monotone(y2 + 1, y1);
        lemma_year_step(y2);
    } else if m1 < m2 {
        assert(days_before_month(y1, m1) + d1 - 1 < days_before_month(y1, m2));
    } else if m2 < m1 {
        assert(days_before_month(y2, m2) + d2 - 1 < days_before_month(y2, m1));
    }
}


/// February has 29 days exactly in the years divisible by 4, except
/// centuries not divisible by 400; the other months have their fixed lengths.
pub proof fn law_month_lengths(y: int)
    ensures
        days_in_month(y, 2) == 29 <==> (y % 4 == 0 && (y % 100 != 0 || y % 400 == 0)),
        days_in_month(y, 2) == 28 || days_in_month(y, 2) == 29,
        days_in_month(y, 1) == 31 && days_in_month(y, 3) == 31 && days_in_month(y, 5) == 31,
        days_in_month(y, 7) == 31 && days_in_month(y, 8) == 31 && days_in_month(y, 10) == 31,
        days_in_month(y, 12) == 31,
        days_in_month(y, 4) == 30 && days_in_month(y, 6) == 30 && days_in_month(y, 9) == 30,
        days_in_month(y, 11) == 30,
{
}

/// The Gregorian calendar repeats every 400 years, which hold 146097 days;
/// 1970-01-01 is day 0 and a year before it starts at a negative day.
pub proof fn law_four_century_cycle(y: int)
    ensures
        days_before_year(y + 400) == days_before_year(y) + 146097,
        days_before_year(1970) == 0,
        days_before_year(1971) == 365,
        days_before_year(1969) == -365,
{
    lemma_days_before_year(y);
    lemma_days_before_year(y + 400);
    lemma_leap_days_shift(y - 1);
    assert(days_before_year(1971) == days_before_year(1970) + days_in_year(1970));
    assert(days_before_year(1969) == days_before_year(1970) - days_in_year(1969));
}

proof fn lemma_leap_days_shift(x: int)
    ensures
        leap_days_through(x + 400) == leap_days_through(x) + 97,
{
    assert((x + 400) / 4 == x / 4 + 100) by {
        vstd::arithmetic::div_mod::lemma_fundamental_div_mod(x, 4);
        vstd::arithmetic::div_mod::lemma_fundamental_div_mod(x + 400, 4);
    }
    assert((x + 400) / 100 == x / 100 + 4) by {
        vstd::arithmetic::div_mod::lemma_fundamental_div_mod(x, 100);
        vstd::arithmetic::div_mod::lemma_fundamental_div_mod(x + 400, 100);
    }
    assert((x + 400) / 400 == x / 400 + 1) by {
        vstd::arithmetic::div_mod::lemma_fundamental_div_mod(x, 400);
        vstd::arithmetic::div_mod::lemma_fundamental_div_mod(x + 400, 400);
    }
}

} // verus!
