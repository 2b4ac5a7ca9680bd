//! The point-in-time model that the unit transcoder reads.
//!
//! A `Timestamp` carries the wall-clock fields as plain integers; the
//! calendar arithmetic (leap years, days in a month, decimal year digits)
//! is implemented and proved here.

use vstd::prelude::*;

verus! {

/// A local wall-clock reading, split into calendar fields.
///
/// `weekday` counts days from Monday (Monday = 0 .. Sunday = 6).
pub struct Timestamp {
    pub year: i32,
    pub month: u32,
    pub day: u32,
    pub hour: u32,
    pub minute: u32,
    pub second: u32,
    pub weekday: u32,
}

/// Whether `y` is a leap year of the proleptic Gregorian calendar.
pub open spec fn spec_is_leap_year(y: int) -> bool {
    let m = if y >= 0 { y } else { -y };
    m % 4 == 0 && (m % 100 != 0 || m % 400 == 0)
}

/// The number of days in the given month, leap years included.
pub open spec fn spec_days_in_month(year: int, month: int) -> int {
    if month == 2 {
        if spec_is_leap_year(year) { 29 } else { 28 }
    } else if month == 4 || month == 6 || month == 9 || month == 11 {
        30
    } else {
        31
    }
}

impl Timestamp {
    /// Every field lies in its calendar range and the day exists in its month.
    pub open spec fn wf(self) -> bool {
        &&& 1 <= self.month <= 12
        &&& 1 <= self.day <= spec_days_in_month(self.year as int, self.month as int)
        &&& self.hour < 24
        &&& self.minute < 60
        &&& self.second < 60
        &&& self.weekday < 7
    }

    pub fn new(year: i32, month: u32, day: u32, hour: u32, minute: u32, second: u32, weekday: u32)
        -> (r: Timestamp)
        ensures
            r == (Timestamp { year, month, day, hour, minute, second, weekday }),
    {
        Timestamp { year, month, day, hour, minute, second, weekday }
    }
}

/// Whether `y` is a leap year of the proleptic Gregorian calendar.
pub fn is_leap_year(y: i32) -> (r: bool)
    ensures
        r == spec_is_leap_year(y as int),
{
    let m: u32 = if y >= 0 { y as u32 } else { (-(y as i64)) as u32 };
    m % 4 == 0 && (m % 100 != 0 || m % 400 == 0)
}

/// The number of days in the given month, rolling February with leap years.
pub fn days_in_month(year: i32, month: u32) -> (r: u32)
    ensures
        r == spec_days_in_month(year as int, month as int),
{
    if month == 2 {
        if is_leap_year(year) { 29 } else { 28 }
    } else if month == 4 || month == 6 || month == 9 || month == 11 {
        30
    } else {
        31
    }
}

/// `10^k`.
pub open spec fn spec_pow10(k: nat) -> int
    decreases k,
{
    if k == 0 {
        1
    } else {
        10 * spec_pow10((k - 1) as nat)
    }
}

/// How many digits the decimal representation of `n` has (`1` for `0`).
pub open spec fn spec_num_digits(n: nat) -> nat
    decreases n,
{
    if n < 10 {
        1
    } else {
        1 + spec_num_digits(n / 10)
    }
}

/// The digit at position `i` (counted from the most significant) of the
/// decimal representation of `n`, or `0` where the representation is too
/// short to have one.
pub open spec fn spec_digit_of(n: nat, i: int) -> int {
    if 0 <= i < spec_num_digits(n) {
        (n as int / spec_pow10((spec_num_digits(n) - 1 - i) as nat)) % 10
    } else {
        0
    }
}

/// The value read out of position `i` of the decimal string of the year
/// `y`: its digit there, or `0` where that position holds no digit (a
/// too-short year, or the sign of a negative one).
pub open spec fn spec_year_digit(y: int, i: int) -> int {
    if y >= 0 {
        spec_digit_of(y as nat, i)
    } else if i == 0 {
        0
    } else {
        spec_digit_of((-y) as nat, i - 1)
    }
}

proof fn lemma_pow10_mono(j: nat, k: nat)
    requires
        j <= k,
    ensures
        1 <= spec_pow10(j) <= spec_pow10(k),
    decreases k,
{
    if j < k {
        lemma_pow10_mono(j, (k - 1) as nat);
    } else if k > 0 {
        lemma_pow10_mono((j - 1) as nat, (k - 1) as nat);
    }
}

/// Every number below `10^k` has at most `k` decimal digits.
proof fn lemma_num_digits_bound(n: nat, k: nat)
    requires
        n < spec_pow10(k),
        k >= 1,
    ensures
        spec_num_digits(n) <= k,
    decreases n,
{
    if n >= 10 {
        assert(spec_pow10(k) == 10 * spec_pow10((k - 1) as nat));
        assert(n / 10 < spec_pow10((k - 1) as nat));
        lemma_num_digits_bound(n / 10, (k - 1) as nat);
    }
}

fn pow10(k: u32) -> (r: u32)
    requires
        k <= 9,
    ensures
        r == spec_pow10(k as nat),
{
    let mut r: u32 = 1;
    let mut j: u32 = 0;
    while j < k
        invariant
            j <= k <= 9,
            r == spec_pow10(j as nat),
        decreases k - j,
    {
        proof {
            reveal_with_fuel(spec_pow10, 9);
            assert(spec_pow10(8) == 100000000);
            lemma_pow10_mono(j as nat, 8);
        }
        r = r * 10;
        j = j + 1;
    }
    r
}

fn num_digits(n: u32) -> (r: u32)
    ensures
        r == spec_num_digits(n as nat),
        1 <= r <= 10,
{
    proof {
        reveal_with_fuel(spec_pow10, 11);
        assert(spec_pow10(10) == 10000000000);
        lemma_num_digits_bound(n as nat, 10);
    }
    let mut m: u32 = n;
    let mut d: u32 = 1;
    while m >= 10
        invariant
            spec_num_digits(n as nat) == d - 1 + spec_num_digits(m as nat),
            spec_num_digits(n as nat) <= 10,
            1 <= d,
        decreases m,
    {
        m = m / 10;
        d = d + 1;
    }
    d
}

/// The four digits of a four-digit year, read out of its decimal string,
/// concatenate back to the year itself.
pub proof fn lemma_year_digits_reconstruct(y: int)
    requires
        1000 <= y <= 9999,
    ensures
        spec_year_digit(y, 0) == y / 1000 % 10,
        spec_year_digit(y, 1) == y / 100 % 10,
        spec_year_digit(y, 2) == y / 10 % 10,
        spec_year_digit(y, 3) == y % 10,
        y / 1000 % 10 * 1000 + y / 100 % 10 * 100 + y / 10 % 10 * 10 + y % 10 == y,
{
    vstd::arithmetic::div_mod::lemma_div_denominator(y, 10, 10);
    vstd::arithmetic::div_mod::lemma_div_denominator(y, 100, 10);
    reveal_with_fuel(spec_num_digits, 5);
    reveal_with_fuel(spec_pow10, 5);
    assert(100 <= y / 10 <= 999);
    assert(10 <= y / 100 <= 99);
    assert(1 <= y / 1000 <= 9);
    assert(spec_num_digits(y as nat) == 4);
    vstd::arithmetic::div_mod::lemma_fundamental_div_mod(y, 10);
    vstd::arithmetic::div_mod::lemma_fundamental_div_mod(y / 10, 10);
    vstd::arithmetic::div_mod::lemma_fundamental_div_mod(y / 100, 10);
}

/// Relies on chrono::Local::now and the Datelike/Timelike accessors: they
/// read the current local wall clock as a valid calendar date and time,
/// with the weekday counted from Monday.
#[verifier::external_body]
pub fn now_timestamp() -> (r: Timestamp)
    ensures
        r.wf(),
{
    let dt = chrono::Local::now();
    Timestamp {
        year: chrono::Datelike::year(&dt),
        month: chrono::Datelike::month(&dt),
        day: chrono::Datelike::day(&dt),
        hour: chrono::Timelike::hour(&dt),
        minute: chrono::Timelike::minute(&dt),
        second: chrono::Timelike::second(&dt),
        weekday: chrono::Datelike::weekday(&dt).num_days_from_monday(),
    }
}

/// The digit at position `idx` of the decimal string of the year `y`, with
/// `0` standing in for an absent digit or the sign of a negative year.
pub fn year_digit(y: i32, idx: u32) -> (r: u32)
    requires
        idx < 4,
    ensures
        r == spec_year_digit(y as int, idx as int),
        r < 10,
{
    let m: u32 = if y >= 0 { y as u32 } else { (-(y as i64)) as u32 };
    let i: u32 = if y >= 0 {
        idx
    } else if idx == 0 {
        return 0;
    } else {
        idx - 1
    };
    let nd = num_digits(m);
    if i < nd {
        let k = nd - 1 - i;
        proof {
            lemma_pow10_mono(k as nat, k as nat);
        }
        (m / pow10(k)) % 10
    } else {
        0
    }
}

} // verus!
