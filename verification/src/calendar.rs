//! The year of a day in the proleptic Gregorian calendar, with the range of
//! years a calendar date can hold.

use vstd::prelude::*;

verus! {

/// The first year a calendar date can hold.
pub const MIN_YEAR: i32 = -262143;

/// The last year a calendar date can hold.
pub const MAX_YEAR: i32 = 262142;

/// The number of days in four hundred years: the calendar repeats after
/// them.
pub const DAYS_IN_400_YEARS: i64 = 146097;

/// The number of days from January 1st of year zero to January 1st of year
/// `y`: 365 a year, plus a day for each leap year before `y` (years divisible
/// by four, but not by a hundred unless by four hundred).
pub open spec fn days_before_year(y: int) -> int {
    365 * y + (y + 3) / 4 - (y + 99) / 100 + (y + 399) / 400
}

/// Whether the day `d`, counted from January 1st of year zero as day zero,
/// falls in year `y`.
pub open spec fn in_year(d: int, y: int) -> bool {
    days_before_year(y) <= d < days_before_year(y + 1)
}

/// The year the day `d`, counted from January 1st of year zero, falls in.
pub open spec fn year_of_day(d: int) -> int {
    choose|y: int| in_year(d, y)
}

/// The year of the day numbered `days` (January 1st of year one being day
/// one), if a calendar date can hold it: the number plus 365 must fit 32
/// bits, and the year must lie from `MIN_YEAR` to `MAX_YEAR`.
pub open spec fn calendar_year(days: int) -> Option<int> {
    if days + 365 > i32::MAX {
        None
    } else {
        let y = year_of_day(days + 365);
        if MIN_YEAR <= y <= MAX_YEAR {
            Some(y)
        } else {
            None
        }
    }
}

/// The written quotient and remainder of `x` by `d`.
proof fn lemma_div_mod_of(x: int, d: int, q: int, r: int)
    requires
        0 < d,
        0 <= r < d,
        x == q * d + r,
    ensures
        x / d == q,
        x % d == r,
{
    vstd::arithmetic::div_mod::lemma_fundamental_div_mod_converse_div(x, d, q, r);
    vstd::arithmetic::div_mod::lemma_fundamental_div_mod_converse_mod(x, d, q, r);
}

/// One more raises the quotient by one exactly when it is a multiple.
proof fn lemma_div_step(x: int, d: int)
    requires
        0 < d,
    ensures
        (x + 1) / d - x / d == if (x + 1) % d == 0 {
            1int
        } else {
            0int
        },
{
    let q = x / d;
    let r = x % d;
    vstd::arithmetic::div_mod::lemma_fundamental_div_mod(x, d);
    vstd::arithmetic::div_mod::lemma_mod_bound(x, d);
    assert(x == q * d + r) by (nonlinear_arith)
        requires
            x == d * (x / d) + (x % d),
            q == x / d,
            r == x % d,
    ;
    if r == d - 1 {
        assert(x + 1 == (q + 1) * d + 0) by (nonlinear_arith)
            requires
                x == q * d + r,
                r == d - 1,
        ;
        lemma_div_mod_of(x + 1, d, q + 1, 0);
    } else {
        assert(x + 1 == q * d + (r + 1));
        lemma_div_mod_of(x + 1, d, q, r + 1);
    }
}

/// A year has 365 or 366 days.
proof fn lemma_year_length(y: int)
    ensures
        365 <= days_before_year(y + 1) - days_before_year(y) <= 366,
{
    lemma_div_step(y + 3, 4);
    lemma_div_step(y + 99, 100);
    lemma_div_step(y + 399, 400);
    let a = (y + 4) / 4 - (y + 3) / 4;
    let b = (y + 100) / 100 - (y + 99) / 100;
    let c = (y + 400) / 400 - (y + 399) / 400;
    assert(days_before_year(y + 1) - days_before_year(y) == 365 + a - b + c);
    if (y + 100) % 100 == 0 {
        let k = (y + 100) / 100;
        vstd::arithmetic::div_mod::lemma_fundamental_div_mod(y + 100, 100);
        assert(y + 4 == (25 * k - 24) * 4 + 0) by (nonlinear_arith)
            requires
                y + 100 == 100 * k + 0,
        ;
        lemma_div_mod_of(y + 4, 4, 25 * k - 24, 0);
    }
    if (y + 400) % 400 == 0 {
        let k = (y + 400) / 400;
        vstd::arithmetic::div_mod::lemma_fundamental_div_mod(y + 400, 400);
        assert(y + 100 == (4 * k - 3) * 100 + 0) by (nonlinear_arith)
            requires
                y + 400 == 400 * k + 0,
        ;
        lemma_div_mod_of(y + 100, 100, 4 * k - 3, 0);
    }
}

/// Later years start later.
proof fn lemma_days_before_monotone(a: int, b: int)
    requires
        a < b,
    ensures
        days_before_year(a) + 365 <= days_before_year(b),
    decreases b - a,
{
    lemma_year_length(a);
    if a + 1 < b {
        lemma_days_before_monotone(a + 1, b);
    }
}

/// A day falls in one year only.
proof fn lemma_in_year_unique(d: int, y: int)
    requires
        in_year(d, y),
    ensures
        year_of_day(d) == y,
{
    let z = year_of_day(d);
    assert(in_year(d, z));
    if z < y {
        lemma_days_before_monotone(z, y);
        if z + 1 < y {
            lemma_days_before_monotone(z + 1, y);
        }
    }
    if y < z {
        lemma_days_before_monotone(y, z);
        if y + 1 < z {
            lemma_days_before_monotone(y + 1, z);
        }
    }
}

/// Adding `k` times the divisor adds `k` to the quotient.
proof fn lemma_div_shift(x: int, k: int, d: int)
    requires
        0 < d,
    ensures
        (x + d * k) / d == x / d + k,
{
    vstd::arithmetic::div_mod::lemma_fundamental_div_mod(x, d);
    vstd::arithmetic::div_mod::lemma_mod_bound(x, d);
    assert(x + d * k == d * (x / d + k) + x % d) by (nonlinear_arith)
        requires
            x == d * (x / d) + (x % d),
    ;
    vstd::arithmetic::div_mod::lemma_div_multiples_vanish_fancy(x / d + k, x % d, d);
}

/// Four hundred years later, a year starts the days of four hundred years
/// later.
proof fn lemma_cycle_shift(q: int, y: int)
    ensures
        days_before_year(400 * q + y) == 146097 * q + days_before_year(y),
{
    lemma_div_shift(y + 3, 100 * q, 4);
    lemma_div_shift(y + 99, 4 * q, 100);
    lemma_div_shift(y + 399, q, 400);
    assert(y + 3 + 4 * (100 * q) == 400 * q + y + 3);
    assert(y + 99 + 100 * (4 * q) == 400 * q + y + 99);
    assert(y + 399 + 400 * q == 400 * q + y + 399);
}

/// The days before a year from zero to four hundred.
fn days_before(y: i64) -> (r: i64)
    requires
        0 <= y <= 400,
    ensures
        r == days_before_year(y as int),
{
    365 * y + (y + 3) / 4 - (y + 99) / 100 + (y + 399) / 400
}

/// The year of the day numbered `days` (January 1st of year one being day
/// one), if a calendar date can hold it.
pub fn year_of(days: i32) -> (r: Option<i32>)
    ensures
        match r {
            Some(y) => calendar_year(days as int) == Some(y as int),
            None => calendar_year(days as int) is None,
        },
{
    if days > i32::MAX - 365 {
        return None;
    }
    let d: i64 = days as i64 + 365;
    let q: i64 = if d >= 0 {
        d / DAYS_IN_400_YEARS
    } else {
        -((-d + DAYS_IN_400_YEARS - 1) / DAYS_IN_400_YEARS)
    };
    assert(q == d as int / 146097) by (nonlinear_arith)
        requires
            d >= 0 ==> q == d / 146097,
            d < 0 ==> q == -((-d + 146097 - 1) / 146097),
            -3000000000 < d < 3000000000,
    ;
    let c: i64 = d - q * DAYS_IN_400_YEARS;
    assert(c == d as int % 146097 && 0 <= c < 146097) by (nonlinear_arith)
        requires
            q == d as int / 146097,
            c == d - q * 146097,
    ;
    let mut y: i64 = c / 365;
    assert(c < 365 * (y + 1));
    assert(y <= 400);
    proof {
        lemma_days_before_monotone(y as int, y + 1);
        assert(days_before_year(y + 1) >= 365 * (y + 1)) by {
            assert(days_before_year(y + 1) == 365 * (y + 1) + (y + 1 + 3) / 4 - (y + 1 + 99) / 100 + (y + 1
                + 399) / 400);
        }
    }
    while days_before(y) > c
        invariant
            0 <= y <= 400,
            0 <= c < 146097,
            c < days_before_year(y + 1),
        decreases y,
    {
        y = y - 1;
    }
    let year: i64 = 400 * q + y;
    proof {
        lemma_cycle_shift(q as int, y as int);
        lemma_cycle_shift(q as int, y + 1);
        assert(400 * q + (y + 1) == year + 1);
        assert(in_year(d as int, year as int));
        lemma_in_year_unique(d as int, year as int);
    }
    if year < MIN_YEAR as i64 || year > MAX_YEAR as i64 {
        None
    } else {
        Some(year as i32)
    }
}

} // verus!
