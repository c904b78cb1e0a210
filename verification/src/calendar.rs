use vstd::prelude::*;

verus! {

/// The year the Meeus day count uses: January and February count as months
/// 13 and 14 of the previous year.
pub open spec fn meeus_year(year: int, month: int) -> int {
    if month <= 2 {
        year - 1
    } else {
        year
    }
}

/// The month the Meeus day count uses (March is 3, February is 14).
pub open spec fn meeus_month(month: int) -> int {
    if month <= 2 {
        month + 12
    } else {
        month
    }
}

/// floor(365.25 (y + 4716)): whole days from the count's origin to the
/// start of Meeus year `y`.
pub open spec fn year_days(y: int) -> int {
    (1461 * (y + 4716)) / 4
}

/// floor(30.6001 (m + 1)): the month term of the day count.
pub open spec fn month_days(m: int) -> int {
    (306001 * (m + 1)) / 10000
}

/// The Gregorian correction 2 - a + floor(a / 4), with a = floor(y / 100).
pub open spec fn gregorian_correction(y: int) -> int {
    let a = y / 100;
    2 - a + a / 4
}

/// The whole-day part of the Meeus Julian-day sum for a calendar date,
/// before the Gregorian correction.
pub open spec fn julian_days(year: int, month: int, day: int) -> int {
    year_days(meeus_year(year, month)) + month_days(meeus_month(month)) + day
}

/// The Julian day at 0h UT of a Gregorian date is
/// `days + correction - 1524.5`; the fraction of the day is added to it.
#[derive(Debug, Clone, Copy, PartialEq, Eq, Structural)]
pub struct JulianDayTerms {
    /// floor(365.25 (Y + 4716)) + floor(30.6001 (M + 1)) + day.
    pub days: i64,
    /// 2 - A + floor(A / 4), A = floor(Y / 100).
    pub correction: i64,
}

/// floor(a / b) for a positive divisor.
fn floor_div(a: i64, b: i64) -> (q: i64)
    requires
        b > 0,
        a > i64::MIN,
    ensures
        q == a / b,
{
    if a >= 0 {
        proof {
            assert(0 <= a / b <= a) by (nonlinear_arith)
                requires
                    a >= 0,
                    b > 0,
            ;
        }
        ((a as u64) / (b as u64)) as i64
    } else {
        let n: u64 = (-a) as u64;
        let bb: u64 = b as u64;
        let q: u64 = (n + bb - 1) / bb;
        proof {
            let ai = a as int;
            let bi = b as int;
            let qi = q as int;
            assert(qi == (-ai + bi - 1) / bi);
            assert(-qi == ai / bi) by (nonlinear_arith)
                requires
                    ai < 0,
                    bi > 0,
                    qi == (-ai + bi - 1) / bi,
            {
                let r = (-ai + bi - 1) % bi;
                assert(-ai + bi - 1 == qi * bi + r);
                assert(0 <= r < bi);
                let q2 = ai / bi;
                let r2 = ai % bi;
                assert(ai == q2 * bi + r2);
                assert(0 <= r2 < bi);
            }
            assert(q <= n) by (nonlinear_arith)
                requires
                    n >= 1,
                    bb >= 1,
                    q as int == (n + bb - 1) as int / bb as int,
            ;
        }
        -(q as i64)
    }
}

/// The integer terms of the Meeus Julian-day formula for a date given as
/// year, month (1 to 12) and day of month. For real calendar months the
/// month term equals the floor of the floating-point product 30.6001 (M + 1).
pub fn julian_day_terms(year: i32, month: u32, day: u32) -> (terms: JulianDayTerms)
    ensures
        terms.days == julian_days(year as int, month as int, day as int),
        terms.correction == gregorian_correction(meeus_year(year as int, month as int)),
{
    let y: i64 = if month <= 2 {
        year as i64 - 1
    } else {
        year as i64
    };
    let m: i64 = if month <= 2 {
        month as i64 + 12
    } else {
        month as i64
    };
    let year_term = floor_div(1461 * (y + 4716), 4);
    let month_term = floor_div(306001 * (m + 1), 10000);
    let a = floor_div(y, 100);
    let a4 = floor_div(a, 4);
    proof {
        assert(-30000000 <= a <= 30000000) by (nonlinear_arith)
            requires
                a == y / 100,
                -3000000000 <= y <= 3000000000,
        ;
        assert(-2000000000000 <= year_term <= 20000000000000) by (nonlinear_arith)
            requires
                year_term == (1461 * (y + 4716)) / 4,
                -3000000000 <= y <= 3000000000,
        ;
        assert(0 <= month_term <= 200000000000000) by (nonlinear_arith)
            requires
                month_term == (306001 * (m + 1)) / 10000,
                0 <= m <= 5000000000,
        ;
    }
    JulianDayTerms { days: year_term + month_term + day as i64, correction: 2 - a + a4 }
}

/// Gregorian leap years.
pub open spec fn is_leap_year(y: int) -> bool {
    (y % 4 == 0 && y % 100 != 0) || y % 400 == 0
}

/// Days in month `m` (1 to 12) of year `y` of the Gregorian calendar.
pub open spec fn days_in_month(y: int, m: int) -> int {
    if m == 2 {
        if is_leap_year(y) {
            29
        } else {
            28
        }
    } else if m == 4 || m == 6 || m == 9 || m == 11 {
        30
    } else {
        31
    }
}

/// A valid Gregorian date.
pub open spec fn valid_date(y: int, m: int, d: int) -> bool {
    1 <= m <= 12 && 1 <= d <= days_in_month(y, m)
}

/// The date after `(y, m, d)`.
pub open spec fn next_day(y: int, m: int, d: int) -> (int, int, int) {
    if d < days_in_month(y, m) {
        (y, m, d + 1)
    } else if m < 12 {
        (y, m + 1, 1)
    } else {
        (y + 1, 1, 1)
    }
}

/// The day count with its Gregorian correction: the Julian day at 0h UT of
/// the date, plus 1524.5.
pub open spec fn corrected_days(y: int, m: int, d: int) -> int {
    julian_days(y, m, d) + gregorian_correction(meeus_year(y, m))
}

proof fn lemma_year_days_step(y: int)
    ensures
        year_days(y) - year_days(y - 1) == if y % 4 == 0 {
            366int
        } else {
            365int
        },
{
    let z = y + 4715;
    assert(1461 * (y + 4716) == 4 * (365 * z + 365) + (z + 1));
    assert(1461 * z == 4 * (365 * z) + z);
    assert((4 * (365 * z + 365) + (z + 1)) / 4 == 365 * z + 365 + (z + 1) / 4) by (nonlinear_arith);
    assert((4 * (365 * z) + z) / 4 == 365 * z + z / 4) by (nonlinear_arith);
    assert((z + 1) / 4 - z / 4 == if (z + 1) % 4 == 0 {
        1int
    } else {
        0int
    }) by (nonlinear_arith);
    assert((z + 1) % 4 == y % 4) by (nonlinear_arith)
        requires
            z + 1 == y + 4716,
    ;
}

proof fn lemma_correction_step(y: int)
    ensures
        gregorian_correction(y) - gregorian_correction(y - 1) == if y % 100 != 0 {
            0int
        } else if y % 400 == 0 {
            0int
        } else {
            -1int
        },
{
    let a = y / 100;
    let a1 = (y - 1) / 100;
    if y % 100 != 0 {
        assert(a1 == a) by (nonlinear_arith)
            requires
                y % 100 != 0,
                a == y / 100,
                a1 == (y - 1) / 100,
        ;
    } else {
        assert(a1 == a - 1) by (nonlinear_arith)
            requires
                y % 100 == 0,
                a == y / 100,
                a1 == (y - 1) / 100,
        ;
        assert((a - 1) / 4 == if a % 4 == 0 {
            a / 4 - 1
        } else {
            a / 4
        }) by (nonlinear_arith);
        assert((y % 400 == 0) == (a % 4 == 0)) by (nonlinear_arith)
            requires
                y % 100 == 0,
                a == y / 100,
        ;
    }
}

/// The corrected day count advances by exactly one from each Gregorian date
/// to the next, across month and year ends and leap days alike, so the
/// Meeus formula numbers the days of the calendar without gaps or repeats.
pub proof fn lemma_day_count_continuous(y: int, m: int, d: int)
    requires
        valid_date(y, m, d),
    ensures
        ({
            let (y2, m2, d2) = next_day(y, m, d);
            corrected_days(y2, m2, d2) == corrected_days(y, m, d) + 1
        }),
{
    if d < days_in_month(y, m) {
    } else if m == 2 {
        lemma_year_days_step(y);
        lemma_correction_step(y);
        assert(month_days(3) == 122);
        assert(month_days(14) == 459);
    } else if m < 12 {
        assert(month_days(13) == 428);
        assert(month_days(14) == 459);
        assert(month_days(3) == 122);
        assert(month_days(4) == 153);
        assert(month_days(5) == 183);
        assert(month_days(6) == 214);
        assert(month_days(7) == 244);
        assert(month_days(8) == 275);
        assert(month_days(9) == 306);
        assert(month_days(10) == 336);
        assert(month_days(11) == 367);
        assert(month_days(12) == 397);
    } else {
        assert(month_days(12) == 397);
        assert(month_days(13) == 428);
    }
}

} // verus!
