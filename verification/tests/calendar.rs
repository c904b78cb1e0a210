use olive_solve::calendar::{julian_day_terms, JulianDayTerms};

fn julian_day(year: i32, month: u32, day: u32) -> f64 {
    let t = julian_day_terms(year, month, day);
    t.days as f64 + t.correction as f64 - 1524.5
}

#[test]
fn j2000_epoch() {
    // 2000-01-01 0h UT is JD 2451544.5 (noon is the J2000.0 epoch).
    assert_eq!(julian_day_terms(2000, 1, 1), JulianDayTerms { days: 2453082, correction: -13 });
    assert_eq!(julian_day(2000, 1, 1), 2451544.5);
}

#[test]
fn known_julian_days() {
    // Meeus, Astronomical Algorithms, example 7.a: 1957 October 4.81 = JD 2436116.31.
    assert_eq!(julian_day(1957, 10, 4), 2436115.5);
    // 2025-01-01 0h UT.
    assert_eq!(julian_day(2025, 1, 1), 2460676.5);
    // 1582 October 15, first day of the Gregorian calendar.
    assert_eq!(julian_day(1582, 10, 15), 2299160.5);
}

#[test]
fn february_into_march() {
    // Leap, common, century and 400-year cases all step by one day.
    assert_eq!(julian_day(2024, 3, 1) - julian_day(2024, 2, 29), 1.0);
    assert_eq!(julian_day(2023, 3, 1) - julian_day(2023, 2, 28), 1.0);
    assert_eq!(julian_day(1900, 3, 1) - julian_day(1900, 2, 28), 1.0);
    assert_eq!(julian_day(2000, 3, 1) - julian_day(2000, 2, 29), 1.0);
    assert_eq!(julian_day(2025, 1, 1) - julian_day(2024, 12, 31), 1.0);
}

#[test]
fn negative_years_use_floor_division() {
    // Year -101 (102 BC proleptic): floor(-101 / 100) = -2.
    let t = julian_day_terms(-101, 6, 1);
    assert_eq!(t.correction, 2 - (-2) + (-1));
    let t = julian_day_terms(-5000, 3, 1);
    assert_eq!(t.days, (1461i64 * (-5000 + 4716)).div_euclid(4) + 122 + 1);
}
