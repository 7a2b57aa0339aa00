use cargo_advent::{Advent, AdventError, Day, ReferenceInstant, Year};

fn dec_10_2024() -> ReferenceInstant {
    ReferenceInstant { year: 2024, month: 12, day: 10 }
}

fn jul_1_2024() -> ReferenceInstant {
    ReferenceInstant { year: 2024, month: 7, day: 1 }
}

fn coordinate(r: Result<Advent, AdventError>) -> (u32, u32) {
    let a = r.expect("expected a resolved coordinate");
    (a.year().inner(), a.day().inner())
}

#[test]
fn valid_years_construct_unchanged() {
    for y in [2015u32, 2016, 2020, 9998, 9999] {
        let year = Year::new(y).expect("year in range must construct");
        assert_eq!(year.inner(), y);
    }
}

#[test]
fn invalid_years_fail_with_range_error() {
    for y in [0u32, 1, 2014, 10000, u32::MAX] {
        assert_eq!(Year::new(y), Err(AdventError::YearOutsideValidRange(y as i64)));
    }
}

#[test]
fn valid_days_construct_unchanged() {
    for d in [1u32, 2, 12, 24, 25] {
        let day = Day::new(d).expect("day in range must construct");
        assert_eq!(day.inner(), d);
    }
}

#[test]
fn invalid_days_fail_with_range_error() {
    for d in [0u32, 26, 31, 100, u32::MAX] {
        assert_eq!(Day::new(d), Err(AdventError::DayOutsideValidRange(d)));
    }
}

#[test]
fn nothing_given_in_december_resolves_to_today() {
    let r = Advent::resolve(None, None, &dec_10_2024());
    assert_eq!(coordinate(r), (2024, 10));
}

#[test]
fn future_day_of_current_december_is_refused() {
    let r = Advent::resolve(Some(2024), Some(15), &dec_10_2024());
    assert_eq!(r.err(), Some(AdventError::AheadOfAdvent));
}

#[test]
fn past_day_of_current_december_is_accepted() {
    let r = Advent::resolve(Some(2024), Some(5), &dec_10_2024());
    assert_eq!(coordinate(r), (2024, 5));
}

#[test]
fn nothing_given_outside_december_is_refused() {
    let r = Advent::resolve(None, None, &jul_1_2024());
    assert_eq!(r.err(), Some(AdventError::OutsideAdvent));
}

#[test]
fn day_alone_outside_december_falls_back_a_cycle() {
    let r = Advent::resolve(None, Some(5), &jul_1_2024());
    assert_eq!(coordinate(r), (2023, 5));
}

#[test]
fn future_year_is_refused() {
    let r = Advent::resolve(Some(2025), Some(1), &dec_10_2024());
    assert_eq!(r.err(), Some(AdventError::AheadOfAdvent));
}

#[test]
fn year_without_day_is_ambiguous_whatever_the_instant() {
    for now in [
        dec_10_2024(),
        jul_1_2024(),
        ReferenceInstant { year: 2015, month: 1, day: 1 },
        ReferenceInstant { year: -40, month: 6, day: 30 },
    ] {
        let r = Advent::resolve(Some(2020), None, &now);
        assert_eq!(r.err(), Some(AdventError::NeedDayGivenYear));
    }
}

#[test]
fn resolving_twice_yields_identical_results() {
    let cases: [(Option<u32>, Option<u32>, ReferenceInstant); 5] = [
        (None, None, dec_10_2024()),
        (Some(2024), Some(15), dec_10_2024()),
        (Some(2024), Some(5), dec_10_2024()),
        (None, Some(5), jul_1_2024()),
        (Some(2020), None, jul_1_2024()),
    ];
    for (y, d, now) in cases {
        let first = Advent::resolve(y, d, &now);
        let second = Advent::resolve(y, d, &now);
        match (first, second) {
            (Ok(a), Ok(b)) => {
                assert_eq!(a.year(), b.year());
                assert_eq!(a.day(), b.day());
            }
            (Err(e1), Err(e2)) => assert_eq!(e1, e2),
            _ => panic!("one call succeeded and the other failed"),
        }
    }
}

#[test]
fn past_years_are_fully_released() {
    let r = Advent::resolve(Some(2015), Some(25), &dec_10_2024());
    assert_eq!(coordinate(r), (2015, 25));
    let r = Advent::resolve(Some(2023), Some(25), &jul_1_2024());
    assert_eq!(coordinate(r), (2023, 25));
}

#[test]
fn current_year_outside_december_is_refused() {
    let r = Advent::resolve(Some(2024), Some(10), &jul_1_2024());
    assert_eq!(r.err(), Some(AdventError::AheadOfAdvent));
}

#[test]
fn december_today_itself_is_accepted_for_day_alone() {
    let r = Advent::resolve(None, Some(10), &dec_10_2024());
    assert_eq!(coordinate(r), (2024, 10));
    let r = Advent::resolve(None, Some(11), &dec_10_2024());
    assert_eq!(r.err(), Some(AdventError::AheadOfAdvent));
}

#[test]
fn last_release_day_resolves() {
    let now = ReferenceInstant { year: 2024, month: 12, day: 25 };
    let r = Advent::resolve(None, None, &now);
    assert_eq!(coordinate(r), (2024, 25));
}

#[test]
fn late_december_has_no_default_slot() {
    let now = ReferenceInstant { year: 2024, month: 12, day: 26 };
    let r = Advent::resolve(None, None, &now);
    assert_eq!(r.err(), Some(AdventError::DayOutsideValidRange(26)));
}

#[test]
fn fallback_before_first_year_hits_the_range_check() {
    let now = ReferenceInstant { year: 2015, month: 7, day: 1 };
    let r = Advent::resolve(None, Some(5), &now);
    assert_eq!(r.err(), Some(AdventError::YearOutsideValidRange(2014)));
}

#[test]
fn range_checks_precede_temporal_checks() {
    let r = Advent::resolve(Some(2014), Some(1), &dec_10_2024());
    assert_eq!(r.err(), Some(AdventError::YearOutsideValidRange(2014)));
    let r = Advent::resolve(Some(2020), Some(26), &dec_10_2024());
    assert_eq!(r.err(), Some(AdventError::DayOutsideValidRange(26)));
    let r = Advent::resolve(None, Some(0), &dec_10_2024());
    assert_eq!(r.err(), Some(AdventError::DayOutsideValidRange(0)));
}

#[test]
fn negative_reference_year_hits_the_range_check() {
    let now = ReferenceInstant { year: -5, month: 12, day: 10 };
    let r = Advent::resolve(None, None, &now);
    assert_eq!(r.err(), Some(AdventError::YearOutsideValidRange(-5)));
    let r = Advent::resolve(None, Some(5), &now);
    assert_eq!(r.err(), Some(AdventError::YearOutsideValidRange(-5)));
    let july = ReferenceInstant { year: -5, month: 7, day: 1 };
    let r = Advent::resolve(None, Some(5), &july);
    assert_eq!(r.err(), Some(AdventError::YearOutsideValidRange(-6)));
}

#[test]
fn new_reads_the_clock_but_keeps_unambiguous_outcomes() {
    let r = Advent::new(Some(2020), None);
    assert_eq!(r.err(), Some(AdventError::NeedDayGivenYear));
    if let Ok(a) = Advent::new(None, None) {
        assert!((2015..=9999).contains(&a.year().inner()));
        assert!((1..=25).contains(&a.day().inner()));
    }
}
