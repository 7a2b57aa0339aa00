use crate::error::AdventError;
use vstd::prelude::*;

verus! {

/// A calendar year accepted by the puzzle calendar: 2015..=9999.
#[derive(Clone, Copy, Debug, PartialEq, Eq, Structural)]
pub struct Year(u32);

/// A day of the release window: 1..=25.
#[derive(Clone, Copy, Debug, PartialEq, Eq, Structural)]
pub struct Day(u32);

/// A snapshot of the caller's local date. The resolver never reads a
/// clock itself; the caller captures one instant and passes it in, so
/// resolution is a pure function of its arguments.
#[derive(Clone, Copy, Debug, PartialEq, Eq, Structural)]
pub struct ReferenceInstant {
    /// Calendar year, possibly far outside the puzzle range.
    pub year: i32,
    /// Month number, 1..=12.
    pub month: u32,
    /// Day of the month, 1..=31.
    pub day: u32,
}

/// A resolved release slot: one puzzle's (year, day) coordinate.
pub struct Advent {
    year: Year,
    day: Day,
}

/// Years the calendar covers. The argument is unbounded so that the
/// same check covers supplied years and years derived from the
/// reference instant, which can lie below zero.
pub open spec fn year_in_range(n: int) -> bool {
    2015 <= n <= 9999
}

/// Days the calendar covers.
pub open spec fn day_in_range(n: u32) -> bool {
    1 <= n <= 25
}

impl Year {
    /// The wrapped number.
    pub closed spec fn spec_inner(&self) -> u32 {
        self.0
    }

    /// Validating constructor: the only way to obtain a `Year`.
    pub fn new(n: u32) -> (r: Result<Self, AdventError>)
        ensures
            match r {
                Ok(y) => year_in_range(n as int) && y.spec_inner() == n,
                Err(e) => !year_in_range(n as int) && e == AdventError::YearOutsideValidRange(
                    n as i64,
                ),
            },
    {
        if n < 2015 || 9999 < n {
            Err(AdventError::YearOutsideValidRange(n as i64))
        } else {
            Ok(Year(n))
        }
    }

    pub fn inner(&self) -> (r: u32)
        ensures
            r == self.spec_inner(),
    {
        self.0
    }
}

impl Day {
    /// The wrapped number.
    pub closed spec fn spec_inner(&self) -> u32 {
        self.0
    }

    /// Validating constructor: the only way to obtain a `Day`.
    pub fn new(n: u32) -> (r: Result<Self, AdventError>)
        ensures
            match r {
                Ok(d) => day_in_range(n) && d.spec_inner() == n,
                Err(e) => !day_in_range(n) && e == AdventError::DayOutsideValidRange(n),
            },
    {
        if n < 1 || 25 < n {
            Err(AdventError::DayOutsideValidRange(n))
        } else {
            Ok(Day(n))
        }
    }

    pub fn inner(&self) -> (r: u32)
        ensures
            r == self.spec_inner(),
    {
        self.0
    }
}

impl ReferenceInstant {
    /// A plausible local date: the month and day-of-month fields are in
    /// their calendar ranges. The year is left unconstrained; the
    /// resolver handles any year without panicking.
    pub open spec fn wf(&self) -> bool {
        &&& 1 <= self.month <= 12
        &&& 1 <= self.day <= 31
    }
}

/// Outcome the dispatch table assigns when both a year and a day were
/// supplied: range-check both, then refuse anything after the slot the
/// reference instant has reached.
pub open spec fn spec_from_year_and_day(y: u32, d: u32, now: ReferenceInstant) -> Result<
    (u32, u32),
    AdventError,
> {
    if !year_in_range(y as int) {
        Err(AdventError::YearOutsideValidRange(y as i64))
    } else if !day_in_range(d) {
        Err(AdventError::DayOutsideValidRange(d))
    } else if y as int > now.year as int {
        Err(AdventError::AheadOfAdvent)
    } else if y as int == now.year as int {
        if now.month == 12 {
            if d > now.day {
                Err(AdventError::AheadOfAdvent)
            } else {
                Ok((y, d))
            }
        } else {
            Err(AdventError::AheadOfAdvent)
        }
    } else {
        Ok((y, d))
    }
}

/// Outcome when neither a year nor a day was supplied: only within
/// December can a default coordinate be inferred, namely today's slot.
pub open spec fn spec_from_now(now: ReferenceInstant) -> Result<(u32, u32), AdventError> {
    if now.month != 12 {
        Err(AdventError::OutsideAdvent)
    } else if !day_in_range(now.day) {
        Err(AdventError::DayOutsideValidRange(now.day))
    } else if !year_in_range(now.year as int) {
        Err(AdventError::YearOutsideValidRange(now.year as i64))
    } else {
        Ok((now.year as u32, now.day))
    }
}

/// Outcome when only a day was supplied: within December it names a day
/// of the current cycle (which must not lie in the future); outside
/// December it names a day of the most recently completed cycle.
pub open spec fn spec_from_day(d: u32, now: ReferenceInstant) -> Result<(u32, u32), AdventError> {
    if !day_in_range(d) {
        Err(AdventError::DayOutsideValidRange(d))
    } else if now.month == 12 {
        if d > now.day {
            Err(AdventError::AheadOfAdvent)
        } else if !year_in_range(now.year as int) {
            Err(AdventError::YearOutsideValidRange(now.year as i64))
        } else {
            Ok((now.year as u32, d))
        }
    } else {
        if !year_in_range(now.year - 1) {
            Err(AdventError::YearOutsideValidRange((now.year - 1) as i64))
        } else {
            Ok(((now.year - 1) as u32, d))
        }
    }
}

/// The whole resolution policy: a four-way dispatch on which of the two
/// coordinates were supplied.
pub open spec fn spec_resolve(y: Option<u32>, d: Option<u32>, now: ReferenceInstant) -> Result<
    (u32, u32),
    AdventError,
> {
    match (y, d) {
        (Some(y), Some(d)) => spec_from_year_and_day(y, d, now),
        (None, None) => spec_from_now(now),
        (Some(_), None) => Err(AdventError::NeedDayGivenYear),
        (None, Some(d)) => spec_from_day(d, now),
    }
}

/// Relates an executable resolution result to the outcome the dispatch
/// table assigns.
pub open spec fn coordinate_matches(
    r: Result<Advent, AdventError>,
    s: Result<(u32, u32), AdventError>,
) -> bool {
    match (r, s) {
        (Ok(a), Ok(p)) => a.spec_year() == p.0 && a.spec_day() == p.1,
        (Err(e1), Err(e2)) => e1 == e2,
        _ => false,
    }
}

impl Advent {
    /// The resolved year, as a number.
    pub closed spec fn spec_year(&self) -> u32 {
        self.year.spec_inner()
    }

    /// The resolved day, as a number.
    pub closed spec fn spec_day(&self) -> u32 {
        self.day.spec_inner()
    }

    /// Every coordinate this module hands out lies within the calendar.
    pub open spec fn wf(&self) -> bool {
        year_in_range(self.spec_year() as int) && day_in_range(self.spec_day())
    }

    pub fn year(&self) -> (r: Year)
        ensures
            r.spec_inner() == self.spec_year(),
    {
        self.year
    }

    pub fn day(&self) -> (r: Day)
        ensures
            r.spec_inner() == self.spec_day(),
    {
        self.day
    }

    /// Resolves against the local clock, read once here; everything
    /// after the clock read is `resolve`, which is exact in its
    /// instant argument.
    pub fn new(y: Option<u32>, d: Option<u32>) -> (r: Result<Self, AdventError>)
        ensures
            exists|n: ReferenceInstant| n.wf() && coordinate_matches(r, spec_resolve(y, d, n)),
            r matches Ok(a) ==> a.wf(),
            y is Some && d is None ==> r == Err::<Advent, AdventError>(
                AdventError::NeedDayGivenYear,
            ),
    {
        let current = local_now();
        let r = Self::resolve(y, d, &current);
        proof {
            assert(exists|n: ReferenceInstant|
                n.wf() && coordinate_matches(r, spec_resolve(y, d, n))) by {
                assert(current.wf() && coordinate_matches(r, spec_resolve(y, d, current)));
            }
        }
        r
    }

    /// The resolution policy itself, a pure function of its three
    /// arguments: exactly the outcome the dispatch table assigns.
    pub fn resolve(y: Option<u32>, d: Option<u32>, now: &ReferenceInstant) -> (r: Result<
        Self,
        AdventError,
    >)
        ensures
            coordinate_matches(r, spec_resolve(y, d, *now)),
            r matches Ok(a) ==> a.wf(),
    {
        match (y, d) {
            (Some(y), Some(d)) => Self::from_year_and_day(y, d, now),
            (None, None) => Self::now(now),
            (Some(_y), None) => Err(AdventError::NeedDayGivenYear),
            (None, Some(d)) => Self::from_day(d, now),
        }
    }

    fn from_year_and_day(y: u32, d: u32, now: &ReferenceInstant) -> (r: Result<
        Advent,
        AdventError,
    >)
        ensures
            coordinate_matches(r, spec_from_year_and_day(y, d, *now)),
            r matches Ok(a) ==> a.wf(),
    {
        let year = match Year::new(y) {
            Ok(v) => v,
            Err(e) => {
                return Err(e);
            },
        };
        let day = match Day::new(d) {
            Ok(v) => v,
            Err(e) => {
                return Err(e);
            },
        };
        if (y as i64) > (now.year as i64) {
            // the year is in the future, that's a no go
            return Err(AdventError::AheadOfAdvent);
        }
        if (y as i64) == (now.year as i64) {
            // the current year is released only during December
            if now.month == 12 {
                // and then only up to today
                if d > now.day {
                    return Err(AdventError::AheadOfAdvent);
                }
            } else {
                return Err(AdventError::AheadOfAdvent);
            }
        }
        Ok(Advent { year, day })
    }

    fn now(now: &ReferenceInstant) -> (r: Result<Advent, AdventError>)
        ensures
            coordinate_matches(r, spec_from_now(*now)),
            r matches Ok(a) ==> a.wf(),
    {
        if now.month != 12 {
            return Err(AdventError::OutsideAdvent);
        }
        let day = match Day::new(now.day) {
            Ok(v) => v,
            Err(e) => {
                return Err(e);
            },
        };
        if now.year < 2015 || 9999 < now.year {
            return Err(AdventError::YearOutsideValidRange(now.year as i64));
        }
        let year = match Year::new(now.year as u32) {
            Ok(v) => v,
            Err(e) => {
                return Err(e);
            },
        };
        Ok(Advent { year, day })
    }

    fn from_day(d: u32, now: &ReferenceInstant) -> (r: Result<Advent, AdventError>)
        ensures
            coordinate_matches(r, spec_from_day(d, *now)),
            r matches Ok(a) ==> a.wf(),
    {
        let day = match Day::new(d) {
            Ok(v) => v,
            Err(e) => {
                return Err(e);
            },
        };
        if now.month == 12 {
            // assume they want a day of the cycle now running
            if d > now.day {
                return Err(AdventError::AheadOfAdvent);
            }
            if now.year < 2015 || 9999 < now.year {
                return Err(AdventError::YearOutsideValidRange(now.year as i64));
            }
            let year = match Year::new(now.year as u32) {
                Ok(v) => v,
                Err(e) => {
                    return Err(e);
                },
            };
            Ok(Advent { year, day })
        } else {
            // assume they want the most recently completed cycle
            let target: i64 = now.year as i64 - 1;
            if target < 2015 || 9999 < target {
                return Err(AdventError::YearOutsideValidRange(target));
            }
            let year = match Year::new(target as u32) {
                Ok(v) => v,
                Err(e) => {
                    return Err(e);
                },
            };
            Ok(Advent { year, day })
        }
    }
}

/// Resolution is deterministic: two results obtained for the same
/// (year, day, instant) triple are identical. There is no hidden state;
/// the outcome is a function of the three inputs alone.
pub proof fn lemma_resolve_deterministic(
    y: Option<u32>,
    d: Option<u32>,
    now: ReferenceInstant,
    r1: Result<Advent, AdventError>,
    r2: Result<Advent, AdventError>,
)
    requires
        coordinate_matches(r1, spec_resolve(y, d, now)),
        coordinate_matches(r2, spec_resolve(y, d, now)),
    ensures
        r1 == r2,
{
    match (r1, r2) {
        (Ok(a1), Ok(a2)) => {
            assert(a1.year == a2.year);
            assert(a1.day == a2.day);
        },
        _ => {},
    }
}

/// Every successfully resolved coordinate lies within the calendar and
/// names a slot already released at the reference instant: never a
/// future year, and within the reference year only during December and
/// only a day that has already begun.
pub proof fn lemma_resolved_coordinate_released(
    y: Option<u32>,
    d: Option<u32>,
    now: ReferenceInstant,
)
    ensures
        spec_resolve(y, d, now) matches Ok(p) ==> {
            &&& year_in_range(p.0 as int)
            &&& day_in_range(p.1)
            &&& p.0 as int <= now.year as int
            &&& (p.0 as int == now.year as int ==> now.month == 12 && p.1 <= now.day)
        },
{
}

/// Relies on `chrono::Local::now` and the `chrono::Datelike` accessors:
/// `month()` returns 1..=12 and `day()` returns 1..=31.
#[verifier::external_body]
fn local_now() -> (r: ReferenceInstant)
    ensures
        r.wf(),
{
    let t = chrono::Local::now();
    ReferenceInstant {
        year: chrono::Datelike::year(&t),
        month: chrono::Datelike::month(&t),
        day: chrono::Datelike::day(&t),
    }
}

} // verus!
