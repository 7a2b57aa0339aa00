use crate::decimal::{push_decimal, push_decimal_signed, spec_decimal, spec_decimal_signed};
use vstd::prelude::*;

verus! {

/// Everything that can go wrong while resolving a puzzle coordinate.
///
/// Each variant carries just enough context to render a message; the
/// caller decides how to present it.
#[derive(Clone, Copy, Debug, PartialEq, Eq, Structural)]
pub enum AdventError {
    /// No year or day was given and the reference month is not December.
    OutsideAdvent,
    /// The requested coordinate lies after what the reference instant permits.
    AheadOfAdvent,
    /// A supplied or derived year lies outside 2015..=9999. The payload
    /// is wide enough to carry a derived year below zero.
    YearOutsideValidRange(i64),
    /// A supplied or derived day lies outside 1..=25.
    DayOutsideValidRange(u32),
    /// A year was supplied without a day; the day cannot be inferred.
    NeedDayGivenYear,
}

impl AdventError {
    /// The text of this error.
    pub open spec fn spec_message(&self) -> Seq<char> {
        match *self {
            AdventError::OutsideAdvent => "It is not currently Advent, please specify a year and/or day to choose an input"@,
            AdventError::AheadOfAdvent => "That day's input will not be available yet"@,
            AdventError::YearOutsideValidRange(n) => "The year "@ + spec_decimal_signed(n as int)
                + " is not between 2015 and 9999 inclusive and is therefore invalid"@,
            AdventError::DayOutsideValidRange(n) => "The day "@ + spec_decimal(n as nat)
                + " is not between 1 and 25 inclusive and is therefore invalid"@,
            AdventError::NeedDayGivenYear => "Cannot infer the day you want from only a year, please provide a day"@,
        }
    }

    /// Renders the message; the library has no `Display`, so callers
    /// print this.
    pub fn message(&self) -> (r: String)
        ensures
            r@ == self.spec_message(),
    {
        match *self {
            AdventError::OutsideAdvent => String::from_str(
                "It is not currently Advent, please specify a year and/or day to choose an input",
            ),
            AdventError::AheadOfAdvent => String::from_str(
                "That day's input will not be available yet",
            ),
            AdventError::YearOutsideValidRange(n) => {
                let mut s = String::from_str("The year ");
                push_decimal_signed(&mut s, n);
                s.append(" is not between 2015 and 9999 inclusive and is therefore invalid");
                proof {
                    assert(s@ =~= self.spec_message());
                }
                s
            },
            AdventError::DayOutsideValidRange(n) => {
                let mut s = String::from_str("The day ");
                push_decimal(&mut s, n as u64);
                s.append(" is not between 1 and 25 inclusive and is therefore invalid");
                proof {
                    assert(s@ =~= self.spec_message());
                }
                s
            },
            AdventError::NeedDayGivenYear => String::from_str(
                "Cannot infer the day you want from only a year, please provide a day",
            ),
        }
    }
}

} // verus!
