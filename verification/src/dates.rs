//! The calendar date produced by the resolution pipeline.

use vstd::prelude::*;

verus! {

/// A calendar date: year, month of year and day of month, with no
/// time-of-day component.
#[derive(Clone, Copy, Debug, PartialEq, Eq, Structural)]
pub struct Date {
    pub year: i32,
    pub month: u32,
    pub day: u32,
}

/// A month of year between 1 and 12 and a day of month between 1 and 31.
pub open spec fn valid_date(d: Date) -> bool {
    1 <= d.month <= 12 && 1 <= d.day <= 31
}

} // verus!
