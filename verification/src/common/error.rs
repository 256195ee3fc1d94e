use vstd::prelude::*;

verus! {

/// The ways in which building or converting a date can fail.
#[derive(Debug, Clone, Copy, PartialEq, Eq, Structural)]
pub enum CalendarError {
    InvalidYear,
    InvalidMonth,
    InvalidDay,
    InvalidHour,
    InvalidMinute,
    InvalidSecond,
    InvalidDayOfYear,
    InvalidWeek,
    DivisionByZero,
    OutOfBounds,
    MixedRadixWrongSize,
    MixedRadixZeroBase,
    EncounteredNaN,
    ImpossibleResult,
}

/// The human readable description of each error.
pub open spec fn error_message(e: CalendarError) -> Seq<char> {
    match e {
        CalendarError::InvalidYear => "Invalid Year"@,
        CalendarError::InvalidMonth => "Invalid Month"@,
        CalendarError::InvalidDay => "Invalid Day"@,
        CalendarError::InvalidHour => "Invalid Hour"@,
        CalendarError::InvalidMinute => "Invalid Minute"@,
        CalendarError::InvalidSecond => "Invalid Second"@,
        CalendarError::InvalidDayOfYear => "Invalid day of year"@,
        CalendarError::InvalidWeek => "Invalid week"@,
        CalendarError::DivisionByZero => "Division By Zero"@,
        CalendarError::OutOfBounds => "Out Of Bounds"@,
        CalendarError::MixedRadixWrongSize => "Mixed radix slices have wrong size"@,
        CalendarError::MixedRadixZeroBase => "Mixed radix base contains zero"@,
        CalendarError::EncounteredNaN => "Encountered Not a Number (NaN)"@,
        CalendarError::ImpossibleResult => "Impossible result"@,
    }
}

impl CalendarError {
    /// The text that describes the error (what `Display` prints for it).
    pub fn message(&self) -> (r: &'static str)
        ensures
            r@ == error_message(*self),
    {
        match self {
            CalendarError::InvalidYear => "Invalid Year",
            CalendarError::InvalidMonth => "Invalid Month",
            CalendarError::InvalidDay => "Invalid Day",
            CalendarError::InvalidHour => "Invalid Hour",
            CalendarError::InvalidMinute => "Invalid Minute",
            CalendarError::InvalidSecond => "Invalid Second",
            CalendarError::InvalidDayOfYear => "Invalid day of year",
            CalendarError::InvalidWeek => "Invalid week",
            CalendarError::DivisionByZero => "Division By Zero",
            CalendarError::OutOfBounds => "Out Of Bounds",
            CalendarError::MixedRadixWrongSize => "Mixed radix slices have wrong size",
            CalendarError::MixedRadixZeroBase => "Mixed radix base contains zero",
            CalendarError::EncounteredNaN => "Encountered Not a Number (NaN)",
            CalendarError::ImpossibleResult => "Impossible result",
        }
    }
}

} // verus!
