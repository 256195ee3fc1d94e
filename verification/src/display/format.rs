use vstd::prelude::*;

verus! {

/// Numbers that can be written for a date or time.
#[derive(Debug, Clone, Copy, PartialEq, Eq, Structural)]
pub enum NumericContent {
    Month,
    DayOfWeek,
    DayOfMonth,
    DayOfYear,
    Hour1to12,
    Hour0to23,
    Minute,
    Second,
    SecondsSinceEpoch,
    Year,
    Quarter,
    DaysSinceEpoch,
    ComplementaryDay,
    WeekOfYear,
}

/// Names that can be written for a date or time.
#[derive(Debug, Clone, Copy, PartialEq, Eq, Structural)]
pub enum TextContent {
    MonthName,
    DayOfMonthName,
    DayOfWeekName,
    HalfDayName,
    HalfDayAbbrev,
    EraName,
    EraAbbreviation,
    ComplementaryDayName,
}

/// One part of a written date: fixed text, a number or a name.
#[derive(Debug, Clone, Copy, PartialEq, Eq)]
pub enum Content<'a> {
    Literal(&'a str),
    Numeric(NumericContent),
    Text(TextContent),
}

/// Where text goes within a field wider than it.
#[derive(Debug, Clone, Copy, PartialEq, Eq, Structural)]
pub enum Align {
    Left,
    Center,
    Right,
}

/// Letter case of written text.
#[derive(Debug, Clone, Copy, PartialEq, Eq, Structural)]
pub enum Case {
    Upper,
    Lower,
    Title,
}

/// When a number is written with its sign.
#[derive(Debug, Clone, Copy, PartialEq, Eq, Structural)]
pub enum Sign {
    Always,
    OnlyNegative,
    Never,
}

/// Conventions for writing dates.
#[allow(non_camel_case_types)]
#[derive(Debug, Clone, Copy, PartialEq, Eq, Structural)]
pub enum Locale {
    en_CA,
}

/// Digits that numbers are written with.
#[derive(Debug, Clone, Copy, PartialEq, Eq, Structural)]
pub enum Numerals {
    HinduArabic,
    Roman,
}

/// How one part of a date is written: field width, alignment, case, padding, digits and
/// sign.
#[derive(Debug, Clone, Copy, PartialEq, Eq)]
pub struct DisplayOptions {
    pub width: Option<usize>,
    pub align: Option<Align>,
    pub case: Option<Case>,
    pub padding: Option<char>,
    pub numerals: Option<Numerals>,
    pub sign: Sign,
    pub locale: Locale,
}

/// One part of a written date together with how it is written.
#[derive(Debug, Clone, Copy, PartialEq, Eq)]
pub struct Item<'a> {
    pub content: Content<'a>,
    pub options: DisplayOptions,
}

impl<'a> Item<'a> {
    /// Builds an item from its content and options.
    pub fn new(content: Content<'a>, options: DisplayOptions) -> (r: Self)
        ensures
            r.content == content,
            r.options == options,
    {
        Item { content: content, options: options }
    }
}

} // verus!
