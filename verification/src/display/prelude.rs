use crate::calendar::prelude::CommonWeekOfYear;
use crate::calendar::prelude::Perennial;
use crate::calendar::prelude::Quarter;
use crate::calendar::prelude::ToFromCommonDate;
use crate::calendar::prelude::ToFromOrdinalDate;
use crate::day_count::fixed::Epoch;
use crate::day_count::fixed::ToFixed;
use crate::day_cycle::prelude::BoundedCycle;
use crate::day_cycle::week::Weekday;
use crate::display::format::Case;
use crate::display::format::Content;
use crate::display::format::DisplayOptions;
use crate::display::format::Item;
use crate::display::format::Locale;
use crate::display::format::NumericContent;
use crate::display::format::Sign;
use crate::display::format::TextContent;
use crate::display::private::fmt_number;
use crate::display::private::fmt_number_spec;
use crate::display::private::number_fits;
use crate::display::private::push_str;
use crate::display::text::Language;
use crate::display::private::seconds_since_epoch;
use vstd::prelude::*;

verus! {

/// Values that can be written as text, item by item.
pub trait DisplayItem: Sized + Copy {
    /// Whether the language has the names that the value is written with.
    spec fn supported_lang_spec(lang: Language) -> bool;

    /// The text of a number of the value, written with the given options.
    spec fn numeric_text(self, n: NumericContent, opt: DisplayOptions) -> Seq<char>;

    /// The text of a name of the value in a language, written with the given options.
    spec fn name_text(self, t: TextContent, lang: Language, opt: DisplayOptions) -> Seq<char>;

    /// Whether a number of the value can be written with the given options: a zero padded
    /// number needs a width that leaves room for its sign and digits.
    spec fn numeric_fits(self, n: NumericContent, opt: DisplayOptions) -> bool;

    /// A number written with no width always fits.
    proof fn lemma_unpadded_fits(self, n: NumericContent, opt: DisplayOptions)
        requires
            opt.width is None,
        ensures
            self.numeric_fits(n, opt),
    ;

    /// Whether the language has the names that the value is written with.
    fn supported_lang(lang: Language) -> (r: bool)
        ensures
            r == Self::supported_lang_spec(lang),
    ;

    /// Writes a number of the value.
    fn fmt_numeric(&self, n: NumericContent, opt: DisplayOptions) -> (r: String)
        requires
            self.numeric_fits(n, opt),
        ensures
            r@ == self.numeric_text(n, opt),
    ;

    /// Writes a name of the value in a language.
    fn fmt_text(&self, t: TextContent, lang: Language, opt: DisplayOptions) -> (r: String)
        ensures
            r@ == self.name_text(t, lang, opt),
    ;

    /// Writes one item: fixed text as it is, numbers and names of the value as above.
    fn fmt_item(&self, lang: Language, item: Item) -> (r: String)
        requires
            (match item.content {
                Content::Numeric(n) => self.numeric_fits(n, item.options),
                _ => true,
            }),
        ensures
            r@ == (match item.content {
                Content::Literal(s) => s@,
                Content::Numeric(n) => self.numeric_text(n, item.options),
                Content::Text(t) => self.name_text(t, lang, item.options),
            }),
    {
        match item.content {
            Content::Literal(s) => s.to_owned(),
            Content::Numeric(n) => self.fmt_numeric(n, item.options),
            Content::Text(t) => self.fmt_text(t, lang, item.options),
        }
    }
}

/// Whether an item of a value can be written: every item but a number that does not fit.
pub open spec fn item_fits<T: DisplayItem>(x: T, item: Item) -> bool {
    match item.content {
        Content::Numeric(n) => x.numeric_fits(n, item.options),
        _ => true,
    }
}

/// Whether every item of a list can be written for a value.
pub open spec fn preset_fits<T: DisplayItem>(x: T, items: Seq<Item>) -> bool {
    forall|i: int| 0 <= i < items.len() ==> item_fits(x, #[trigger] items[i])
}

/// The text of one item for a value.
pub open spec fn item_text<T: DisplayItem>(x: T, lang: Language, item: Item) -> Seq<char> {
    match item.content {
        Content::Literal(s) => s@,
        Content::Numeric(n) => x.numeric_text(n, item.options),
        Content::Text(t) => x.name_text(t, lang, item.options),
    }
}

/// The text of a list of items for a value: the texts of the items one after another.
pub open spec fn preset_text<T: DisplayItem>(x: T, lang: Language, items: Seq<Item>) -> Seq<
    char,
>
    decreases items.len(),
{
    if items.len() == 0 {
        Seq::empty()
    } else {
        preset_text(x, lang, items.drop_last()) + item_text(x, lang, items.last())
    }
}

/// A preset way of writing a date or time, as a list of items.
#[derive(Debug, Clone, Copy, PartialEq, Eq, Structural)]
pub enum PresetFormat {
    /// Hours from 1 to 12 and minutes, then AM or PM: `08:30 AM`.
    HhmmColonAmpm,
    /// Hours, minutes and seconds: `20:18:01`.
    HhmmssColon,
    /// Year, month and day: `2025-07-01`.
    YyyymmddDash,
    /// Year of five digits, month and day: `12025-07-01`.
    YyyyymmddDash,
    /// Year, month and day: `2025/07/01`.
    YyyymmddSlash,
    /// Day, month and year: `01/07/2025`.
    DdmmyyyySlash,
    /// Day, month and year: `01.07.2025`.
    DdmmyyyyDot,
    /// Month, day and year: `07/01/2025`.
    MmddyyyySlash,
    /// Day of the week, month name, day, year and era.
    LongDate,
    /// Day of the week, month name, name of the day of the month, year and era.
    LongDayOfMonth,
    /// Name of a complementary day, year and era.
    LongCompl,
    /// Day of the week, month name, day, year and abbreviated era.
    LongDateEraAbbr,
    /// Day of the week, month name, name of the day of the month, year and abbreviated era.
    LongDayOfMonthEraAbbr,
    /// Name of a complementary day, year and abbreviated era.
    LongComplEraAbbr,
    /// Year, week of the year and day of the week: `2007-W01-1`.
    YearWeekDay,
    /// Year, first letter of the month name and day: `31-H27`.
    YearMdd,
    /// Year and the first three letters of a complementary day name: `31-ALD`.
    YearCompl,
    /// Name of a complementary day.
    ComplOnly,
    /// Name of the day of the week.
    WeekdayNameOnly,
    /// Seconds since the epoch.
    EpochSecondsOnly,
    /// Days since the epoch.
    EpochDaysOnly,
}

/// Hours from 1 to 12 and minutes, then AM or PM: `08:30 AM`.
pub const HHMM_COLON_AMPM: PresetFormat = PresetFormat::HhmmColonAmpm;

/// Hours, minutes and seconds: `20:18:01`.
pub const HHMMSS_COLON: PresetFormat = PresetFormat::HhmmssColon;

/// Year, month and day: `2025-07-01`.
pub const YYYYMMDD_DASH: PresetFormat = PresetFormat::YyyymmddDash;

/// Year of five digits, month and day: `12025-07-01`.
pub const YYYYYMMDD_DASH: PresetFormat = PresetFormat::YyyyymmddDash;

/// Year, month and day: `2025/07/01`.
pub const YYYYMMDD_SLASH: PresetFormat = PresetFormat::YyyymmddSlash;

/// Day, month and year: `01/07/2025`.
pub const DDMMYYYY_SLASH: PresetFormat = PresetFormat::DdmmyyyySlash;

/// Day, month and year: `01.07.2025`.
pub const DDMMYYYY_DOT: PresetFormat = PresetFormat::DdmmyyyyDot;

/// Month, day and year: `07/01/2025`.
pub const MMDDYYYY_SLASH: PresetFormat = PresetFormat::MmddyyyySlash;

/// Day of the week, month name, day, year and era.
pub const LONG_DATE: PresetFormat = PresetFormat::LongDate;

/// Day of the week, month name, name of the day of the month, year and era.
pub const LONG_DAY_OF_MONTH: PresetFormat = PresetFormat::LongDayOfMonth;

/// Name of a complementary day, year and era.
pub const LONG_COMPL: PresetFormat = PresetFormat::LongCompl;

/// Day of the week, month name, day, year and abbreviated era.
pub const LONG_DATE_ERA_ABBR: PresetFormat = PresetFormat::LongDateEraAbbr;

/// Day of the week, month name, name of the day of the month, year and abbreviated era.
pub const LONG_DAY_OF_MONTH_ERA_ABBR: PresetFormat = PresetFormat::LongDayOfMonthEraAbbr;

/// Name of a complementary day, year and abbreviated era.
pub const LONG_COMPL_ERA_ABBR: PresetFormat = PresetFormat::LongComplEraAbbr;

/// Year, week of the year and day of the week: `2007-W01-1`.
pub const YEAR_WEEK_DAY: PresetFormat = PresetFormat::YearWeekDay;

/// Year, first letter of the month name and day: `31-H27`.
pub const YEAR_MDD: PresetFormat = PresetFormat::YearMdd;

/// Year and the first three letters of a complementary day name: `31-ALD`.
pub const YEAR_COMPL: PresetFormat = PresetFormat::YearCompl;

/// Name of a complementary day.
pub const COMPL_ONLY: PresetFormat = PresetFormat::ComplOnly;

/// Name of the day of the week.
pub const WEEKDAY_NAME_ONLY: PresetFormat = PresetFormat::WeekdayNameOnly;

/// Seconds since the epoch.
pub const EPOCH_SECONDS_ONLY: PresetFormat = PresetFormat::EpochSecondsOnly;

/// Days since the epoch.
pub const EPOCH_DAYS_ONLY: PresetFormat = PresetFormat::EpochDaysOnly;

/// The items of a preset format.
pub open spec fn preset_items(p: PresetFormat) -> Seq<Item<'static>> {
    match p {
        PresetFormat::HhmmColonAmpm => {
            seq![
                Item { content: Content::Numeric(NumericContent::Hour1to12), options: DisplayOptions { width: Some(2usize), align: None, case: None, padding: Some('0'), numerals: None, sign: Sign::OnlyNegative, locale: Locale::en_CA } },
                Item { content: Content::Literal(":"), options: DisplayOptions { width: None, align: None, case: None, padding: None, numerals: None, sign: Sign::OnlyNegative, locale: Locale::en_CA } },
                Item { content: Content::Numeric(NumericContent::Minute), options: DisplayOptions { width: Some(2usize), align: None, case: None, padding: Some('0'), numerals: None, sign: Sign::OnlyNegative, locale: Locale::en_CA } },
                Item { content: Content::Literal(" "), options: DisplayOptions { width: None, align: None, case: None, padding: None, numerals: None, sign: Sign::OnlyNegative, locale: Locale::en_CA } },
                Item { content: Content::Text(TextContent::HalfDayAbbrev), options: DisplayOptions { width: None, align: None, case: None, padding: None, numerals: None, sign: Sign::OnlyNegative, locale: Locale::en_CA } },
            ]
        },
        PresetFormat::HhmmssColon => {
            seq![
                Item { content: Content::Numeric(NumericContent::Hour0to23), options: DisplayOptions { width: Some(2usize), align: None, case: None, padding: Some('0'), numerals: None, sign: Sign::OnlyNegative, locale: Locale::en_CA } },
                Item { content: Content::Literal(":"), options: DisplayOptions { width: None, align: None, case: None, padding: None, numerals: None, sign: Sign::OnlyNegative, locale: Locale::en_CA } },
                Item { content: Content::Numeric(NumericContent::Minute), options: DisplayOptions { width: Some(2usize), align: None, case: None, padding: Some('0'), numerals: None, sign: Sign::OnlyNegative, locale: Locale::en_CA } },
                Item { content: Content::Literal(":"), options: DisplayOptions { width: None, align: None, case: None, padding: None, numerals: None, sign: Sign::OnlyNegative, locale: Locale::en_CA } },
                Item { content: Content::Numeric(NumericContent::Second), options: DisplayOptions { width: Some(2usize), align: None, case: None, padding: Some('0'), numerals: None, sign: Sign::OnlyNegative, locale: Locale::en_CA } },
            ]
        },
        PresetFormat::YyyymmddDash => {
            seq![
                Item { content: Content::Numeric(NumericContent::Year), options: DisplayOptions { width: Some(4usize), align: None, case: None, padding: Some('0'), numerals: None, sign: Sign::OnlyNegative, locale: Locale::en_CA } },
                Item { content: Content::Literal("-"), options: DisplayOptions { width: None, align: None, case: None, padding: None, numerals: None, sign: Sign::OnlyNegative, locale: Locale::en_CA } },
                Item { content: Content::Numeric(NumericContent::Month), options: DisplayOptions { width: Some(2usize), align: None, case: None, padding: Some('0'), numerals: None, sign: Sign::OnlyNegative, locale: Locale::en_CA } },
                Item { content: Content::Literal("-"), options: DisplayOptions { width: None, align: None, case: None, padding: None, numerals: None, sign: Sign::OnlyNegative, locale: Locale::en_CA } },
                Item { content: Content::Numeric(NumericContent::DayOfMonth), options: DisplayOptions { width: Some(2usize), align: None, case: None, padding: Some('0'), numerals: None, sign: Sign::OnlyNegative, locale: Locale::en_CA } },
            ]
        },
        PresetFormat::YyyyymmddDash => {
            seq![
                Item { content: Content::Numeric(NumericContent::Year), options: DisplayOptions { width: Some(5usize), align: None, case: None, padding: Some('0'), numerals: None, sign: Sign::OnlyNegative, locale: Locale::en_CA } },
                Item { content: Content::Literal("-"), options: DisplayOptions { width: None, align: None, case: None, padding: None, numerals: None, sign: Sign::OnlyNegative, locale: Locale::en_CA } },
                Item { content: Content::Numeric(NumericContent::Month), options: DisplayOptions { width: Some(2usize), align: None, case: None, padding: Some('0'), numerals: None, sign: Sign::OnlyNegative, locale: Locale::en_CA } },
                Item { content: Content::Literal("-"), options: DisplayOptions { width: None, align: None, case: None, padding: None, numerals: None, sign: Sign::OnlyNegative, locale: Locale::en_CA } },
                Item { content: Content::Numeric(NumericContent::DayOfMonth), options: DisplayOptions { width: Some(2usize), align: None, case: None, padding: Some('0'), numerals: None, sign: Sign::OnlyNegative, locale: Locale::en_CA } },
            ]
        },
        PresetFormat::YyyymmddSlash => {
            seq![
                Item { content: Content::Numeric(NumericContent::Year), options: DisplayOptions { width: Some(4usize), align: None, case: None, padding: Some('0'), numerals: None, sign: Sign::OnlyNegative, locale: Locale::en_CA } },
                Item { content: Content::Literal("/"), options: DisplayOptions { width: None, align: None, case: None, padding: None, numerals: None, sign: Sign::OnlyNegative, locale: Locale::en_CA } },
                Item { content: Content::Numeric(NumericContent::Month), options: DisplayOptions { width: Some(2usize), align: None, case: None, padding: Some('0'), numerals: None, sign: Sign::OnlyNegative, locale: Locale::en_CA } },
                Item { content: Content::Literal("/"), options: DisplayOptions { width: None, align: None, case: None, padding: None, numerals: None, sign: Sign::OnlyNegative, locale: Locale::en_CA } },
                Item { content: Content::Numeric(NumericContent::DayOfMonth), options: DisplayOptions { width: Some(2usize), align: None, case: None, padding: Some('0'), numerals: None, sign: Sign::OnlyNegative, locale: Locale::en_CA } },
            ]
        },
        PresetFormat::DdmmyyyySlash => {
            seq![
                Item { content: Content::Numeric(NumericContent::DayOfMonth), options: DisplayOptions { width: Some(2usize), align: None, case: None, padding: Some('0'), numerals: None, sign: Sign::OnlyNegative, locale: Locale::en_CA } },
                Item { content: Content::Literal("/"), options: DisplayOptions { width: None, align: None, case: None, padding: None, numerals: None, sign: Sign::OnlyNegative, locale: Locale::en_CA } },
                Item { content: Content::Numeric(NumericContent::Month), options: DisplayOptions { width: Some(2usize), align: None, case: None, padding: Some('0'), numerals: None, sign: Sign::OnlyNegative, locale: Locale::en_CA } },
                Item { content: Content::Literal("/"), options: DisplayOptions { width: None, align: None, case: None, padding: None, numerals: None, sign: Sign::OnlyNegative, locale: Locale::en_CA } },
                Item { content: Content::Numeric(NumericContent::Year), options: DisplayOptions { width: Some(4usize), align: None, case: None, padding: Some('0'), numerals: None, sign: Sign::OnlyNegative, locale: Locale::en_CA } },
            ]
        },
        PresetFormat::DdmmyyyyDot => {
            seq![
                Item { content: Content::Numeric(NumericContent::DayOfMonth), options: DisplayOptions { width: Some(2usize), align: None, case: None, padding: Some('0'), numerals: None, sign: Sign::OnlyNegative, locale: Locale::en_CA } },
                Item { content: Content::Literal("."), options: DisplayOptions { width: None, align: None, case: None, padding: None, numerals: None, sign: Sign::OnlyNegative, locale: Locale::en_CA } },
                Item { content: Content::Numeric(NumericContent::Month), options: DisplayOptions { width: Some(2usize), align: None, case: None, padding: Some('0'), numerals: None, sign: Sign::OnlyNegative, locale: Locale::en_CA } },
                Item { content: Content::Literal("."), options: DisplayOptions { width: None, align: None, case: None, padding: None, numerals: None, sign: Sign::OnlyNegative, locale: Locale::en_CA } },
                Item { content: Content::Numeric(NumericContent::Year), options: DisplayOptions { width: Some(4usize), align: None, case: None, padding: Some('0'), numerals: None, sign: Sign::OnlyNegative, locale: Locale::en_CA } },
            ]
        },
        PresetFormat::MmddyyyySlash => {
            seq![
                Item { content: Content::Numeric(NumericContent::Month), options: DisplayOptions { width: Some(2usize), align: None, case: None, padding: Some('0'), numerals: None, sign: Sign::OnlyNegative, locale: Locale::en_CA } },
                Item { content: Content::Literal("/"), options: DisplayOptions { width: None, align: None, case: None, padding: None, numerals: None, sign: Sign::OnlyNegative, locale: Locale::en_CA } },
                Item { content: Content::Numeric(NumericContent::DayOfMonth), options: DisplayOptions { width: Some(2usize), align: None, case: None, padding: Some('0'), numerals: None, sign: Sign::OnlyNegative, locale: Locale::en_CA } },
                Item { content: Content::Literal("/"), options: DisplayOptions { width: None, align: None, case: None, padding: None, numerals: None, sign: Sign::OnlyNegative, locale: Locale::en_CA } },
                Item { content: Content::Numeric(NumericContent::Year), options: DisplayOptions { width: Some(4usize), align: None, case: None, padding: Some('0'), numerals: None, sign: Sign::OnlyNegative, locale: Locale::en_CA } },
            ]
        },
        PresetFormat::LongDate => {
            seq![
                Item { content: Content::Text(TextContent::DayOfWeekName), options: DisplayOptions { width: None, align: None, case: None, padding: None, numerals: None, sign: Sign::OnlyNegative, locale: Locale::en_CA } },
                Item { content: Content::Literal(" "), options: DisplayOptions { width: None, align: None, case: None, padding: None, numerals: None, sign: Sign::OnlyNegative, locale: Locale::en_CA } },
                Item { content: Content::Text(TextContent::MonthName), options: DisplayOptions { width: None, align: None, case: None, padding: None, numerals: None, sign: Sign::OnlyNegative, locale: Locale::en_CA } },
                Item { content: Content::Literal(" "), options: DisplayOptions { width: None, align: None, case: None, padding: None, numerals: None, sign: Sign::OnlyNegative, locale: Locale::en_CA } },
                Item { content: Content::Numeric(NumericContent::DayOfMonth), options: DisplayOptions { width: None, align: None, case: None, padding: None, numerals: None, sign: Sign::OnlyNegative, locale: Locale::en_CA } },
                Item { content: Content::Literal(", "), options: DisplayOptions { width: None, align: None, case: None, padding: None, numerals: None, sign: Sign::OnlyNegative, locale: Locale::en_CA } },
                Item { content: Content::Numeric(NumericContent::Year), options: DisplayOptions { width: None, align: None, case: None, padding: None, numerals: None, sign: Sign::Never, locale: Locale::en_CA } },
                Item { content: Content::Literal(" "), options: DisplayOptions { width: None, align: None, case: None, padding: None, numerals: None, sign: Sign::OnlyNegative, locale: Locale::en_CA } },
                Item { content: Content::Text(TextContent::EraName), options: DisplayOptions { width: None, align: None, case: None, padding: None, numerals: None, sign: Sign::OnlyNegative, locale: Locale::en_CA } },
            ]
        },
        PresetFormat::LongDayOfMonth => {
            seq![
                Item { content: Content::Text(TextContent::DayOfWeekName), options: DisplayOptions { width: None, align: None, case: None, padding: None, numerals: None, sign: Sign::OnlyNegative, locale: Locale::en_CA } },
                Item { content: Content::Literal(" "), options: DisplayOptions { width: None, align: None, case: None, padding: None, numerals: None, sign: Sign::OnlyNegative, locale: Locale::en_CA } },
                Item { content: Content::Text(TextContent::MonthName), options: DisplayOptions { width: None, align: None, case: None, padding: None, numerals: None, sign: Sign::OnlyNegative, locale: Locale::en_CA } },
                Item { content: Content::Literal(" "), options: DisplayOptions { width: None, align: None, case: None, padding: None, numerals: None, sign: Sign::OnlyNegative, locale: Locale::en_CA } },
                Item { content: Content::Text(TextContent::DayOfMonthName), options: DisplayOptions { width: None, align: None, case: None, padding: None, numerals: None, sign: Sign::OnlyNegative, locale: Locale::en_CA } },
                Item { content: Content::Literal(", "), options: DisplayOptions { width: None, align: None, case: None, padding: None, numerals: None, sign: Sign::OnlyNegative, locale: Locale::en_CA } },
                Item { content: Content::Numeric(NumericContent::Year), options: DisplayOptions { width: None, align: None, case: None, padding: None, numerals: None, sign: Sign::Never, locale: Locale::en_CA } },
                Item { content: Content::Literal(" "), options: DisplayOptions { width: None, align: None, case: None, padding: None, numerals: None, sign: Sign::OnlyNegative, locale: Locale::en_CA } },
                Item { content: Content::Text(TextContent::EraName), options: DisplayOptions { width: None, align: None, case: None, padding: None, numerals: None, sign: Sign::OnlyNegative, locale: Locale::en_CA } },
            ]
        },
        PresetFormat::LongCompl => {
            seq![
                Item { content: Content::Text(TextContent::ComplementaryDayName), options: DisplayOptions { width: None, align: None, case: None, padding: None, numerals: None, sign: Sign::OnlyNegative, locale: Locale::en_CA } },
                Item { content: Content::Literal(", "), options: DisplayOptions { width: None, align: None, case: None, padding: None, numerals: None, sign: Sign::OnlyNegative, locale: Locale::en_CA } },
                Item { content: Content::Numeric(NumericContent::Year), options: DisplayOptions { width: None, align: None, case: None, padding: None, numerals: None, sign: Sign::Never, locale: Locale::en_CA } },
                Item { content: Content::Literal(" "), options: DisplayOptions { width: None, align: None, case: None, padding: None, numerals: None, sign: Sign::OnlyNegative, locale: Locale::en_CA } },
                Item { content: Content::Text(TextContent::EraName), options: DisplayOptions { width: None, align: None, case: None, padding: None, numerals: None, sign: Sign::OnlyNegative, locale: Locale::en_CA } },
            ]
        },
        PresetFormat::LongDateEraAbbr => {
            seq![
                Item { content: Content::Text(TextContent::DayOfWeekName), options: DisplayOptions { width: None, align: None, case: None, padding: None, numerals: None, sign: Sign::OnlyNegative, locale: Locale::en_CA } },
                Item { content: Content::Literal(" "), options: DisplayOptions { width: None, align: None, case: None, padding: None, numerals: None, sign: Sign::OnlyNegative, locale: Locale::en_CA } },
                Item { content: Content::Text(TextContent::MonthName), options: DisplayOptions { width: None, align: None, case: None, padding: None, numerals: None, sign: Sign::OnlyNegative, locale: Locale::en_CA } },
                Item { content: Content::Literal(" "), options: DisplayOptions { width: None, align: None, case: None, padding: None, numerals: None, sign: Sign::OnlyNegative, locale: Locale::en_CA } },
                Item { content: Content::Numeric(NumericContent::DayOfMonth), options: DisplayOptions { width: None, align: None, case: None, padding: None, numerals: None, sign: Sign::OnlyNegative, locale: Locale::en_CA } },
                Item { content: Content::Literal(", "), options: DisplayOptions { width: None, align: None, case: None, padding: None, numerals: None, sign: Sign::OnlyNegative, locale: Locale::en_CA } },
                Item { content: Content::Numeric(NumericContent::Year), options: DisplayOptions { width: None, align: None, case: None, padding: None, numerals: None, sign: Sign::Never, locale: Locale::en_CA } },
                Item { content: Content::Literal(" "), options: DisplayOptions { width: None, align: None, case: None, padding: None, numerals: None, sign: Sign::OnlyNegative, locale: Locale::en_CA } },
                Item { content: Content::Text(TextContent::EraAbbreviation), options: DisplayOptions { width: None, align: None, case: None, padding: None, numerals: None, sign: Sign::OnlyNegative, locale: Locale::en_CA } },
            ]
        },
        PresetFormat::LongDayOfMonthEraAbbr => {
            seq![
                Item { content: Content::Text(TextContent::DayOfWeekName), options: DisplayOptions { width: None, align: None, case: None, padding: None, numerals: None, sign: Sign::OnlyNegative, locale: Locale::en_CA } },
                Item { content: Content::Literal(" "), options: DisplayOptions { width: None, align: None, case: None, padding: None, numerals: None, sign: Sign::OnlyNegative, locale: Locale::en_CA } },
                Item { content: Content::Text(TextContent::MonthName), options: DisplayOptions { width: None, align: None, case: None, padding: None, numerals: None, sign: Sign::OnlyNegative, locale: Locale::en_CA } },
                Item { content: Content::Literal(" "), options: DisplayOptions { width: None, align: None, case: None, padding: None, numerals: None, sign: Sign::OnlyNegative, locale: Locale::en_CA } },
                Item { content: Content::Text(TextContent::DayOfMonthName), options: DisplayOptions { width: None, align: None, case: None, padding: None, numerals: None, sign: Sign::OnlyNegative, locale: Locale::en_CA } },
                Item { content: Content::Literal(", "), options: DisplayOptions { width: None, align: None, case: None, padding: None, numerals: None, sign: Sign::OnlyNegative, locale: Locale::en_CA } },
                Item { content: Content::Numeric(NumericContent::Year), options: DisplayOptions { width: None, align: None, case: None, padding: None, numerals: None, sign: Sign::Never, locale: Locale::en_CA } },
                Item { content: Content::Literal(" "), options: DisplayOptions { width: None, align: None, case: None, padding: None, numerals: None, sign: Sign::OnlyNegative, locale: Locale::en_CA } },
                Item { content: Content::Text(TextContent::EraAbbreviation), options: DisplayOptions { width: None, align: None, case: None, padding: None, numerals: None, sign: Sign::OnlyNegative, locale: Locale::en_CA } },
            ]
        },
        PresetFormat::LongComplEraAbbr => {
            seq![
                Item { content: Content::Text(TextContent::ComplementaryDayName), options: DisplayOptions { width: None, align: None, case: None, padding: None, numerals: None, sign: Sign::OnlyNegative, locale: Locale::en_CA } },
                Item { content: Content::Literal(", "), options: DisplayOptions { width: None, align: None, case: None, padding: None, numerals: None, sign: Sign::OnlyNegative, locale: Locale::en_CA } },
                Item { content: Content::Numeric(NumericContent::Year), options: DisplayOptions { width: None, align: None, case: None, padding: None, numerals: None, sign: Sign::Never, locale: Locale::en_CA } },
                Item { content: Content::Literal(" "), options: DisplayOptions { width: None, align: None, case: None, padding: None, numerals: None, sign: Sign::OnlyNegative, locale: Locale::en_CA } },
                Item { content: Content::Text(TextContent::EraAbbreviation), options: DisplayOptions { width: None, align: None, case: None, padding: None, numerals: None, sign: Sign::OnlyNegative, locale: Locale::en_CA } },
            ]
        },
        PresetFormat::YearWeekDay => {
            seq![
                Item { content: Content::Numeric(NumericContent::Year), options: DisplayOptions { width: None, align: None, case: None, padding: None, numerals: None, sign: Sign::OnlyNegative, locale: Locale::en_CA } },
                Item { content: Content::Literal("-W"), options: DisplayOptions { width: None, align: None, case: None, padding: None, numerals: None, sign: Sign::OnlyNegative, locale: Locale::en_CA } },
                Item { content: Content::Numeric(NumericContent::WeekOfYear), options: DisplayOptions { width: Some(2usize), align: None, case: Some(Case::Upper), padding: Some('0'), numerals: None, sign: Sign::Never, locale: Locale::en_CA } },
                Item { content: Content::Literal("-"), options: DisplayOptions { width: None, align: None, case: None, padding: None, numerals: None, sign: Sign::OnlyNegative, locale: Locale::en_CA } },
                Item { content: Content::Numeric(NumericContent::DayOfWeek), options: DisplayOptions { width: Some(1usize), align: None, case: Some(Case::Upper), padding: None, numerals: None, sign: Sign::Never, locale: Locale::en_CA } },
            ]
        },
        PresetFormat::YearMdd => {
            seq![
                Item { content: Content::Numeric(NumericContent::Year), options: DisplayOptions { width: None, align: None, case: None, padding: None, numerals: None, sign: Sign::OnlyNegative, locale: Locale::en_CA } },
                Item { content: Content::Literal("-"), options: DisplayOptions { width: None, align: None, case: None, padding: None, numerals: None, sign: Sign::OnlyNegative, locale: Locale::en_CA } },
                Item { content: Content::Text(TextContent::MonthName), options: DisplayOptions { width: Some(1usize), align: None, case: Some(Case::Upper), padding: None, numerals: None, sign: Sign::Never, locale: Locale::en_CA } },
                Item { content: Content::Numeric(NumericContent::DayOfMonth), options: DisplayOptions { width: Some(2usize), align: None, case: Some(Case::Upper), padding: Some('0'), numerals: None, sign: Sign::Never, locale: Locale::en_CA } },
            ]
        },
        PresetFormat::YearCompl => {
            seq![
                Item { content: Content::Numeric(NumericContent::Year), options: DisplayOptions { width: None, align: None, case: None, padding: None, numerals: None, sign: Sign::OnlyNegative, locale: Locale::en_CA } },
                Item { content: Content::Literal("-"), options: DisplayOptions { width: None, align: None, case: None, padding: None, numerals: None, sign: Sign::OnlyNegative, locale: Locale::en_CA } },
                Item { content: Content::Text(TextContent::ComplementaryDayName), options: DisplayOptions { width: Some(3usize), align: None, case: Some(Case::Upper), padding: None, numerals: None, sign: Sign::Never, locale: Locale::en_CA } },
            ]
        },
        PresetFormat::ComplOnly => {
            seq![
                Item { content: Content::Text(TextContent::ComplementaryDayName), options: DisplayOptions { width: None, align: None, case: None, padding: None, numerals: None, sign: Sign::OnlyNegative, locale: Locale::en_CA } },
            ]
        },
        PresetFormat::WeekdayNameOnly => {
            seq![
                Item { content: Content::Text(TextContent::DayOfWeekName), options: DisplayOptions { width: None, align: None, case: None, padding: None, numerals: None, sign: Sign::OnlyNegative, locale: Locale::en_CA } },
            ]
        },
        PresetFormat::EpochSecondsOnly => {
            seq![
                Item { content: Content::Numeric(NumericContent::SecondsSinceEpoch), options: DisplayOptions { width: None, align: None, case: None, padding: None, numerals: None, sign: Sign::OnlyNegative, locale: Locale::en_CA } },
            ]
        },
        PresetFormat::EpochDaysOnly => {
            seq![
                Item { content: Content::Numeric(NumericContent::DaysSinceEpoch), options: DisplayOptions { width: None, align: None, case: None, padding: None, numerals: None, sign: Sign::OnlyNegative, locale: Locale::en_CA } },
            ]
        },
    }
}

impl PresetFormat {
    /// The items of the format, in order.
    pub fn items(self) -> (r: Vec<Item<'static>>)
        ensures
            r@ == preset_items(self),
    {
        match self {
            PresetFormat::HhmmColonAmpm => {
                vec![
                    Item { content: Content::Numeric(NumericContent::Hour1to12), options: DisplayOptions { width: Some(2usize), align: None, case: None, padding: Some('0'), numerals: None, sign: Sign::OnlyNegative, locale: Locale::en_CA } },
                    Item { content: Content::Literal(":"), options: DisplayOptions { width: None, align: None, case: None, padding: None, numerals: None, sign: Sign::OnlyNegative, locale: Locale::en_CA } },
                    Item { content: Content::Numeric(NumericContent::Minute), options: DisplayOptions { width: Some(2usize), align: None, case: None, padding: Some('0'), numerals: None, sign: Sign::OnlyNegative, locale: Locale::en_CA } },
                    Item { content: Content::Literal(" "), options: DisplayOptions { width: None, align: None, case: None, padding: None, numerals: None, sign: Sign::OnlyNegative, locale: Locale::en_CA } },
                    Item { content: Content::Text(TextContent::HalfDayAbbrev), options: DisplayOptions { width: None, align: None, case: None, padding: None, numerals: None, sign: Sign::OnlyNegative, locale: Locale::en_CA } },
                ]
            },
            PresetFormat::HhmmssColon => {
                vec![
                    Item { content: Content::Numeric(NumericContent::Hour0to23), options: DisplayOptions { width: Some(2usize), align: None, case: None, padding: Some('0'), numerals: None, sign: Sign::OnlyNegative, locale: Locale::en_CA } },
                    Item { content: Content::Literal(":"), options: DisplayOptions { width: None, align: None, case: None, padding: None, numerals: None, sign: Sign::OnlyNegative, locale: Locale::en_CA } },
                    Item { content: Content::Numeric(NumericContent::Minute), options: DisplayOptions { width: Some(2usize), align: None, case: None, padding: Some('0'), numerals: None, sign: Sign::OnlyNegative, locale: Locale::en_CA } },
                    Item { content: Content::Literal(":"), options: DisplayOptions { width: None, align: None, case: None, padding: None, numerals: None, sign: Sign::OnlyNegative, locale: Locale::en_CA } },
                    Item { content: Content::Numeric(NumericContent::Second), options: DisplayOptions { width: Some(2usize), align: None, case: None, padding: Some('0'), numerals: None, sign: Sign::OnlyNegative, locale: Locale::en_CA } },
                ]
            },
            PresetFormat::YyyymmddDash => {
                vec![
                    Item { content: Content::Numeric(NumericContent::Year), options: DisplayOptions { width: Some(4usize), align: None, case: None, padding: Some('0'), numerals: None, sign: Sign::OnlyNegative, locale: Locale::en_CA } },
                    Item { content: Content::Literal("-"), options: DisplayOptions { width: None, align: None, case: None, padding: None, numerals: None, sign: Sign::OnlyNegative, locale: Locale::en_CA } },
                    Item { content: Content::Numeric(NumericContent::Month), options: DisplayOptions { width: Some(2usize), align: None, case: None, padding: Some('0'), numerals: None, sign: Sign::OnlyNegative, locale: Locale::en_CA } },
                    Item { content: Content::Literal("-"), options: DisplayOptions { width: None, align: None, case: None, padding: None, numerals: None, sign: Sign::OnlyNegative, locale: Locale::en_CA } },
                    Item { content: Content::Numeric(NumericContent::DayOfMonth), options: DisplayOptions { width: Some(2usize), align: None, case: None, padding: Some('0'), numerals: None, sign: Sign::OnlyNegative, locale: Locale::en_CA } },
                ]
            },
            PresetFormat::YyyyymmddDash => {
                vec![
                    Item { content: Content::Numeric(NumericContent::Year), options: DisplayOptions { width: Some(5usize), align: None, case: None, padding: Some('0'), numerals: None, sign: Sign::OnlyNegative, locale: Locale::en_CA } },
                    Item { content: Content::Literal("-"), options: DisplayOptions { width: None, align: None, case: None, padding: None, numerals: None, sign: Sign::OnlyNegative, locale: Locale::en_CA } },
                    Item { content: Content::Numeric(NumericContent::Month), options: DisplayOptions { width: Some(2usize), align: None, case: None, padding: Some('0'), numerals: None, sign: Sign::OnlyNegative, locale: Locale::en_CA } },
                    Item { content: Content::Literal("-"), options: DisplayOptions { width: None, align: None, case: None, padding: None, numerals: None, sign: Sign::OnlyNegative, locale: Locale::en_CA } },
                    Item { content: Content::Numeric(NumericContent::DayOfMonth), options: DisplayOptions { width: Some(2usize), align: None, case: None, padding: Some('0'), numerals: None, sign: Sign::OnlyNegative, locale: Locale::en_CA } },
                ]
            },
            PresetFormat::YyyymmddSlash => {
                vec![
                    Item { content: Content::Numeric(NumericContent::Year), options: DisplayOptions { width: Some(4usize), align: None, case: None, padding: Some('0'), numerals: None, sign: Sign::OnlyNegative, locale: Locale::en_CA } },
                    Item { content: Content::Literal("/"), options: DisplayOptions { width: None, align: None, case: None, padding: None, numerals: None, sign: Sign::OnlyNegative, locale: Locale::en_CA } },
                    Item { content: Content::Numeric(NumericContent::Month), options: DisplayOptions { width: Some(2usize), align: None, case: None, padding: Some('0'), numerals: None, sign: Sign::OnlyNegative, locale: Locale::en_CA } },
                    Item { content: Content::Literal("/"), options: DisplayOptions { width: None, align: None, case: None, padding: None, numerals: None, sign: Sign::OnlyNegative, locale: Locale::en_CA } },
                    Item { content: Content::Numeric(NumericContent::DayOfMonth), options: DisplayOptions { width: Some(2usize), align: None, case: None, padding: Some('0'), numerals: None, sign: Sign::OnlyNegative, locale: Locale::en_CA } },
                ]
            },
            PresetFormat::DdmmyyyySlash => {
                vec![
                    Item { content: Content::Numeric(NumericContent::DayOfMonth), options: DisplayOptions { width: Some(2usize), align: None, case: None, padding: Some('0'), numerals: None, sign: Sign::OnlyNegative, locale: Locale::en_CA } },
                    Item { content: Content::Literal("/"), options: DisplayOptions { width: None, align: None, case: None, padding: None, numerals: None, sign: Sign::OnlyNegative, locale: Locale::en_CA } },
                    Item { content: Content::Numeric(NumericContent::Month), options: DisplayOptions { width: Some(2usize), align: None, case: None, padding: Some('0'), numerals: None, sign: Sign::OnlyNegative, locale: Locale::en_CA } },
                    Item { content: Content::Literal("/"), options: DisplayOptions { width: None, align: None, case: None, padding: None, numerals: None, sign: Sign::OnlyNegative, locale: Locale::en_CA } },
                    Item { content: Content::Numeric(NumericContent::Year), options: DisplayOptions { width: Some(4usize), align: None, case: None, padding: Some('0'), numerals: None, sign: Sign::OnlyNegative, locale: Locale::en_CA } },
                ]
            },
            PresetFormat::DdmmyyyyDot => {
                vec![
                    Item { content: Content::Numeric(NumericContent::DayOfMonth), options: DisplayOptions { width: Some(2usize), align: None, case: None, padding: Some('0'), numerals: None, sign: Sign::OnlyNegative, locale: Locale::en_CA } },
                    Item { content: Content::Literal("."), options: DisplayOptions { width: None, align: None, case: None, padding: None, numerals: None, sign: Sign::OnlyNegative, locale: Locale::en_CA } },
                    Item { content: Content::Numeric(NumericContent::Month), options: DisplayOptions { width: Some(2usize), align: None, case: None, padding: Some('0'), numerals: None, sign: Sign::OnlyNegative, locale: Locale::en_CA } },
                    Item { content: Content::Literal("."), options: DisplayOptions { width: None, align: None, case: None, padding: None, numerals: None, sign: Sign::OnlyNegative, locale: Locale::en_CA } },
                    Item { content: Content::Numeric(NumericContent::Year), options: DisplayOptions { width: Some(4usize), align: None, case: None, padding: Some('0'), numerals: None, sign: Sign::OnlyNegative, locale: Locale::en_CA } },
                ]
            },
            PresetFormat::MmddyyyySlash => {
                vec![
                    Item { content: Content::Numeric(NumericContent::Month), options: DisplayOptions { width: Some(2usize), align: None, case: None, padding: Some('0'), numerals: None, sign: Sign::OnlyNegative, locale: Locale::en_CA } },
                    Item { content: Content::Literal("/"), options: DisplayOptions { width: None, align: None, case: None, padding: None, numerals: None, sign: Sign::OnlyNegative, locale: Locale::en_CA } },
                    Item { content: Content::Numeric(NumericContent::DayOfMonth), options: DisplayOptions { width: Some(2usize), align: None, case: None, padding: Some('0'), numerals: None, sign: Sign::OnlyNegative, locale: Locale::en_CA } },
                    Item { content: Content::Literal("/"), options: DisplayOptions { width: None, align: None, case: None, padding: None, numerals: None, sign: Sign::OnlyNegative, locale: Locale::en_CA } },
                    Item { content: Content::Numeric(NumericContent::Year), options: DisplayOptions { width: Some(4usize), align: None, case: None, padding: Some('0'), numerals: None, sign: Sign::OnlyNegative, locale: Locale::en_CA } },
                ]
            },
            PresetFormat::LongDate => {
                vec![
                    Item { content: Content::Text(TextContent::DayOfWeekName), options: DisplayOptions { width: None, align: None, case: None, padding: None, numerals: None, sign: Sign::OnlyNegative, locale: Locale::en_CA } },
                    Item { content: Content::Literal(" "), options: DisplayOptions { width: None, align: None, case: None, padding: None, numerals: None, sign: Sign::OnlyNegative, locale: Locale::en_CA } },
                    Item { content: Content::Text(TextContent::MonthName), options: DisplayOptions { width: None, align: None, case: None, padding: None, numerals: None, sign: Sign::OnlyNegative, locale: Locale::en_CA } },
                    Item { content: Content::Literal(" "), options: DisplayOptions { width: None, align: None, case: None, padding: None, numerals: None, sign: Sign::OnlyNegative, locale: Locale::en_CA } },
                    Item { content: Content::Numeric(NumericContent::DayOfMonth), options: DisplayOptions { width: None, align: None, case: None, padding: None, numerals: None, sign: Sign::OnlyNegative, locale: Locale::en_CA } },
                    Item { content: Content::Literal(", "), options: DisplayOptions { width: None, align: None, case: None, padding: None, numerals: None, sign: Sign::OnlyNegative, locale: Locale::en_CA } },
                    Item { content: Content::Numeric(NumericContent::Year), options: DisplayOptions { width: None, align: None, case: None, padding: None, numerals: None, sign: Sign::Never, locale: Locale::en_CA } },
                    Item { content: Content::Literal(" "), options: DisplayOptions { width: None, align: None, case: None, padding: None, numerals: None, sign: Sign::OnlyNegative, locale: Locale::en_CA } },
                    Item { content: Content::Text(TextContent::EraName), options: DisplayOptions { width: None, align: None, case: None, padding: None, numerals: None, sign: Sign::OnlyNegative, locale: Locale::en_CA } },
                ]
            },
            PresetFormat::LongDayOfMonth => {
                vec![
                    Item { content: Content::Text(TextContent::DayOfWeekName), options: DisplayOptions { width: None, align: None, case: None, padding: None, numerals: None, sign: Sign::OnlyNegative, locale: Locale::en_CA } },
                    Item { content: Content::Literal(" "), options: DisplayOptions { width: None, align: None, case: None, padding: None, numerals: None, sign: Sign::OnlyNegative, locale: Locale::en_CA } },
                    Item { content: Content::Text(TextContent::MonthName), options: DisplayOptions { width: None, align: None, case: None, padding: None, numerals: None, sign: Sign::OnlyNegative, locale: Locale::en_CA } },
                    Item { content: Content::Literal(" "), options: DisplayOptions { width: None, align: None, case: None, padding: None, numerals: None, sign: Sign::OnlyNegative, locale: Locale::en_CA } },
                    Item { content: Content::Text(TextContent::DayOfMonthName), options: DisplayOptions { width: None, align: None, case: None, padding: None, numerals: None, sign: Sign::OnlyNegative, locale: Locale::en_CA } },
                    Item { content: Content::Literal(", "), options: DisplayOptions { width: None, align: None, case: None, padding: None, numerals: None, sign: Sign::OnlyNegative, locale: Locale::en_CA } },
                    Item { content: Content::Numeric(NumericContent::Year), options: DisplayOptions { width: None, align: None, case: None, padding: None, numerals: None, sign: Sign::Never, locale: Locale::en_CA } },
                    Item { content: Content::Literal(" "), options: DisplayOptions { width: None, align: None, case: None, padding: None, numerals: None, sign: Sign::OnlyNegative, locale: Locale::en_CA } },
                    Item { content: Content::Text(TextContent::EraName), options: DisplayOptions { width: None, align: None, case: None, padding: None, numerals: None, sign: Sign::OnlyNegative, locale: Locale::en_CA } },
                ]
            },
            PresetFormat::LongCompl => {
                vec![
                    Item { content: Content::Text(TextContent::ComplementaryDayName), options: DisplayOptions { width: None, align: None, case: None, padding: None, numerals: None, sign: Sign::OnlyNegative, locale: Locale::en_CA } },
                    Item { content: Content::Literal(", "), options: DisplayOptions { width: None, align: None, case: None, padding: None, numerals: None, sign: Sign::OnlyNegative, locale: Locale::en_CA } },
                    Item { content: Content::Numeric(NumericContent::Year), options: DisplayOptions { width: None, align: None, case: None, padding: None, numerals: None, sign: Sign::Never, locale: Locale::en_CA } },
                    Item { content: Content::Literal(" "), options: DisplayOptions { width: None, align: None, case: None, padding: None, numerals: None, sign: Sign::OnlyNegative, locale: Locale::en_CA } },
                    Item { content: Content::Text(TextContent::EraName), options: DisplayOptions { width: None, align: None, case: None, padding: None, numerals: None, sign: Sign::OnlyNegative, locale: Locale::en_CA } },
                ]
            },
            PresetFormat::LongDateEraAbbr => {
                vec![
                    Item { content: Content::Text(TextContent::DayOfWeekName), options: DisplayOptions { width: None, align: None, case: None, padding: None, numerals: None, sign: Sign::OnlyNegative, locale: Locale::en_CA } },
                    Item { content: Content::Literal(" "), options: DisplayOptions { width: None, align: None, case: None, padding: None, numerals: None, sign: Sign::OnlyNegative, locale: Locale::en_CA } },
                    Item { content: Content::Text(TextContent::MonthName), options: DisplayOptions { width: None, align: None, case: None, padding: None, numerals: None, sign: Sign::OnlyNegative, locale: Locale::en_CA } },
                    Item { content: Content::Literal(" "), options: DisplayOptions { width: None, align: None, case: None, padding: None, numerals: None, sign: Sign::OnlyNegative, locale: Locale::en_CA } },
                    Item { content: Content::Numeric(NumericContent::DayOfMonth), options: DisplayOptions { width: None, align: None, case: None, padding: None, numerals: None, sign: Sign::OnlyNegative, locale: Locale::en_CA } },
                    Item { content: Content::Literal(", "), options: DisplayOptions { width: None, align: None, case: None, padding: None, numerals: None, sign: Sign::OnlyNegative, locale: Locale::en_CA } },
                    Item { content: Content::Numeric(NumericContent::Year), options: DisplayOptions { width: None, align: None, case: None, padding: None, numerals: None, sign: Sign::Never, locale: Locale::en_CA } },
                    Item { content: Content::Literal(" "), options: DisplayOptions { width: None, align: None, case: None, padding: None, numerals: None, sign: Sign::OnlyNegative, locale: Locale::en_CA } },
                    Item { content: Content::Text(TextContent::EraAbbreviation), options: DisplayOptions { width: None, align: None, case: None, padding: None, numerals: None, sign: Sign::OnlyNegative, locale: Locale::en_CA } },
                ]
            },
            PresetFormat::LongDayOfMonthEraAbbr => {
                vec![
                    Item { content: Content::Text(TextContent::DayOfWeekName), options: DisplayOptions { width: None, align: None, case: None, padding: None, numerals: None, sign: Sign::OnlyNegative, locale: Locale::en_CA } },
                    Item { content: Content::Literal(" "), options: DisplayOptions { width: None, align: None, case: None, padding: None, numerals: None, sign: Sign::OnlyNegative, locale: Locale::en_CA } },
                    Item { content: Content::Text(TextContent::MonthName), options: DisplayOptions { width: None, align: None, case: None, padding: None, numerals: None, sign: Sign::OnlyNegative, locale: Locale::en_CA } },
                    Item { content: Content::Literal(" "), options: DisplayOptions { width: None, align: None, case: None, padding: None, numerals: None, sign: Sign::OnlyNegative, locale: Locale::en_CA } },
                    Item { content: Content::Text(TextContent::DayOfMonthName), options: DisplayOptions { width: None, align: None, case: None, padding: None, numerals: None, sign: Sign::OnlyNegative, locale: Locale::en_CA } },
                    Item { content: Content::Literal(", "), options: DisplayOptions { width: None, align: None, case: None, padding: None, numerals: None, sign: Sign::OnlyNegative, locale: Locale::en_CA } },
                    Item { content: Content::Numeric(NumericContent::Year), options: DisplayOptions { width: None, align: None, case: None, padding: None, numerals: None, sign: Sign::Never, locale: Locale::en_CA } },
                    Item { content: Content::Literal(" "), options: DisplayOptions { width: None, align: None, case: None, padding: None, numerals: None, sign: Sign::OnlyNegative, locale: Locale::en_CA } },
                    Item { content: Content::Text(TextContent::EraAbbreviation), options: DisplayOptions { width: None, align: None, case: None, padding: None, numerals: None, sign: Sign::OnlyNegative, locale: Locale::en_CA } },
                ]
            },
            PresetFormat::LongComplEraAbbr => {
                vec![
                    Item { content: Content::Text(TextContent::ComplementaryDayName), options: DisplayOptions { width: None, align: None, case: None, padding: None, numerals: None, sign: Sign::OnlyNegative, locale: Locale::en_CA } },
                    Item { content: Content::Literal(", "), options: DisplayOptions { width: None, align: None, case: None, padding: None, numerals: None, sign: Sign::OnlyNegative, locale: Locale::en_CA } },
                    Item { content: Content::Numeric(NumericContent::Year), options: DisplayOptions { width: None, align: None, case: None, padding: None, numerals: None, sign: Sign::Never, locale: Locale::en_CA } },
                    Item { content: Content::Literal(" "), options: DisplayOptions { width: None, align: None, case: None, padding: None, numerals: None, sign: Sign::OnlyNegative, locale: Locale::en_CA } },
                    Item { content: Content::Text(TextContent::EraAbbreviation), options: DisplayOptions { width: None, align: None, case: None, padding: None, numerals: None, sign: Sign::OnlyNegative, locale: Locale::en_CA } },
                ]
            },
            PresetFormat::YearWeekDay => {
                vec![
                    Item { content: Content::Numeric(NumericContent::Year), options: DisplayOptions { width: None, align: None, case: None, padding: None, numerals: None, sign: Sign::OnlyNegative, locale: Locale::en_CA } },
                    Item { content: Content::Literal("-W"), options: DisplayOptions { width: None, align: None, case: None, padding: None, numerals: None, sign: Sign::OnlyNegative, locale: Locale::en_CA } },
                    Item { content: Content::Numeric(NumericContent::WeekOfYear), options: DisplayOptions { width: Some(2usize), align: None, case: Some(Case::Upper), padding: Some('0'), numerals: None, sign: Sign::Never, locale: Locale::en_CA } },
                    Item { content: Content::Literal("-"), options: DisplayOptions { width: None, align: None, case: None, padding: None, numerals: None, sign: Sign::OnlyNegative, locale: Locale::en_CA } },
                    Item { content: Content::Numeric(NumericContent::DayOfWeek), options: DisplayOptions { width: Some(1usize), align: None, case: Some(Case::Upper), padding: None, numerals: None, sign: Sign::Never, locale: Locale::en_CA } },
                ]
            },
            PresetFormat::YearMdd => {
                vec![
                    Item { content: Content::Numeric(NumericContent::Year), options: DisplayOptions { width: None, align: None, case: None, padding: None, numerals: None, sign: Sign::OnlyNegative, locale: Locale::en_CA } },
                    Item { content: Content::Literal("-"), options: DisplayOptions { width: None, align: None, case: None, padding: None, numerals: None, sign: Sign::OnlyNegative, locale: Locale::en_CA } },
                    Item { content: Content::Text(TextContent::MonthName), options: DisplayOptions { width: Some(1usize), align: None, case: Some(Case::Upper), padding: None, numerals: None, sign: Sign::Never, locale: Locale::en_CA } },
                    Item { content: Content::Numeric(NumericContent::DayOfMonth), options: DisplayOptions { width: Some(2usize), align: None, case: Some(Case::Upper), padding: Some('0'), numerals: None, sign: Sign::Never, locale: Locale::en_CA } },
                ]
            },
            PresetFormat::YearCompl => {
                vec![
                    Item { content: Content::Numeric(NumericContent::Year), options: DisplayOptions { width: None, align: None, case: None, padding: None, numerals: None, sign: Sign::OnlyNegative, locale: Locale::en_CA } },
                    Item { content: Content::Literal("-"), options: DisplayOptions { width: None, align: None, case: None, padding: None, numerals: None, sign: Sign::OnlyNegative, locale: Locale::en_CA } },
                    Item { content: Content::Text(TextContent::ComplementaryDayName), options: DisplayOptions { width: Some(3usize), align: None, case: Some(Case::Upper), padding: None, numerals: None, sign: Sign::Never, locale: Locale::en_CA } },
                ]
            },
            PresetFormat::ComplOnly => {
                vec![
                    Item { content: Content::Text(TextContent::ComplementaryDayName), options: DisplayOptions { width: None, align: None, case: None, padding: None, numerals: None, sign: Sign::OnlyNegative, locale: Locale::en_CA } },
                ]
            },
            PresetFormat::WeekdayNameOnly => {
                vec![
                    Item { content: Content::Text(TextContent::DayOfWeekName), options: DisplayOptions { width: None, align: None, case: None, padding: None, numerals: None, sign: Sign::OnlyNegative, locale: Locale::en_CA } },
                ]
            },
            PresetFormat::EpochSecondsOnly => {
                vec![
                    Item { content: Content::Numeric(NumericContent::SecondsSinceEpoch), options: DisplayOptions { width: None, align: None, case: None, padding: None, numerals: None, sign: Sign::OnlyNegative, locale: Locale::en_CA } },
                ]
            },
            PresetFormat::EpochDaysOnly => {
                vec![
                    Item { content: Content::Numeric(NumericContent::DaysSinceEpoch), options: DisplayOptions { width: None, align: None, case: None, padding: None, numerals: None, sign: Sign::OnlyNegative, locale: Locale::en_CA } },
                ]
            },
        }
    }
}

/// Whether a preset format writes its numbers with no width: the long formats and the
/// complementary day alone.
pub open spec fn unpadded_format(p: PresetFormat) -> bool {
    ||| p == PresetFormat::LongDate
    ||| p == PresetFormat::LongDayOfMonth
    ||| p == PresetFormat::LongCompl
    ||| p == PresetFormat::LongDateEraAbbr
    ||| p == PresetFormat::LongDayOfMonthEraAbbr
    ||| p == PresetFormat::LongComplEraAbbr
    ||| p == PresetFormat::ComplOnly
}

/// Every value can be written in a format whose numbers have no width.
pub proof fn lemma_unpadded_preset_fits<T: DisplayItem>(x: T, p: PresetFormat)
    requires
        unpadded_format(p),
    ensures
        preset_fits(x, preset_items(p)),
{
    let items = preset_items(p);
    assert forall|i: int| 0 <= i < items.len() implies item_fits(x, #[trigger] items[i]) by {
        assert(items[i].options.width is None);
        match items[i].content {
            Content::Numeric(n) => x.lemma_unpadded_fits(n, items[i].options),
            _ => {},
        }
    }
}

/// Values that can be written in the preset formats.
pub trait PresetDisplay: DisplayItem {
    /// The format of the long form of the value.
    spec fn long_format(self) -> PresetFormat;

    /// The format of the short form of the value.
    spec fn short_format(self) -> PresetFormat;

    /// Whether the language has the names that the value is written with.
    fn supported_display_lang(lang: Language) -> (r: bool)
        ensures
            r == Self::supported_lang_spec(lang),
    {
        Self::supported_lang(lang)
    }

    /// Writes the value in a preset format and a language.
    fn preset_str(&self, lang: Language, preset: PresetFormat) -> (r: String)
        requires
            preset_fits(*self, preset_items(preset)),
        ensures
            r@ == preset_text(*self, lang, preset_items(preset)),
    {
        let items = preset.items();
        let mut result = String::new();
        let mut i: usize = 0;
        while i < items.len()
            invariant
                i <= items.len(),
                items@ == preset_items(preset),
                preset_fits(*self, preset_items(preset)),
                result@ == preset_text(*self, lang, items@.take(i as int)),
            decreases items.len() - i,
        {
            let s = self.fmt_item(lang, items[i]);
            push_str(&mut result, s.as_str());
            proof {
                assert(items@.take(i + 1).drop_last() =~= items@.take(i as int));
            }
            i = i + 1;
        }
        assert(items@.take(items.len() as int) =~= items@);
        result
    }

    /// Writes the long form of the value in English.
    fn long_date(&self) -> (r: String)
        ensures
            r@ == preset_text(*self, Language::EN, preset_items(self.long_format())),
    ;

    /// Writes the short form of the value in English.
    fn short_date(&self) -> (r: String)
        requires
            preset_fits(*self, preset_items(self.short_format())),
        ensures
            r@ == preset_text(*self, Language::EN, preset_items(self.short_format())),
    ;
}

/// The numbers of a date that the formats write.
#[derive(Debug, Clone, Copy, PartialEq, Eq, Structural)]
pub struct DateFacts {
    pub year: i128,
    pub month: Option<i128>,
    pub day: Option<i128>,
    pub weekday: Option<i128>,
    pub day_of_year: Option<i128>,
    pub quarter: i128,
    pub days_since_epoch: i128,
    pub week_of_year: Option<i128>,
    pub complementary: Option<i128>,
}

/// The text of an optional number.
pub open spec fn optional_number_text(v: Option<i128>, opt: DisplayOptions) -> Seq<char> {
    match v {
        Some(x) => fmt_number_spec(x as int, opt),
        None => Seq::empty(),
    }
}

/// The text of a number of a date; a date stands for midnight, so its hours, minutes and
/// seconds are those of midnight.
pub open spec fn facts_numeric_text(f: DateFacts, n: NumericContent, opt: DisplayOptions) -> Seq<
    char,
> {
    match n {
        NumericContent::Month => optional_number_text(f.month, opt),
        NumericContent::DayOfMonth => optional_number_text(f.day, opt),
        NumericContent::Year => fmt_number_spec(f.year as int, opt),
        NumericContent::DayOfWeek => optional_number_text(f.weekday, opt),
        NumericContent::DayOfYear => optional_number_text(f.day_of_year, opt),
        NumericContent::Hour1to12 => fmt_number_spec(12, opt),
        NumericContent::Hour0to23 => fmt_number_spec(0, opt),
        NumericContent::Minute => fmt_number_spec(0, opt),
        NumericContent::Second => fmt_number_spec(0, opt),
        NumericContent::SecondsSinceEpoch => fmt_number_spec(
            seconds_since_epoch(f.days_since_epoch as int),
            opt,
        ),
        NumericContent::Quarter => fmt_number_spec(f.quarter as int, opt),
        NumericContent::DaysSinceEpoch => fmt_number_spec(f.days_since_epoch as int, opt),
        NumericContent::ComplementaryDay => optional_number_text(f.complementary, opt),
        NumericContent::WeekOfYear => optional_number_text(f.week_of_year, opt),
    }
}

fn fmt_optional_number(v: Option<i128>, opt: DisplayOptions) -> (r: String)
    requires
        v matches Some(x) ==> number_fits(x as int, opt),
    ensures
        r@ == optional_number_text(v, opt),
{
    match v {
        Some(x) => fmt_number(x, opt),
        None => String::new(),
    }
}

/// The number that a numeric item of a date writes, if the date has one.
pub open spec fn facts_number(f: DateFacts, n: NumericContent) -> Option<int> {
    let of = |v: Option<i128>| match v {
        Some(x) => Some(x as int),
        None => None::<int>,
    };
    match n {
        NumericContent::Month => of(f.month),
        NumericContent::DayOfMonth => of(f.day),
        NumericContent::Year => Some(f.year as int),
        NumericContent::DayOfWeek => of(f.weekday),
        NumericContent::DayOfYear => of(f.day_of_year),
        NumericContent::Hour1to12 => Some(12),
        NumericContent::Hour0to23 => Some(0),
        NumericContent::Minute => Some(0),
        NumericContent::Second => Some(0),
        NumericContent::SecondsSinceEpoch => Some(seconds_since_epoch(f.days_since_epoch as int)),
        NumericContent::Quarter => Some(f.quarter as int),
        NumericContent::DaysSinceEpoch => Some(f.days_since_epoch as int),
        NumericContent::ComplementaryDay => of(f.complementary),
        NumericContent::WeekOfYear => of(f.week_of_year),
    }
}

/// Whether the number that a numeric item of a date writes fits the options.
pub open spec fn facts_fit(f: DateFacts, n: NumericContent, opt: DisplayOptions) -> bool {
    match facts_number(f, n) {
        Some(x) => number_fits(x, opt),
        None => true,
    }
}

/// Writes a number of a date from its facts.
pub fn fmt_facts_numeric(f: DateFacts, n: NumericContent, opt: DisplayOptions) -> (r: String)
    requires
        facts_fit(f, n, opt),
        -0x1_0000_0000_0000_0000 <= f.days_since_epoch <= 0x1_0000_0000_0000_0000,
    ensures
        r@ == facts_numeric_text(f, n, opt),
{
    match n {
        NumericContent::Month => fmt_optional_number(f.month, opt),
        NumericContent::DayOfMonth => fmt_optional_number(f.day, opt),
        NumericContent::Year => fmt_number(f.year, opt),
        NumericContent::DayOfWeek => fmt_optional_number(f.weekday, opt),
        NumericContent::DayOfYear => fmt_optional_number(f.day_of_year, opt),
        NumericContent::Hour1to12 => fmt_number(12, opt),
        NumericContent::Hour0to23 => fmt_number(0, opt),
        NumericContent::Minute => fmt_number(0, opt),
        NumericContent::Second => fmt_number(0, opt),
        NumericContent::SecondsSinceEpoch => {
            let s = f.days_since_epoch * 86400;
            let clamped: i128 = if s > 32767 {
                32767
            } else if s < -32768 {
                -32768
            } else {
                s
            };
            fmt_number(clamped, opt)
        },
        NumericContent::Quarter => fmt_number(f.quarter, opt),
        NumericContent::DaysSinceEpoch => fmt_number(f.days_since_epoch, opt),
        NumericContent::ComplementaryDay => fmt_optional_number(f.complementary, opt),
        NumericContent::WeekOfYear => fmt_optional_number(f.week_of_year, opt),
    }
}

/// The numbers of a date of a calendar with years, months, days and days of the year; the
/// day of the week, the week of the year and the complementary day are given.
pub open spec fn ordinal_date_facts<T: ToFromOrdinalDate + ToFixed + Epoch + Quarter>(
    x: T,
    weekday: Option<i128>,
    week_of_year: Option<i128>,
    complementary: Option<i128>,
) -> DateFacts {
    DateFacts {
        year: x.common_view().year as i128,
        month: Some(x.common_view().month as i128),
        day: Some(x.common_view().day as i128),
        weekday,
        day_of_year: Some(T::ordinal_of(x.common_view()).day_of_year as i128),
        quarter: x.quarter_spec() as i128,
        days_since_epoch: (x.fixed_spec() - T::epoch_spec()) as i128,
        week_of_year,
        complementary,
    }
}

/// Gathers the numbers of a date of a calendar with years, months, days and days of the year.
pub fn ordinal_date_facts_of<T: ToFromOrdinalDate + ToFixed + Epoch + Quarter + Copy>(
    x: T,
    weekday: Option<i128>,
    week_of_year: Option<i128>,
    complementary: Option<i128>,
) -> (r: DateFacts)
    ensures
        r == ordinal_date_facts(x, weekday, week_of_year, complementary),
        -0x1_0000_0000_0000_0000 <= r.days_since_epoch <= 0x1_0000_0000_0000_0000,
{
    let c = x.to_common_date();
    let ord = x.to_ordinal();
    let f = x.to_fixed();
    let e = T::epoch();
    let q = x.quarter();
    DateFacts {
        year: c.year as i128,
        month: Some(c.month as i128),
        day: Some(c.day as i128),
        weekday,
        day_of_year: Some(ord.day_of_year as i128),
        quarter: q as i128,
        days_since_epoch: f as i128 - e as i128,
        week_of_year,
        complementary,
    }
}

/// The day of the week of a day count, Sunday being 0.
pub open spec fn weekday_number_of_fixed(date: int) -> i128 {
    (date % 7) as i128
}

/// The day of the week of a day count, Sunday being 0.
pub fn weekday_number_of(date: i64) -> (r: i128)
    ensures
        r == weekday_number_of_fixed(date as int),
{
    let w = Weekday::from_unbounded(date);
    w.to_u8() as i128
}

/// The week of the year of a date, counted in weeks from the first day of its year.
pub open spec fn common_week_number<T: CommonWeekOfYear>(x: T) -> i128 {
    (((T::fixed_of_date(x.common_view()) - T::fixed_of_date(
        T::year_start_spec(x.common_view().year as int),
    )) / 7 + 1) as u8) as i128
}

/// The week of the year of a date of a perennial calendar, counted from its month and day;
/// complementary days are in no week.
pub open spec fn perennial_week_number<W, T: Perennial<W>>(x: T) -> Option<i128> {
    if x.weekday_spec() is None {
        None
    } else {
        Some(
            ((((((x.common_view().month - 1) * T::days_per_week_spec()
                * T::weeks_per_month_spec()) + x.common_view().day - 1) / T::days_per_week_spec()
                + 1) as u8) as i128),
        )
    }
}

} // verus!
