use radnelac::calendar::armenian::Armenian;
use radnelac::calendar::armenian::ArmenianMonth;
use radnelac::calendar::gregorian::Gregorian;
use radnelac::calendar::gregorian::GregorianMonth;
use radnelac::calendar::julian::Julian;
use radnelac::calendar::positivist::Positivist;
use radnelac::calendar::prelude::GuaranteedMonth;
use radnelac::calendar::prelude::Quarter;
use radnelac::calendar::prelude::ToFromCommonDate;
use radnelac::calendar::prelude::TryMonth;
use radnelac::calendar::prelude::ValidCommonDate;
use radnelac::calendar::tranquility::Tranquility;
use radnelac::common::date::CommonDate;
use radnelac::common::error::CalendarError;
use radnelac::day_count::fixed::EffectiveBound;
use radnelac::day_count::fixed::ToFixed;
use radnelac::day_count::fixed::FIXED_MAX;
use radnelac::day_count::fixed::FIXED_MIN;
use radnelac::display::format::Align;
use radnelac::display::format::DisplayOptions;
use radnelac::display::format::Locale;
use radnelac::display::format::Numerals;
use radnelac::display::format::NumericContent;
use radnelac::display::format::Sign;
use radnelac::display::format::TextContent;
use radnelac::display::prelude::DisplayItem;
use radnelac::display::prelude::PresetDisplay;
use radnelac::display::private::fmt_days_since_epoch;
use radnelac::display::private::fmt_number;
use radnelac::display::private::fmt_quarter;
use radnelac::display::private::fmt_seconds_since_epoch;
use radnelac::display::private::integer_string;
use radnelac::display::text::Language;

const PLAIN: DisplayOptions = DisplayOptions {
    numerals: None,
    width: None,
    align: None,
    padding: None,
    case: None,
    sign: Sign::OnlyNegative,
    locale: Locale::en_CA,
};

#[test]
fn effective_bounds() {
    assert_eq!(Gregorian::effective_min().to_fixed(), FIXED_MIN);
    assert_eq!(Gregorian::effective_max().to_fixed(), FIXED_MAX);
    assert_eq!(Julian::effective_max().to_fixed(), FIXED_MAX);
    assert_eq!(Tranquility::effective_min().to_fixed(), FIXED_MIN);
}

#[test]
fn valid_common_dates() {
    assert!(Gregorian::is_valid(CommonDate::new(2024, 2, 29)));
    assert!(!Gregorian::is_valid(CommonDate::new(2023, 2, 29)));
    assert!(!Julian::is_valid(CommonDate::new(0, 1, 1)));
    assert!(Tranquility::is_valid(CommonDate::new(0, 0, 0)));
}

#[test]
fn months_through_traits() {
    let g = Gregorian::try_from_common_date(CommonDate::new(2025, 7, 26)).unwrap();
    assert_eq!(GuaranteedMonth::month(g), GregorianMonth::July);
    let a = Armenian::try_from_common_date(CommonDate::new(1474, 13, 2)).unwrap();
    assert_eq!(TryMonth::try_month(a), None::<ArmenianMonth>);
    let a = Armenian::try_from_common_date(CommonDate::new(1474, 2, 2)).unwrap();
    assert_eq!(TryMonth::try_month(a), Some(ArmenianMonth::Hori));
}

#[test]
fn quarters_and_epoch_counts() {
    let g = Gregorian::try_from_common_date(CommonDate::new(2025, 7, 26)).unwrap();
    assert_eq!(g.quarter(), 3);
    assert_eq!(fmt_quarter(g, PLAIN), "3");
    assert_eq!(fmt_days_since_epoch(g, PLAIN), "739457");
    assert_eq!(fmt_seconds_since_epoch(g, PLAIN), "32767");
    let p = Positivist::try_from_common_date(CommonDate::new(236, 14, 1)).unwrap();
    assert_eq!(p.quarter(), 4);
    let e = Gregorian::try_from_common_date(CommonDate::new(1, 1, 1)).unwrap();
    assert_eq!(fmt_days_since_epoch(e, PLAIN), "0");
    assert_eq!(fmt_seconds_since_epoch(e, PLAIN), "0");
    let b = Gregorian::try_from_common_date(CommonDate::new(0, 12, 31)).unwrap();
    assert_eq!(fmt_seconds_since_epoch(b, PLAIN), "-32768");
}

#[test]
fn integers_and_numerals() {
    assert_eq!(integer_string(0), "0");
    assert_eq!(integer_string(-753), "-753");
    assert_eq!(integer_string(i64::MIN), "-9223372036854775808");
    let roman = DisplayOptions {
        numerals: Some(Numerals::Roman),
        ..PLAIN
    };
    assert_eq!(fmt_number(2025, roman), "MMXXV");
    assert_eq!(fmt_number(1994, roman), "MCMXCIV");
    assert_eq!(fmt_number(3999, roman), "MMMCMXCIX");
    assert_eq!(fmt_number(4, roman), "IV");
    assert_eq!(fmt_number(0, roman), "");
    let wide = DisplayOptions {
        width: Some(6),
        align: Some(Align::Left),
        padding: Some('0'),
        ..PLAIN
    };
    assert_eq!(fmt_number(-42, wide), "-00042");
}

#[test]
fn numeric_and_text_items() {
    let g = Gregorian::try_from_common_date(CommonDate::new(2025, 7, 26)).unwrap();
    assert_eq!(g.fmt_numeric(NumericContent::DayOfYear, PLAIN), "207");
    assert_eq!(g.fmt_numeric(NumericContent::WeekOfYear, PLAIN), "30");
    assert_eq!(g.fmt_numeric(NumericContent::DayOfWeek, PLAIN), "6");
    assert_eq!(g.fmt_numeric(NumericContent::Hour1to12, PLAIN), "12");
    assert_eq!(g.fmt_text(TextContent::MonthName, Language::FR, PLAIN), "Juillet");
    assert_eq!(g.fmt_text(TextContent::EraAbbreviation, Language::EN, PLAIN), "CE");
    assert_eq!(g.fmt_text(TextContent::HalfDayAbbrev, Language::EN, PLAIN), "AM");
    let p = Positivist::try_from_common_date(CommonDate::new(236, 14, 2)).unwrap();
    assert_eq!(p.long_date(), "Festival of Holy Women, 236 After the Great Crisis");
    let a = Armenian::try_from_common_date(CommonDate::new(1474, 1, 3)).unwrap();
    assert_eq!(a.fmt_text(TextContent::DayOfMonthName, Language::EN, PLAIN), "Aram");
    assert_eq!(
        Armenian::try_from_common_date(CommonDate::new(1474, 13, 3))
            .unwrap()
            .fmt_text(TextContent::DayOfMonthName, Language::EN, PLAIN),
        ""
    );
    assert_eq!(
        Julian::try_from_common_date(CommonDate::new(0, 1, 1)),
        Err(CalendarError::InvalidYear)
    );
}
