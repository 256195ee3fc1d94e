use radnelac::calendar::coptic::Coptic;
use radnelac::calendar::coptic::CopticMonth;
use radnelac::calendar::cotsworth::Cotsworth;
use radnelac::calendar::cotsworth::CotsworthComplementaryDay;
use radnelac::calendar::cotsworth::CotsworthMonth;
use radnelac::calendar::egyptian::Egyptian;
use radnelac::calendar::egyptian::EgyptianMonth;
use radnelac::calendar::gregorian::Gregorian;
use radnelac::calendar::gregorian::GregorianMonth;
use radnelac::calendar::holocene::Holocene;
use radnelac::calendar::holocene::HoloceneMonth;
use radnelac::calendar::julian::Julian;
use radnelac::calendar::julian::JulianMonth;
use radnelac::calendar::prelude::HasIntercalaryDays;
use radnelac::calendar::prelude::Perennial;
use radnelac::calendar::prelude::ToFromCommonDate;
use radnelac::calendar::tranquility::Tranquility;
use radnelac::calendar::tranquility::TranquilityComplementaryDay;
use radnelac::calendar::tranquility::TranquilityMonth;
use radnelac::common::date::CommonDate;
use radnelac::day_count::fixed::Epoch;
use radnelac::day_count::fixed::FromFixed;
use radnelac::day_count::fixed::ToFixed;
use radnelac::day_cycle::week::Weekday;

#[test]
fn readme_gregorian_to_julian() {
    let g = Gregorian::try_new(2025, GregorianMonth::July, 26).unwrap();
    let j = g.convert::<Julian>();
    assert_eq!(j, Julian::try_new(2025, JulianMonth::July, 13).unwrap());
}

#[test]
fn coptic_months() {
    let a_1_1 = Coptic::try_from_common_date(CommonDate::new(1741, 1, 1)).unwrap();
    assert_eq!(a_1_1.month(), CopticMonth::Thoout);
    let a_12_30 = Coptic::try_from_common_date(CommonDate::new(1741, 12, 30)).unwrap();
    assert_eq!(a_12_30.month(), CopticMonth::Mesore);
}

#[test]
fn cotsworth_months_and_weeks() {
    let a_1_1 = Cotsworth::try_from_common_date(CommonDate::new(1902, 1, 1)).unwrap();
    assert_eq!(a_1_1.month(), CotsworthMonth::January);
    assert_eq!(CotsworthMonth::June.to_u8(), GregorianMonth::June.to_u8());
    assert!(CotsworthMonth::June < CotsworthMonth::Sol && CotsworthMonth::Sol < CotsworthMonth::July);
    assert_ne!(CotsworthMonth::July.to_u8(), GregorianMonth::July.to_u8());
    let a_1_1 = Cotsworth::try_from_common_date(CommonDate::new(2025, 1, 1)).unwrap();
    assert_eq!(a_1_1.weekday().unwrap(), Weekday::Sunday);
    assert_eq!(a_1_1.convert::<Weekday>(), Weekday::Wednesday);
    let a_year_day = Cotsworth::try_from_common_date(CommonDate::new(2028, 13, 29)).unwrap();
    assert_eq!(a_year_day.month(), CotsworthMonth::December);
    assert_eq!(a_year_day.complementary().unwrap(), CotsworthComplementaryDay::YearDay);
    assert!(a_year_day.weekday().is_none());
    let a_leap_day = Cotsworth::try_from_common_date(CommonDate::new(2028, 6, 29)).unwrap();
    assert_eq!(a_leap_day.month(), CotsworthMonth::June);
    assert_eq!(a_leap_day.complementary().unwrap(), CotsworthComplementaryDay::LeapDay);
    assert!(a_leap_day.weekday().is_none());
}

#[test]
fn egyptian_months_and_epoch() {
    let a_1_1 = Egyptian::try_from_common_date(CommonDate::new(1462, 1, 1)).unwrap();
    assert_eq!(a_1_1.try_month().unwrap(), EgyptianMonth::Thoth);
    let a_12_30 = Egyptian::try_from_common_date(CommonDate::new(1462, 12, 30)).unwrap();
    assert_eq!(a_12_30.try_month().unwrap(), EgyptianMonth::Mesori);
    let a = Egyptian::try_from_common_date(CommonDate::new(1462, 13, 5)).unwrap();
    assert!(a.try_month().is_none());
    assert!(a.complementary().is_some());
    let e = Egyptian::epoch();
    let j = Julian::from_fixed(e);
    let a = Egyptian::from_fixed(e);
    assert_eq!(j.year(), -747);
    assert_eq!(j.month(), JulianMonth::February);
    assert_eq!(j.day(), 26);
    assert_eq!(a.year(), 1);
    assert_eq!(a.try_month().unwrap(), EgyptianMonth::Thoth);
    assert_eq!(a.day(), 1);
}

#[test]
fn gregorian_julian_holocene_months() {
    let a_1_1 = Gregorian::try_from_common_date(CommonDate::new(2025, 1, 1)).unwrap();
    assert_eq!(a_1_1.month(), GregorianMonth::January);
    let j = Julian::try_new(1752, JulianMonth::September, 3).unwrap();
    let g = j.convert::<Gregorian>();
    assert_eq!(g, Gregorian::try_new(1752, GregorianMonth::September, 14).unwrap());
    let a_1_1 = Holocene::try_from_common_date(CommonDate::new(12025, 1, 1)).unwrap();
    assert_eq!(a_1_1.month(), HoloceneMonth::January);
    let g = Gregorian::try_new(1752, JulianMonth::September, 14).unwrap();
    let h = g.convert::<Holocene>();
    assert_eq!(h, Holocene::try_new(11752, GregorianMonth::September, 14).unwrap());
    let a_1_1 = Julian::try_from_common_date(CommonDate::new(2025, 1, 1)).unwrap();
    assert_eq!(a_1_1.month(), JulianMonth::January);
}

#[test]
fn tranquility_examples() {
    let tq_1_1 = Tranquility::try_from_common_date(CommonDate::new(57, 1, 1)).unwrap();
    assert_eq!(tq_1_1.try_month().unwrap(), TranquilityMonth::Archimedes);
    let tq_13_28 = Tranquility::try_from_common_date(CommonDate::new(57, 13, 28)).unwrap();
    assert_eq!(tq_13_28.try_month().unwrap(), TranquilityMonth::Mendel);

    let p = Tranquility::try_from_common_date(CommonDate::new(-1, 13, 28)).unwrap();
    assert_eq!(p.weekday().unwrap(), Weekday::Thursday);
    assert_eq!(p.convert::<Weekday>(), Weekday::Saturday);

    let tq_arm = Tranquility::try_from_common_date(CommonDate::new(31, 0, 1)).unwrap();
    assert!(tq_arm.try_month().is_none());
    assert_eq!(tq_arm.complementary().unwrap(), TranquilityComplementaryDay::ArmstrongDay);
    assert!(tq_arm.weekday().is_none());
    let tq_ald = Tranquility::try_from_common_date(CommonDate::new(31, 0, 2)).unwrap();
    assert!(tq_ald.try_month().is_none());
    assert_eq!(tq_ald.complementary().unwrap(), TranquilityComplementaryDay::AldrinDay);
    assert!(tq_ald.weekday().is_none());

    let tq_end_31 = Tranquility::try_year_end(31).unwrap();
    assert_eq!(tq_end_31.complementary().unwrap(), TranquilityComplementaryDay::ArmstrongDay);
    let tq_end_1 = Tranquility::try_year_end(-1).unwrap();
    assert!(tq_end_1.complementary().is_none());
}

#[test]
fn tranquility_aldrin_day() {
    let g_list = [
        Gregorian::try_new(2024, GregorianMonth::February, 28).unwrap(),
        Gregorian::try_new(2024, GregorianMonth::February, 29).unwrap(),
        Gregorian::try_new(2024, GregorianMonth::March, 1).unwrap(),
    ];
    let tq_list = [
        g_list[0].convert::<Tranquility>(),
        g_list[1].convert::<Tranquility>(),
        g_list[2].convert::<Tranquility>(),
    ];
    assert_eq!(tq_list[0].year(), 55);
    assert_eq!(tq_list[0].day(), 27);
    assert_eq!(tq_list[0].try_month().unwrap(), TranquilityMonth::Hippocrates);
    assert_eq!(tq_list[1].year(), 55);
    assert_eq!(tq_list[1].complementary().unwrap(), TranquilityComplementaryDay::AldrinDay);
    assert!(tq_list[1].try_month().is_none());
    assert_eq!(tq_list[2].year(), 55);
    assert_eq!(tq_list[2].day(), 28);
    assert_eq!(tq_list[2].try_month().unwrap(), TranquilityMonth::Hippocrates);
}

#[test]
fn tranquility_moon_landing() {
    let g = Gregorian::try_new(1969, GregorianMonth::July, 20).unwrap();
    let tq = g.convert::<Tranquility>();
    assert_eq!(tq.year(), 0);
    assert_eq!(tq.complementary().unwrap(), TranquilityComplementaryDay::MoonLandingDay);
    assert!(tq.try_month().is_none());
    assert!(tq.weekday().is_none());
    assert_eq!(tq.to_common_date(), CommonDate::new(0, 0, 0));

    let g_list = [
        Gregorian::try_new(1969, GregorianMonth::July, 19).unwrap(),
        Gregorian::try_new(1969, GregorianMonth::July, 20).unwrap(),
        Gregorian::try_new(1969, GregorianMonth::July, 21).unwrap(),
    ];
    let tq_list = [
        g_list[0].convert::<Tranquility>(),
        g_list[1].convert::<Tranquility>(),
        g_list[2].convert::<Tranquility>(),
    ];
    assert_eq!(tq_list[0].year(), -1);
    assert_eq!(tq_list[0].day(), 28);
    assert_eq!(tq_list[0].try_month().unwrap(), TranquilityMonth::Mendel);
    assert_eq!(tq_list[1].complementary().unwrap(), TranquilityComplementaryDay::MoonLandingDay);
    assert_eq!(tq_list[2].year(), 1);
    assert_eq!(tq_list[2].day(), 1);
    assert_eq!(tq_list[2].try_month().unwrap(), TranquilityMonth::Archimedes);
}
