use radnelac::calendar::armenian::Armenian;
use radnelac::calendar::coptic::Coptic;
use radnelac::calendar::gregorian::Gregorian;
use radnelac::calendar::holocene::Holocene;
use radnelac::calendar::iso::ISO;
use radnelac::calendar::julian::Julian;
use radnelac::calendar::positivist::Positivist;
use radnelac::calendar::prelude::ToFromCommonDate;
use radnelac::calendar::roman::Roman;
use radnelac::calendar::tranquility::Tranquility;
use radnelac::common::date::CommonDate;
use radnelac::day_count::fixed::FromFixed;
use radnelac::day_count::fixed::ToFixed;
use radnelac::day_cycle::week::Weekday;
use radnelac::display::format::Align;
use radnelac::display::format::Case;
use radnelac::display::format::DisplayOptions;
use radnelac::display::format::Locale;
use radnelac::display::format::NumericContent;
use radnelac::display::format::Sign;
use radnelac::display::prelude::DisplayItem;
use radnelac::display::prelude::PresetDisplay;
use radnelac::display::prelude::WEEKDAY_NAME_ONLY;
use radnelac::display::private::fmt_number;
use radnelac::display::private::number_fits_check;
use radnelac::display::private::fmt_string;
use radnelac::display::text::Language;

#[test]
fn basic_number() {
    let opt_0 = DisplayOptions {
        numerals: None,
        width: None,
        align: None,
        padding: None,
        case: None,
        sign: Sign::Never,
        locale: Locale::en_CA,
    };
    assert_eq!(fmt_number(2025, opt_0), "2025");
    assert_eq!(fmt_number(-2025, opt_0), "2025");
    let opt_1 = DisplayOptions {
        numerals: None,
        width: None,
        align: None,
        padding: None,
        case: None,
        sign: Sign::Always,
        locale: Locale::en_CA,
    };
    assert_eq!(fmt_number(2025, opt_1), "+2025");
    assert_eq!(fmt_number(-2025, opt_1), "-2025");
    let opt_2 = DisplayOptions {
        numerals: None,
        width: None,
        align: None,
        padding: None,
        case: None,
        sign: Sign::OnlyNegative,
        locale: Locale::en_CA,
    };
    assert_eq!(fmt_number(2025, opt_2), "2025");
    assert_eq!(fmt_number(-2025, opt_2), "-2025");
}

#[test]
fn basic_text() {
    let opt_0 = DisplayOptions {
        numerals: None,
        width: None,
        align: None,
        padding: None,
        case: None,
        sign: Sign::Never,
        locale: Locale::en_CA,
    };
    assert_eq!(fmt_string("January", opt_0), "January");
}

#[test]
fn case_text() {
    let opt_0 = DisplayOptions {
        numerals: None,
        width: None,
        align: None,
        padding: None,
        case: Some(Case::Upper),
        sign: Sign::Never,
        locale: Locale::en_CA,
    };
    assert_eq!(fmt_string("mAy", opt_0), "MAY");
    let opt_1 = DisplayOptions {
        numerals: None,
        width: None,
        align: None,
        padding: None,
        case: Some(Case::Lower),
        sign: Sign::Never,
        locale: Locale::en_CA,
    };
    assert_eq!(fmt_string("mAy", opt_1), "may");
    let opt_2 = DisplayOptions {
        numerals: None,
        width: None,
        align: None,
        padding: None,
        case: Some(Case::Title),
        sign: Sign::Never,
        locale: Locale::en_CA,
    };
    assert_eq!(fmt_string("mAy", opt_2), "MAy");
    let opt_3 = DisplayOptions {
        numerals: None,
        width: None,
        align: None,
        padding: None,
        case: None,
        sign: Sign::Never,
        locale: Locale::en_CA,
    };
    assert_eq!(fmt_string("mAy", opt_3), "mAy");
}

#[test]
fn pad_number() {
    let opt_0 = DisplayOptions {
        numerals: None,
        width: Some(8),
        align: None,
        padding: Some('@'),
        case: None,
        sign: Sign::Never,
        locale: Locale::en_CA,
    };
    assert_eq!(fmt_number(2025, opt_0), "@@@@2025");
    assert_eq!(fmt_number(-2025, opt_0), "@@@@2025");
    let opt_1 = DisplayOptions {
        numerals: None,
        width: Some(8),
        align: None,
        padding: Some('@'),
        case: None,
        sign: Sign::Always,
        locale: Locale::en_CA,
    };
    assert_eq!(fmt_number(2025, opt_1), "@@@+2025");
    assert_eq!(fmt_number(-2025, opt_1), "@@@-2025");
    let opt_2 = DisplayOptions {
        numerals: None,
        width: Some(8),
        align: None,
        padding: Some('0'),
        case: None,
        sign: Sign::Always,
        locale: Locale::en_CA,
    };
    assert_eq!(fmt_number(2025, opt_2), "+0002025");
    assert_eq!(fmt_number(-2025, opt_2), "-0002025");
}

#[test]
fn align_number() {
    let opt_0 = DisplayOptions {
        numerals: None,
        width: Some(8),
        align: Some(Align::Left),
        padding: Some('@'),
        case: None,
        sign: Sign::OnlyNegative,
        locale: Locale::en_CA,
    };
    assert_eq!(fmt_number(2025, opt_0), "@@@@2025");
    assert_eq!(fmt_number(-2025, opt_0), "@@@-2025");
    let opt_1 = DisplayOptions {
        numerals: None,
        width: Some(8),
        align: Some(Align::Right),
        padding: Some('@'),
        case: None,
        sign: Sign::OnlyNegative,
        locale: Locale::en_CA,
    };
    assert_eq!(fmt_number(2025, opt_1), "2025@@@@");
    assert_eq!(fmt_number(-2025, opt_1), "-2025@@@");
    let opt_2 = DisplayOptions {
        numerals: None,
        width: Some(8),
        align: Some(Align::Center),
        padding: Some('@'),
        case: None,
        sign: Sign::OnlyNegative,
        locale: Locale::en_CA,
    };
    assert_eq!(fmt_number(2025, opt_2), "@@2025@@");
    assert_eq!(fmt_number(-2025, opt_2), "@@-2025@");
}

#[test]
fn trunc_number() {
    let opt_0 = DisplayOptions {
        numerals: None,
        width: Some(2),
        align: None,
        padding: None,
        case: None,
        sign: Sign::OnlyNegative,
        locale: Locale::en_CA,
    };
    assert_eq!(fmt_number(2025, opt_0), "20");
    assert_eq!(fmt_number(-2025, opt_0), "-2");
}

#[test]
fn align_text() {
    let opt_0 = DisplayOptions {
        numerals: None,
        width: Some(8),
        align: Some(Align::Left),
        padding: Some('@'),
        case: None,
        sign: Sign::Never,
        locale: Locale::en_CA,
    };
    assert_eq!(fmt_string("June", opt_0), "@@@@June");
    let opt_1 = DisplayOptions {
        numerals: None,
        width: Some(8),
        align: Some(Align::Right),
        padding: Some('@'),
        case: None,
        sign: Sign::Never,
        locale: Locale::en_CA,
    };
    assert_eq!(fmt_string("June", opt_1), "June@@@@");
    let opt_2 = DisplayOptions {
        numerals: None,
        width: Some(8),
        align: Some(Align::Center),
        padding: Some('@'),
        case: None,
        sign: Sign::Never,
        locale: Locale::en_CA,
    };
    assert_eq!(fmt_string("June", opt_2), "@@June@@");
}

#[test]
fn trunc_text() {
    let opt_0 = DisplayOptions {
        numerals: None,
        width: Some(3),
        align: None,
        padding: None,
        case: None,
        sign: Sign::Never,
        locale: Locale::en_CA,
    };
    assert_eq!(fmt_string("January", opt_0), "Jan");
}

#[test]
fn trunc_text_unicode() {
    let opt_0 = DisplayOptions {
        numerals: None,
        width: Some(1),
        align: None,
        padding: None,
        case: None,
        sign: Sign::Never,
        locale: Locale::en_CA,
    };
    assert_eq!(fmt_string("😀", opt_0), "");
    assert_eq!(fmt_string("😀😂", opt_0), "");
    let opt_1 = DisplayOptions {
        numerals: None,
        width: Some(4),
        align: None,
        padding: None,
        case: None,
        sign: Sign::Never,
        locale: Locale::en_CA,
    };
    assert_eq!(fmt_string("😀", opt_1), "😀");
    assert_eq!(fmt_string("😀😂", opt_1), "😀");
}

#[test]
fn armenian_expected_languages() {
    assert!(Armenian::supported_lang(Language::EN));
}

#[test]
fn coptic_expected_languages() {
    assert!(Coptic::supported_lang(Language::EN));
}

#[test]
fn gregorian_expected_languages() {
    assert!(Gregorian::supported_lang(Language::EN));
    assert!(Gregorian::supported_lang(Language::FR));
}

#[test]
fn iso_expected_languages() {
    assert!(ISO::supported_lang(Language::EN));
}

#[test]
fn julian_expected_languages() {
    assert!(Julian::supported_lang(Language::EN));
    assert!(Julian::supported_lang(Language::FR));
}

#[test]
fn positivist_expected_languages() {
    assert!(Positivist::supported_lang(Language::EN));
    assert!(Positivist::supported_lang(Language::FR));
}

#[test]
fn w1() {
    let dg = Gregorian::try_from_common_date(CommonDate::new(2007, 1, 1)).unwrap();
    let di = dg.convert::<ISO>();
    let s = di.short_date();
    assert_eq!(&s, "2007-W01-1")
}

#[test]
fn holocene_long_date() {
    let d_list = [
        (
            CommonDate::new(11582, 10, 15),
            "Friday October 15, 11582 Human Era",
        ),
        (
            CommonDate::new(12012, 12, 21),
            "Friday December 21, 12012 Human Era",
        ),
        (
            CommonDate::new(12025, 1, 1),
            "Wednesday January 1, 12025 Human Era",
        ),
        (
            CommonDate::new(12025, 6, 29),
            "Sunday June 29, 12025 Human Era",
        ),
        (
            CommonDate::new(12025, 6, 30),
            "Monday June 30, 12025 Human Era",
        ),
        (
            CommonDate::new(12025, 7, 1),
            "Tuesday July 1, 12025 Human Era",
        ),
    ];
    for item in d_list {
        let d = Holocene::try_from_common_date(item.0).unwrap();
        let s = d.long_date();
        assert_eq!(s, item.1);
    }
}

#[test]
fn holocene_short_date() {
    let d_list = [
        (CommonDate::new(1582, 10, 15), "01582-10-15"),
        (CommonDate::new(2012, 12, 21), "02012-12-21"),
        (CommonDate::new(2025, 1, 1), "02025-01-01"),
        (CommonDate::new(2025, 6, 29), "02025-06-29"),
        (CommonDate::new(2025, 6, 30), "02025-06-30"),
        (CommonDate::new(2025, 7, 1), "02025-07-01"),
        (CommonDate::new(11582, 10, 15), "11582-10-15"),
        (CommonDate::new(12012, 12, 21), "12012-12-21"),
        (CommonDate::new(12025, 1, 1), "12025-01-01"),
        (CommonDate::new(12025, 6, 29), "12025-06-29"),
        (CommonDate::new(12025, 6, 30), "12025-06-30"),
        (CommonDate::new(12025, 7, 1), "12025-07-01"),
    ];
    for item in d_list {
        let d = Holocene::try_from_common_date(item.0).unwrap();
        let s = d.short_date();
        assert_eq!(s, item.1);
    }
}

#[test]
fn tranquility_long_date() {
    let d_list = [
        (CommonDate::new(0, 0, 0), "Moon Landing Day"),
        (
            CommonDate::new(1, 1, 1),
            "Friday Archimedes 1, 1 After Tranquility",
        ),
        (
            CommonDate::new(2, 2, 2),
            "Saturday Brahe 2, 2 After Tranquility",
        ),
        (
            CommonDate::new(3, 3, 3),
            "Sunday Copernicus 3, 3 After Tranquility",
        ),
        (
            CommonDate::new(4, 4, 4),
            "Monday Darwin 4, 4 After Tranquility",
        ),
        (
            CommonDate::new(5, 5, 5),
            "Tuesday Einstein 5, 5 After Tranquility",
        ),
        (
            CommonDate::new(6, 6, 6),
            "Wednesday Faraday 6, 6 After Tranquility",
        ),
        (
            CommonDate::new(7, 7, 7),
            "Thursday Galileo 7, 7 After Tranquility",
        ),
        (
            CommonDate::new(8, 8, 8),
            "Friday Hippocrates 8, 8 After Tranquility",
        ),
        (
            CommonDate::new(9, 9, 9),
            "Saturday Imhotep 9, 9 After Tranquility",
        ),
        (
            CommonDate::new(10, 10, 10),
            "Sunday Jung 10, 10 After Tranquility",
        ),
        (
            CommonDate::new(11, 11, 11),
            "Monday Kepler 11, 11 After Tranquility",
        ),
        (
            CommonDate::new(12, 12, 12),
            "Tuesday Lavoisier 12, 12 After Tranquility",
        ),
        (
            CommonDate::new(-1, 13, 28),
            "Thursday Mendel 28, 1 Before Tranquility",
        ),
        (
            CommonDate::new(-2, 0, 1),
            "Armstrong Day, 2 Before Tranquility",
        ),
        (
            CommonDate::new(31, 8, 27),
            "Wednesday Hippocrates 27, 31 After Tranquility",
        ),
        (
            CommonDate::new(31, 0, 2),
            "Aldrin Day, 31 After Tranquility",
        ),
        (
            CommonDate::new(31, 8, 28),
            "Thursday Hippocrates 28, 31 After Tranquility",
        ),
        (
            CommonDate::new(56, 4, 1),
            "Friday Darwin 1, 56 After Tranquility",
        ),
    ];
    for item in d_list {
        let d = Tranquility::try_from_common_date(item.0).unwrap();
        let s = d.long_date();
        assert_eq!(s, item.1);
    }
}

#[test]
fn tranquility_short_date() {
    let d_list = [
        (CommonDate::new(0, 0, 0), "0-MOO"),
        (CommonDate::new(1, 1, 1), "1-A01"),
        (CommonDate::new(2, 2, 2), "2-B02"),
        (CommonDate::new(3, 3, 3), "3-C03"),
        (CommonDate::new(4, 4, 4), "4-D04"),
        (CommonDate::new(5, 5, 5), "5-E05"),
        (CommonDate::new(6, 6, 6), "6-F06"),
        (CommonDate::new(7, 7, 7), "7-G07"),
        (CommonDate::new(8, 8, 8), "8-H08"),
        (CommonDate::new(9, 9, 9), "9-I09"),
        (CommonDate::new(10, 10, 10), "10-J10"),
        (CommonDate::new(11, 11, 11), "11-K11"),
        (CommonDate::new(12, 12, 12), "12-L12"),
        (CommonDate::new(-1, 13, 28), "-1-M28"),
        (CommonDate::new(-2, 0, 1), "-2-ARM"),
        (CommonDate::new(31, 8, 27), "31-H27"),
        (CommonDate::new(31, 0, 2), "31-ALD"),
        (CommonDate::new(31, 8, 28), "31-H28"),
        (CommonDate::new(56, 4, 1), "56-D01"),
    ];
    for item in d_list {
        let d = Tranquility::try_from_common_date(item.0).unwrap();
        let s = d.short_date();
        assert_eq!(s, item.1);
    }
}

#[test]
fn pridie_nones_of_march() {
    let j = Julian::try_from_common_date(CommonDate::new(-44, 3, 6)).unwrap();
    let f = j.to_fixed();
    let r = Roman::from_fixed(f);
    assert!(r.to_string().starts_with("pridie Nones March"));
}

#[test]
fn pridie_ides_of_march() {
    let j = Julian::try_from_common_date(CommonDate::new(-44, 3, 14)).unwrap();
    let f = j.to_fixed();
    let r = Roman::from_fixed(f);
    assert!(r.to_string().starts_with("pridie Ides March"));
}

#[test]
fn weekday_display_french() {
    assert!(Weekday::supported_display_lang(Language::EN));
    assert!(Weekday::supported_display_lang(Language::FR));
    let w_list = [
        (Weekday::Monday, "Monday", "Lundi", "1"),
        (Weekday::Tuesday, "Tuesday", "Mardi", "2"),
        (Weekday::Wednesday, "Wednesday", "Mercredi", "3"),
        (Weekday::Thursday, "Thursday", "Jeudi", "4"),
        (Weekday::Friday, "Friday", "Vendredi", "5"),
        (Weekday::Saturday, "Saturday", "Samedi", "6"),
        (Weekday::Sunday, "Sunday", "Dimanche", "0"),
    ];
    for item in w_list {
        let w = item.0;
        let s0_en = item.1;
        let s0_fr = item.2;
        let n0 = item.3;
        let s1_en = w.preset_str(Language::EN, WEEKDAY_NAME_ONLY);
        let s1_fr = w.preset_str(Language::FR, WEEKDAY_NAME_ONLY);
        assert_eq!(s0_en, s1_en);
        assert_eq!(s0_fr, s1_fr);
        const O: DisplayOptions = DisplayOptions {
            numerals: None,
            width: None,
            align: None,
            padding: None,
            case: None,
            sign: Sign::Never,
            locale: Locale::en_CA,
        };
        assert_eq!(w.fmt_numeric(NumericContent::DayOfWeek, O), n0);
    }
}

#[test]
fn gregorian_long_date() {
    let d_list = [
        (CommonDate::new(1582, 10, 15), "Friday October 15, 1582 Common Era"),
        (CommonDate::new(2012, 12, 21), "Friday December 21, 2012 Common Era"),
        (CommonDate::new(2025, 1, 1), "Wednesday January 1, 2025 Common Era"),
        (CommonDate::new(2025, 6, 29), "Sunday June 29, 2025 Common Era"),
        (CommonDate::new(2025, 6, 30), "Monday June 30, 2025 Common Era"),
        (CommonDate::new(2025, 7, 1), "Tuesday July 1, 2025 Common Era"),
    ];
    for item in d_list {
        let d = Gregorian::try_from_common_date(item.0).unwrap();
        let s = d.long_date();
        assert_eq!(s, item.1);
    }
}

#[test]
fn gregorian_short_date() {
    let d_list = [
        (CommonDate::new(1582, 10, 15), "1582-10-15"),
        (CommonDate::new(2012, 12, 21), "2012-12-21"),
        (CommonDate::new(2025, 1, 1), "2025-01-01"),
        (CommonDate::new(2025, 6, 29), "2025-06-29"),
        (CommonDate::new(2025, 6, 30), "2025-06-30"),
        (CommonDate::new(2025, 7, 1), "2025-07-01"),
    ];
    for item in d_list {
        let d = Gregorian::try_from_common_date(item.0).unwrap();
        let s = d.short_date();
        assert_eq!(s, item.1);
    }
}

#[test]
fn number_fits_check_matches_padding() {
    let mut opt = DisplayOptions {
        numerals: None,
        width: None,
        align: None,
        padding: None,
        case: None,
        sign: Sign::OnlyNegative,
        locale: Locale::en_CA,
    };
    assert!(number_fits_check(12345, opt));
    opt.padding = Some('0');
    opt.width = Some(4);
    assert!(number_fits_check(1234, opt));
    assert!(!number_fits_check(12345, opt));
    assert!(!number_fits_check(-1234, opt));
    assert!(number_fits_check(-123, opt));
}
