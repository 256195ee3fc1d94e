use radnelac::calendar::armenian::Armenian;
use radnelac::calendar::coptic::Coptic;
use radnelac::calendar::cotsworth::Cotsworth;
use radnelac::calendar::egyptian::Egyptian;
use radnelac::calendar::ethiopic::Ethiopic;
use radnelac::calendar::french_rev_arith::FrenchRevArith;
use radnelac::calendar::gregorian::Gregorian;
use radnelac::calendar::holocene::Holocene;
use radnelac::calendar::iso::ISO;
use radnelac::calendar::julian::Julian;
use radnelac::calendar::positivist::Positivist;
use radnelac::calendar::prelude::HasLeapYears;
use radnelac::calendar::prelude::ToFromCommonDate;
use radnelac::calendar::prelude::ToFromOrdinalDate;
use radnelac::calendar::roman::Roman;
use radnelac::calendar::symmetry::Symmetry010;
use radnelac::calendar::symmetry::Symmetry010Solstice;
use radnelac::calendar::symmetry::Symmetry454;
use radnelac::calendar::symmetry::Symmetry454Solstice;
use radnelac::calendar::symmetry::SymmetryMonth;
use radnelac::calendar::tranquility::Tranquility;
use radnelac::common::date::CommonDate;
use radnelac::common::error::CalendarError;
use radnelac::common::math::modulus;
use radnelac::day_count::fixed::FromFixed;
use radnelac::day_count::fixed::ToFixed;
use radnelac::day_cycle::akan::Akan;
use radnelac::day_cycle::akan::AkanPrefix;
use radnelac::day_cycle::akan::AkanStem;
use radnelac::day_cycle::prelude::OnOrBefore;
use radnelac::day_cycle::week::Weekday;

#[test]
fn convert_keeps_day_and_comes_back() {
    let dates = [
        CommonDate::new(2025, 7, 26),
        CommonDate::new(1582, 10, 15),
        CommonDate::new(-44, 3, 15),
        CommonDate::new(1, 1, 1),
        CommonDate::new(2000, 2, 29),
    ];
    for c in dates {
        let g = Gregorian::try_from_common_date(c).unwrap();
        let f = g.to_fixed();
        assert_eq!(g.convert::<Julian>().to_fixed(), f);
        assert_eq!(g.convert::<Julian>().convert::<Gregorian>(), g);
        assert_eq!(g.convert::<Coptic>().convert::<Gregorian>(), g);
        assert_eq!(g.convert::<Ethiopic>().convert::<Gregorian>(), g);
        assert_eq!(g.convert::<Egyptian>().convert::<Gregorian>(), g);
        assert_eq!(g.convert::<Armenian>().convert::<Gregorian>(), g);
        assert_eq!(g.convert::<Holocene>().convert::<Gregorian>(), g);
        assert_eq!(g.convert::<Positivist>().convert::<Gregorian>(), g);
        assert_eq!(g.convert::<Cotsworth>().convert::<Gregorian>(), g);
        assert_eq!(g.convert::<Tranquility>().convert::<Gregorian>(), g);
        assert_eq!(g.convert::<ISO>().convert::<Gregorian>(), g);
        assert_eq!(g.convert::<Symmetry454>().convert::<Gregorian>(), g);
        assert_eq!(g.convert::<FrenchRevArith<true>>().convert::<Gregorian>(), g);
    }
    let j = Julian::try_from_common_date(CommonDate::new(2025, 7, 13)).unwrap();
    assert_eq!(j.convert::<Gregorian>().to_common_date(), CommonDate::new(2025, 7, 26));
}

#[test]
fn modulus_laws_on_values() {
    // a negated dividend leaves the divisor less the remainder
    assert_eq!(modulus(-9, 5), 5 - modulus(9, 5));
    // negating both negates the remainder
    assert_eq!(modulus(-9, -5), -modulus(9, 5));
    // scaling both scales the remainder
    assert_eq!(modulus(9 * 3, 5 * 3), modulus(9, 5) * 3);
    assert_eq!(modulus(9 * -3, 5 * -3), modulus(9, 5) * -3);
    // the dividend less the remainder is a multiple of the divisor
    assert_eq!((17 - modulus(17, -5)) % 5, 0);
    assert_eq!(modulus(17, -5), -3);
}

#[test]
fn weekday_sequence_from_sunday() {
    let d0 = Weekday::Sunday.on_or_before(739458);
    let names = [
        Weekday::Sunday,
        Weekday::Monday,
        Weekday::Tuesday,
        Weekday::Wednesday,
        Weekday::Thursday,
        Weekday::Friday,
        Weekday::Saturday,
    ];
    for k in 0..7 {
        assert_eq!(Weekday::from_fixed(d0 + k as i64), names[k]);
    }
    assert_eq!(
        Weekday::Monday.on_or_before(739458 + 7 * 20871),
        Weekday::Monday.on_or_before(739458) + 146097
    );
}

#[test]
fn akan_prefix_and_stem_cycles() {
    let x: i64 = 739458;
    let a1 = Akan::from_fixed(x);
    for d in 1..6 {
        let a2 = Akan::from_fixed(x + d);
        assert_ne!(a1.prefix(), a2.prefix());
        assert_ne!(a1.stem(), a2.stem());
    }
    let a3 = Akan::from_fixed(x + 6);
    let a4 = Akan::from_fixed(x + 7);
    assert_eq!(a1.prefix(), a3.prefix());
    assert_ne!(a1.stem(), a3.stem());
    assert_ne!(a1.prefix(), a4.prefix());
    assert_eq!(a1.stem(), a4.stem());
    let fo = Akan::new(AkanPrefix::Fo, AkanStem::Bene);
    let f = fo.on_or_before(x);
    let next = Akan::from_fixed(f + 1);
    assert_eq!(next.prefix(), AkanPrefix::Nwona);
    assert_eq!(next.stem(), AkanStem::Wukuo);
    assert_eq!(fo.to_string(), "Fo-Bene");
    assert_eq!(Akan::new(AkanPrefix::Fo, AkanStem::Fie).to_string(), "Fo-Fie");
    assert_eq!(Akan::new(AkanPrefix::Kuru, AkanStem::Fie).to_string(), "Kuru-Afie");
}

#[test]
fn gregorian_repeats_every_400_years() {
    let g = Gregorian::try_from_common_date(CommonDate::new(1969, 7, 20)).unwrap();
    let later = Gregorian::from_fixed(g.to_fixed() + 146097);
    assert_eq!(later.to_common_date(), CommonDate::new(2369, 7, 20));
}

#[test]
fn symmetry_weeks() {
    for year in [-400, 1, 2009, 2010, 2015, 2025] {
        for month in 1..13u8 {
            let first = CommonDate::new(year, month, 1);
            let m = SymmetryMonth::from_u8(month).unwrap();
            let last = CommonDate::new(year, month, Symmetry454::days_in_month(m));
            let thirteenth = CommonDate::new(year, month, 13);
            let d = Symmetry454::try_from_common_date(first).unwrap();
            assert_eq!(d.convert::<Weekday>(), Weekday::Monday);
            let d = Symmetry454Solstice::try_from_common_date(first).unwrap();
            assert_eq!(d.convert::<Weekday>(), Weekday::Monday);
            let d = Symmetry454::try_from_common_date(last).unwrap();
            assert_eq!(d.convert::<Weekday>(), Weekday::Sunday);
            let d = Symmetry454Solstice::try_from_common_date(last).unwrap();
            assert_eq!(d.convert::<Weekday>(), Weekday::Sunday);
            let d = Symmetry454::try_from_common_date(thirteenth).unwrap();
            assert_ne!(d.convert::<Weekday>(), Weekday::Friday);
            let d = Symmetry010::try_from_common_date(thirteenth).unwrap();
            assert_ne!(d.convert::<Weekday>(), Weekday::Friday);
            let d = Symmetry010Solstice::try_from_common_date(thirteenth).unwrap();
            assert_ne!(d.convert::<Weekday>(), Weekday::Friday);
        }
        let d = Symmetry010::try_from_common_date(CommonDate::new(year, 1, 1)).unwrap();
        assert_eq!(d.convert::<Weekday>(), Weekday::Monday);
        let d = Symmetry010Solstice::try_from_common_date(CommonDate::new(year, 1, 1)).unwrap();
        assert_eq!(d.convert::<Weekday>(), Weekday::Monday);
    }
}

#[test]
fn iso_first_week_of_years() {
    // 2021 starts on a Friday, 2022 on a Saturday after a common year, 2023 on a Sunday,
    // 2025 on a Wednesday, 2005 on a Saturday after a leap year.
    let cases = [
        (2021, 2020, 53, Weekday::Friday),
        (2022, 2021, 52, Weekday::Saturday),
        (2023, 2022, 52, Weekday::Sunday),
        (2025, 2025, 1, Weekday::Wednesday),
        (2005, 2004, 53, Weekday::Saturday),
    ];
    for (year, iso_year, week, day) in cases {
        let g = Gregorian::try_from_common_date(CommonDate::new(year, 1, 1)).unwrap();
        let i = g.convert::<ISO>();
        assert_eq!(i.year(), iso_year);
        assert_eq!(i.week(), week);
        assert_eq!(i.day(), day);
        if week == 53 {
            assert!(ISO::is_leap(iso_year));
        }
    }
    for year in [1999, 2000, 2021, 2026] {
        let targets = [
            (1, 4), (1, 11), (1, 18), (1, 25), (2, 1), (2, 8), (2, 15), (2, 22),
        ];
        for (k, target) in targets.iter().enumerate() {
            let g = Gregorian::try_from_common_date(CommonDate::new(year, target.0, target.1))
                .unwrap();
            let i = g.convert::<ISO>();
            assert_eq!(i.year(), year);
            assert_eq!(i.week() as usize, k + 1);
        }
    }
}

#[test]
fn coptic_feasts_in_julian() {
    for y in [-1000, -284, -283, 1, 1604, 1741, 1742, 1743, 1744, 2000] {
        let c = Coptic::try_from_common_date(CommonDate::new(y, 4, 29)).unwrap();
        let j = c.convert::<Julian>().to_common_date();
        let a = y + 283;
        assert_eq!(j.month, 12);
        assert_eq!(j.day, if a.rem_euclid(4) == 3 { 26 } else { 25 });
        assert_eq!(j.year, if a <= 0 { a - 1 } else { a });
        let c = Coptic::try_from_common_date(CommonDate::new(y, 1, 1)).unwrap();
        let j = c.convert::<Julian>().to_common_date();
        assert_eq!(j.month, 8);
        assert!(j.day == 29 || j.day == 30);
    }
    for jy in [4, 2000, 2024] {
        let j = Julian::try_from_common_date(CommonDate::new(jy, 1, 1)).unwrap();
        let c = j.convert::<Coptic>();
        assert_eq!(c.to_common_date(), CommonDate::new(jy - 284, 5, 5));
        assert!(!Coptic::is_leap(c.year()));
        assert!(Coptic::is_leap(c.year() - 1));
    }
}

#[test]
fn invalid_year_0() {
    for month in 1..12u8 {
        for day in 1..28u8 {
            let c = CommonDate::new(0, month, day);
            assert_eq!(Julian::try_from_common_date(c), Err(CalendarError::InvalidYear));
        }
    }
}

#[test]
fn error_variants() {
    assert_eq!(
        Gregorian::try_from_common_date(CommonDate::new(2025, 13, 1)),
        Err(CalendarError::InvalidMonth)
    );
    assert_eq!(
        Gregorian::try_from_common_date(CommonDate::new(2025, 2, 29)),
        Err(CalendarError::InvalidDay)
    );
    assert!(Gregorian::try_from_common_date(CommonDate::new(2024, 2, 29)).is_ok());
    assert_eq!(
        ISO::try_new(2025, 53, Weekday::Monday),
        Err(CalendarError::InvalidWeek)
    );
    assert!(ISO::try_new(2020, 53, Weekday::Monday).is_ok());
    assert_eq!(
        Positivist::try_from_common_date(CommonDate::new(201, 14, 2)),
        Err(CalendarError::InvalidDay)
    );
    assert_eq!(CommonDate::try_new(i32::MAX, 1, 1), Err(CalendarError::OutOfBounds));
}

#[test]
fn french_months_align_to_gregorian() {
    let table = [
        (9, 22, 24),
        (10, 22, 24),
        (11, 21, 23),
        (12, 21, 23),
        (1, 20, 22),
        (2, 19, 21),
        (3, 21, 22),
        (4, 20, 21),
        (5, 20, 21),
        (6, 19, 20),
        (7, 19, 20),
        (8, 18, 19),
    ];
    for year in 0..100 {
        for (i, entry) in table.iter().enumerate() {
            let c = CommonDate::new(year, (i + 1) as u8, 1);
            let f0 = FrenchRevArith::<true>::try_from_common_date(c).unwrap().to_fixed();
            let f1 = FrenchRevArith::<false>::try_from_common_date(c).unwrap().to_fixed();
            let g = Gregorian::from_fixed(f0).to_common_date();
            assert_eq!(g.month, entry.0);
            assert!(entry.1 <= g.day && g.day <= entry.2);
            assert!((f1 - f0).abs() < 2);
        }
    }
}

#[test]
fn tranquility_months_in_gregorian() {
    let table = [
        ((7, 21), (8, 17)),
        ((8, 18), (9, 14)),
        ((9, 15), (10, 12)),
        ((10, 13), (11, 9)),
        ((11, 10), (12, 7)),
        ((12, 8), (1, 4)),
        ((1, 5), (2, 1)),
        ((2, 2), (3, 1)),
        ((3, 2), (3, 29)),
        ((3, 30), (4, 26)),
        ((4, 27), (5, 24)),
        ((5, 25), (6, 21)),
        ((6, 22), (7, 19)),
    ];
    let start = Gregorian::try_from_common_date(CommonDate::new(1966, 1, 1)).unwrap().to_fixed();
    for f in start..start + 365 * 8 {
        let gc = Gregorian::from_fixed(f).to_common_date();
        let q = Tranquility::from_fixed(f);
        match q.try_month() {
            Some(m) => {
                let entry = table[(m.to_u8() - 1) as usize];
                let key = (gc.month, gc.day);
                if entry.0 .0 <= entry.1 .0 {
                    assert!(key >= entry.0 && key <= entry.1, "{:?} {:?}", gc, q);
                } else {
                    assert!(key >= entry.0 || key <= entry.1, "{:?} {:?}", gc, q);
                }
            }
            None => {
                let c = q.to_common_date();
                if c.day == 2 {
                    assert_eq!((gc.month, gc.day), (2, 29));
                } else {
                    assert_eq!((gc.month, gc.day), (7, 20));
                }
            }
        }
    }
}

#[test]
fn akan_names_repeat_every_42_days_only() {
    for n in [-100i64, -1, 0, 1, 37, 1000] {
        assert_eq!(Akan::day_name(n + 42), Akan::day_name(n));
        for d in 1..42 {
            assert_ne!(Akan::day_name(n + d), Akan::day_name(n));
        }
    }
}

#[test]
fn akan_each_name_once_in_a_cycle() {
    let mut seen: Vec<Akan> = Vec::new();
    for n in 0..42i64 {
        let a = Akan::day_name(n);
        assert!(!seen.contains(&a));
        seen.push(a);
    }
    assert_eq!(seen.len(), 42);
}

#[test]
fn roman_order_follows_days() {
    let start = Julian::try_from_common_date(CommonDate::new(-2, 12, 20)).unwrap().to_fixed();
    for f in start..start + 800 {
        let a = Roman::from_fixed(f);
        let b = Roman::from_fixed(f + 1);
        assert!(a < b, "{:?} {:?}", a, b);
        assert_eq!(a.partial_cmp(&a), Some(std::cmp::Ordering::Equal));
    }
}

#[test]
fn ordinal_round_trips() {
    for f in [-1000i64, 0, 1, 719000, 730000] {
        let g = Gregorian::from_fixed(f);
        assert_eq!(Gregorian::from_ordinal_unchecked(g.to_ordinal()), g);
        let t = Tranquility::from_fixed(f);
        assert_eq!(Tranquility::from_ordinal_unchecked(t.to_ordinal()), t);
    }
    let moon = Tranquility::try_from_common_date(CommonDate::new(0, 0, 0)).unwrap();
    assert_eq!(Tranquility::from_ordinal_unchecked(moon.to_ordinal()), moon);
}

#[test]
fn symmetry_year_with_far_epoch() {
    let epoch: i64 = 1_000_000_000_000_000;
    assert_eq!(Symmetry454::year_from_fixed(epoch, epoch), (1, epoch));
    for f in [epoch - 1000, epoch - 1, epoch + 364, epoch + 100_000] {
        let (y, s) = Symmetry454::year_from_fixed(f, epoch);
        assert_eq!(s, Symmetry454::new_year_day_unchecked(y, epoch));
        assert!(s <= f && f < Symmetry454::new_year_day_unchecked(y + 1, epoch));
    }
    assert_eq!(Symmetry454::year_from_fixed(epoch - 1, epoch).0, 0);
}
