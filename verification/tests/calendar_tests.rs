use radnelac::calendar::coptic::Coptic;
use radnelac::calendar::french_rev_arith::FrenchRevArith;
use radnelac::calendar::french_rev_arith::FrenchRevMonth;
use radnelac::calendar::gregorian::Gregorian;
use radnelac::calendar::holocene::Holocene;
use radnelac::calendar::iso::ISO;
use radnelac::calendar::julian::Julian;
use radnelac::calendar::olympiad::Olympiad;
use radnelac::calendar::positivist::Positivist;
use radnelac::calendar::prelude::CommonWeekOfYear;
use radnelac::calendar::prelude::HasLeapYears;
use radnelac::calendar::prelude::ToFromCommonDate;
use radnelac::calendar::prelude::ToFromOrdinalDate;
use radnelac::calendar::roman::Roman;
use radnelac::calendar::roman::RomanMonth;
use radnelac::calendar::roman::RomanMonthlyEvent;
use radnelac::calendar::symmetry::Symmetry010;
use radnelac::calendar::symmetry::Symmetry010Solstice;
use radnelac::calendar::symmetry::Symmetry454;
use radnelac::calendar::symmetry::Symmetry454Solstice;
use radnelac::calendar::tranquility::Tranquility;
use radnelac::common::date::CommonDate;
use radnelac::common::math::adjusted_remainder;
use radnelac::day_count::fixed::Epoch;
use radnelac::day_count::fixed::FromFixed;
use radnelac::day_count::fixed::ToFixed;
use radnelac::day_cycle::week::Weekday;

#[test]
fn handbook() {
    let c = Coptic::try_from_common_date(CommonDate::new(1604, 1, 1)).unwrap();
    let g = c.convert::<Gregorian>();
    assert_eq!(g.to_common_date(), CommonDate::new(1887, 9, 11));
}

#[test]
fn leaps() {
    assert!(FrenchRevArith::<true>::is_leap(3));
    assert!(FrenchRevArith::<true>::is_leap(7));
    assert!(FrenchRevArith::<true>::is_leap(11));
    assert!(FrenchRevArith::<false>::is_leap(4));
    assert!(FrenchRevArith::<false>::is_leap(8));
    assert!(FrenchRevArith::<false>::is_leap(12));
}

#[test]
fn revolutionary_events() {
        let event_list = [
            (
                CommonDate::new(2, FrenchRevMonth::Prairial.to_u8(), 22),
                CommonDate::new(2, FrenchRevMonth::Prairial.to_u8(), 22),
                CommonDate::new(1794, 6, 10),
            ),
            (
                CommonDate::new(2, FrenchRevMonth::Thermidor.to_u8(), 9),
                CommonDate::new(2, FrenchRevMonth::Thermidor.to_u8(), 9),
                CommonDate::new(1794, 7, 27),
            ),
            (
                CommonDate::new(4, FrenchRevMonth::Vendemiaire.to_u8(), 13),
                CommonDate::new(4, FrenchRevMonth::Vendemiaire.to_u8(), 13 + 1), //Supposed to be 13
                CommonDate::new(1795, 10, 5),
            ),
            (
                CommonDate::new(5, FrenchRevMonth::Fructidor.to_u8(), 18),
                CommonDate::new(5, FrenchRevMonth::Fructidor.to_u8(), 18),
                CommonDate::new(1797, 9, 4),
            ),
            (
                CommonDate::new(6, FrenchRevMonth::Floreal.to_u8(), 22),
                CommonDate::new(6, FrenchRevMonth::Floreal.to_u8(), 22),
                CommonDate::new(1798, 5, 11),
            ),
            (
                CommonDate::new(7, FrenchRevMonth::Prairial.to_u8(), 30),
                CommonDate::new(7, FrenchRevMonth::Prairial.to_u8(), 30),
                CommonDate::new(1799, 6, 18),
            ),
            (
                CommonDate::new(8, FrenchRevMonth::Brumaire.to_u8(), 18),
                CommonDate::new(8, FrenchRevMonth::Brumaire.to_u8(), 18 + 1), //Supposed to be 18
                CommonDate::new(1799, 11, 9),
            ),
            (
                CommonDate::new(79, FrenchRevMonth::Floreal.to_u8(), 16),
                CommonDate::new(79, FrenchRevMonth::Floreal.to_u8(), 16),
                CommonDate::new(1871, 5, 6),
            ),
        ];
    for pair in event_list {
        let df0 = FrenchRevArith::<true>::try_from_common_date(pair.0)
            .unwrap()
            .to_fixed();
        let df1 = FrenchRevArith::<false>::try_from_common_date(pair.1)
            .unwrap()
            .to_fixed();
        let dg = Gregorian::try_from_common_date(pair.2).unwrap().to_fixed();
        assert_eq!(df0, dg);
        assert_eq!(df1, dg);
    }
}

#[test]
fn us_canada_labor_day() {
    let lbd = Gregorian::try_from_common_date(CommonDate {
        year: 2024,
        month: 9,
        day: 2,
    })
    .unwrap();
    let start = Gregorian::try_from_common_date(CommonDate {
        year: 2024,
        month: 9,
        day: 1,
    })
    .unwrap();
    let finish = start.nth_kday(1, Weekday::Monday);
    assert_eq!(lbd, Gregorian::from_fixed(finish));
}

#[test]
fn us_memorial_day() {
    let mmd = Gregorian::try_from_common_date(CommonDate::new(2024, 5, 27)).unwrap();
    let start = Gregorian::try_from_common_date(CommonDate::new(2024, 6, 1)).unwrap();
    let finish = start.nth_kday(-1, Weekday::Monday);
    assert_eq!(mmd, Gregorian::from_fixed(finish));
}

#[test]
fn prior_elapsed_days() {
    let count = Gregorian::prior_elapsed_days(2009);
    assert_eq!(count, 733407);
}

#[test]
fn ordinal_from_common() {
    let g = Gregorian::try_from_common_date(CommonDate::new(2009, 7, 14)).unwrap();
    let ord = g.to_ordinal();
    assert_eq!(ord.day_of_year, 195);
}

#[test]
fn notable_days() {
        let dlist = [
            (CommonDate::new(-4713, 11, 24), -1721425), //Julian Day epoch
            (CommonDate::new(-3760, 9, 7), -1373427),   //Hebrew epoch
            (CommonDate::new(-3113, 8, 11), -1137142),  //Mayan epoch
            (CommonDate::new(-3101, 1, 23), -1132959),  //Hindu epoch (Kali Yuga)
            (CommonDate::new(-2636, 2, 15), -963099),   //Chinese epoch
            (CommonDate::new(-746, 2, 18), -272787), //Egyptian epoch (Nabonassar era)
            (CommonDate::new(-310, 3, 29), -113502), //Babylonian epoch???????
            (CommonDate::new(-127, 12, 7), -46410),  //Tibetan epoch
            (CommonDate::new(0, 12, 30), -1),        // Julian calendar epoch
            (CommonDate::new(1, 1, 1), 1),           //Gregorian/ISO/Rata Die epoch
            (CommonDate::new(1, 2, 6), 37),          //Akan epoch
            (CommonDate::new(8, 8, 27), 2796),       //Ethiopic epoch
            (CommonDate::new(284, 8, 29), 103605),   //Coptic epoch
            (CommonDate::new(552, 7, 13), 201443),   //Armenian epoch
            (CommonDate::new(622, 3, 22), 226896),   //Persian epoch
            (CommonDate::new(622, 7, 19), 227015),   //Islamic epoch
            (CommonDate::new(632, 6, 19), 230638),   //Zoroastrian epoch?????
            (CommonDate::new(1792, 9, 22), 654415),  //French Revolutionary epoch
            (CommonDate::new(1844, 3, 21), 673222),  //Bahai epoch
            (CommonDate::new(1858, 11, 17), 678576), //Modified Julian Day epoch
            (CommonDate::new(1970, 1, 1), 719163),   //Unix epoch
            (CommonDate::new(1, 1, 2), 2),
            (CommonDate::new(1, 1, 31), 31),
            (CommonDate::new(400, 12, 31), 146097),
            (CommonDate::new(800, 12, 31), 146097 * 2),
            (CommonDate::new(1200, 12, 31), 146097 * 3),
            (CommonDate::new(1600, 12, 31), 146097 * 4),
            (CommonDate::new(2000, 12, 31), 146097 * 5),
            (CommonDate::new(2003, 12, 31), (146097 * 5) + (365 * 3)),
        ];
    for pair in dlist {
        let d = Gregorian::try_from_common_date(pair.0).unwrap().to_fixed();
        assert_eq!(d, pair.1);
    }
}

#[test]
fn h_epoch() {
    let dh = CommonDate {
        year: 1,
        month: 1,
        day: 1,
    };
    let dg = CommonDate {
        year: -9999,
        month: 1,
        day: 1,
    };
    let fh = Holocene::try_from_common_date(dh).unwrap().to_fixed();
    let fg = Gregorian::try_from_common_date(dg).unwrap().to_fixed();
    assert_eq!(fh, fg);
    assert_eq!(fh, Holocene::epoch());
}

#[test]
fn g_epoch() {
    let dh = CommonDate {
        year: 10001,
        month: 1,
        day: 1,
    };
    let dg = CommonDate {
        year: 1,
        month: 1,
        day: 1,
    };
    let fh = Holocene::try_from_common_date(dh).unwrap().to_fixed();
    let fg = Gregorian::try_from_common_date(dg).unwrap().to_fixed();
    assert_eq!(fh, fg);
    assert_eq!(fh, Gregorian::epoch());
}

#[test]
fn date_of_proposal() {
    let dh = CommonDate {
        year: 11993,
        month: 12,
        day: 30,
    };
    let dg = CommonDate {
        year: 1993,
        month: 12,
        day: 30,
    };
    let fh = Holocene::try_from_common_date(dh).unwrap().to_fixed();
    let fg = Gregorian::try_from_common_date(dg).unwrap().to_fixed();
    assert_eq!(fh, fg);
}

#[test]
fn week_of_impl() {
    let g = Gregorian::try_from_common_date(CommonDate::new(2025, 5, 15))
        .unwrap()
        .to_fixed();
    let i = ISO::from_fixed(g);
    assert_eq!(i.week(), 20);
}

#[test]
fn epoch() {
    let i0 = ISO::from_fixed(0);
    let i1 = ISO::from_fixed(-1);
    assert!(i0 > i1, "i0: {:?}, i1: {:?}", i0, i1);
}

#[test]
fn julian_gregorian_conversion() {
        let gap_list = [
            (CommonDate::new(1582, 10, 4), CommonDate::new(1582, 10, 15)), //Papal States, Spain, Portugal
            (CommonDate::new(1582, 12, 9), CommonDate::new(1582, 12, 20)), //France
            (CommonDate::new(1582, 12, 14), CommonDate::new(1582, 12, 25)), //"Flanders" (Belgium), Netherlands
            (CommonDate::new(1582, 12, 20), CommonDate::new(1582, 12, 31)), //"Southern Netherlands" (Belgium), Luxembourg
            (CommonDate::new(1582, 12, 31), CommonDate::new(1583, 1, 11)),  //"Aachen" (Germany)
            (CommonDate::new(1583, 1, 1), CommonDate::new(1583, 1, 12)), //"Holland" (Netherlands)
            (CommonDate::new(1583, 2, 10), CommonDate::new(1583, 2, 21)), //"Salzburg" (Austria), "Liege" (Belgium)
            (CommonDate::new(1583, 2, 13), CommonDate::new(1583, 2, 24)), //"Kaufbeuren" (Germany)
            (CommonDate::new(1583, 2, 14), CommonDate::new(1583, 2, 25)), //"Ellwangen" (Germany)
            (CommonDate::new(1583, 3, 1), CommonDate::new(1583, 3, 12)), //"Groningen" (Netherlands)
            (CommonDate::new(1583, 10, 4), CommonDate::new(1583, 10, 15)), //"Tyrol" (Austria)
            (CommonDate::new(1583, 10, 5), CommonDate::new(1583, 10, 16)), //"Bavaria" (Germany)
            (CommonDate::new(1583, 10, 13), CommonDate::new(1583, 10, 24)), //"Austrian Upper Alsace" (France)
            (CommonDate::new(1583, 10, 20), CommonDate::new(1583, 10, 31)), //"Lower Austria" (Austria)
            (CommonDate::new(1583, 11, 2), CommonDate::new(1583, 11, 13)),  //"Cologne" (Germany)
            (CommonDate::new(1583, 11, 11), CommonDate::new(1583, 11, 22)), //"Mainz" (Germany)
            (CommonDate::new(1632, 12, 14), CommonDate::new(1632, 12, 25)), //"Hildesheim" (Germany)
            (CommonDate::new(1700, 2, 18), CommonDate::new(1700, 3, 1)), //"Denmark-Norway" (Denmark, Norway)
            (CommonDate::new(1753, 2, 17), CommonDate::new(1753, 3, 1)), //Sweden (partial?)
            (CommonDate::new(1752, 9, 2), CommonDate::new(1752, 9, 14)), //British Empire (United Kingdom, Ireland, Canada, United States)
            (CommonDate::new(1753, 2, 17), CommonDate::new(1753, 3, 1)), //Sweden
            (CommonDate::new(1912, 11, 14), CommonDate::new(1912, 11, 28)), //Albania
            (CommonDate::new(1916, 3, 31), CommonDate::new(1916, 4, 14)), //Bulgaria
            (CommonDate::new(1918, 1, 31), CommonDate::new(1918, 2, 14)), //Soviet Union (Russia, etc.)
            (CommonDate::new(1918, 2, 15), CommonDate::new(1918, 3, 1)),  //Estonia, Ukraine
            (CommonDate::new(1918, 4, 17), CommonDate::new(1918, 5, 1)), //"Transcaucasian Democratic Federative Republic"
            (CommonDate::new(1919, 1, 14), CommonDate::new(1919, 1, 28)), //Yugoslavia
            (CommonDate::new(1919, 3, 31), CommonDate::new(1919, 4, 14)), //Romania
            (CommonDate::new(1923, 2, 15), CommonDate::new(1923, 3, 1)), //Greece
        ];
    for pair in gap_list {
        let dj = Julian::try_from_common_date(pair.0).unwrap().to_fixed();
        let dg = Gregorian::try_from_common_date(pair.1).unwrap().to_fixed();
        assert_eq!(dj + 1, dg);
    }
}

#[test]
fn cross_epoch() {
    let new_years_eve = Julian::try_year_end(-1).unwrap().to_fixed();
    let new_years_day = Julian::try_year_start(1).unwrap().to_fixed();
    assert_eq!(new_years_day, new_years_eve + 1);
    assert!(Julian::try_year_start(0).is_err());
    assert!(Julian::try_year_end(0).is_err());
}

#[test]
fn next_year_0() {
    let t0 = -1;
    let t1 = 1;
    let o0 = Olympiad::from_julian_year(t0);
    let o1 = Olympiad::from_julian_year(t1);
    assert_eq!(o1.year() as i64, adjusted_remainder(o0.year() as i64 + 1, 4));
    if o1.year() == 1 {
        assert_eq!(o1.cycle(), o0.cycle() + 1);
    } else {
        assert_eq!(o1.cycle(), o0.cycle());
    }
}

#[test]
fn example_from_text() {
    let dg = Gregorian::try_from_common_date(CommonDate::new(1855, 1, 1)).unwrap();
    let dp = Positivist::try_from_common_date(CommonDate::new(67, 1, 1)).unwrap();
    let fg = dg.to_fixed();
    let fp = dp.to_fixed();
    assert_eq!(fg, fp);
}

#[test]
fn roman_second_sixth_day_before_kalends_of_march() {
    let j24 = Julian::try_from_common_date(CommonDate::new(4, 2, 24)).unwrap();
    let j25 = Julian::try_from_common_date(CommonDate::new(4, 2, 25)).unwrap();
    let f24 = j24.to_fixed();
    let f25 = j25.to_fixed();
    let r24 = Roman::from_fixed(f24);
    let r25 = Roman::from_fixed(f25);
    assert_eq!(r24.year(), r25.year());
    assert_eq!(r24.month(), r25.month());
    assert_eq!(r24.event(), r25.event());
    assert_eq!(r24.count(), r25.count());
    assert!(!r24.leap() && r25.leap());
    assert!(r24 < r25);
    let r24s = r24.to_string();
    let r25s = r25.to_string();
    assert!(r24s.starts_with("ante diem VI Kalends March"), "{}", r24s);
    assert!(
        r25s.starts_with("ante diem bissextum VI Kalends March"),
        "{}",
        r25s
    );
}

#[test]
fn roman_ides_of_march() {
    let j = Julian::try_from_common_date(CommonDate::new(-44, 3, 15)).unwrap();
    let f = j.to_fixed();
    let r = Roman::from_fixed(f);
    assert_eq!(r.event(), RomanMonthlyEvent::Ides);
    assert_eq!(r.month(), RomanMonth::March);
    assert_eq!(r.count(), 1);
    assert!(r.to_string().starts_with("Ides of March"));
}

#[test]
fn is_leap_example() {
    assert!(Symmetry454::is_leap(2009));
    assert!(Symmetry454::is_leap(2015));
    assert!(Symmetry010::is_leap(2009));
    assert!(Symmetry010::is_leap(2015));

    assert!(!Symmetry454Solstice::is_leap(2009));
    assert!(!Symmetry010Solstice::is_leap(2009));
    assert!(Symmetry454Solstice::is_leap(2010));
    assert!(Symmetry010Solstice::is_leap(2016));
}

#[test]
fn new_year_day_example() {
    assert_eq!(Symmetry454::new_year_day_unchecked(2010, 1), 733776);
    assert_eq!(Symmetry010::new_year_day_unchecked(2010, 1), 733776);
    assert_eq!(Symmetry454Solstice::new_year_day_unchecked(2010, 1), 733769);
    assert_eq!(Symmetry010Solstice::new_year_day_unchecked(2010, 1), 733769);
}

#[test]
fn days_before_month() {
    assert_eq!(Symmetry454::days_before_month(1), 0);
    assert_eq!(Symmetry454::days_before_month(13), 364);
    assert_eq!(Symmetry454::days_before_month(6), 154);
    assert_eq!(Symmetry010::days_before_month(1), 0);
    assert_eq!(Symmetry010::days_before_month(13), 364);
    assert_eq!(Symmetry010::days_before_month(6), 152);

    assert_eq!(Symmetry454Solstice::days_before_month(1), 0);
    assert_eq!(Symmetry454Solstice::days_before_month(13), 364);
    assert_eq!(Symmetry454Solstice::days_before_month(6), 154);
    assert_eq!(Symmetry010Solstice::days_before_month(1), 0);
    assert_eq!(Symmetry010Solstice::days_before_month(13), 364);
    assert_eq!(Symmetry010Solstice::days_before_month(6), 152);
}

#[test]
fn day_of_year() {
    assert_eq!(Symmetry454::day_of_year(6, 17), 171);
    assert_eq!(Symmetry010::day_of_year(6, 17), 169);
    assert_eq!(Symmetry454Solstice::day_of_year(6, 17), 171);
    assert_eq!(Symmetry010Solstice::day_of_year(6, 17), 169);
}

#[test]
fn to_fixed() {
    assert_eq!(
        Symmetry454::try_from_common_date(CommonDate::new(2009, 4, 5))
            .unwrap()
            .to_fixed(),
        733500
    );
    assert_eq!(
        Symmetry010::try_from_common_date(CommonDate::new(2009, 4, 5))
            .unwrap()
            .to_fixed(),
        733500
    );
    assert_eq!(
        Symmetry454Solstice::try_from_common_date(CommonDate::new(2009, 4, 5))
            .unwrap()
            .to_fixed(),
        733500
    );
    assert_eq!(
        Symmetry010Solstice::try_from_common_date(CommonDate::new(2009, 4, 5))
            .unwrap()
            .to_fixed(),
        733500
    );
}

#[test]
fn year_from_fixed() {
    assert_eq!(Symmetry454::year_from_fixed(733649, 1), (2009, 733405));
    assert_eq!(Symmetry010::year_from_fixed(733649, 1), (2009, 733405));
    assert_eq!(Symmetry454::year_from_fixed(733406, 1), (2009, 733405));
    assert_eq!(Symmetry010::year_from_fixed(733406, 1), (2009, 733405));
    assert_eq!(Symmetry454::year_from_fixed(733774, 1).0, 2009);
    assert_eq!(Symmetry010::year_from_fixed(733774, 1).0, 2009);
}

#[test]
fn example_data() {
        let d_list = [
            (
                -44444 as i32,
                CommonDate::new(-121, 4, 27),
                CommonDate::new(-121, 4, 27),
                CommonDate::new(-121, 4, 27),
                CommonDate::new(-121, 4, 27),
            ),
            (
                -33333 as i32,
                CommonDate::new(-91, 9, 22),
                CommonDate::new(-91, 9, 24),
                CommonDate::new(-91, 9, 22),
                CommonDate::new(-91, 9, 24),
            ),
            (
                44444 as i32,
                CommonDate::new(122, 9, 8),
                CommonDate::new(122, 9, 10),
                CommonDate::new(122, 9, 8),
                CommonDate::new(122, 9, 10),
            ),
            (
                648491 as i32,
                CommonDate::new(1776, 7, 4),
                CommonDate::new(1776, 7, 4),
                CommonDate::new(1776, 7, 4),
                CommonDate::new(1776, 7, 4),
            ),
            (
                681724 as i32,
                CommonDate::new(1867, 7, 1),
                CommonDate::new(1867, 7, 1),
                CommonDate::new(1867, 7, 1),
                CommonDate::new(1867, 7, 1),
            ),
            (
                711058 as i32,
                CommonDate::new(1947, 10, 26),
                CommonDate::new(1947, 10, 26),
                CommonDate::new(1947, 10, 26),
                CommonDate::new(1947, 10, 26),
            ),
            (
                728515 as i32,
                CommonDate::new(1995, 8, 11),
                CommonDate::new(1995, 8, 9),
                CommonDate::new(1995, 8, 11),
                CommonDate::new(1995, 8, 9),
            ),
            (
                730179 as i32,
                CommonDate::new(2000, 2, 30),
                CommonDate::new(2000, 2, 28),
                CommonDate::new(2000, 2, 30),
                CommonDate::new(2000, 2, 28),
            ),
            (
                731703 as i32,
                CommonDate::new(2004, 5, 7),
                CommonDate::new(2004, 5, 5),
                CommonDate::new(2004, 5, 7),
                CommonDate::new(2004, 5, 5),
            ),
            (
                731946 as i32,
                CommonDate::new(2004, 13, 5),
                CommonDate::new(2004, 13, 5),
                CommonDate::new(2005, 1, 5),
                CommonDate::new(2005, 1, 5),
            ),
            (
                737475 as i32,
                CommonDate::new(2020, 2, 25),
                CommonDate::new(2020, 2, 23),
                CommonDate::new(2020, 2, 25),
                CommonDate::new(2020, 2, 23),
            ),
            (
                811236 as i32,
                CommonDate::new(2222, 2, 6),
                CommonDate::new(2222, 2, 4),
                CommonDate::new(2222, 2, 6),
                CommonDate::new(2222, 2, 4),
            ),
            (
                1217048 as i32,
                CommonDate::new(3333, 2, 35),
                CommonDate::new(3333, 3, 2),
                CommonDate::new(3333, 2, 35),
                CommonDate::new(3333, 3, 2),
            ),
        ];
    for item in d_list {
        let rd = item.0 as i64;
        let s454q = Symmetry454::try_from_common_date(item.1).unwrap();
        let s010q = Symmetry010::try_from_common_date(item.2).unwrap();
        let s454s = Symmetry454Solstice::try_from_common_date(item.3).unwrap();
        let s010s = Symmetry010Solstice::try_from_common_date(item.4).unwrap();
        assert_eq!(rd, s454q.to_fixed());
        assert_eq!(rd, s010q.to_fixed());
        assert_eq!(rd, s454s.to_fixed());
        assert_eq!(rd, s010s.to_fixed());
    }
}

#[test]
fn moon_landing_edge_cases() {
    let f0 = Tranquility::epoch();
    let q0 = Tranquility::from_fixed(f0);
    let c = CommonDate::new(0, 0, 0);
    assert_eq!(q0.to_common_date(), c);
    let f1 = q0.to_fixed();
    assert_eq!(f0, f1);
    assert_eq!(c, Tranquility::year_end_date(0));
    assert_eq!(c, Tranquility::year_start_date(0));
}

#[test]
fn one_bt_edge_cases() {
    let c = CommonDate::new(-1, 13, 28);
    assert_eq!(c, Tranquility::year_end_date(-1));
}

#[test]
fn obvious_conversions_from_gregorian() {
        let d_list = [
            (CommonDate::new(1969, 7, 20), CommonDate::new(0, 0, 0)),
            (CommonDate::new(1969, 6, 30), CommonDate::new(-1, 13, 9)),
            (CommonDate::new(1969, 7, 1), CommonDate::new(-1, 13, 10)),
            (CommonDate::new(1969, 7, 9), CommonDate::new(-1, 13, 18)),
            (CommonDate::new(1969, 7, 19), CommonDate::new(-1, 13, 28)),
            (CommonDate::new(1969, 7, 21), CommonDate::new(1, 1, 1)),
            (CommonDate::new(1969, 7, 31), CommonDate::new(1, 1, 11)),
            (CommonDate::new(1969, 8, 1), CommonDate::new(1, 1, 12)),
            (CommonDate::new(1965, 7, 20), CommonDate::new(-5, 0, 1)),
            (CommonDate::new(1968, 7, 20), CommonDate::new(-2, 0, 1)),
            (CommonDate::new(1970, 7, 20), CommonDate::new(1, 0, 1)),
            (CommonDate::new(1989, 7, 20), CommonDate::new(20, 0, 1)), //in Siggins' article
            (CommonDate::new(1995, 7, 20), CommonDate::new(26, 0, 1)),
            (CommonDate::new(1995, 7, 21), CommonDate::new(27, 1, 1)),
            (CommonDate::new(2000, 7, 20), CommonDate::new(31, 0, 1)),
            (CommonDate::new(2020, 7, 20), CommonDate::new(51, 0, 1)),
            (CommonDate::new(2025, 7, 20), CommonDate::new(56, 0, 1)),
            (CommonDate::new(1968, 2, 29), CommonDate::new(-2, 0, 2)),
            (CommonDate::new(1972, 2, 29), CommonDate::new(3, 0, 2)),
            (CommonDate::new(2000, 2, 29), CommonDate::new(31, 0, 2)),
        ];
    for pair in d_list {
        let dg = Gregorian::try_from_common_date(pair.0).unwrap().to_fixed();
        let dq = Tranquility::try_from_common_date(pair.1).unwrap().to_fixed();
        assert_eq!(dq, dg);
    }
}

#[test]
fn article_examples() {
        let d_list = [
            (CommonDate::new(1978, 7, 25), CommonDate::new(10, 1, 5)),
            (CommonDate::new(1958, 7, 29), CommonDate::new(-11, 1, 9)),
            (CommonDate::new(1953, 8, 12), CommonDate::new(-16, 1, 23)),
            (CommonDate::new(1989, 8, 17), CommonDate::new(21, 1, 28)),
            (CommonDate::new(1977, 8, 20), CommonDate::new(9, 2, 3)),
            (CommonDate::new(79, 8, 24), CommonDate::new(-1890, 2, 7)),
            (CommonDate::new(1989, 8, 31), CommonDate::new(21, 2, 14)),
            (CommonDate::new(1976, 9, 3), CommonDate::new(8, 2, 17)),
            (CommonDate::new(1857, 9, 5), CommonDate::new(-112, 2, 19)),
            (CommonDate::new(1982, 9, 9), CommonDate::new(14, 2, 23)),
            (CommonDate::new(1989, 9, 23), CommonDate::new(21, 3, 9)),
            (CommonDate::new(1988, 9, 29), CommonDate::new(20, 3, 15)),
            (CommonDate::new(1957, 10, 4), CommonDate::new(-12, 3, 20)),
            (CommonDate::new(1492, 10, 12), CommonDate::new(-477, 3, 28)), //Apparently not Julian
            (CommonDate::new(1947, 10, 14), CommonDate::new(-22, 4, 2)),
            (CommonDate::new(1797, 10, 22), CommonDate::new(-172, 4, 10)),
            (CommonDate::new(1957, 11, 3), CommonDate::new(-12, 4, 22)),
            (CommonDate::new(1922, 11, 4), CommonDate::new(-47, 4, 23)),
            (CommonDate::new(1951, 11, 10), CommonDate::new(-18, 5, 1)),
            (CommonDate::new(1980, 11, 12), CommonDate::new(12, 5, 3)),
            (CommonDate::new(1859, 11, 24), CommonDate::new(-110, 5, 15)),
            (CommonDate::new(1903, 12, 17), CommonDate::new(-66, 6, 10)),
            (CommonDate::new(1989, 12, 21), CommonDate::new(21, 6, 14)),
            (CommonDate::new(1990, 1, 1), CommonDate::new(21, 6, 25)),
            (CommonDate::new(1610, 1, 7), CommonDate::new(-360, 7, 3)),
            (CommonDate::new(1812, 1, 23), CommonDate::new(-158, 7, 19)),
            (CommonDate::new(1990, 1, 26), CommonDate::new(21, 7, 22)),
            (CommonDate::new(1967, 1, 27), CommonDate::new(-3, 7, 23)),
            (CommonDate::new(1986, 1, 28), CommonDate::new(17, 7, 24)),
            (CommonDate::new(1966, 2, 3), CommonDate::new(-4, 8, 2)),
            (CommonDate::new(1984, 2, 3), CommonDate::new(15, 8, 2)),
            (CommonDate::new(1600, 2, 17), CommonDate::new(-370, 8, 16)),
            (CommonDate::new(1930, 2, 18), CommonDate::new(-40, 8, 17)),
            (CommonDate::new(1962, 2, 20), CommonDate::new(-8, 8, 19)),
            (CommonDate::new(1932, 2, 27), CommonDate::new(-38, 8, 26)),
            (CommonDate::new(1990, 3, 20), CommonDate::new(21, 9, 19)),
            (CommonDate::new(1979, 3, 28), CommonDate::new(10, 9, 27)),
            (CommonDate::new(1974, 3, 29), CommonDate::new(5, 9, 28)),
            (CommonDate::new(1826, 4, 1), CommonDate::new(-144, 10, 3)),
            (CommonDate::new(1909, 4, 6), CommonDate::new(-61, 10, 8)),
            (CommonDate::new(1961, 4, 12), CommonDate::new(-9, 10, 14)),
            (CommonDate::new(1972, 4, 16), CommonDate::new(3, 10, 18)),
            (CommonDate::new(1953, 04, 25), CommonDate::new(-17, 10, 27)),
            (CommonDate::new(1961, 05, 05), CommonDate::new(-9, 11, 9)),
            (CommonDate::new(1927, 05, 21), CommonDate::new(-43, 11, 25)),
            (CommonDate::new(1976, 05, 24), CommonDate::new(7, 11, 28)),
            (CommonDate::new(-584, 5, 28), CommonDate::new(-2554, 12, 4)),
            (CommonDate::new(1971, 5, 30), CommonDate::new(2, 12, 6)),
            (CommonDate::new(1896, 6, 2), CommonDate::new(-74, 12, 9)),
            (CommonDate::new(1979, 6, 12), CommonDate::new(10, 12, 19)),
            (CommonDate::new(1983, 6, 13), CommonDate::new(14, 12, 20)),
            (CommonDate::new(1752, 6, 15), CommonDate::new(-218, 12, 22)),
            (CommonDate::new(1983, 6, 18), CommonDate::new(14, 12, 25)),
            (CommonDate::new(1990, 6, 21), CommonDate::new(21, 12, 28)),
            (CommonDate::new(1947, 6, 24), CommonDate::new(-23, 13, 3)),
            (CommonDate::new(1908, 6, 30), CommonDate::new(-62, 13, 9)),
            (CommonDate::new(1979, 7, 11), CommonDate::new(10, 13, 20)),
            (CommonDate::new(1945, 7, 16), CommonDate::new(-25, 13, 25)),
        ];
    for pair in d_list {
        let dg = Gregorian::try_from_common_date(pair.0).unwrap().to_fixed();
        let dq = Tranquility::try_from_common_date(pair.1).unwrap().to_fixed();
        assert_eq!(dg, dq, "{:?}", pair);
    }
}

#[test]
fn orions_arm() {
        let d_list = [
            (CommonDate::new(1910, 10, 19), -59), //Chandrasekhar
            (CommonDate::new(1995, 8, 21), 27),   //Chandrasekhar*
            (CommonDate::new(1879, 3, 14), -91),  //Einstein*
            (CommonDate::new(1955, 4, 18), -15),  //Einstein*
            (CommonDate::new(1934, 3, 9), -36),   //Gagarin*
            (CommonDate::new(1968, 3, 27), -2),   //Gagarin*
            (CommonDate::new(1912, 6, 23), -58),  //Turing*
            (CommonDate::new(1954, 6, 7), -16),   //Turing*
        ];
    for pair in d_list {
        let f = Gregorian::try_from_common_date(pair.0).unwrap().to_fixed();
        let dq = Tranquility::from_fixed(f);
        assert_eq!(dq.year(), pair.1);
    }
}

#[test]
fn auc_year_conversions() {
    assert_eq!(Roman::julian_year_from_auc(1), 754);
    assert_eq!(Roman::julian_year_from_auc(-1), 753);
    assert_eq!(Roman::julian_year_from_auc(-753), 1);
    assert_eq!(Roman::julian_year_from_auc(2025), 2778);
    assert_eq!(Roman::auc_year_from_julian(1), -753);
    assert_eq!(Roman::auc_year_from_julian(754), 1);
    assert_eq!(Roman::auc_year_from_julian(753), -1);
    for t in [-10000, -754, -753, -1, 1, 753, 754, 2000, 10000] {
        assert_eq!(Roman::auc_year_from_julian(Roman::julian_year_from_auc(t)), t);
        assert_eq!(Roman::julian_year_from_auc(Roman::auc_year_from_julian(t)), t);
    }
}
