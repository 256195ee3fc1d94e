use crate::calendar::gregorian::gregorian_day_of_year;
use crate::calendar::gregorian::gregorian_fixed;
use crate::calendar::gregorian::month_quarter;
use crate::calendar::gregorian::Gregorian;
use crate::calendar::prelude::CommonWeekOfYear;
use crate::calendar::prelude::Quarter;
use crate::calendar::prelude::ToFromCommonDate;
use crate::calendar::prelude::ToFromOrdinalDate;
use crate::common::date::CommonDate;
use crate::day_count::fixed::Epoch;
use crate::day_count::fixed::ToFixed;
use crate::day_cycle::prelude::BoundedCycle;
use crate::day_cycle::week::weekday_of_number;
use crate::day_cycle::week::Weekday;
use crate::display::format::DisplayOptions;
use crate::display::format::NumericContent;
use crate::display::format::TextContent;
use crate::display::prelude::facts_fit;
use crate::display::prelude::facts_numeric_text;
use crate::display::prelude::fmt_facts_numeric;
use crate::display::prelude::DateFacts;
use crate::display::prelude::DisplayItem;
use crate::display::prelude::PresetDisplay;
use crate::display::prelude::PresetFormat;
use crate::display::prelude::LONG_DATE;
use crate::display::prelude::YYYYMMDD_DASH;
use crate::display::private::fmt_string;
use crate::display::private::fmt_string_spec;
use crate::display::text::dictionary_spec;
use crate::display::text::get_dict;
use crate::display::text::GregorianDictionary;
use crate::display::text::Language;
use crate::display::week::fmt_midnight_half;
use crate::display::week::fmt_weekday_name;
use crate::display::week::midnight_half_text;
use crate::display::week::weekday_name_text;
use crate::display::prelude::lemma_unpadded_preset_fits;
use vstd::prelude::*;

verus! {

/// The name of a month of the twelve-month year in a dictionary of Gregorian names.
pub open spec fn gregorian_month_name<'a>(g: GregorianDictionary<'a>, m: int) -> &'a str {
    if m == 1 {
        g.january
    } else if m == 2 {
        g.february
    } else if m == 3 {
        g.march
    } else if m == 4 {
        g.april
    } else if m == 5 {
        g.may
    } else if m == 6 {
        g.june
    } else if m == 7 {
        g.july
    } else if m == 8 {
        g.august
    } else if m == 9 {
        g.september
    } else if m == 10 {
        g.october
    } else if m == 11 {
        g.november
    } else {
        g.december
    }
}

/// Finds the name of a month in a dictionary of Gregorian names.
pub fn gregorian_month_name_of<'a>(g: GregorianDictionary<'a>, m: u8) -> (r: &'a str)
    ensures
        r == gregorian_month_name(g, m as int),
{
    if m == 1 {
        g.january
    } else if m == 2 {
        g.february
    } else if m == 3 {
        g.march
    } else if m == 4 {
        g.april
    } else if m == 5 {
        g.may
    } else if m == 6 {
        g.june
    } else if m == 7 {
        g.july
    } else if m == 8 {
        g.august
    } else if m == 9 {
        g.september
    } else if m == 10 {
        g.october
    } else if m == 11 {
        g.november
    } else {
        g.december
    }
}

/// The numbers of a Gregorian date that the formats write.
pub open spec fn gregorian_date_facts(d: CommonDate) -> DateFacts {
    let f = gregorian_fixed(d);
    let start = gregorian_fixed(CommonDate { year: d.year, month: 1, day: 1 });
    DateFacts {
        year: d.year as i128,
        month: Some(d.month as i128),
        day: Some(d.day as i128),
        weekday: Some((f % 7) as i128),
        day_of_year: Some(gregorian_day_of_year(d) as i128),
        quarter: month_quarter(d.month as int) as i128,
        days_since_epoch: (f - 1) as i128,
        week_of_year: Some((((f - start) / 7 + 1) as u8) as i128),
        complementary: None,
    }
}

/// The written names of a Gregorian date.
pub open spec fn gregorian_name_text(
    d: CommonDate,
    t: TextContent,
    lang: Language,
    opt: DisplayOptions,
) -> Seq<char> {
    let dict = dictionary_spec(lang).gregorian;
    match t {
        TextContent::MonthName => match dict {
            Some(g) => fmt_string_spec(gregorian_month_name(g, d.month as int)@, opt),
            None => Seq::empty(),
        },
        TextContent::DayOfMonthName => fmt_string_spec(Seq::empty(), opt),
        TextContent::DayOfWeekName => weekday_name_text(
            weekday_of_number(gregorian_fixed(d) % 7),
            lang,
            opt,
        ),
        TextContent::HalfDayName | TextContent::HalfDayAbbrev => midnight_half_text(t, lang, opt),
        TextContent::EraName => match dict {
            Some(g) => fmt_string_spec(
                (if d.year < 0 {
                    g.before_common_era_full
                } else {
                    g.common_era_full
                })@,
                opt,
            ),
            None => Seq::empty(),
        },
        TextContent::EraAbbreviation => match dict {
            Some(g) => fmt_string_spec(
                (if d.year < 0 {
                    g.before_common_era_abr
                } else {
                    g.common_era_abr
                })@,
                opt,
            ),
            None => Seq::empty(),
        },
        TextContent::ComplementaryDayName => Seq::empty(),
    }
}

impl Gregorian {
    /// The numbers of the date that the formats write.
    fn date_facts(self) -> (r: DateFacts)
        ensures
            r == gregorian_date_facts(self.common_view()),
    {
        let c = self.to_common_date();
        let f = self.to_fixed();
        let w = Weekday::from_unbounded(f);
        DateFacts {
            year: c.year as i128,
            month: Some(c.month as i128),
            day: Some(c.day as i128),
            weekday: Some(w.to_u8() as i128),
            day_of_year: Some(self.to_ordinal().day_of_year as i128),
            quarter: self.quarter() as i128,
            days_since_epoch: f as i128 - Gregorian::epoch() as i128,
            week_of_year: Some(self.week_of_year() as i128),
            complementary: None,
        }
    }
}

impl DisplayItem for Gregorian {
    proof fn lemma_unpadded_fits(self, n: NumericContent, opt: DisplayOptions) {
    }

    open spec fn supported_lang_spec(lang: Language) -> bool {
        dictionary_spec(lang).gregorian is Some
    }

    open spec fn numeric_text(self, n: NumericContent, opt: DisplayOptions) -> Seq<char> {
        facts_numeric_text(gregorian_date_facts(self.common_view()), n, opt)
    }

    open spec fn numeric_fits(self, n: NumericContent, opt: DisplayOptions) -> bool {
        facts_fit(gregorian_date_facts(self.common_view()), n, opt)
    }

    open spec fn name_text(self, t: TextContent, lang: Language, opt: DisplayOptions) -> Seq<
        char,
    > {
        gregorian_name_text(self.common_view(), t, lang, opt)
    }

    fn supported_lang(lang: Language) -> (r: bool) {
        get_dict(lang).gregorian.is_some()
    }

    fn fmt_numeric(&self, n: NumericContent, opt: DisplayOptions) -> (r: String) {
        fmt_facts_numeric(self.date_facts(), n, opt)
    }

    fn fmt_text(&self, t: TextContent, lang: Language, opt: DisplayOptions) -> (r: String) {
        let c = self.to_common_date();
        let dict = get_dict(lang).gregorian;
        proof {
            reveal_strlit("");
            assert(""@ =~= Seq::<char>::empty());
        }
        let r = match t {
            TextContent::MonthName => match dict {
                Some(g) => fmt_string(gregorian_month_name_of(g, c.month), opt),
                None => String::new(),
            },
            TextContent::DayOfMonthName => fmt_string("", opt),
            TextContent::DayOfWeekName => fmt_weekday_name(
                Weekday::from_unbounded(self.to_fixed()),
                lang,
                opt,
            ),
            TextContent::HalfDayName | TextContent::HalfDayAbbrev => fmt_midnight_half(t, lang, opt),
            TextContent::EraName => match dict {
                Some(g) => fmt_string(
                    if c.year < 0 {
                        g.before_common_era_full
                    } else {
                        g.common_era_full
                    },
                    opt,
                ),
                None => String::new(),
            },
            TextContent::EraAbbreviation => match dict {
                Some(g) => fmt_string(
                    if c.year < 0 {
                        g.before_common_era_abr
                    } else {
                        g.common_era_abr
                    },
                    opt,
                ),
                None => String::new(),
            },
            TextContent::ComplementaryDayName => String::new(),
        };
        assert(self.name_text(t, lang, opt) == gregorian_name_text(c, t, lang, opt));
        r
    }
}

impl PresetDisplay for Gregorian {
    open spec fn long_format(self) -> PresetFormat {
        LONG_DATE
    }

    open spec fn short_format(self) -> PresetFormat {
        YYYYMMDD_DASH
    }

    fn long_date(&self) -> (r: String) {
        proof {
            lemma_unpadded_preset_fits(*self, LONG_DATE);
        }
        self.preset_str(Language::EN, LONG_DATE)
    }

    fn short_date(&self) -> (r: String) {
        self.preset_str(Language::EN, YYYYMMDD_DASH)
    }
}

/// The English names that `gregorian_month_name` gives, by number: a table fixed apart from the code that
/// writes dates.
pub proof fn law_gregorian_month_name_english()
    ensures
        dictionary_spec(Language::EN).gregorian is Some,
        gregorian_month_name(dictionary_spec(Language::EN).gregorian.unwrap(), 1) == "January",
        gregorian_month_name(dictionary_spec(Language::EN).gregorian.unwrap(), 2) == "February",
        gregorian_month_name(dictionary_spec(Language::EN).gregorian.unwrap(), 3) == "March",
        gregorian_month_name(dictionary_spec(Language::EN).gregorian.unwrap(), 4) == "April",
        gregorian_month_name(dictionary_spec(Language::EN).gregorian.unwrap(), 5) == "May",
        gregorian_month_name(dictionary_spec(Language::EN).gregorian.unwrap(), 6) == "June",
        gregorian_month_name(dictionary_spec(Language::EN).gregorian.unwrap(), 7) == "July",
        gregorian_month_name(dictionary_spec(Language::EN).gregorian.unwrap(), 8) == "August",
        gregorian_month_name(dictionary_spec(Language::EN).gregorian.unwrap(), 9) == "September",
        gregorian_month_name(dictionary_spec(Language::EN).gregorian.unwrap(), 10) == "October",
        gregorian_month_name(dictionary_spec(Language::EN).gregorian.unwrap(), 11) == "November",
        gregorian_month_name(dictionary_spec(Language::EN).gregorian.unwrap(), 12) == "December",
{
}

/// The English era of a date: "Common Era" ("CE") for years from 1 on, "Before Common Era"
/// ("BCE") for years from -1 back; year 0 is written with the after era.
pub proof fn law_gregorian_era_english(x: Gregorian, opt: DisplayOptions)
    ensures
        x.common_view().year >= 1 ==> x.name_text(TextContent::EraName, Language::EN, opt) == fmt_string_spec("Common Era"@, opt),
        x.common_view().year <= -1 ==> x.name_text(TextContent::EraName, Language::EN, opt) == fmt_string_spec("Before Common Era"@, opt),
        x.common_view().year == 0 ==> x.name_text(TextContent::EraName, Language::EN, opt) == fmt_string_spec("Common Era"@, opt),
        x.common_view().year >= 1 ==> x.name_text(TextContent::EraAbbreviation, Language::EN, opt) == fmt_string_spec("CE"@, opt),
        x.common_view().year <= -1 ==> x.name_text(TextContent::EraAbbreviation, Language::EN, opt) == fmt_string_spec("BCE"@, opt),
        x.common_view().year == 0 ==> x.name_text(TextContent::EraAbbreviation, Language::EN, opt) == fmt_string_spec("CE"@, opt),
{
}

} // verus!
