use crate::calendar::julian::Julian;
use crate::calendar::prelude::CommonWeekOfYear;
use crate::calendar::prelude::ToFromCommonDate;
use crate::common::date::CommonDate;
use crate::day_count::fixed::ToFixed;
use crate::day_cycle::prelude::BoundedCycle;
use crate::day_cycle::week::weekday_of_number;
use crate::day_cycle::week::Weekday;
use crate::display::format::DisplayOptions;
use crate::display::format::NumericContent;
use crate::display::format::TextContent;
use crate::display::prelude::common_week_number;
use crate::display::prelude::facts_fit;
use crate::display::prelude::facts_numeric_text;
use crate::display::prelude::fmt_facts_numeric;
use crate::display::prelude::ordinal_date_facts;
use crate::display::prelude::ordinal_date_facts_of;
use crate::display::prelude::weekday_number_of;
use crate::display::prelude::weekday_number_of_fixed;
use crate::display::prelude::DisplayItem;
use crate::display::prelude::PresetDisplay;
use crate::display::prelude::PresetFormat;
use crate::display::prelude::LONG_DATE;
use crate::display::prelude::YYYYMMDD_DASH;
use crate::display::private::fmt_string;
use crate::display::private::fmt_string_spec;
use crate::display::text::dictionary_spec;
use crate::display::text::get_dict;
use crate::display::text::JulianDictionary;
use crate::display::text::Language;
use crate::display::week::fmt_midnight_half;
use crate::display::week::fmt_weekday_name;
use crate::display::week::midnight_half_text;
use crate::display::week::weekday_name_text;
use crate::display::prelude::lemma_unpadded_preset_fits;
use vstd::prelude::*;

verus! {

/// The name of a month in a dictionary of Julian names.
pub open spec fn julian_month_name<'a>(g: JulianDictionary<'a>, m: int) -> &'a str {
    if m == 1 {
        g.january
    } else if m == 2 {
        g.february
    } else if m == 3 {
        g.march
    } else if m == 4 {
        g.april
    } else if m == 5 {
        g.may
    } else if m == 6 {
        g.june
    } else if m == 7 {
        g.july
    } else if m == 8 {
        g.august
    } else if m == 9 {
        g.september
    } else if m == 10 {
        g.october
    } else if m == 11 {
        g.november
    } else {
        g.december
    }
}

/// Finds the name of a month in a dictionary of Julian names.
pub fn julian_month_name_of<'a>(g: JulianDictionary<'a>, m: u8) -> (r: &'a str)
    ensures
        r == julian_month_name(g, m as int),
{
    if m == 1 {
        g.january
    } else if m == 2 {
        g.february
    } else if m == 3 {
        g.march
    } else if m == 4 {
        g.april
    } else if m == 5 {
        g.may
    } else if m == 6 {
        g.june
    } else if m == 7 {
        g.july
    } else if m == 8 {
        g.august
    } else if m == 9 {
        g.september
    } else if m == 10 {
        g.october
    } else if m == 11 {
        g.november
    } else {
        g.december
    }
}

/// The written names of a Julian date, with the day count of the date.
pub open spec fn julian_name_text(
    d: CommonDate,
    fixed: int,
    t: TextContent,
    lang: Language,
    opt: DisplayOptions,
) -> Seq<char> {
    let dict = dictionary_spec(lang).julian;
    match t {
        TextContent::MonthName => match dict {
            Some(g) => fmt_string_spec(julian_month_name(g, d.month as int)@, opt),
            None => Seq::empty(),
        },
        TextContent::DayOfMonthName => fmt_string_spec(Seq::empty(), opt),
        TextContent::DayOfWeekName => weekday_name_text(weekday_of_number(fixed % 7), lang, opt),
        TextContent::HalfDayName | TextContent::HalfDayAbbrev => midnight_half_text(t, lang, opt),
        TextContent::EraName => match dict {
            Some(g) => fmt_string_spec(
                (if d.year < 0 {
                    g.before_christ_full
                } else {
                    g.anno_domini_full
                })@,
                opt,
            ),
            None => Seq::empty(),
        },
        TextContent::EraAbbreviation => match dict {
            Some(g) => fmt_string_spec(
                (if d.year < 0 {
                    g.before_christ_abr
                } else {
                    g.anno_domini_abr
                })@,
                opt,
            ),
            None => Seq::empty(),
        },
        TextContent::ComplementaryDayName => Seq::empty(),
    }
}

impl DisplayItem for Julian {
    proof fn lemma_unpadded_fits(self, n: NumericContent, opt: DisplayOptions) {
    }

    open spec fn supported_lang_spec(lang: Language) -> bool {
        dictionary_spec(lang).julian is Some
    }

    open spec fn numeric_text(self, n: NumericContent, opt: DisplayOptions) -> Seq<char> {
        facts_numeric_text(
            ordinal_date_facts(
                self,
                Some(weekday_number_of_fixed(self.fixed_spec())),
                Some(common_week_number(self)),
                None,
            ),
            n,
            opt,
        )
    }

    open spec fn numeric_fits(self, n: NumericContent, opt: DisplayOptions) -> bool {
        facts_fit(
            ordinal_date_facts(
                self,
                Some(weekday_number_of_fixed(self.fixed_spec())),
                Some(common_week_number(self)),
                None,
            ),
            n,
            opt,
        )
    }

    open spec fn name_text(self, t: TextContent, lang: Language, opt: DisplayOptions) -> Seq<
        char,
    > {
        julian_name_text(self.common_view(), self.fixed_spec(), t, lang, opt)
    }

    fn supported_lang(lang: Language) -> (r: bool) {
        get_dict(lang).julian.is_some()
    }

    fn fmt_numeric(&self, n: NumericContent, opt: DisplayOptions) -> (r: String) {
        let _ = self.to_common_date();
        let weekday = weekday_number_of(self.to_fixed());
        let week = self.week_of_year() as i128;
        let facts = ordinal_date_facts_of(*self, Some(weekday), Some(week), None);
        fmt_facts_numeric(facts, n, opt)
    }

    fn fmt_text(&self, t: TextContent, lang: Language, opt: DisplayOptions) -> (r: String) {
        let c = self.to_common_date();
        let dict = get_dict(lang).julian;
        proof {
            reveal_strlit("");
            assert(""@ =~= Seq::<char>::empty());
        }
        let r = match t {
            TextContent::MonthName => match dict {
                Some(g) => fmt_string(julian_month_name_of(g, c.month), opt),
                None => String::new(),
            },
            TextContent::DayOfMonthName => fmt_string("", opt),
            TextContent::DayOfWeekName => fmt_weekday_name(
                Weekday::from_unbounded(self.to_fixed()),
                lang,
                opt,
            ),
            TextContent::HalfDayName | TextContent::HalfDayAbbrev => fmt_midnight_half(t, lang, opt),
            TextContent::EraName => match dict {
                Some(g) => fmt_string(
                    if c.year < 0 {
                        g.before_christ_full
                    } else {
                        g.anno_domini_full
                    },
                    opt,
                ),
                None => String::new(),
            },
            TextContent::EraAbbreviation => match dict {
                Some(g) => fmt_string(
                    if c.year < 0 {
                        g.before_christ_abr
                    } else {
                        g.anno_domini_abr
                    },
                    opt,
                ),
                None => String::new(),
            },
            TextContent::ComplementaryDayName => String::new(),
        };
        assert(self.name_text(t, lang, opt) == julian_name_text(c, self.fixed_spec(), t, lang, opt));
        r
    }
}

impl PresetDisplay for Julian {
    open spec fn long_format(self) -> PresetFormat {
        LONG_DATE
    }

    open spec fn short_format(self) -> PresetFormat {
        YYYYMMDD_DASH
    }

    fn long_date(&self) -> (r: String) {
        proof {
            lemma_unpadded_preset_fits(*self, LONG_DATE);
        }
        self.preset_str(Language::EN, LONG_DATE)
    }

    fn short_date(&self) -> (r: String) {
        self.preset_str(Language::EN, YYYYMMDD_DASH)
    }
}

/// The English names that `julian_month_name` gives, by number: a table fixed apart from the code that
/// writes dates.
pub proof fn law_julian_month_name_english()
    ensures
        dictionary_spec(Language::EN).julian is Some,
        julian_month_name(dictionary_spec(Language::EN).julian.unwrap(), 1) == "January",
        julian_month_name(dictionary_spec(Language::EN).julian.unwrap(), 2) == "February",
        julian_month_name(dictionary_spec(Language::EN).julian.unwrap(), 3) == "March",
        julian_month_name(dictionary_spec(Language::EN).julian.unwrap(), 4) == "April",
        julian_month_name(dictionary_spec(Language::EN).julian.unwrap(), 5) == "May",
        julian_month_name(dictionary_spec(Language::EN).julian.unwrap(), 6) == "June",
        julian_month_name(dictionary_spec(Language::EN).julian.unwrap(), 7) == "July",
        julian_month_name(dictionary_spec(Language::EN).julian.unwrap(), 8) == "August",
        julian_month_name(dictionary_spec(Language::EN).julian.unwrap(), 9) == "September",
        julian_month_name(dictionary_spec(Language::EN).julian.unwrap(), 10) == "October",
        julian_month_name(dictionary_spec(Language::EN).julian.unwrap(), 11) == "November",
        julian_month_name(dictionary_spec(Language::EN).julian.unwrap(), 12) == "December",
{
}

/// The English era of a date: "Anno Domini" ("AD") for years from 1 on, "Before Christ"
/// ("BC") for years from -1 back; year 0 is written with the after era.
pub proof fn law_julian_era_english(x: Julian, opt: DisplayOptions)
    ensures
        x.common_view().year >= 1 ==> x.name_text(TextContent::EraName, Language::EN, opt) == fmt_string_spec("Anno Domini"@, opt),
        x.common_view().year <= -1 ==> x.name_text(TextContent::EraName, Language::EN, opt) == fmt_string_spec("Before Christ"@, opt),
        x.common_view().year == 0 ==> x.name_text(TextContent::EraName, Language::EN, opt) == fmt_string_spec("Anno Domini"@, opt),
        x.common_view().year >= 1 ==> x.name_text(TextContent::EraAbbreviation, Language::EN, opt) == fmt_string_spec("AD"@, opt),
        x.common_view().year <= -1 ==> x.name_text(TextContent::EraAbbreviation, Language::EN, opt) == fmt_string_spec("BC"@, opt),
        x.common_view().year == 0 ==> x.name_text(TextContent::EraAbbreviation, Language::EN, opt) == fmt_string_spec("AD"@, opt),
{
}

} // verus!
