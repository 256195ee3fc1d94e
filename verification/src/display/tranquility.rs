use crate::calendar::prelude::HasIntercalaryDays;
use crate::calendar::prelude::Perennial;
use crate::calendar::prelude::Quarter;
use crate::calendar::prelude::ToFromCommonDate;
use crate::calendar::tranquility::tranquility_complementary_day_number;
use crate::calendar::tranquility::Tranquility;
use crate::calendar::tranquility::TranquilityComplementaryDay;
use crate::day_count::fixed::Epoch;
use crate::day_count::fixed::ToFixed;
use crate::day_cycle::prelude::BoundedCycle;
use crate::day_cycle::week::weekday_number;
use crate::day_cycle::week::Weekday;
use crate::display::format::DisplayOptions;
use crate::display::format::NumericContent;
use crate::display::format::TextContent;
use crate::display::prelude::facts_fit;
use crate::display::prelude::DateFacts;
use crate::display::prelude::DisplayItem;
use crate::display::prelude::PresetDisplay;
use crate::display::prelude::PresetFormat;
use crate::display::prelude::facts_numeric_text;
use crate::display::prelude::fmt_facts_numeric;
use crate::display::prelude::ordinal_date_facts;
use crate::display::prelude::ordinal_date_facts_of;
use crate::display::prelude::perennial_week_number;
use crate::display::prelude::LONG_DATE;
use crate::display::prelude::LONG_COMPL;
use crate::display::prelude::YEAR_MDD;
use crate::display::prelude::YEAR_COMPL;
use crate::display::prelude::COMPL_ONLY;
use crate::display::private::fmt_string;
use crate::display::private::fmt_string_spec;
use crate::display::text::dictionary_spec;
use crate::display::text::get_dict;
use crate::display::text::TranquilityDictionary;
use crate::display::text::Language;
use crate::display::week::fmt_midnight_half;
use crate::display::week::fmt_weekday_name;
use crate::display::week::midnight_half_text;
use crate::display::week::weekday_name_text;
use crate::display::prelude::lemma_unpadded_preset_fits;
use vstd::prelude::*;

verus! {

/// The name of a month in a dictionary of Tranquility names.
pub open spec fn tranquility_month_name<'a>(g: TranquilityDictionary<'a>, m: int) -> &'a str {
    if m == 1 {
        g.archimedes
    } else if m == 2 {
        g.brahe
    } else if m == 3 {
        g.copernicus
    } else if m == 4 {
        g.darwin
    } else if m == 5 {
        g.einstein
    } else if m == 6 {
        g.faraday
    } else if m == 7 {
        g.galileo
    } else if m == 8 {
        g.hippocrates
    } else if m == 9 {
        g.imhotep
    } else if m == 10 {
        g.jung
    } else if m == 11 {
        g.kepler
    } else if m == 12 {
        g.lavoisier
    } else {
        g.mendel
    }
}

/// Finds the name of a month in a dictionary of Tranquility names.
pub fn tranquility_month_name_of<'a>(g: TranquilityDictionary<'a>, m: u8) -> (r: &'a str)
    ensures
        r == tranquility_month_name(g, m as int),
{
    if m == 1 {
        g.archimedes
    } else if m == 2 {
        g.brahe
    } else if m == 3 {
        g.copernicus
    } else if m == 4 {
        g.darwin
    } else if m == 5 {
        g.einstein
    } else if m == 6 {
        g.faraday
    } else if m == 7 {
        g.galileo
    } else if m == 8 {
        g.hippocrates
    } else if m == 9 {
        g.imhotep
    } else if m == 10 {
        g.jung
    } else if m == 11 {
        g.kepler
    } else if m == 12 {
        g.lavoisier
    } else {
        g.mendel
    }
}

/// The name of a complementary day in a dictionary of Tranquility names.
pub open spec fn tranquility_complementary_name<'a>(g: TranquilityDictionary<'a>, k: int) -> &'a str {
    if k == 0 {
        g.moon_landing_day
    } else if k == 1 {
        g.armstrong_day
    } else {
        g.aldrin_day
    }
}

/// Finds the name of a complementary day in a dictionary of Tranquility names.
pub fn tranquility_complementary_name_of<'a>(g: TranquilityDictionary<'a>, k: u8) -> (r: &'a str)
    ensures
        r == tranquility_complementary_name(g, k as int),
{
    if k == 0 {
        g.moon_landing_day
    } else if k == 1 {
        g.armstrong_day
    } else {
        g.aldrin_day
    }
}

/// The written names of a Tranquility date, which stands for midnight of its day.
pub open spec fn tranquility_name_text(x: Tranquility, t: TextContent, lang: Language, opt: DisplayOptions) -> Seq<
    char,
> {
    let d = x.common_view();
    let dict = dictionary_spec(lang).tranquility;
    match t {
        TextContent::MonthName => match dict {
                Some(g) => fmt_string_spec((if 1 <= d.month <= 13 { tranquility_month_name(g, d.month as int) } else { "" })@, opt),
                None => fmt_string_spec(Seq::empty(), opt),
            },
        TextContent::DayOfMonthName => fmt_string_spec(Seq::empty(), opt),
        TextContent::DayOfWeekName => match x.weekday_spec() {
                Some(w) => weekday_name_text(w, lang, opt),
                None => fmt_string_spec(Seq::empty(), opt),
            },
        TextContent::HalfDayName | TextContent::HalfDayAbbrev => midnight_half_text(t, lang, opt),
        TextContent::EraName => match dict {
                Some(g) => fmt_string_spec((if d.year <= 0 { g.before_tranquility_full } else { g.after_tranquility_full })@, opt),
                None => fmt_string_spec(Seq::empty(), opt),
            },
        TextContent::EraAbbreviation => match dict {
                Some(g) => fmt_string_spec((if d.year <= 0 { g.before_tranquility_abr } else { g.after_tranquility_abr })@, opt),
                None => fmt_string_spec(Seq::empty(), opt),
            },
        TextContent::ComplementaryDayName => match dict {
                Some(g) => fmt_string_spec((match x.complementary_spec() { Some(k) => tranquility_complementary_name(g, tranquility_complementary_day_number(k)), None => "" })@, opt),
                None => fmt_string_spec(Seq::empty(), opt),
            },
    }
}

/// The numbers of a Tranquility date that the formats write.
pub open spec fn tranquility_date_facts(x: Tranquility) -> DateFacts {
    ordinal_date_facts(x, match x.weekday_spec() { Some(w) => Some(weekday_number(w) as i128), None => None }, perennial_week_number::<Weekday, Tranquility>(x), match x.complementary_spec() { Some(k) => Some(tranquility_complementary_day_number(k) as i128), None => None })
}

impl DisplayItem for Tranquility {
    proof fn lemma_unpadded_fits(self, n: NumericContent, opt: DisplayOptions) {
    }

    open spec fn supported_lang_spec(lang: Language) -> bool {
        dictionary_spec(lang).tranquility is Some
    }

    open spec fn numeric_text(self, n: NumericContent, opt: DisplayOptions) -> Seq<char> {
        facts_numeric_text(tranquility_date_facts(self), n, opt)
    }

    open spec fn numeric_fits(self, n: NumericContent, opt: DisplayOptions) -> bool {
        facts_fit(tranquility_date_facts(self), n, opt)
    }

    open spec fn name_text(self, t: TextContent, lang: Language, opt: DisplayOptions) -> Seq<
        char,
    > {
        tranquility_name_text(self, t, lang, opt)
    }

    fn supported_lang(lang: Language) -> (r: bool) {
        get_dict(lang).tranquility.is_some()
    }

    fn fmt_numeric(&self, n: NumericContent, opt: DisplayOptions) -> (r: String) {
        let _ = self.to_common_date();
        let weekday = match self.weekday() { Some(w) => Some(w.to_u8() as i128), None => None };
        let week = match self.try_week_of_year() { Some(k) => Some(k as i128), None => None };
        let compl = match self.complementary() { Some(k) => Some(k.to_u8() as i128), None => None };
        let facts = ordinal_date_facts_of(*self, weekday, week, compl);
        assert(self.numeric_text(n, opt) == facts_numeric_text(tranquility_date_facts(*self), n, opt));
        assert(self.numeric_fits(n, opt) == facts_fit(tranquility_date_facts(*self), n, opt));
        fmt_facts_numeric(facts, n, opt)
    }

    fn fmt_text(&self, t: TextContent, lang: Language, opt: DisplayOptions) -> (r: String) {
        let c = self.to_common_date();
        let dict = get_dict(lang).tranquility;
        proof {
            reveal_strlit("");
            assert(""@ =~= Seq::<char>::empty());
        }
        let r = match t {
            TextContent::MonthName => match dict {
                Some(g) => fmt_string(if c.month >= 1 && c.month <= 13 { tranquility_month_name_of(g, c.month) } else { "" }, opt),
                None => fmt_string("", opt),
            },
            TextContent::DayOfMonthName => fmt_string("", opt),
            TextContent::DayOfWeekName => match self.weekday() {
                Some(w) => fmt_weekday_name(w, lang, opt),
                None => fmt_string("", opt),
            },
            TextContent::HalfDayName | TextContent::HalfDayAbbrev => fmt_midnight_half(t, lang, opt),
            TextContent::EraName => match dict {
                Some(g) => fmt_string(if c.year <= 0 { g.before_tranquility_full } else { g.after_tranquility_full }, opt),
                None => fmt_string("", opt),
            },
            TextContent::EraAbbreviation => match dict {
                Some(g) => fmt_string(if c.year <= 0 { g.before_tranquility_abr } else { g.after_tranquility_abr }, opt),
                None => fmt_string("", opt),
            },
            TextContent::ComplementaryDayName => match dict {
                Some(g) => fmt_string(match self.complementary() { Some(k) => tranquility_complementary_name_of(g, k.to_u8()), None => "" }, opt),
                None => fmt_string("", opt),
            },
        };
        assert(self.name_text(t, lang, opt) == tranquility_name_text(*self, t, lang, opt));
        r
    }
}

impl PresetDisplay for Tranquility {
    open spec fn long_format(self) -> PresetFormat {
        match self.complementary_spec() { None => LONG_DATE, Some(TranquilityComplementaryDay::MoonLandingDay) => COMPL_ONLY, Some(_) => LONG_COMPL }
    }

    open spec fn short_format(self) -> PresetFormat {
        if self.complementary_spec() is Some { YEAR_COMPL } else { YEAR_MDD }
    }

    fn long_date(&self) -> (r: String) {
        let p = match self.complementary() { None => LONG_DATE, Some(TranquilityComplementaryDay::MoonLandingDay) => COMPL_ONLY, Some(_) => LONG_COMPL };
        proof {
            lemma_unpadded_preset_fits(*self, p);
        }
        self.preset_str(Language::EN, p)
    }

    fn short_date(&self) -> (r: String) {
        let p = if self.complementary().is_some() { YEAR_COMPL } else { YEAR_MDD };
        self.preset_str(Language::EN, p)
    }
}

/// The English names that `tranquility_month_name` gives, by number: a table fixed apart from the code that
/// writes dates.
pub proof fn law_tranquility_month_name_english()
    ensures
        dictionary_spec(Language::EN).tranquility is Some,
        tranquility_month_name(dictionary_spec(Language::EN).tranquility.unwrap(), 1) == "Archimedes",
        tranquility_month_name(dictionary_spec(Language::EN).tranquility.unwrap(), 2) == "Brahe",
        tranquility_month_name(dictionary_spec(Language::EN).tranquility.unwrap(), 3) == "Copernicus",
        tranquility_month_name(dictionary_spec(Language::EN).tranquility.unwrap(), 4) == "Darwin",
        tranquility_month_name(dictionary_spec(Language::EN).tranquility.unwrap(), 5) == "Einstein",
        tranquility_month_name(dictionary_spec(Language::EN).tranquility.unwrap(), 6) == "Faraday",
        tranquility_month_name(dictionary_spec(Language::EN).tranquility.unwrap(), 7) == "Galileo",
        tranquility_month_name(dictionary_spec(Language::EN).tranquility.unwrap(), 8) == "Hippocrates",
        tranquility_month_name(dictionary_spec(Language::EN).tranquility.unwrap(), 9) == "Imhotep",
        tranquility_month_name(dictionary_spec(Language::EN).tranquility.unwrap(), 10) == "Jung",
        tranquility_month_name(dictionary_spec(Language::EN).tranquility.unwrap(), 11) == "Kepler",
        tranquility_month_name(dictionary_spec(Language::EN).tranquility.unwrap(), 12) == "Lavoisier",
        tranquility_month_name(dictionary_spec(Language::EN).tranquility.unwrap(), 13) == "Mendel",
{
}

/// The English names that `tranquility_complementary_name` gives, by number: a table fixed apart from the code that
/// writes dates.
pub proof fn law_tranquility_complementary_name_english()
    ensures
        dictionary_spec(Language::EN).tranquility is Some,
        tranquility_complementary_name(dictionary_spec(Language::EN).tranquility.unwrap(), 0) == "Moon Landing Day",
        tranquility_complementary_name(dictionary_spec(Language::EN).tranquility.unwrap(), 1) == "Armstrong Day",
        tranquility_complementary_name(dictionary_spec(Language::EN).tranquility.unwrap(), 2) == "Aldrin Day",
{
}

/// The English era of a date: "After Tranquility" ("AT") for years from 1 on, "Before Tranquility"
/// ("BT") for years from -1 back; year 0 is written with the before era.
pub proof fn law_tranquility_era_english(x: Tranquility, opt: DisplayOptions)
    ensures
        x.common_view().year >= 1 ==> x.name_text(TextContent::EraName, Language::EN, opt) == fmt_string_spec("After Tranquility"@, opt),
        x.common_view().year <= -1 ==> x.name_text(TextContent::EraName, Language::EN, opt) == fmt_string_spec("Before Tranquility"@, opt),
        x.common_view().year == 0 ==> x.name_text(TextContent::EraName, Language::EN, opt) == fmt_string_spec("Before Tranquility"@, opt),
        x.common_view().year >= 1 ==> x.name_text(TextContent::EraAbbreviation, Language::EN, opt) == fmt_string_spec("AT"@, opt),
        x.common_view().year <= -1 ==> x.name_text(TextContent::EraAbbreviation, Language::EN, opt) == fmt_string_spec("BT"@, opt),
        x.common_view().year == 0 ==> x.name_text(TextContent::EraAbbreviation, Language::EN, opt) == fmt_string_spec("BT"@, opt),
{
}

} // verus!
