use crate::calendar::cotsworth::cotsworth_complementary_day_number;
use crate::calendar::cotsworth::Cotsworth;
use crate::calendar::prelude::HasIntercalaryDays;
use crate::calendar::prelude::Perennial;
use crate::calendar::prelude::Quarter;
use crate::calendar::prelude::ToFromCommonDate;
use crate::day_count::fixed::Epoch;
use crate::day_count::fixed::ToFixed;
use crate::day_cycle::prelude::BoundedCycle;
use crate::day_cycle::week::weekday_number;
use crate::day_cycle::week::Weekday;
use crate::display::format::DisplayOptions;
use crate::display::format::NumericContent;
use crate::display::format::TextContent;
use crate::display::prelude::facts_fit;
use crate::display::prelude::DateFacts;
use crate::display::prelude::DisplayItem;
use crate::display::prelude::PresetDisplay;
use crate::display::prelude::PresetFormat;
use crate::display::prelude::facts_numeric_text;
use crate::display::prelude::fmt_facts_numeric;
use crate::display::prelude::ordinal_date_facts;
use crate::display::prelude::ordinal_date_facts_of;
use crate::display::prelude::perennial_week_number;
use crate::display::prelude::LONG_DATE;
use crate::display::prelude::YYYYMMDD_DASH;
use crate::display::private::fmt_string;
use crate::display::private::fmt_string_spec;
use crate::display::text::dictionary_spec;
use crate::display::text::get_dict;
use crate::display::text::CotsworthDictionary;
use crate::display::text::Language;
use crate::display::week::fmt_midnight_half;
use crate::display::week::fmt_weekday_name;
use crate::display::week::midnight_half_text;
use crate::display::week::weekday_name_text;
use crate::display::prelude::lemma_unpadded_preset_fits;
use vstd::prelude::*;

verus! {

/// The name of a month in a dictionary of Cotsworth names.
pub open spec fn cotsworth_month_name<'a>(g: CotsworthDictionary<'a>, m: int) -> &'a str {
    if m == 1 {
        g.january
    } else if m == 2 {
        g.february
    } else if m == 3 {
        g.march
    } else if m == 4 {
        g.april
    } else if m == 5 {
        g.may
    } else if m == 6 {
        g.june
    } else if m == 7 {
        g.sol
    } else if m == 8 {
        g.july
    } else if m == 9 {
        g.august
    } else if m == 10 {
        g.september
    } else if m == 11 {
        g.october
    } else if m == 12 {
        g.november
    } else {
        g.december
    }
}

/// Finds the name of a month in a dictionary of Cotsworth names.
pub fn cotsworth_month_name_of<'a>(g: CotsworthDictionary<'a>, m: u8) -> (r: &'a str)
    ensures
        r == cotsworth_month_name(g, m as int),
{
    if m == 1 {
        g.january
    } else if m == 2 {
        g.february
    } else if m == 3 {
        g.march
    } else if m == 4 {
        g.april
    } else if m == 5 {
        g.may
    } else if m == 6 {
        g.june
    } else if m == 7 {
        g.sol
    } else if m == 8 {
        g.july
    } else if m == 9 {
        g.august
    } else if m == 10 {
        g.september
    } else if m == 11 {
        g.october
    } else if m == 12 {
        g.november
    } else {
        g.december
    }
}

/// The name of a complementary day in a dictionary of Cotsworth names.
pub open spec fn cotsworth_complementary_name<'a>(g: CotsworthDictionary<'a>, k: int) -> &'a str {
    if k == 1 {
        g.year_day
    } else {
        g.leap_day
    }
}

/// Finds the name of a complementary day in a dictionary of Cotsworth names.
pub fn cotsworth_complementary_name_of<'a>(g: CotsworthDictionary<'a>, k: u8) -> (r: &'a str)
    ensures
        r == cotsworth_complementary_name(g, k as int),
{
    if k == 1 {
        g.year_day
    } else {
        g.leap_day
    }
}

/// The written names of a Cotsworth date, which stands for midnight of its day.
pub open spec fn cotsworth_name_text(x: Cotsworth, t: TextContent, lang: Language, opt: DisplayOptions) -> Seq<
    char,
> {
    let d = x.common_view();
    let dict = dictionary_spec(lang).cotsworth;
    match t {
        TextContent::MonthName => match dict {
                Some(g) => fmt_string_spec(cotsworth_month_name(g, d.month as int)@, opt),
                None => fmt_string_spec(Seq::empty(), opt),
            },
        TextContent::DayOfMonthName => fmt_string_spec(Seq::empty(), opt),
        TextContent::DayOfWeekName => match x.weekday_spec() {
                Some(w) => weekday_name_text(w, lang, opt),
                None => fmt_string_spec(Seq::empty(), opt),
            },
        TextContent::HalfDayName | TextContent::HalfDayAbbrev => midnight_half_text(t, lang, opt),
        TextContent::EraName => match dict {
                Some(g) => fmt_string_spec((if d.year < 0 { g.before_epoch_full } else { g.after_epoch_full })@, opt),
                None => fmt_string_spec(Seq::empty(), opt),
            },
        TextContent::EraAbbreviation => match dict {
                Some(g) => fmt_string_spec((if d.year < 0 { g.before_epoch_abr } else { g.after_epoch_abr })@, opt),
                None => fmt_string_spec(Seq::empty(), opt),
            },
        TextContent::ComplementaryDayName => match dict {
                Some(g) => fmt_string_spec((match x.complementary_spec() { Some(k) => cotsworth_complementary_name(g, cotsworth_complementary_day_number(k)), None => "" })@, opt),
                None => fmt_string_spec(Seq::empty(), opt),
            },
    }
}

/// The numbers of a Cotsworth date that the formats write.
pub open spec fn cotsworth_date_facts(x: Cotsworth) -> DateFacts {
    ordinal_date_facts(x, match x.weekday_spec() { Some(w) => Some(weekday_number(w) as i128), None => None }, perennial_week_number::<Weekday, Cotsworth>(x), match x.complementary_spec() { Some(k) => Some(cotsworth_complementary_day_number(k) as i128), None => None })
}

impl DisplayItem for Cotsworth {
    proof fn lemma_unpadded_fits(self, n: NumericContent, opt: DisplayOptions) {
    }

    open spec fn supported_lang_spec(lang: Language) -> bool {
        dictionary_spec(lang).cotsworth is Some
    }

    open spec fn numeric_text(self, n: NumericContent, opt: DisplayOptions) -> Seq<char> {
        facts_numeric_text(cotsworth_date_facts(self), n, opt)
    }

    open spec fn numeric_fits(self, n: NumericContent, opt: DisplayOptions) -> bool {
        facts_fit(cotsworth_date_facts(self), n, opt)
    }

    open spec fn name_text(self, t: TextContent, lang: Language, opt: DisplayOptions) -> Seq<
        char,
    > {
        cotsworth_name_text(self, t, lang, opt)
    }

    fn supported_lang(lang: Language) -> (r: bool) {
        get_dict(lang).cotsworth.is_some()
    }

    fn fmt_numeric(&self, n: NumericContent, opt: DisplayOptions) -> (r: String) {
        let _ = self.to_common_date();
        let weekday = match self.weekday() { Some(w) => Some(w.to_u8() as i128), None => None };
        let week = match self.try_week_of_year() { Some(k) => Some(k as i128), None => None };
        let compl = match self.complementary() { Some(k) => Some(k.to_u8() as i128), None => None };
        let facts = ordinal_date_facts_of(*self, weekday, week, compl);
        assert(self.numeric_text(n, opt) == facts_numeric_text(cotsworth_date_facts(*self), n, opt));
        assert(self.numeric_fits(n, opt) == facts_fit(cotsworth_date_facts(*self), n, opt));
        fmt_facts_numeric(facts, n, opt)
    }

    fn fmt_text(&self, t: TextContent, lang: Language, opt: DisplayOptions) -> (r: String) {
        let c = self.to_common_date();
        let dict = get_dict(lang).cotsworth;
        proof {
            reveal_strlit("");
            assert(""@ =~= Seq::<char>::empty());
        }
        let r = match t {
            TextContent::MonthName => match dict {
                Some(g) => fmt_string(cotsworth_month_name_of(g, c.month), opt),
                None => fmt_string("", opt),
            },
            TextContent::DayOfMonthName => fmt_string("", opt),
            TextContent::DayOfWeekName => match self.weekday() {
                Some(w) => fmt_weekday_name(w, lang, opt),
                None => fmt_string("", opt),
            },
            TextContent::HalfDayName | TextContent::HalfDayAbbrev => fmt_midnight_half(t, lang, opt),
            TextContent::EraName => match dict {
                Some(g) => fmt_string(if c.year < 0 { g.before_epoch_full } else { g.after_epoch_full }, opt),
                None => fmt_string("", opt),
            },
            TextContent::EraAbbreviation => match dict {
                Some(g) => fmt_string(if c.year < 0 { g.before_epoch_abr } else { g.after_epoch_abr }, opt),
                None => fmt_string("", opt),
            },
            TextContent::ComplementaryDayName => match dict {
                Some(g) => fmt_string(match self.complementary() { Some(k) => cotsworth_complementary_name_of(g, k.to_u8()), None => "" }, opt),
                None => fmt_string("", opt),
            },
        };
        assert(self.name_text(t, lang, opt) == cotsworth_name_text(*self, t, lang, opt));
        r
    }
}

impl PresetDisplay for Cotsworth {
    open spec fn long_format(self) -> PresetFormat {
        LONG_DATE
    }

    open spec fn short_format(self) -> PresetFormat {
        YYYYMMDD_DASH
    }

    fn long_date(&self) -> (r: String) {
        let p = LONG_DATE;
        proof {
            lemma_unpadded_preset_fits(*self, p);
        }
        self.preset_str(Language::EN, p)
    }

    fn short_date(&self) -> (r: String) {
        let p = YYYYMMDD_DASH;
        self.preset_str(Language::EN, p)
    }
}

/// The English names that `cotsworth_month_name` gives, by number: a table fixed apart from the code that
/// writes dates.
pub proof fn law_cotsworth_month_name_english()
    ensures
        dictionary_spec(Language::EN).cotsworth is Some,
        cotsworth_month_name(dictionary_spec(Language::EN).cotsworth.unwrap(), 1) == "January",
        cotsworth_month_name(dictionary_spec(Language::EN).cotsworth.unwrap(), 2) == "February",
        cotsworth_month_name(dictionary_spec(Language::EN).cotsworth.unwrap(), 3) == "March",
        cotsworth_month_name(dictionary_spec(Language::EN).cotsworth.unwrap(), 4) == "April",
        cotsworth_month_name(dictionary_spec(Language::EN).cotsworth.unwrap(), 5) == "May",
        cotsworth_month_name(dictionary_spec(Language::EN).cotsworth.unwrap(), 6) == "June",
        cotsworth_month_name(dictionary_spec(Language::EN).cotsworth.unwrap(), 7) == "Sol",
        cotsworth_month_name(dictionary_spec(Language::EN).cotsworth.unwrap(), 8) == "July",
        cotsworth_month_name(dictionary_spec(Language::EN).cotsworth.unwrap(), 9) == "August",
        cotsworth_month_name(dictionary_spec(Language::EN).cotsworth.unwrap(), 10) == "September",
        cotsworth_month_name(dictionary_spec(Language::EN).cotsworth.unwrap(), 11) == "October",
        cotsworth_month_name(dictionary_spec(Language::EN).cotsworth.unwrap(), 12) == "November",
        cotsworth_month_name(dictionary_spec(Language::EN).cotsworth.unwrap(), 13) == "December",
{
}

/// The English names that `cotsworth_complementary_name` gives, by number: a table fixed apart from the code that
/// writes dates.
pub proof fn law_cotsworth_complementary_name_english()
    ensures
        dictionary_spec(Language::EN).cotsworth is Some,
        cotsworth_complementary_name(dictionary_spec(Language::EN).cotsworth.unwrap(), 1) == "Year Day",
        cotsworth_complementary_name(dictionary_spec(Language::EN).cotsworth.unwrap(), 2) == "Leap Day",
{
}

/// The English era of a date: "Common Era" ("CE") for years from 1 on, "Before Common Era"
/// ("BCE") for years from -1 back; year 0 is written with the after era.
pub proof fn law_cotsworth_era_english(x: Cotsworth, opt: DisplayOptions)
    ensures
        x.common_view().year >= 1 ==> x.name_text(TextContent::EraName, Language::EN, opt) == fmt_string_spec("Common Era"@, opt),
        x.common_view().year <= -1 ==> x.name_text(TextContent::EraName, Language::EN, opt) == fmt_string_spec("Before Common Era"@, opt),
        x.common_view().year == 0 ==> x.name_text(TextContent::EraName, Language::EN, opt) == fmt_string_spec("Common Era"@, opt),
        x.common_view().year >= 1 ==> x.name_text(TextContent::EraAbbreviation, Language::EN, opt) == fmt_string_spec("CE"@, opt),
        x.common_view().year <= -1 ==> x.name_text(TextContent::EraAbbreviation, Language::EN, opt) == fmt_string_spec("BCE"@, opt),
        x.common_view().year == 0 ==> x.name_text(TextContent::EraAbbreviation, Language::EN, opt) == fmt_string_spec("CE"@, opt),
{
}

} // verus!
