use crate::calendar::positivist::positivist_complementary_day_number;
use crate::calendar::positivist::Positivist;
use crate::calendar::prelude::HasIntercalaryDays;
use crate::calendar::prelude::Perennial;
use crate::calendar::prelude::Quarter;
use crate::calendar::prelude::ToFromCommonDate;
use crate::day_count::fixed::Epoch;
use crate::day_count::fixed::ToFixed;
use crate::day_cycle::prelude::BoundedCycle;
use crate::day_cycle::week::weekday_number;
use crate::day_cycle::week::Weekday;
use crate::display::format::DisplayOptions;
use crate::display::format::NumericContent;
use crate::display::format::TextContent;
use crate::display::prelude::facts_fit;
use crate::display::prelude::DateFacts;
use crate::display::prelude::DisplayItem;
use crate::display::prelude::PresetDisplay;
use crate::display::prelude::PresetFormat;
use crate::display::prelude::facts_numeric_text;
use crate::display::prelude::fmt_facts_numeric;
use crate::display::prelude::ordinal_date_facts;
use crate::display::prelude::ordinal_date_facts_of;
use crate::display::prelude::perennial_week_number;
use crate::display::prelude::LONG_DATE;
use crate::display::prelude::LONG_COMPL;
use crate::display::prelude::YYYYMMDD_DASH;
use crate::display::private::fmt_string;
use crate::display::private::fmt_string_spec;
use crate::display::text::dictionary_spec;
use crate::display::text::get_dict;
use crate::display::text::PositivistDictionary;
use crate::display::text::Language;
use crate::display::week::fmt_midnight_half;
use crate::display::week::fmt_weekday_name;
use crate::display::week::midnight_half_text;
use crate::display::week::weekday_name_text;
use crate::display::prelude::lemma_unpadded_preset_fits;
use vstd::prelude::*;

verus! {

/// The name of a month in a dictionary of Positivist names.
pub open spec fn positivist_month_name<'a>(g: PositivistDictionary<'a>, m: int) -> &'a str {
    if m == 1 {
        g.moses
    } else if m == 2 {
        g.homer
    } else if m == 3 {
        g.aristotle
    } else if m == 4 {
        g.archimedes
    } else if m == 5 {
        g.caesar
    } else if m == 6 {
        g.saint_paul
    } else if m == 7 {
        g.charlemagne
    } else if m == 8 {
        g.dante
    } else if m == 9 {
        g.gutenburg
    } else if m == 10 {
        g.shakespeare
    } else if m == 11 {
        g.descartes
    } else if m == 12 {
        g.frederick
    } else {
        g.bichat
    }
}

/// Finds the name of a month in a dictionary of Positivist names.
pub fn positivist_month_name_of<'a>(g: PositivistDictionary<'a>, m: u8) -> (r: &'a str)
    ensures
        r == positivist_month_name(g, m as int),
{
    if m == 1 {
        g.moses
    } else if m == 2 {
        g.homer
    } else if m == 3 {
        g.aristotle
    } else if m == 4 {
        g.archimedes
    } else if m == 5 {
        g.caesar
    } else if m == 6 {
        g.saint_paul
    } else if m == 7 {
        g.charlemagne
    } else if m == 8 {
        g.dante
    } else if m == 9 {
        g.gutenburg
    } else if m == 10 {
        g.shakespeare
    } else if m == 11 {
        g.descartes
    } else if m == 12 {
        g.frederick
    } else {
        g.bichat
    }
}

/// The name of a complementary day in a dictionary of Positivist names.
pub open spec fn positivist_complementary_name<'a>(g: PositivistDictionary<'a>, k: int) -> &'a str {
    if k == 1 {
        g.festival_of_dead
    } else {
        g.festival_of_holy_women
    }
}

/// Finds the name of a complementary day in a dictionary of Positivist names.
pub fn positivist_complementary_name_of<'a>(g: PositivistDictionary<'a>, k: u8) -> (r: &'a str)
    ensures
        r == positivist_complementary_name(g, k as int),
{
    if k == 1 {
        g.festival_of_dead
    } else {
        g.festival_of_holy_women
    }
}

/// The written names of a Positivist date, which stands for midnight of its day.
pub open spec fn positivist_name_text(x: Positivist, t: TextContent, lang: Language, opt: DisplayOptions) -> Seq<
    char,
> {
    let d = x.common_view();
    let dict = dictionary_spec(lang).positivist;
    match t {
        TextContent::MonthName => match dict {
                Some(g) => fmt_string_spec((if 1 <= d.month <= 13 { positivist_month_name(g, d.month as int) } else { "" })@, opt),
                None => Seq::empty(),
            },
        TextContent::DayOfMonthName => fmt_string_spec(Seq::empty(), opt),
        TextContent::DayOfWeekName => match x.weekday_spec() {
                Some(w) => weekday_name_text(w, lang, opt),
                None => fmt_string_spec(Seq::empty(), opt),
            },
        TextContent::HalfDayName | TextContent::HalfDayAbbrev => midnight_half_text(t, lang, opt),
        TextContent::EraName => match dict {
                Some(g) => fmt_string_spec((if d.year < 0 { g.before_crisis_full } else { g.after_crisis_full })@, opt),
                None => Seq::empty(),
            },
        TextContent::EraAbbreviation => match dict {
                Some(g) => fmt_string_spec((if d.year < 0 { g.before_crisis_abr } else { g.after_crisis_abr })@, opt),
                None => Seq::empty(),
            },
        TextContent::ComplementaryDayName => match dict {
                Some(g) => fmt_string_spec((match x.complementary_spec() { Some(k) => positivist_complementary_name(g, positivist_complementary_day_number(k)), None => "" })@, opt),
                None => Seq::empty(),
            },
    }
}

/// The numbers of a Positivist date that the formats write.
pub open spec fn positivist_date_facts(x: Positivist) -> DateFacts {
    ordinal_date_facts(x, match x.weekday_spec() { Some(w) => Some(weekday_number(w) as i128), None => None }, perennial_week_number::<Weekday, Positivist>(x), match x.complementary_spec() { Some(k) => Some(positivist_complementary_day_number(k) as i128), None => None })
}

impl DisplayItem for Positivist {
    proof fn lemma_unpadded_fits(self, n: NumericContent, opt: DisplayOptions) {
    }

    open spec fn supported_lang_spec(lang: Language) -> bool {
        dictionary_spec(lang).positivist is Some
    }

    open spec fn numeric_text(self, n: NumericContent, opt: DisplayOptions) -> Seq<char> {
        facts_numeric_text(positivist_date_facts(self), n, opt)
    }

    open spec fn numeric_fits(self, n: NumericContent, opt: DisplayOptions) -> bool {
        facts_fit(positivist_date_facts(self), n, opt)
    }

    open spec fn name_text(self, t: TextContent, lang: Language, opt: DisplayOptions) -> Seq<
        char,
    > {
        positivist_name_text(self, t, lang, opt)
    }

    fn supported_lang(lang: Language) -> (r: bool) {
        get_dict(lang).positivist.is_some()
    }

    fn fmt_numeric(&self, n: NumericContent, opt: DisplayOptions) -> (r: String) {
        let _ = self.to_common_date();
        let weekday = match self.weekday() { Some(w) => Some(w.to_u8() as i128), None => None };
        let week = match self.try_week_of_year() { Some(k) => Some(k as i128), None => None };
        let compl = match self.complementary() { Some(k) => Some(k.to_u8() as i128), None => None };
        let facts = ordinal_date_facts_of(*self, weekday, week, compl);
        assert(self.numeric_text(n, opt) == facts_numeric_text(positivist_date_facts(*self), n, opt));
        assert(self.numeric_fits(n, opt) == facts_fit(positivist_date_facts(*self), n, opt));
        fmt_facts_numeric(facts, n, opt)
    }

    fn fmt_text(&self, t: TextContent, lang: Language, opt: DisplayOptions) -> (r: String) {
        let c = self.to_common_date();
        let dict = get_dict(lang).positivist;
        proof {
            reveal_strlit("");
            assert(""@ =~= Seq::<char>::empty());
        }
        let r = match t {
            TextContent::MonthName => match dict {
                Some(g) => fmt_string(if c.month >= 1 && c.month <= 13 { positivist_month_name_of(g, c.month) } else { "" }, opt),
                None => String::new(),
            },
            TextContent::DayOfMonthName => fmt_string("", opt),
            TextContent::DayOfWeekName => match self.weekday() {
                Some(w) => fmt_weekday_name(w, lang, opt),
                None => fmt_string("", opt),
            },
            TextContent::HalfDayName | TextContent::HalfDayAbbrev => fmt_midnight_half(t, lang, opt),
            TextContent::EraName => match dict {
                Some(g) => fmt_string(if c.year < 0 { g.before_crisis_full } else { g.after_crisis_full }, opt),
                None => String::new(),
            },
            TextContent::EraAbbreviation => match dict {
                Some(g) => fmt_string(if c.year < 0 { g.before_crisis_abr } else { g.after_crisis_abr }, opt),
                None => String::new(),
            },
            TextContent::ComplementaryDayName => match dict {
                Some(g) => fmt_string(match self.complementary() { Some(k) => positivist_complementary_name_of(g, k.to_u8()), None => "" }, opt),
                None => String::new(),
            },
        };
        assert(self.name_text(t, lang, opt) == positivist_name_text(*self, t, lang, opt));
        r
    }
}

impl PresetDisplay for Positivist {
    open spec fn long_format(self) -> PresetFormat {
        if self.complementary_spec() is Some { LONG_COMPL } else { LONG_DATE }
    }

    open spec fn short_format(self) -> PresetFormat {
        YYYYMMDD_DASH
    }

    fn long_date(&self) -> (r: String) {
        let p = if self.complementary().is_some() { LONG_COMPL } else { LONG_DATE };
        proof {
            lemma_unpadded_preset_fits(*self, p);
        }
        self.preset_str(Language::EN, p)
    }

    fn short_date(&self) -> (r: String) {
        let p = YYYYMMDD_DASH;
        self.preset_str(Language::EN, p)
    }
}

/// The English names that `positivist_month_name` gives, by number: a table fixed apart from the code that
/// writes dates.
pub proof fn law_positivist_month_name_english()
    ensures
        dictionary_spec(Language::EN).positivist is Some,
        positivist_month_name(dictionary_spec(Language::EN).positivist.unwrap(), 1) == "Moses",
        positivist_month_name(dictionary_spec(Language::EN).positivist.unwrap(), 2) == "Homer",
        positivist_month_name(dictionary_spec(Language::EN).positivist.unwrap(), 3) == "Aristotle",
        positivist_month_name(dictionary_spec(Language::EN).positivist.unwrap(), 4) == "Archimedes",
        positivist_month_name(dictionary_spec(Language::EN).positivist.unwrap(), 5) == "Caesar",
        positivist_month_name(dictionary_spec(Language::EN).positivist.unwrap(), 6) == "Saint Paul",
        positivist_month_name(dictionary_spec(Language::EN).positivist.unwrap(), 7) == "Charlemagne",
        positivist_month_name(dictionary_spec(Language::EN).positivist.unwrap(), 8) == "Dante",
        positivist_month_name(dictionary_spec(Language::EN).positivist.unwrap(), 9) == "Gutenberg",
        positivist_month_name(dictionary_spec(Language::EN).positivist.unwrap(), 10) == "Shakespeare",
        positivist_month_name(dictionary_spec(Language::EN).positivist.unwrap(), 11) == "Descartes",
        positivist_month_name(dictionary_spec(Language::EN).positivist.unwrap(), 12) == "Frederick",
        positivist_month_name(dictionary_spec(Language::EN).positivist.unwrap(), 13) == "Bichat",
{
}

/// The English names that `positivist_complementary_name` gives, by number: a table fixed apart from the code that
/// writes dates.
pub proof fn law_positivist_complementary_name_english()
    ensures
        dictionary_spec(Language::EN).positivist is Some,
        positivist_complementary_name(dictionary_spec(Language::EN).positivist.unwrap(), 1) == "Festival of All the Dead",
        positivist_complementary_name(dictionary_spec(Language::EN).positivist.unwrap(), 2) == "Festival of Holy Women",
{
}

/// The English era of a date: "After the Great Crisis" ("AGC") for years from 1 on, "Before the Great Crisis"
/// ("BGC") for years from -1 back; year 0 is written with the after era.
pub proof fn law_positivist_era_english(x: Positivist, opt: DisplayOptions)
    ensures
        x.common_view().year >= 1 ==> x.name_text(TextContent::EraName, Language::EN, opt) == fmt_string_spec("After the Great Crisis"@, opt),
        x.common_view().year <= -1 ==> x.name_text(TextContent::EraName, Language::EN, opt) == fmt_string_spec("Before the Great Crisis"@, opt),
        x.common_view().year == 0 ==> x.name_text(TextContent::EraName, Language::EN, opt) == fmt_string_spec("After the Great Crisis"@, opt),
        x.common_view().year >= 1 ==> x.name_text(TextContent::EraAbbreviation, Language::EN, opt) == fmt_string_spec("AGC"@, opt),
        x.common_view().year <= -1 ==> x.name_text(TextContent::EraAbbreviation, Language::EN, opt) == fmt_string_spec("BGC"@, opt),
        x.common_view().year == 0 ==> x.name_text(TextContent::EraAbbreviation, Language::EN, opt) == fmt_string_spec("AGC"@, opt),
{
}

} // verus!
