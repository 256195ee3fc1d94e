use crate::calendar::french_rev_arith::french_rev_weekday_number;
use crate::calendar::french_rev_arith::sansculottide_number;
use crate::calendar::french_rev_arith::FrenchRevArith;
use crate::calendar::french_rev_arith::FrenchRevWeekday;
use crate::calendar::prelude::HasIntercalaryDays;
use crate::calendar::prelude::Perennial;
use crate::calendar::prelude::Quarter;
use crate::calendar::prelude::ToFromCommonDate;
use crate::day_count::fixed::Epoch;
use crate::day_count::fixed::ToFixed;
use crate::day_cycle::prelude::BoundedCycle;
use crate::display::format::DisplayOptions;
use crate::display::format::NumericContent;
use crate::display::format::TextContent;
use crate::display::prelude::facts_fit;
use crate::display::prelude::DateFacts;
use crate::display::prelude::DisplayItem;
use crate::display::prelude::PresetDisplay;
use crate::display::prelude::PresetFormat;
use crate::display::prelude::facts_numeric_text;
use crate::display::prelude::fmt_facts_numeric;
use crate::display::prelude::perennial_week_number;
use crate::display::prelude::LONG_DATE;
use crate::display::prelude::LONG_COMPL;
use crate::display::prelude::YYYYMMDD_DASH;
use crate::display::private::fmt_string;
use crate::display::private::fmt_string_spec;
use crate::display::text::dictionary_spec;
use crate::display::text::get_dict;
use crate::display::text::FrenchRevolutionaryDictionary;
use crate::display::text::Language;
use crate::display::week::fmt_midnight_half;
use crate::display::week::midnight_half_text;
use crate::display::prelude::lemma_unpadded_preset_fits;
use vstd::prelude::*;

verus! {

/// The name of a month in a dictionary of French Revolutionary names.
pub open spec fn french_rev_month_name<'a>(g: FrenchRevolutionaryDictionary<'a>, m: int) -> &'a str {
    if m == 1 {
        g.vendemiaire
    } else if m == 2 {
        g.brumaire
    } else if m == 3 {
        g.frimaire
    } else if m == 4 {
        g.nivose
    } else if m == 5 {
        g.pluviose
    } else if m == 6 {
        g.ventose
    } else if m == 7 {
        g.germinal
    } else if m == 8 {
        g.floreal
    } else if m == 9 {
        g.prairial
    } else if m == 10 {
        g.messidor
    } else if m == 11 {
        g.thermidor
    } else {
        g.fructidor
    }
}

/// Finds the name of a month in a dictionary of French Revolutionary names.
pub fn french_rev_month_name_of<'a>(g: FrenchRevolutionaryDictionary<'a>, m: u8) -> (r: &'a str)
    ensures
        r == french_rev_month_name(g, m as int),
{
    if m == 1 {
        g.vendemiaire
    } else if m == 2 {
        g.brumaire
    } else if m == 3 {
        g.frimaire
    } else if m == 4 {
        g.nivose
    } else if m == 5 {
        g.pluviose
    } else if m == 6 {
        g.ventose
    } else if m == 7 {
        g.germinal
    } else if m == 8 {
        g.floreal
    } else if m == 9 {
        g.prairial
    } else if m == 10 {
        g.messidor
    } else if m == 11 {
        g.thermidor
    } else {
        g.fructidor
    }
}

/// The name of a complementary day in a dictionary of French Revolutionary names.
pub open spec fn french_rev_complementary_name<'a>(g: FrenchRevolutionaryDictionary<'a>, k: int) -> &'a str {
    if k == 1 {
        g.fete_de_la_vertu
    } else if k == 2 {
        g.fete_du_genie
    } else if k == 3 {
        g.fete_du_travail
    } else if k == 4 {
        g.fete_de_lopinion
    } else if k == 5 {
        g.fete_des_recompenses
    } else {
        g.fete_de_la_revolution
    }
}

/// Finds the name of a complementary day in a dictionary of French Revolutionary names.
pub fn french_rev_complementary_name_of<'a>(g: FrenchRevolutionaryDictionary<'a>, k: u8) -> (r: &'a str)
    ensures
        r == french_rev_complementary_name(g, k as int),
{
    if k == 1 {
        g.fete_de_la_vertu
    } else if k == 2 {
        g.fete_du_genie
    } else if k == 3 {
        g.fete_du_travail
    } else if k == 4 {
        g.fete_de_lopinion
    } else if k == 5 {
        g.fete_des_recompenses
    } else {
        g.fete_de_la_revolution
    }
}

/// The name of a day of the week in a dictionary of French Revolutionary names.
pub open spec fn french_rev_weekday_name<'a>(g: FrenchRevolutionaryDictionary<'a>, k: int) -> &'a str {
    if k == 1 {
        g.primidi
    } else if k == 2 {
        g.duodi
    } else if k == 3 {
        g.tridi
    } else if k == 4 {
        g.quartidi
    } else if k == 5 {
        g.quintidi
    } else if k == 6 {
        g.sextidi
    } else if k == 7 {
        g.septidi
    } else if k == 8 {
        g.octidi
    } else if k == 9 {
        g.nonidi
    } else {
        g.decadi
    }
}

/// Finds the name of a day of the week in a dictionary of French Revolutionary names.
pub fn french_rev_weekday_name_of<'a>(g: FrenchRevolutionaryDictionary<'a>, k: u8) -> (r: &'a str)
    ensures
        r == french_rev_weekday_name(g, k as int),
{
    if k == 1 {
        g.primidi
    } else if k == 2 {
        g.duodi
    } else if k == 3 {
        g.tridi
    } else if k == 4 {
        g.quartidi
    } else if k == 5 {
        g.quintidi
    } else if k == 6 {
        g.sextidi
    } else if k == 7 {
        g.septidi
    } else if k == 8 {
        g.octidi
    } else if k == 9 {
        g.nonidi
    } else {
        g.decadi
    }
}

/// The written names of a French Revolutionary date, which stands for midnight of its day.
pub open spec fn french_rev_name_text<const L: bool>(x: FrenchRevArith<L>, t: TextContent, lang: Language, opt: DisplayOptions) -> Seq<
    char,
> {
    let d = x.common_view();
    let dict = dictionary_spec(lang).french_rev;
    match t {
        TextContent::MonthName => match dict {
                Some(g) => fmt_string_spec((if 1 <= d.month <= 12 { french_rev_month_name(g, d.month as int) } else { "" })@, opt),
                None => fmt_string_spec(Seq::empty(), opt),
            },
        TextContent::DayOfMonthName => fmt_string_spec(Seq::empty(), opt),
        TextContent::DayOfWeekName => match dict {
                Some(g) => fmt_string_spec((match x.weekday_spec() { Some(w) => french_rev_weekday_name(g, french_rev_weekday_number(w)), None => "" })@, opt),
                None => fmt_string_spec(Seq::empty(), opt),
            },
        TextContent::HalfDayName | TextContent::HalfDayAbbrev => midnight_half_text(t, lang, opt),
        TextContent::EraName => match dict {
                Some(g) => fmt_string_spec((if d.year < 0 { g.before_republic_full } else { g.after_republic_full })@, opt),
                None => fmt_string_spec(Seq::empty(), opt),
            },
        TextContent::EraAbbreviation => match dict {
                Some(g) => fmt_string_spec((if d.year < 0 { g.before_republic_abr } else { g.after_republic_abr })@, opt),
                None => fmt_string_spec(Seq::empty(), opt),
            },
        TextContent::ComplementaryDayName => match dict {
                Some(g) => fmt_string_spec((match x.complementary_spec() { Some(k) => french_rev_complementary_name(g, sansculottide_number(k)), None => "" })@, opt),
                None => fmt_string_spec(Seq::empty(), opt),
            },
    }
}

/// The numbers of a French Revolutionary date that the formats write.
pub open spec fn french_rev_date_facts<const L: bool>(x: FrenchRevArith<L>) -> DateFacts {
    DateFacts {
        year: x.common_view().year as i128,
        month: Some(x.common_view().month as i128),
        day: Some(x.common_view().day as i128),
        weekday: match x.weekday_spec() { Some(w) => Some(french_rev_weekday_number(w) as i128), None => None },
        day_of_year: Some(((x.common_view().month - 1) * 30 + x.common_view().day) as i128),
        quarter: x.quarter_spec() as i128,
        days_since_epoch: (x.fixed_spec() - FrenchRevArith::<L>::epoch_spec()) as i128,
        week_of_year: perennial_week_number::<FrenchRevWeekday, FrenchRevArith<L>>(x),
        complementary: match x.complementary_spec() { Some(k) => Some(sansculottide_number(k) as i128), None => None },
    }
}

impl<const L: bool> DisplayItem for FrenchRevArith<L> {
    proof fn lemma_unpadded_fits(self, n: NumericContent, opt: DisplayOptions) {
    }

    open spec fn supported_lang_spec(lang: Language) -> bool {
        dictionary_spec(lang).french_rev is Some
    }

    open spec fn numeric_text(self, n: NumericContent, opt: DisplayOptions) -> Seq<char> {
        facts_numeric_text(french_rev_date_facts(self), n, opt)
    }

    open spec fn numeric_fits(self, n: NumericContent, opt: DisplayOptions) -> bool {
        facts_fit(french_rev_date_facts(self), n, opt)
    }

    open spec fn name_text(self, t: TextContent, lang: Language, opt: DisplayOptions) -> Seq<
        char,
    > {
        french_rev_name_text(self, t, lang, opt)
    }

    fn supported_lang(lang: Language) -> (r: bool) {
        get_dict(lang).french_rev.is_some()
    }

    fn fmt_numeric(&self, n: NumericContent, opt: DisplayOptions) -> (r: String) {
        let c = self.to_common_date();
        let f = self.to_fixed();
        let e = FrenchRevArith::<L>::epoch();
        let q = self.quarter();
        let facts = DateFacts {
            year: c.year as i128,
            month: Some(c.month as i128),
            day: Some(c.day as i128),
            weekday: match self.weekday() { Some(w) => Some(w.to_u8() as i128), None => None },
            day_of_year: Some(((c.month as i128) - 1) * 30 + c.day as i128),
            quarter: q as i128,
            days_since_epoch: f as i128 - e as i128,
            week_of_year: match self.try_week_of_year() { Some(k) => Some(k as i128), None => None },
            complementary: match self.complementary() { Some(k) => Some(k.to_u8() as i128), None => None },
        };
        assert(self.numeric_text(n, opt) == facts_numeric_text(french_rev_date_facts(*self), n, opt));
        assert(self.numeric_fits(n, opt) == facts_fit(french_rev_date_facts(*self), n, opt));
        fmt_facts_numeric(facts, n, opt)
    }

    fn fmt_text(&self, t: TextContent, lang: Language, opt: DisplayOptions) -> (r: String) {
        let c = self.to_common_date();
        let dict = get_dict(lang).french_rev;
        proof {
            reveal_strlit("");
            assert(""@ =~= Seq::<char>::empty());
        }
        let r = match t {
            TextContent::MonthName => match dict {
                Some(g) => fmt_string(if c.month >= 1 && c.month <= 12 { french_rev_month_name_of(g, c.month) } else { "" }, opt),
                None => fmt_string("", opt),
            },
            TextContent::DayOfMonthName => fmt_string("", opt),
            TextContent::DayOfWeekName => match dict {
                Some(g) => fmt_string(match self.weekday() { Some(w) => french_rev_weekday_name_of(g, w.to_u8()), None => "" }, opt),
                None => fmt_string("", opt),
            },
            TextContent::HalfDayName | TextContent::HalfDayAbbrev => fmt_midnight_half(t, lang, opt),
            TextContent::EraName => match dict {
                Some(g) => fmt_string(if c.year < 0 { g.before_republic_full } else { g.after_republic_full }, opt),
                None => fmt_string("", opt),
            },
            TextContent::EraAbbreviation => match dict {
                Some(g) => fmt_string(if c.year < 0 { g.before_republic_abr } else { g.after_republic_abr }, opt),
                None => fmt_string("", opt),
            },
            TextContent::ComplementaryDayName => match dict {
                Some(g) => fmt_string(match self.complementary() { Some(k) => french_rev_complementary_name_of(g, k.to_u8()), None => "" }, opt),
                None => fmt_string("", opt),
            },
        };
        assert(self.name_text(t, lang, opt) == french_rev_name_text(*self, t, lang, opt));
        r
    }
}

impl<const L: bool> PresetDisplay for FrenchRevArith<L> {
    open spec fn long_format(self) -> PresetFormat {
        if self.complementary_spec() is Some { LONG_COMPL } else { LONG_DATE }
    }

    open spec fn short_format(self) -> PresetFormat {
        YYYYMMDD_DASH
    }

    fn long_date(&self) -> (r: String) {
        let p = if self.complementary().is_some() { LONG_COMPL } else { LONG_DATE };
        proof {
            lemma_unpadded_preset_fits(*self, p);
        }
        self.preset_str(Language::EN, p)
    }

    fn short_date(&self) -> (r: String) {
        let p = YYYYMMDD_DASH;
        self.preset_str(Language::EN, p)
    }
}

/// The English names that `french_rev_month_name` gives, by number: a table fixed apart from the code that
/// writes dates.
pub proof fn law_french_rev_month_name_english()
    ensures
        dictionary_spec(Language::EN).french_rev is Some,
        french_rev_month_name(dictionary_spec(Language::EN).french_rev.unwrap(), 1) == "Vendémiaire",
        french_rev_month_name(dictionary_spec(Language::EN).french_rev.unwrap(), 2) == "Brumaire",
        french_rev_month_name(dictionary_spec(Language::EN).french_rev.unwrap(), 3) == "Frimaire",
        french_rev_month_name(dictionary_spec(Language::EN).french_rev.unwrap(), 4) == "Nivôse",
        french_rev_month_name(dictionary_spec(Language::EN).french_rev.unwrap(), 5) == "Pluviôse",
        french_rev_month_name(dictionary_spec(Language::EN).french_rev.unwrap(), 6) == "Ventôse",
        french_rev_month_name(dictionary_spec(Language::EN).french_rev.unwrap(), 7) == "Germinal",
        french_rev_month_name(dictionary_spec(Language::EN).french_rev.unwrap(), 8) == "Floréal",
        french_rev_month_name(dictionary_spec(Language::EN).french_rev.unwrap(), 9) == "Prairial",
        french_rev_month_name(dictionary_spec(Language::EN).french_rev.unwrap(), 10) == "Messidor",
        french_rev_month_name(dictionary_spec(Language::EN).french_rev.unwrap(), 11) == "Thermidor",
        french_rev_month_name(dictionary_spec(Language::EN).french_rev.unwrap(), 12) == "Fructidor",
{
}

/// The English names that `french_rev_complementary_name` gives, by number: a table fixed apart from the code that
/// writes dates.
pub proof fn law_french_rev_complementary_name_english()
    ensures
        dictionary_spec(Language::EN).french_rev is Some,
        french_rev_complementary_name(dictionary_spec(Language::EN).french_rev.unwrap(), 1) == "Fête de la Vertu",
        french_rev_complementary_name(dictionary_spec(Language::EN).french_rev.unwrap(), 2) == "Fête du Génie",
        french_rev_complementary_name(dictionary_spec(Language::EN).french_rev.unwrap(), 3) == "Fête du Travail",
        french_rev_complementary_name(dictionary_spec(Language::EN).french_rev.unwrap(), 4) == "Fête de l'Opinion",
        french_rev_complementary_name(dictionary_spec(Language::EN).french_rev.unwrap(), 5) == "Fête des Récompenses",
        french_rev_complementary_name(dictionary_spec(Language::EN).french_rev.unwrap(), 6) == "Fête de la Révolution",
{
}

/// The English names that `french_rev_weekday_name` gives, by number: a table fixed apart from the code that
/// writes dates.
pub proof fn law_french_rev_weekday_name_english()
    ensures
        dictionary_spec(Language::EN).french_rev is Some,
        french_rev_weekday_name(dictionary_spec(Language::EN).french_rev.unwrap(), 1) == "Primidi",
        french_rev_weekday_name(dictionary_spec(Language::EN).french_rev.unwrap(), 2) == "Duodi",
        french_rev_weekday_name(dictionary_spec(Language::EN).french_rev.unwrap(), 3) == "Tridi",
        french_rev_weekday_name(dictionary_spec(Language::EN).french_rev.unwrap(), 4) == "Quartidi",
        french_rev_weekday_name(dictionary_spec(Language::EN).french_rev.unwrap(), 5) == "Quintidi",
        french_rev_weekday_name(dictionary_spec(Language::EN).french_rev.unwrap(), 6) == "Sextidi",
        french_rev_weekday_name(dictionary_spec(Language::EN).french_rev.unwrap(), 7) == "Septidi",
        french_rev_weekday_name(dictionary_spec(Language::EN).french_rev.unwrap(), 8) == "Octidi",
        french_rev_weekday_name(dictionary_spec(Language::EN).french_rev.unwrap(), 9) == "Nonidi",
        french_rev_weekday_name(dictionary_spec(Language::EN).french_rev.unwrap(), 10) == "Décadi",
{
}

/// The English era of a date: "Year of the Republic" ("R") for years from 1 on, "Before the Republic"
/// ("BR") for years from -1 back; year 0 is written with the after era.
pub proof fn law_french_rev_era_english<const L: bool>(x: FrenchRevArith<L>, opt: DisplayOptions)
    ensures
        x.common_view().year >= 1 ==> x.name_text(TextContent::EraName, Language::EN, opt) == fmt_string_spec("Year of the Republic"@, opt),
        x.common_view().year <= -1 ==> x.name_text(TextContent::EraName, Language::EN, opt) == fmt_string_spec("Before the Republic"@, opt),
        x.common_view().year == 0 ==> x.name_text(TextContent::EraName, Language::EN, opt) == fmt_string_spec("Year of the Republic"@, opt),
        x.common_view().year >= 1 ==> x.name_text(TextContent::EraAbbreviation, Language::EN, opt) == fmt_string_spec("R"@, opt),
        x.common_view().year <= -1 ==> x.name_text(TextContent::EraAbbreviation, Language::EN, opt) == fmt_string_spec("BR"@, opt),
        x.common_view().year == 0 ==> x.name_text(TextContent::EraAbbreviation, Language::EN, opt) == fmt_string_spec("R"@, opt),
{
}

} // verus!
