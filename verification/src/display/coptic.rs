use crate::calendar::coptic::Coptic;
use crate::calendar::prelude::CommonWeekOfYear;
use crate::calendar::prelude::Quarter;
use crate::calendar::prelude::ToFromCommonDate;
use crate::day_count::fixed::Epoch;
use crate::day_count::fixed::ToFixed;
use crate::day_cycle::prelude::BoundedCycle;
use crate::day_cycle::week::weekday_of_number;
use crate::day_cycle::week::Weekday;
use crate::display::format::DisplayOptions;
use crate::display::format::NumericContent;
use crate::display::format::TextContent;
use crate::display::prelude::facts_fit;
use crate::display::prelude::DateFacts;
use crate::display::prelude::DisplayItem;
use crate::display::prelude::PresetDisplay;
use crate::display::prelude::PresetFormat;
use crate::display::prelude::facts_numeric_text;
use crate::display::prelude::fmt_facts_numeric;
use crate::display::prelude::ordinal_date_facts;
use crate::display::prelude::ordinal_date_facts_of;
use crate::display::prelude::weekday_number_of;
use crate::display::prelude::weekday_number_of_fixed;
use crate::display::prelude::common_week_number;
use crate::display::prelude::LONG_DATE;
use crate::display::prelude::YYYYMMDD_DASH;
use crate::display::private::fmt_string;
use crate::display::private::fmt_string_spec;
use crate::display::text::dictionary_spec;
use crate::display::text::get_dict;
use crate::display::text::CopticDictionary;
use crate::display::text::Language;
use crate::display::week::fmt_midnight_half;
use crate::display::week::fmt_weekday_name;
use crate::display::week::midnight_half_text;
use crate::display::week::weekday_name_text;
use crate::display::prelude::lemma_unpadded_preset_fits;
use vstd::prelude::*;

verus! {

/// The name of a month in a dictionary of Coptic names.
pub open spec fn coptic_month_name<'a>(g: CopticDictionary<'a>, m: int) -> &'a str {
    if m == 1 {
        g.thoout
    } else if m == 2 {
        g.paope
    } else if m == 3 {
        g.athor
    } else if m == 4 {
        g.koiak
    } else if m == 5 {
        g.tobe
    } else if m == 6 {
        g.meshir
    } else if m == 7 {
        g.paremotep
    } else if m == 8 {
        g.parmoute
    } else if m == 9 {
        g.pashons
    } else if m == 10 {
        g.paone
    } else if m == 11 {
        g.epep
    } else if m == 12 {
        g.mesore
    } else {
        g.epagomene
    }
}

/// Finds the name of a month in a dictionary of Coptic names.
pub fn coptic_month_name_of<'a>(g: CopticDictionary<'a>, m: u8) -> (r: &'a str)
    ensures
        r == coptic_month_name(g, m as int),
{
    if m == 1 {
        g.thoout
    } else if m == 2 {
        g.paope
    } else if m == 3 {
        g.athor
    } else if m == 4 {
        g.koiak
    } else if m == 5 {
        g.tobe
    } else if m == 6 {
        g.meshir
    } else if m == 7 {
        g.paremotep
    } else if m == 8 {
        g.parmoute
    } else if m == 9 {
        g.pashons
    } else if m == 10 {
        g.paone
    } else if m == 11 {
        g.epep
    } else if m == 12 {
        g.mesore
    } else {
        g.epagomene
    }
}

/// The written names of a Coptic date, which stands for midnight of its day.
pub open spec fn coptic_name_text(x: Coptic, t: TextContent, lang: Language, opt: DisplayOptions) -> Seq<
    char,
> {
    let d = x.common_view();
    let dict = dictionary_spec(lang).coptic;
    match t {
        TextContent::MonthName => match dict {
                Some(g) => fmt_string_spec(coptic_month_name(g, d.month as int)@, opt),
                None => Seq::empty(),
            },
        TextContent::DayOfMonthName => Seq::empty(),
        TextContent::DayOfWeekName => weekday_name_text(weekday_of_number(x.fixed_spec() % 7), lang, opt),
        TextContent::HalfDayName | TextContent::HalfDayAbbrev => midnight_half_text(t, lang, opt),
        TextContent::EraName => match dict {
                Some(g) => fmt_string_spec((if d.year < 0 { g.before_martyrs_full } else { g.after_martyrs_full })@, opt),
                None => Seq::empty(),
            },
        TextContent::EraAbbreviation => match dict {
                Some(g) => fmt_string_spec((if d.year < 0 { g.before_martyrs_abr } else { g.after_martyrs_abr })@, opt),
                None => Seq::empty(),
            },
        TextContent::ComplementaryDayName => Seq::empty(),
    }
}

/// The numbers of a Coptic date that the formats write.
pub open spec fn coptic_date_facts(x: Coptic) -> DateFacts {
    ordinal_date_facts(x, Some(weekday_number_of_fixed(x.fixed_spec())), Some(common_week_number(x)), None)
}

impl DisplayItem for Coptic {
    proof fn lemma_unpadded_fits(self, n: NumericContent, opt: DisplayOptions) {
    }

    open spec fn supported_lang_spec(lang: Language) -> bool {
        dictionary_spec(lang).coptic is Some
    }

    open spec fn numeric_text(self, n: NumericContent, opt: DisplayOptions) -> Seq<char> {
        facts_numeric_text(coptic_date_facts(self), n, opt)
    }

    open spec fn numeric_fits(self, n: NumericContent, opt: DisplayOptions) -> bool {
        facts_fit(coptic_date_facts(self), n, opt)
    }

    open spec fn name_text(self, t: TextContent, lang: Language, opt: DisplayOptions) -> Seq<
        char,
    > {
        coptic_name_text(self, t, lang, opt)
    }

    fn supported_lang(lang: Language) -> (r: bool) {
        get_dict(lang).coptic.is_some()
    }

    fn fmt_numeric(&self, n: NumericContent, opt: DisplayOptions) -> (r: String) {
        let _ = self.to_common_date();
        let weekday = Some(weekday_number_of(self.to_fixed()));
        let week = Some(self.week_of_year() as i128);
        let compl = None;
        let facts = ordinal_date_facts_of(*self, weekday, week, compl);
        assert(self.numeric_text(n, opt) == facts_numeric_text(coptic_date_facts(*self), n, opt));
        assert(self.numeric_fits(n, opt) == facts_fit(coptic_date_facts(*self), n, opt));
        fmt_facts_numeric(facts, n, opt)
    }

    fn fmt_text(&self, t: TextContent, lang: Language, opt: DisplayOptions) -> (r: String) {
        let c = self.to_common_date();
        let dict = get_dict(lang).coptic;
        proof {
            reveal_strlit("");
            assert(""@ =~= Seq::<char>::empty());
        }
        let r = match t {
            TextContent::MonthName => match dict {
                Some(g) => fmt_string(coptic_month_name_of(g, c.month), opt),
                None => String::new(),
            },
            TextContent::DayOfMonthName => String::new(),
            TextContent::DayOfWeekName => fmt_weekday_name(Weekday::from_unbounded(self.to_fixed()), lang, opt),
            TextContent::HalfDayName | TextContent::HalfDayAbbrev => fmt_midnight_half(t, lang, opt),
            TextContent::EraName => match dict {
                Some(g) => fmt_string(if c.year < 0 { g.before_martyrs_full } else { g.after_martyrs_full }, opt),
                None => String::new(),
            },
            TextContent::EraAbbreviation => match dict {
                Some(g) => fmt_string(if c.year < 0 { g.before_martyrs_abr } else { g.after_martyrs_abr }, opt),
                None => String::new(),
            },
            TextContent::ComplementaryDayName => String::new(),
        };
        assert(self.name_text(t, lang, opt) == coptic_name_text(*self, t, lang, opt));
        r
    }
}

impl PresetDisplay for Coptic {
    open spec fn long_format(self) -> PresetFormat {
        LONG_DATE
    }

    open spec fn short_format(self) -> PresetFormat {
        YYYYMMDD_DASH
    }

    fn long_date(&self) -> (r: String) {
        let p = LONG_DATE;
        proof {
            lemma_unpadded_preset_fits(*self, p);
        }
        self.preset_str(Language::EN, p)
    }

    fn short_date(&self) -> (r: String) {
        let p = YYYYMMDD_DASH;
        self.preset_str(Language::EN, p)
    }
}

/// The English names that `coptic_month_name` gives, by number: a table fixed apart from the code that
/// writes dates.
pub proof fn law_coptic_month_name_english()
    ensures
        dictionary_spec(Language::EN).coptic is Some,
        coptic_month_name(dictionary_spec(Language::EN).coptic.unwrap(), 1) == "Thoout",
        coptic_month_name(dictionary_spec(Language::EN).coptic.unwrap(), 2) == "Paope",
        coptic_month_name(dictionary_spec(Language::EN).coptic.unwrap(), 3) == "Athor",
        coptic_month_name(dictionary_spec(Language::EN).coptic.unwrap(), 4) == "Koiak",
        coptic_month_name(dictionary_spec(Language::EN).coptic.unwrap(), 5) == "Tobe",
        coptic_month_name(dictionary_spec(Language::EN).coptic.unwrap(), 6) == "Meshir",
        coptic_month_name(dictionary_spec(Language::EN).coptic.unwrap(), 7) == "Paremotep",
        coptic_month_name(dictionary_spec(Language::EN).coptic.unwrap(), 8) == "Parmoute",
        coptic_month_name(dictionary_spec(Language::EN).coptic.unwrap(), 9) == "Pashons",
        coptic_month_name(dictionary_spec(Language::EN).coptic.unwrap(), 10) == "Paone",
        coptic_month_name(dictionary_spec(Language::EN).coptic.unwrap(), 11) == "Epep",
        coptic_month_name(dictionary_spec(Language::EN).coptic.unwrap(), 12) == "Mesore",
        coptic_month_name(dictionary_spec(Language::EN).coptic.unwrap(), 13) == "Epagomene",
{
}

/// The English era of a date: "Anno Martyrum" ("AM") for years from 1 on, "Before the Era of the Martyrs"
/// ("BAM") for years from -1 back; year 0 is written with the after era.
pub proof fn law_coptic_era_english(x: Coptic, opt: DisplayOptions)
    ensures
        x.common_view().year >= 1 ==> x.name_text(TextContent::EraName, Language::EN, opt) == fmt_string_spec("Anno Martyrum"@, opt),
        x.common_view().year <= -1 ==> x.name_text(TextContent::EraName, Language::EN, opt) == fmt_string_spec("Before the Era of the Martyrs"@, opt),
        x.common_view().year == 0 ==> x.name_text(TextContent::EraName, Language::EN, opt) == fmt_string_spec("Anno Martyrum"@, opt),
        x.common_view().year >= 1 ==> x.name_text(TextContent::EraAbbreviation, Language::EN, opt) == fmt_string_spec("AM"@, opt),
        x.common_view().year <= -1 ==> x.name_text(TextContent::EraAbbreviation, Language::EN, opt) == fmt_string_spec("BAM"@, opt),
        x.common_view().year == 0 ==> x.name_text(TextContent::EraAbbreviation, Language::EN, opt) == fmt_string_spec("AM"@, opt),
{
}

} // verus!
