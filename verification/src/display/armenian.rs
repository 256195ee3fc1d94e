use crate::calendar::armenian::Armenian;
use crate::calendar::prelude::CommonWeekOfYear;
use crate::calendar::prelude::Quarter;
use crate::calendar::prelude::ToFromCommonDate;
use crate::day_count::fixed::Epoch;
use crate::day_count::fixed::ToFixed;
use crate::day_cycle::prelude::BoundedCycle;
use crate::day_cycle::week::weekday_of_number;
use crate::day_cycle::week::Weekday;
use crate::display::format::DisplayOptions;
use crate::display::format::NumericContent;
use crate::display::format::TextContent;
use crate::display::prelude::facts_fit;
use crate::display::prelude::DateFacts;
use crate::display::prelude::DisplayItem;
use crate::display::prelude::PresetDisplay;
use crate::display::prelude::PresetFormat;
use crate::display::prelude::facts_numeric_text;
use crate::display::prelude::fmt_facts_numeric;
use crate::display::prelude::weekday_number_of;
use crate::display::prelude::weekday_number_of_fixed;
use crate::display::prelude::common_week_number;
use crate::display::prelude::LONG_DATE;
use crate::display::prelude::LONG_DAY_OF_MONTH;
use crate::display::prelude::YYYYMMDD_DASH;
use crate::display::private::fmt_string;
use crate::display::private::fmt_string_spec;
use crate::display::text::dictionary_spec;
use crate::display::text::get_dict;
use crate::display::text::ArmenianDictionary;
use crate::display::text::Language;
use crate::display::week::fmt_midnight_half;
use crate::display::week::fmt_weekday_name;
use crate::display::week::midnight_half_text;
use crate::display::week::weekday_name_text;
use crate::display::prelude::lemma_unpadded_preset_fits;
use vstd::prelude::*;

verus! {

/// The name of a month in a dictionary of Armenian names.
pub open spec fn armenian_month_name<'a>(g: ArmenianDictionary<'a>, m: int) -> &'a str {
    if m == 1 {
        g.nawasardi
    } else if m == 2 {
        g.hori
    } else if m == 3 {
        g.sahmi
    } else if m == 4 {
        g.tre
    } else if m == 5 {
        g.kaloch
    } else if m == 6 {
        g.arach
    } else if m == 7 {
        g.mehekani
    } else if m == 8 {
        g.areg
    } else if m == 9 {
        g.ahekani
    } else if m == 10 {
        g.mareri
    } else if m == 11 {
        g.margach
    } else if m == 12 {
        g.hrotich
    } else {
        g.aweleac
    }
}

/// Finds the name of a month in a dictionary of Armenian names.
pub fn armenian_month_name_of<'a>(g: ArmenianDictionary<'a>, m: u8) -> (r: &'a str)
    ensures
        r == armenian_month_name(g, m as int),
{
    if m == 1 {
        g.nawasardi
    } else if m == 2 {
        g.hori
    } else if m == 3 {
        g.sahmi
    } else if m == 4 {
        g.tre
    } else if m == 5 {
        g.kaloch
    } else if m == 6 {
        g.arach
    } else if m == 7 {
        g.mehekani
    } else if m == 8 {
        g.areg
    } else if m == 9 {
        g.ahekani
    } else if m == 10 {
        g.mareri
    } else if m == 11 {
        g.margach
    } else if m == 12 {
        g.hrotich
    } else {
        g.aweleac
    }
}

/// The name of a day of the month in a dictionary of Armenian names.
pub open spec fn armenian_day_name<'a>(g: ArmenianDictionary<'a>, k: int) -> &'a str {
    if k == 1 {
        g.areg_day
    } else if k == 2 {
        g.hrand
    } else if k == 3 {
        g.aram
    } else if k == 4 {
        g.margar
    } else if k == 5 {
        g.ahrank
    } else if k == 6 {
        g.mazdel
    } else if k == 7 {
        g.astlik
    } else if k == 8 {
        g.mihr
    } else if k == 9 {
        g.jopaber
    } else if k == 10 {
        g.murc
    } else if k == 11 {
        g.erezhan
    } else if k == 12 {
        g.ani
    } else if k == 13 {
        g.parkhar
    } else if k == 14 {
        g.vanat
    } else if k == 15 {
        g.aramazd
    } else if k == 16 {
        g.mani
    } else if k == 17 {
        g.asak
    } else if k == 18 {
        g.masis
    } else if k == 19 {
        g.anahit
    } else if k == 20 {
        g.aragats
    } else if k == 21 {
        g.gorgor
    } else if k == 22 {
        g.kordvik
    } else if k == 23 {
        g.tsmak
    } else if k == 24 {
        g.lusnak
    } else if k == 25 {
        g.tsron
    } else if k == 26 {
        g.npat
    } else if k == 27 {
        g.vahagn
    } else if k == 28 {
        g.sim
    } else if k == 29 {
        g.varag
    } else {
        g.giseravar
    }
}

/// Finds the name of a day of the month in a dictionary of Armenian names.
pub fn armenian_day_name_of<'a>(g: ArmenianDictionary<'a>, k: u8) -> (r: &'a str)
    ensures
        r == armenian_day_name(g, k as int),
{
    if k == 1 {
        g.areg_day
    } else if k == 2 {
        g.hrand
    } else if k == 3 {
        g.aram
    } else if k == 4 {
        g.margar
    } else if k == 5 {
        g.ahrank
    } else if k == 6 {
        g.mazdel
    } else if k == 7 {
        g.astlik
    } else if k == 8 {
        g.mihr
    } else if k == 9 {
        g.jopaber
    } else if k == 10 {
        g.murc
    } else if k == 11 {
        g.erezhan
    } else if k == 12 {
        g.ani
    } else if k == 13 {
        g.parkhar
    } else if k == 14 {
        g.vanat
    } else if k == 15 {
        g.aramazd
    } else if k == 16 {
        g.mani
    } else if k == 17 {
        g.asak
    } else if k == 18 {
        g.masis
    } else if k == 19 {
        g.anahit
    } else if k == 20 {
        g.aragats
    } else if k == 21 {
        g.gorgor
    } else if k == 22 {
        g.kordvik
    } else if k == 23 {
        g.tsmak
    } else if k == 24 {
        g.lusnak
    } else if k == 25 {
        g.tsron
    } else if k == 26 {
        g.npat
    } else if k == 27 {
        g.vahagn
    } else if k == 28 {
        g.sim
    } else if k == 29 {
        g.varag
    } else {
        g.giseravar
    }
}

/// The written names of a Armenian date, which stands for midnight of its day.
pub open spec fn armenian_name_text(x: Armenian, t: TextContent, lang: Language, opt: DisplayOptions) -> Seq<
    char,
> {
    let d = x.common_view();
    let dict = dictionary_spec(lang).armenian;
    match t {
        TextContent::MonthName => match dict {
                Some(g) => fmt_string_spec(armenian_month_name(g, d.month as int)@, opt),
                None => fmt_string_spec(Seq::empty(), opt),
            },
        TextContent::DayOfMonthName => match dict {
                Some(g) => if d.month == 13 { fmt_string_spec(Seq::empty(), opt) } else { fmt_string_spec(armenian_day_name(g, d.day as int)@, opt) },
                None => fmt_string_spec(Seq::empty(), opt),
            },
        TextContent::DayOfWeekName => match dict {
                Some(g) => weekday_name_text(weekday_of_number(x.fixed_spec() % 7), lang, opt),
                None => fmt_string_spec(Seq::empty(), opt),
            },
        TextContent::HalfDayName | TextContent::HalfDayAbbrev => match dict {
                Some(g) => midnight_half_text(t, lang, opt),
                None => fmt_string_spec(Seq::empty(), opt),
            },
        TextContent::EraName => match dict {
                Some(g) => fmt_string_spec((if d.year < 0 { g.before_epoch_full } else { g.after_epoch_full })@, opt),
                None => fmt_string_spec(Seq::empty(), opt),
            },
        TextContent::EraAbbreviation => match dict {
                Some(g) => fmt_string_spec((if d.year < 0 { g.before_epoch_abr } else { g.after_epoch_abr })@, opt),
                None => fmt_string_spec(Seq::empty(), opt),
            },
        TextContent::ComplementaryDayName => fmt_string_spec(Seq::empty(), opt),
    }
}

/// The numbers of a Armenian date that the formats write.
pub open spec fn armenian_date_facts(x: Armenian) -> DateFacts {
    DateFacts {
        year: x.common_view().year as i128,
        month: Some(x.common_view().month as i128),
        day: Some(x.common_view().day as i128),
        weekday: Some(weekday_number_of_fixed(x.fixed_spec())),
        day_of_year: Some(((x.common_view().month - 1) * 30 + x.common_view().day) as i128),
        quarter: x.quarter_spec() as i128,
        days_since_epoch: (x.fixed_spec() - Armenian::epoch_spec()) as i128,
        week_of_year: Some(common_week_number(x)),
        complementary: None,
    }
}

impl DisplayItem for Armenian {
    proof fn lemma_unpadded_fits(self, n: NumericContent, opt: DisplayOptions) {
    }

    open spec fn supported_lang_spec(lang: Language) -> bool {
        dictionary_spec(lang).armenian is Some
    }

    open spec fn numeric_text(self, n: NumericContent, opt: DisplayOptions) -> Seq<char> {
        facts_numeric_text(armenian_date_facts(self), n, opt)
    }

    open spec fn numeric_fits(self, n: NumericContent, opt: DisplayOptions) -> bool {
        facts_fit(armenian_date_facts(self), n, opt)
    }

    open spec fn name_text(self, t: TextContent, lang: Language, opt: DisplayOptions) -> Seq<
        char,
    > {
        armenian_name_text(self, t, lang, opt)
    }

    fn supported_lang(lang: Language) -> (r: bool) {
        get_dict(lang).armenian.is_some()
    }

    fn fmt_numeric(&self, n: NumericContent, opt: DisplayOptions) -> (r: String) {
        let c = self.to_common_date();
        let f = self.to_fixed();
        let e = Armenian::epoch();
        let q = self.quarter();
        let facts = DateFacts {
            year: c.year as i128,
            month: Some(c.month as i128),
            day: Some(c.day as i128),
            weekday: Some(weekday_number_of(self.to_fixed())),
            day_of_year: Some(((c.month as i128) - 1) * 30 + c.day as i128),
            quarter: q as i128,
            days_since_epoch: f as i128 - e as i128,
            week_of_year: Some(self.week_of_year() as i128),
            complementary: None,
        };
        assert(self.numeric_text(n, opt) == facts_numeric_text(armenian_date_facts(*self), n, opt));
        assert(self.numeric_fits(n, opt) == facts_fit(armenian_date_facts(*self), n, opt));
        fmt_facts_numeric(facts, n, opt)
    }

    fn fmt_text(&self, t: TextContent, lang: Language, opt: DisplayOptions) -> (r: String) {
        let c = self.to_common_date();
        let dict = get_dict(lang).armenian;
        proof {
            reveal_strlit("");
            assert(""@ =~= Seq::<char>::empty());
        }
        let r = match t {
            TextContent::MonthName => match dict {
                Some(g) => fmt_string(armenian_month_name_of(g, c.month), opt),
                None => fmt_string("", opt),
            },
            TextContent::DayOfMonthName => match dict {
                Some(g) => match self.day_name() {
                    Some(k) => fmt_string(armenian_day_name_of(g, k.to_u8()), opt),
                    None => fmt_string("", opt),
                },
                None => fmt_string("", opt),
            },
            TextContent::DayOfWeekName => match dict {
                Some(g) => fmt_weekday_name(Weekday::from_unbounded(self.to_fixed()), lang, opt),
                None => fmt_string("", opt),
            },
            TextContent::HalfDayName | TextContent::HalfDayAbbrev => match dict {
                Some(g) => fmt_midnight_half(t, lang, opt),
                None => fmt_string("", opt),
            },
            TextContent::EraName => match dict {
                Some(g) => fmt_string(if c.year < 0 { g.before_epoch_full } else { g.after_epoch_full }, opt),
                None => fmt_string("", opt),
            },
            TextContent::EraAbbreviation => match dict {
                Some(g) => fmt_string(if c.year < 0 { g.before_epoch_abr } else { g.after_epoch_abr }, opt),
                None => fmt_string("", opt),
            },
            TextContent::ComplementaryDayName => fmt_string("", opt),
        };
        assert(self.name_text(t, lang, opt) == armenian_name_text(*self, t, lang, opt));
        r
    }
}

impl PresetDisplay for Armenian {
    open spec fn long_format(self) -> PresetFormat {
        if self.common_view().month == 13 { LONG_DATE } else { LONG_DAY_OF_MONTH }
    }

    open spec fn short_format(self) -> PresetFormat {
        YYYYMMDD_DASH
    }

    fn long_date(&self) -> (r: String) {
        let p = if self.to_common_date().month == 13 { LONG_DATE } else { LONG_DAY_OF_MONTH };
        proof {
            lemma_unpadded_preset_fits(*self, p);
        }
        self.preset_str(Language::EN, p)
    }

    fn short_date(&self) -> (r: String) {
        let p = YYYYMMDD_DASH;
        self.preset_str(Language::EN, p)
    }
}

/// The English names that `armenian_month_name` gives, by number: a table fixed apart from the code that
/// writes dates.
pub proof fn law_armenian_month_name_english()
    ensures
        dictionary_spec(Language::EN).armenian is Some,
        armenian_month_name(dictionary_spec(Language::EN).armenian.unwrap(), 1) == "Nawasardi",
        armenian_month_name(dictionary_spec(Language::EN).armenian.unwrap(), 2) == "Hori",
        armenian_month_name(dictionary_spec(Language::EN).armenian.unwrap(), 3) == "Sahmi",
        armenian_month_name(dictionary_spec(Language::EN).armenian.unwrap(), 4) == "Tre",
        armenian_month_name(dictionary_spec(Language::EN).armenian.unwrap(), 5) == "Kaloch",
        armenian_month_name(dictionary_spec(Language::EN).armenian.unwrap(), 6) == "Arach",
        armenian_month_name(dictionary_spec(Language::EN).armenian.unwrap(), 7) == "Mehekani",
        armenian_month_name(dictionary_spec(Language::EN).armenian.unwrap(), 8) == "Areg",
        armenian_month_name(dictionary_spec(Language::EN).armenian.unwrap(), 9) == "Ahekani",
        armenian_month_name(dictionary_spec(Language::EN).armenian.unwrap(), 10) == "Mareri",
        armenian_month_name(dictionary_spec(Language::EN).armenian.unwrap(), 11) == "Margach",
        armenian_month_name(dictionary_spec(Language::EN).armenian.unwrap(), 12) == "Hrotich",
        armenian_month_name(dictionary_spec(Language::EN).armenian.unwrap(), 13) == "Aweleac",
{
}

/// The English names that `armenian_day_name` gives, by number: a table fixed apart from the code that
/// writes dates.
pub proof fn law_armenian_day_name_english()
    ensures
        dictionary_spec(Language::EN).armenian is Some,
        armenian_day_name(dictionary_spec(Language::EN).armenian.unwrap(), 1) == "Areg",
        armenian_day_name(dictionary_spec(Language::EN).armenian.unwrap(), 2) == "Hrand",
        armenian_day_name(dictionary_spec(Language::EN).armenian.unwrap(), 3) == "Aram",
        armenian_day_name(dictionary_spec(Language::EN).armenian.unwrap(), 4) == "Margar",
        armenian_day_name(dictionary_spec(Language::EN).armenian.unwrap(), 5) == "Ahrank",
        armenian_day_name(dictionary_spec(Language::EN).armenian.unwrap(), 6) == "Mazdel",
        armenian_day_name(dictionary_spec(Language::EN).armenian.unwrap(), 7) == "Astlik",
        armenian_day_name(dictionary_spec(Language::EN).armenian.unwrap(), 8) == "Mihr",
        armenian_day_name(dictionary_spec(Language::EN).armenian.unwrap(), 9) == "Jopaber",
        armenian_day_name(dictionary_spec(Language::EN).armenian.unwrap(), 10) == "Murc",
        armenian_day_name(dictionary_spec(Language::EN).armenian.unwrap(), 11) == "Erezhan",
        armenian_day_name(dictionary_spec(Language::EN).armenian.unwrap(), 12) == "Ani",
        armenian_day_name(dictionary_spec(Language::EN).armenian.unwrap(), 13) == "Parkhar",
        armenian_day_name(dictionary_spec(Language::EN).armenian.unwrap(), 14) == "Vanat",
        armenian_day_name(dictionary_spec(Language::EN).armenian.unwrap(), 15) == "Aramazd",
        armenian_day_name(dictionary_spec(Language::EN).armenian.unwrap(), 16) == "Mani",
        armenian_day_name(dictionary_spec(Language::EN).armenian.unwrap(), 17) == "Asak",
        armenian_day_name(dictionary_spec(Language::EN).armenian.unwrap(), 18) == "Masis",
        armenian_day_name(dictionary_spec(Language::EN).armenian.unwrap(), 19) == "Anahit",
        armenian_day_name(dictionary_spec(Language::EN).armenian.unwrap(), 20) == "Aragats",
        armenian_day_name(dictionary_spec(Language::EN).armenian.unwrap(), 21) == "Gorgor",
        armenian_day_name(dictionary_spec(Language::EN).armenian.unwrap(), 22) == "Kordvik",
        armenian_day_name(dictionary_spec(Language::EN).armenian.unwrap(), 23) == "Tsmak",
        armenian_day_name(dictionary_spec(Language::EN).armenian.unwrap(), 24) == "Lusnak",
        armenian_day_name(dictionary_spec(Language::EN).armenian.unwrap(), 25) == "Tsron",
        armenian_day_name(dictionary_spec(Language::EN).armenian.unwrap(), 26) == "Npat",
        armenian_day_name(dictionary_spec(Language::EN).armenian.unwrap(), 27) == "Vahagn",
        armenian_day_name(dictionary_spec(Language::EN).armenian.unwrap(), 28) == "Sim",
        armenian_day_name(dictionary_spec(Language::EN).armenian.unwrap(), 29) == "Varag",
        armenian_day_name(dictionary_spec(Language::EN).armenian.unwrap(), 30) == "Giseravar",
{
}

/// The English era of a date: "Armenian Era" ("AE") for years from 1 on, "Before Armenian Era"
/// ("BAE") for years from -1 back; year 0 is written with the after era.
pub proof fn law_armenian_era_english(x: Armenian, opt: DisplayOptions)
    ensures
        x.common_view().year >= 1 ==> x.name_text(TextContent::EraName, Language::EN, opt) == fmt_string_spec("Armenian Era"@, opt),
        x.common_view().year <= -1 ==> x.name_text(TextContent::EraName, Language::EN, opt) == fmt_string_spec("Before Armenian Era"@, opt),
        x.common_view().year == 0 ==> x.name_text(TextContent::EraName, Language::EN, opt) == fmt_string_spec("Armenian Era"@, opt),
        x.common_view().year >= 1 ==> x.name_text(TextContent::EraAbbreviation, Language::EN, opt) == fmt_string_spec("AE"@, opt),
        x.common_view().year <= -1 ==> x.name_text(TextContent::EraAbbreviation, Language::EN, opt) == fmt_string_spec("BAE"@, opt),
        x.common_view().year == 0 ==> x.name_text(TextContent::EraAbbreviation, Language::EN, opt) == fmt_string_spec("AE"@, opt),
{
}

} // verus!
