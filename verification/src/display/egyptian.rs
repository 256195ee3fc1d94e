use crate::calendar::egyptian::egyptian_days_upon_the_year_number;
use crate::calendar::egyptian::Egyptian;
use crate::calendar::prelude::CommonWeekOfYear;
use crate::calendar::prelude::HasIntercalaryDays;
use crate::calendar::prelude::Quarter;
use crate::calendar::prelude::ToFromCommonDate;
use crate::day_count::fixed::Epoch;
use crate::day_count::fixed::ToFixed;
use crate::day_cycle::prelude::BoundedCycle;
use crate::day_cycle::week::weekday_of_number;
use crate::day_cycle::week::Weekday;
use crate::display::format::DisplayOptions;
use crate::display::format::NumericContent;
use crate::display::format::TextContent;
use crate::display::prelude::facts_fit;
use crate::display::prelude::DateFacts;
use crate::display::prelude::DisplayItem;
use crate::display::prelude::PresetDisplay;
use crate::display::prelude::PresetFormat;
use crate::display::prelude::facts_numeric_text;
use crate::display::prelude::fmt_facts_numeric;
use crate::display::prelude::ordinal_date_facts;
use crate::display::prelude::ordinal_date_facts_of;
use crate::display::prelude::weekday_number_of;
use crate::display::prelude::weekday_number_of_fixed;
use crate::display::prelude::common_week_number;
use crate::display::prelude::LONG_DATE;
use crate::display::prelude::LONG_COMPL;
use crate::display::prelude::YYYYMMDD_DASH;
use crate::display::private::fmt_string;
use crate::display::private::fmt_string_spec;
use crate::display::text::dictionary_spec;
use crate::display::text::get_dict;
use crate::display::text::EgyptianDictionary;
use crate::display::text::Language;
use crate::display::week::fmt_midnight_half;
use crate::display::week::fmt_weekday_name;
use crate::display::week::midnight_half_text;
use crate::display::week::weekday_name_text;
use crate::display::prelude::lemma_unpadded_preset_fits;
use vstd::prelude::*;

verus! {

/// The name of a month in a dictionary of Egyptian names.
pub open spec fn egyptian_month_name<'a>(g: EgyptianDictionary<'a>, m: int) -> &'a str {
    if m == 1 {
        g.thoth
    } else if m == 2 {
        g.phaophi
    } else if m == 3 {
        g.athyr
    } else if m == 4 {
        g.choiak
    } else if m == 5 {
        g.tybi
    } else if m == 6 {
        g.mechir
    } else if m == 7 {
        g.phamenoth
    } else if m == 8 {
        g.pharmuthi
    } else if m == 9 {
        g.pachon
    } else if m == 10 {
        g.payni
    } else if m == 11 {
        g.epiphi
    } else if m == 12 {
        g.mesori
    } else {
        g.epagomenae
    }
}

/// Finds the name of a month in a dictionary of Egyptian names.
pub fn egyptian_month_name_of<'a>(g: EgyptianDictionary<'a>, m: u8) -> (r: &'a str)
    ensures
        r == egyptian_month_name(g, m as int),
{
    if m == 1 {
        g.thoth
    } else if m == 2 {
        g.phaophi
    } else if m == 3 {
        g.athyr
    } else if m == 4 {
        g.choiak
    } else if m == 5 {
        g.tybi
    } else if m == 6 {
        g.mechir
    } else if m == 7 {
        g.phamenoth
    } else if m == 8 {
        g.pharmuthi
    } else if m == 9 {
        g.pachon
    } else if m == 10 {
        g.payni
    } else if m == 11 {
        g.epiphi
    } else if m == 12 {
        g.mesori
    } else {
        g.epagomenae
    }
}

/// The name of a complementary day in a dictionary of Egyptian names.
pub open spec fn egyptian_complementary_name<'a>(g: EgyptianDictionary<'a>, k: int) -> &'a str {
    if k == 1 {
        g.birth_of_osiris
    } else if k == 2 {
        g.birth_of_horus
    } else if k == 3 {
        g.birth_of_seth
    } else if k == 4 {
        g.birth_of_isis
    } else {
        g.birth_of_nephthys
    }
}

/// Finds the name of a complementary day in a dictionary of Egyptian names.
pub fn egyptian_complementary_name_of<'a>(g: EgyptianDictionary<'a>, k: u8) -> (r: &'a str)
    ensures
        r == egyptian_complementary_name(g, k as int),
{
    if k == 1 {
        g.birth_of_osiris
    } else if k == 2 {
        g.birth_of_horus
    } else if k == 3 {
        g.birth_of_seth
    } else if k == 4 {
        g.birth_of_isis
    } else {
        g.birth_of_nephthys
    }
}

/// The written names of a Egyptian date, which stands for midnight of its day.
pub open spec fn egyptian_name_text(x: Egyptian, t: TextContent, lang: Language, opt: DisplayOptions) -> Seq<
    char,
> {
    let d = x.common_view();
    let dict = dictionary_spec(lang).egyptian;
    match t {
        TextContent::MonthName => match dict {
                Some(g) => fmt_string_spec(egyptian_month_name(g, d.month as int)@, opt),
                None => fmt_string_spec(Seq::empty(), opt),
            },
        TextContent::DayOfMonthName => fmt_string_spec(Seq::empty(), opt),
        TextContent::DayOfWeekName => weekday_name_text(weekday_of_number(x.fixed_spec() % 7), lang, opt),
        TextContent::HalfDayName | TextContent::HalfDayAbbrev => midnight_half_text(t, lang, opt),
        TextContent::EraName => match dict {
                Some(g) => fmt_string_spec((if d.year < 0 { g.before_nabonassar_full } else { g.after_nabonassar_full })@, opt),
                None => fmt_string_spec(Seq::empty(), opt),
            },
        TextContent::EraAbbreviation => match dict {
                Some(g) => fmt_string_spec((if d.year < 0 { g.before_nabonassar_abr } else { g.after_nabonassar_abr })@, opt),
                None => fmt_string_spec(Seq::empty(), opt),
            },
        TextContent::ComplementaryDayName => match dict {
                Some(g) => fmt_string_spec((match x.complementary_spec() { Some(k) => egyptian_complementary_name(g, egyptian_days_upon_the_year_number(k)), None => "" })@, opt),
                None => fmt_string_spec(Seq::empty(), opt),
            },
    }
}

/// The numbers of a Egyptian date that the formats write.
pub open spec fn egyptian_date_facts(x: Egyptian) -> DateFacts {
    ordinal_date_facts(x, Some(weekday_number_of_fixed(x.fixed_spec())), Some(common_week_number(x)), match x.complementary_spec() { Some(k) => Some(egyptian_days_upon_the_year_number(k) as i128), None => None })
}

impl DisplayItem for Egyptian {
    proof fn lemma_unpadded_fits(self, n: NumericContent, opt: DisplayOptions) {
    }

    open spec fn supported_lang_spec(lang: Language) -> bool {
        dictionary_spec(lang).egyptian is Some
    }

    open spec fn numeric_text(self, n: NumericContent, opt: DisplayOptions) -> Seq<char> {
        facts_numeric_text(egyptian_date_facts(self), n, opt)
    }

    open spec fn numeric_fits(self, n: NumericContent, opt: DisplayOptions) -> bool {
        facts_fit(egyptian_date_facts(self), n, opt)
    }

    open spec fn name_text(self, t: TextContent, lang: Language, opt: DisplayOptions) -> Seq<
        char,
    > {
        egyptian_name_text(self, t, lang, opt)
    }

    fn supported_lang(lang: Language) -> (r: bool) {
        get_dict(lang).egyptian.is_some()
    }

    fn fmt_numeric(&self, n: NumericContent, opt: DisplayOptions) -> (r: String) {
        let _ = self.to_common_date();
        let weekday = Some(weekday_number_of(self.to_fixed()));
        let week = Some(self.week_of_year() as i128);
        let compl = match self.complementary() { Some(k) => Some(k.to_u8() as i128), None => None };
        let facts = ordinal_date_facts_of(*self, weekday, week, compl);
        assert(self.numeric_text(n, opt) == facts_numeric_text(egyptian_date_facts(*self), n, opt));
        assert(self.numeric_fits(n, opt) == facts_fit(egyptian_date_facts(*self), n, opt));
        fmt_facts_numeric(facts, n, opt)
    }

    fn fmt_text(&self, t: TextContent, lang: Language, opt: DisplayOptions) -> (r: String) {
        let c = self.to_common_date();
        let dict = get_dict(lang).egyptian;
        proof {
            reveal_strlit("");
            assert(""@ =~= Seq::<char>::empty());
        }
        let r = match t {
            TextContent::MonthName => match dict {
                Some(g) => fmt_string(egyptian_month_name_of(g, c.month), opt),
                None => fmt_string("", opt),
            },
            TextContent::DayOfMonthName => fmt_string("", opt),
            TextContent::DayOfWeekName => fmt_weekday_name(Weekday::from_unbounded(self.to_fixed()), lang, opt),
            TextContent::HalfDayName | TextContent::HalfDayAbbrev => fmt_midnight_half(t, lang, opt),
            TextContent::EraName => match dict {
                Some(g) => fmt_string(if c.year < 0 { g.before_nabonassar_full } else { g.after_nabonassar_full }, opt),
                None => fmt_string("", opt),
            },
            TextContent::EraAbbreviation => match dict {
                Some(g) => fmt_string(if c.year < 0 { g.before_nabonassar_abr } else { g.after_nabonassar_abr }, opt),
                None => fmt_string("", opt),
            },
            TextContent::ComplementaryDayName => match dict {
                Some(g) => fmt_string(match self.complementary() { Some(k) => egyptian_complementary_name_of(g, k.to_u8()), None => "" }, opt),
                None => fmt_string("", opt),
            },
        };
        assert(self.name_text(t, lang, opt) == egyptian_name_text(*self, t, lang, opt));
        r
    }
}

impl PresetDisplay for Egyptian {
    open spec fn long_format(self) -> PresetFormat {
        if self.complementary_spec() is Some { LONG_COMPL } else { LONG_DATE }
    }

    open spec fn short_format(self) -> PresetFormat {
        YYYYMMDD_DASH
    }

    fn long_date(&self) -> (r: String) {
        let p = if self.complementary().is_some() { LONG_COMPL } else { LONG_DATE };
        proof {
            lemma_unpadded_preset_fits(*self, p);
        }
        self.preset_str(Language::EN, p)
    }

    fn short_date(&self) -> (r: String) {
        let p = YYYYMMDD_DASH;
        self.preset_str(Language::EN, p)
    }
}

/// The English names that `egyptian_month_name` gives, by number: a table fixed apart from the code that
/// writes dates.
pub proof fn law_egyptian_month_name_english()
    ensures
        dictionary_spec(Language::EN).egyptian is Some,
        egyptian_month_name(dictionary_spec(Language::EN).egyptian.unwrap(), 1) == "Thoth",
        egyptian_month_name(dictionary_spec(Language::EN).egyptian.unwrap(), 2) == "Phaophi",
        egyptian_month_name(dictionary_spec(Language::EN).egyptian.unwrap(), 3) == "Athyr",
        egyptian_month_name(dictionary_spec(Language::EN).egyptian.unwrap(), 4) == "Choiak",
        egyptian_month_name(dictionary_spec(Language::EN).egyptian.unwrap(), 5) == "Tybi",
        egyptian_month_name(dictionary_spec(Language::EN).egyptian.unwrap(), 6) == "Mechir",
        egyptian_month_name(dictionary_spec(Language::EN).egyptian.unwrap(), 7) == "Phamenoth",
        egyptian_month_name(dictionary_spec(Language::EN).egyptian.unwrap(), 8) == "Pharmuthi",
        egyptian_month_name(dictionary_spec(Language::EN).egyptian.unwrap(), 9) == "Pachon",
        egyptian_month_name(dictionary_spec(Language::EN).egyptian.unwrap(), 10) == "Payni",
        egyptian_month_name(dictionary_spec(Language::EN).egyptian.unwrap(), 11) == "Epiphi",
        egyptian_month_name(dictionary_spec(Language::EN).egyptian.unwrap(), 12) == "Mesori",
        egyptian_month_name(dictionary_spec(Language::EN).egyptian.unwrap(), 13) == "Epagomenae",
{
}

/// The English names that `egyptian_complementary_name` gives, by number: a table fixed apart from the code that
/// writes dates.
pub proof fn law_egyptian_complementary_name_english()
    ensures
        dictionary_spec(Language::EN).egyptian is Some,
        egyptian_complementary_name(dictionary_spec(Language::EN).egyptian.unwrap(), 1) == "Birth of Osiris",
        egyptian_complementary_name(dictionary_spec(Language::EN).egyptian.unwrap(), 2) == "Birth of Horus",
        egyptian_complementary_name(dictionary_spec(Language::EN).egyptian.unwrap(), 3) == "Birth of Seth",
        egyptian_complementary_name(dictionary_spec(Language::EN).egyptian.unwrap(), 4) == "Birth of Isis",
        egyptian_complementary_name(dictionary_spec(Language::EN).egyptian.unwrap(), 5) == "Birth of Nephthys",
{
}

/// The English era of a date: "Era of Nabonassar" ("EN") for years from 1 on, "Before the Era of Nabonassar"
/// ("BN") for years from -1 back; year 0 is written with the after era.
pub proof fn law_egyptian_era_english(x: Egyptian, opt: DisplayOptions)
    ensures
        x.common_view().year >= 1 ==> x.name_text(TextContent::EraName, Language::EN, opt) == fmt_string_spec("Era of Nabonassar"@, opt),
        x.common_view().year <= -1 ==> x.name_text(TextContent::EraName, Language::EN, opt) == fmt_string_spec("Before the Era of Nabonassar"@, opt),
        x.common_view().year == 0 ==> x.name_text(TextContent::EraName, Language::EN, opt) == fmt_string_spec("Era of Nabonassar"@, opt),
        x.common_view().year >= 1 ==> x.name_text(TextContent::EraAbbreviation, Language::EN, opt) == fmt_string_spec("EN"@, opt),
        x.common_view().year <= -1 ==> x.name_text(TextContent::EraAbbreviation, Language::EN, opt) == fmt_string_spec("BN"@, opt),
        x.common_view().year == 0 ==> x.name_text(TextContent::EraAbbreviation, Language::EN, opt) == fmt_string_spec("EN"@, opt),
{
}

} // verus!
