use crate::calendar::iso::iso_day_number;
use crate::calendar::iso::ISO;
use crate::calendar::prelude::Quarter;
use crate::day_count::fixed::Epoch;
use crate::day_count::fixed::ToFixed;
use crate::display::format::DisplayOptions;
use crate::display::format::NumericContent;
use crate::display::format::TextContent;
use crate::display::prelude::facts_fit;
use crate::display::prelude::facts_numeric_text;
use crate::display::prelude::fmt_facts_numeric;
use crate::display::prelude::DateFacts;
use crate::display::prelude::DisplayItem;
use crate::display::prelude::PresetDisplay;
use crate::display::prelude::PresetFormat;
use crate::display::prelude::YEAR_WEEK_DAY;
use crate::display::private::fmt_string;
use crate::display::private::fmt_string_spec;
use crate::display::text::dictionary_spec;
use crate::display::text::get_dict;
use crate::display::text::Language;
use crate::display::week::fmt_midnight_half;
use crate::display::week::fmt_weekday_name;
use crate::display::week::midnight_half_text;
use crate::display::week::weekday_name_text;
use crate::display::prelude::item_fits;
use crate::display::prelude::preset_fits;
use crate::display::prelude::preset_items;
use crate::display::private::byte_len;
use crate::display::private::decimal_text;
use crate::display::private::number_prefix;
use vstd::prelude::*;
use vstd::utf8::encode_utf8;
use vstd::utf8::is_ascii_chars;
use vstd::utf8::is_ascii_chars_encode_utf8;

verus! {

/// The numbers of an ISO week date that the formats write: it has no month, day of the month
/// or day of the year.
pub open spec fn iso_date_facts(x: ISO) -> DateFacts {
    DateFacts {
        year: x@.0 as i128,
        month: None,
        day: None,
        weekday: Some(iso_day_number(x@.2) as i128),
        day_of_year: None,
        quarter: x.quarter_spec() as i128,
        days_since_epoch: (x.fixed_spec() - ISO::epoch_spec()) as i128,
        week_of_year: Some(x@.1 as i128),
        complementary: None,
    }
}

/// The written names of an ISO week date: the day of the week, the half of the day and the
/// era.
pub open spec fn iso_name_text(x: ISO, t: TextContent, lang: Language, opt: DisplayOptions) -> Seq<
    char,
> {
    let dict = dictionary_spec(lang).iso;
    match t {
        TextContent::DayOfWeekName => weekday_name_text(x@.2, lang, opt),
        TextContent::HalfDayName | TextContent::HalfDayAbbrev => midnight_half_text(t, lang, opt),
        TextContent::EraName => match dict {
            Some(g) => fmt_string_spec(
                (if x@.0 < 0 {
                    g.before_epoch_full
                } else {
                    g.after_epoch_full
                })@,
                opt,
            ),
            None => Seq::empty(),
        },
        TextContent::EraAbbreviation => match dict {
            Some(g) => fmt_string_spec(
                (if x@.0 < 0 {
                    g.before_epoch_abr
                } else {
                    g.after_epoch_abr
                })@,
                opt,
            ),
            None => Seq::empty(),
        },
        _ => Seq::empty(),
    }
}

/// A week number from 1 to 99 takes at most two bytes in decimal digits.
proof fn lemma_two_digit_bytes(w: int)
    requires
        1 <= w <= 99,
    ensures
        byte_len(decimal_text(w as nat)) <= 2,
{
    let t = decimal_text(w as nat);
    reveal_with_fuel(decimal_text, 3);
    assert(t.len() <= 2);
    assert(is_ascii_chars(t));
    is_ascii_chars_encode_utf8(t);
}

/// Every ISO week date can be written as year, week and day of the week: the week, padded to
/// two digits, has at most two.
proof fn lemma_iso_week_date_fits(x: ISO)
    requires
        1 <= x@.1 <= 53,
    ensures
        preset_fits(x, preset_items(PresetFormat::YearWeekDay)),
{
    let items = preset_items(PresetFormat::YearWeekDay);
    lemma_two_digit_bytes(x@.1 as int);
    assert(encode_utf8(Seq::<char>::empty()) =~= Seq::<u8>::empty());
    assert forall|i: int| 0 <= i < items.len() implies item_fits(x, #[trigger] items[i]) by {
        if i == 2 {
            assert(number_prefix(x@.1 as int, items[i].options) =~= Seq::<char>::empty());
        }
    }
}

impl DisplayItem for ISO {
    proof fn lemma_unpadded_fits(self, n: NumericContent, opt: DisplayOptions) {
    }

    open spec fn supported_lang_spec(lang: Language) -> bool {
        dictionary_spec(lang).iso is Some
    }

    open spec fn numeric_text(self, n: NumericContent, opt: DisplayOptions) -> Seq<char> {
        facts_numeric_text(iso_date_facts(self), n, opt)
    }

    open spec fn numeric_fits(self, n: NumericContent, opt: DisplayOptions) -> bool {
        facts_fit(iso_date_facts(self), n, opt)
    }

    open spec fn name_text(self, t: TextContent, lang: Language, opt: DisplayOptions) -> Seq<
        char,
    > {
        iso_name_text(self, t, lang, opt)
    }

    fn supported_lang(lang: Language) -> (r: bool) {
        get_dict(lang).iso.is_some()
    }

    fn fmt_numeric(&self, n: NumericContent, opt: DisplayOptions) -> (r: String) {
        let f = self.to_fixed();
        let e = ISO::epoch();
        let q = self.quarter();
        let facts = DateFacts {
            year: self.year() as i128,
            month: None,
            day: None,
            weekday: Some(self.day_num() as i128),
            day_of_year: None,
            quarter: q as i128,
            days_since_epoch: f as i128 - e as i128,
            week_of_year: Some(self.week() as i128),
            complementary: None,
        };
        assert(self.numeric_text(n, opt) == facts_numeric_text(iso_date_facts(*self), n, opt));
        assert(self.numeric_fits(n, opt) == facts_fit(iso_date_facts(*self), n, opt));
        fmt_facts_numeric(facts, n, opt)
    }

    fn fmt_text(&self, t: TextContent, lang: Language, opt: DisplayOptions) -> (r: String) {
        let year = self.year();
        let dict = get_dict(lang).iso;
        let r = match t {
            TextContent::DayOfWeekName => fmt_weekday_name(self.day(), lang, opt),
            TextContent::HalfDayName | TextContent::HalfDayAbbrev => fmt_midnight_half(t, lang, opt),
            TextContent::EraName => match dict {
                Some(g) => fmt_string(
                    if year < 0 {
                        g.before_epoch_full
                    } else {
                        g.after_epoch_full
                    },
                    opt,
                ),
                None => String::new(),
            },
            TextContent::EraAbbreviation => match dict {
                Some(g) => fmt_string(
                    if year < 0 {
                        g.before_epoch_abr
                    } else {
                        g.after_epoch_abr
                    },
                    opt,
                ),
                None => String::new(),
            },
            _ => String::new(),
        };
        assert(self.name_text(t, lang, opt) == iso_name_text(*self, t, lang, opt));
        r
    }
}

impl PresetDisplay for ISO {
    open spec fn long_format(self) -> PresetFormat {
        YEAR_WEEK_DAY
    }

    open spec fn short_format(self) -> PresetFormat {
        YEAR_WEEK_DAY
    }

    fn long_date(&self) -> (r: String) {
        let _ = self.week();
        proof {
            lemma_iso_week_date_fits(*self);
        }
        self.preset_str(Language::EN, YEAR_WEEK_DAY)
    }

    fn short_date(&self) -> (r: String) {
        self.preset_str(Language::EN, YEAR_WEEK_DAY)
    }
}

/// The English era of a date: "Common Era" ("CE") for years from 1 on, "Before Common Era"
/// ("BCE") for years from -1 back; year 0 is written with the after era.
pub proof fn law_iso_era_english(x: ISO, opt: DisplayOptions)
    ensures
        x@.0 >= 1 ==> x.name_text(TextContent::EraName, Language::EN, opt) == fmt_string_spec("Common Era"@, opt),
        x@.0 <= -1 ==> x.name_text(TextContent::EraName, Language::EN, opt) == fmt_string_spec("Before Common Era"@, opt),
        x@.0 == 0 ==> x.name_text(TextContent::EraName, Language::EN, opt) == fmt_string_spec("Common Era"@, opt),
        x@.0 >= 1 ==> x.name_text(TextContent::EraAbbreviation, Language::EN, opt) == fmt_string_spec("CE"@, opt),
        x@.0 <= -1 ==> x.name_text(TextContent::EraAbbreviation, Language::EN, opt) == fmt_string_spec("BCE"@, opt),
        x@.0 == 0 ==> x.name_text(TextContent::EraAbbreviation, Language::EN, opt) == fmt_string_spec("CE"@, opt),
{
}

} // verus!
