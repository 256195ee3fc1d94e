use crate::day_cycle::week::weekday_number;
use crate::day_cycle::week::Weekday;
use crate::display::format::DisplayOptions;
use crate::display::format::NumericContent;
use crate::display::format::TextContent;
use crate::display::prelude::DisplayItem;
use crate::display::prelude::PresetDisplay;
use crate::display::prelude::PresetFormat;
use crate::display::prelude::LONG_DATE;
use crate::display::prelude::YYYYMMDD_DASH;
use crate::display::private::fmt_number;
use crate::display::private::fmt_number_spec;
use crate::display::private::number_fits;
use crate::display::private::fmt_string;
use crate::display::private::fmt_string_spec;
use crate::display::text::dictionary_spec;
use crate::display::text::get_dict;
use crate::display::text::CommonClockDictionary;
use crate::display::text::CommonWeekdayDictionary;
use crate::display::text::Language;
use crate::display::prelude::lemma_unpadded_preset_fits;
use vstd::prelude::*;

verus! {

/// The name of the day of the week with a number, Sunday being 0.
pub open spec fn weekday_name<'a>(d: CommonWeekdayDictionary<'a>, n: int) -> &'a str {
    if n == 0 {
        d.sunday
    } else if n == 1 {
        d.monday
    } else if n == 2 {
        d.tuesday
    } else if n == 3 {
        d.wednesday
    } else if n == 4 {
        d.thursday
    } else if n == 5 {
        d.friday
    } else {
        d.saturday
    }
}

/// The written name of a day of the week in a language, or nothing where the language has
/// no names for the days of the week.
pub open spec fn weekday_name_text(w: Weekday, lang: Language, opt: DisplayOptions) -> Seq<char> {
    match dictionary_spec(lang).common_weekday {
        Some(d) => fmt_string_spec(weekday_name(d, weekday_number(w))@, opt),
        None => Seq::empty(),
    }
}

/// Writes the name of a day of the week in a language.
pub fn fmt_weekday_name(w: Weekday, lang: Language, opt: DisplayOptions) -> (r: String)
    ensures
        r@ == weekday_name_text(w, lang, opt),
{
    match get_dict(lang).common_weekday {
        Some(d) => {
            let name = match w {
                Weekday::Sunday => d.sunday,
                Weekday::Monday => d.monday,
                Weekday::Tuesday => d.tuesday,
                Weekday::Wednesday => d.wednesday,
                Weekday::Thursday => d.thursday,
                Weekday::Friday => d.friday,
                Weekday::Saturday => d.saturday,
            };
            fmt_string(name, opt)
        },
        None => String::new(),
    }
}

/// The written half of the day of midnight (before noon), or nothing where the language
/// has no names for the halves of the day.
pub open spec fn midnight_half_text(t: TextContent, lang: Language, opt: DisplayOptions) -> Seq<
    char,
> {
    match dictionary_spec(lang).common_clock {
        Some(c) => if t == TextContent::HalfDayName {
            fmt_string_spec(c.am_full@, opt)
        } else if t == TextContent::HalfDayAbbrev {
            fmt_string_spec(c.am_abr@, opt)
        } else {
            Seq::empty()
        },
        None => Seq::empty(),
    }
}

/// Writes the half of the day of midnight.
pub fn fmt_midnight_half(t: TextContent, lang: Language, opt: DisplayOptions) -> (r: String)
    ensures
        r@ == midnight_half_text(t, lang, opt),
{
    match get_dict(lang).common_clock {
        Some(c) => match t {
            TextContent::HalfDayName => fmt_string(c.am_full, opt),
            TextContent::HalfDayAbbrev => fmt_string(c.am_abr, opt),
            _ => String::new(),
        },
        None => String::new(),
    }
}

impl DisplayItem for Weekday {
    proof fn lemma_unpadded_fits(self, n: NumericContent, opt: DisplayOptions) {
    }

    open spec fn supported_lang_spec(lang: Language) -> bool {
        dictionary_spec(lang).common_weekday is Some
    }

    open spec fn numeric_text(self, n: NumericContent, opt: DisplayOptions) -> Seq<char> {
        if n == NumericContent::DayOfWeek {
            fmt_number_spec(weekday_number(self), opt)
        } else {
            Seq::empty()
        }
    }

    open spec fn numeric_fits(self, n: NumericContent, opt: DisplayOptions) -> bool {
        n == NumericContent::DayOfWeek ==> number_fits(weekday_number(self), opt)
    }

    open spec fn name_text(self, t: TextContent, lang: Language, opt: DisplayOptions) -> Seq<
        char,
    > {
        if t == TextContent::DayOfWeekName {
            weekday_name_text(self, lang, opt)
        } else {
            Seq::empty()
        }
    }

    fn supported_lang(lang: Language) -> (r: bool) {
        get_dict(lang).common_weekday.is_some()
    }

    fn fmt_numeric(&self, n: NumericContent, opt: DisplayOptions) -> (r: String) {
        match n {
            NumericContent::DayOfWeek => fmt_number(self.to_u8() as i128, opt),
            _ => String::new(),
        }
    }

    fn fmt_text(&self, t: TextContent, lang: Language, opt: DisplayOptions) -> (r: String) {
        match t {
            TextContent::DayOfWeekName => fmt_weekday_name(*self, lang, opt),
            _ => String::new(),
        }
    }
}

impl PresetDisplay for Weekday {
    open spec fn long_format(self) -> PresetFormat {
        LONG_DATE
    }

    open spec fn short_format(self) -> PresetFormat {
        YYYYMMDD_DASH
    }

    fn long_date(&self) -> (r: String) {
        proof {
            lemma_unpadded_preset_fits(*self, LONG_DATE);
        }
        self.preset_str(Language::EN, LONG_DATE)
    }

    fn short_date(&self) -> (r: String) {
        self.preset_str(Language::EN, YYYYMMDD_DASH)
    }
}

/// The English names that `weekday_name` gives, by number: a table fixed apart from the code that
/// writes dates.
pub proof fn law_weekday_name_english()
    ensures
        dictionary_spec(Language::EN).common_weekday is Some,
        weekday_name(dictionary_spec(Language::EN).common_weekday.unwrap(), 0) == "Sunday",
        weekday_name(dictionary_spec(Language::EN).common_weekday.unwrap(), 1) == "Monday",
        weekday_name(dictionary_spec(Language::EN).common_weekday.unwrap(), 2) == "Tuesday",
        weekday_name(dictionary_spec(Language::EN).common_weekday.unwrap(), 3) == "Wednesday",
        weekday_name(dictionary_spec(Language::EN).common_weekday.unwrap(), 4) == "Thursday",
        weekday_name(dictionary_spec(Language::EN).common_weekday.unwrap(), 5) == "Friday",
        weekday_name(dictionary_spec(Language::EN).common_weekday.unwrap(), 6) == "Saturday",
{
}

} // verus!
