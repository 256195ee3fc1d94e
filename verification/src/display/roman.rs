use crate::calendar::roman::julian_to_auc_year;
use crate::calendar::roman::Roman;
use crate::calendar::roman::RomanMonthlyEvent;
use crate::display::private::integer_string;
use crate::display::private::integer_text;
use crate::display::private::push_str;
use crate::display::private::roman_numeral;
use crate::display::private::roman_numeral_text;
use crate::display::text::dictionary_spec;
use crate::display::text::get_dict;
use crate::display::text::Language;
use crate::display::text::RomanDictionary;
use crate::calendar::gregorian::GregorianMonth;
use vstd::prelude::*;

verus! {

/// The name of a key day of the month, by its number (Kalends, Nones, Ides).
pub open spec fn roman_event_name<'a>(g: RomanDictionary<'a>, e: int) -> &'a str {
    if e == 1 {
        g.kalends
    } else if e == 2 {
        g.nones
    } else {
        g.ides
    }
}

/// The name of a month in a dictionary of Roman names.
pub open spec fn roman_month_name<'a>(g: RomanDictionary<'a>, m: int) -> &'a str {
    if m == 1 {
        g.january
    } else if m == 2 {
        g.february
    } else if m == 3 {
        g.march
    } else if m == 4 {
        g.april
    } else if m == 5 {
        g.may
    } else if m == 6 {
        g.june
    } else if m == 7 {
        g.july
    } else if m == 8 {
        g.august
    } else if m == 9 {
        g.september
    } else if m == 10 {
        g.october
    } else if m == 11 {
        g.november
    } else {
        g.december
    }
}

/// The English text of a Roman date: the count of days before the key day (as "pridie" for
/// the day before, in Roman numerals further back), the key day, its month and the year
/// counted from the founding of Rome.
pub open spec fn roman_text(r: Roman) -> Seq<char> {
    match dictionary_spec(Language::EN).roman {
        Some(g) => {
            let e = roman_event_name(g, r@.2)@;
            let tail = seq![' '] + roman_month_name(g, r@.1)@ + seq![',', ' '] + integer_text(
                julian_to_auc_year(r@.0),
            ) + seq![' '] + g.after_auc_full@;
            if r@.3 == 1 {
                e + seq![' '] + g.x_of_y@ + tail
            } else if r@.3 == 2 {
                g.pridie@ + seq![' '] + e + tail
            } else {
                g.ante_diem@ + seq![' '] + (if r@.4 {
                    g.bissextum@ + seq![' ']
                } else {
                    Seq::empty()
                }) + roman_numeral_text(r@.3) + seq![' '] + e + tail
            }
        },
        None => Seq::empty(),
    }
}

impl Roman {
    /// Writes the date in English, counting the years from the founding of Rome.
    pub fn to_string(&self) -> (s: String)
        requires
            self@.0 <= i32::MAX - 754,
            self@.3 <= 32767,
        ensures
            s@ == roman_text(*self),
    {
        match get_dict(Language::EN).roman {
            Some(g) => {
                let event = self.event();
                let e: &str = match event {
                    RomanMonthlyEvent::Kalends => g.kalends,
                    RomanMonthlyEvent::Nones => g.nones,
                    RomanMonthlyEvent::Ides => g.ides,
                };
                let month = self.month();
                let m: &str = match month {
                    GregorianMonth::January => g.january,
                    GregorianMonth::February => g.february,
                    GregorianMonth::March => g.march,
                    GregorianMonth::April => g.april,
                    GregorianMonth::May => g.may,
                    GregorianMonth::June => g.june,
                    GregorianMonth::July => g.july,
                    GregorianMonth::August => g.august,
                    GregorianMonth::September => g.september,
                    GregorianMonth::October => g.october,
                    GregorianMonth::November => g.november,
                    GregorianMonth::December => g.december,
                };
                assert(e == roman_event_name(g, self@.2));
                assert(m == roman_month_name(g, self@.1));
                let year = Roman::julian_year_from_auc(self.year());
                let year_text = integer_string(year as i64);
                let mut tail = String::new();
                push_str(&mut tail, " ");
                push_str(&mut tail, m);
                push_str(&mut tail, ", ");
                push_str(&mut tail, year_text.as_str());
                push_str(&mut tail, " ");
                push_str(&mut tail, g.after_auc_full);
                proof {
                    reveal_strlit(" ");
                    reveal_strlit(", ");
                    assert(tail@ =~= seq![' '] + m@ + seq![',', ' '] + integer_text(
                        julian_to_auc_year(self@.0),
                    ) + seq![' '] + g.after_auc_full@);
                }
                let count = self.count();
                let mut s = String::new();
                if count == 1 {
                    push_str(&mut s, e);
                    push_str(&mut s, " ");
                    push_str(&mut s, g.x_of_y);
                    push_str(&mut s, tail.as_str());
                    assert(s@ =~= e@ + seq![' '] + g.x_of_y@ + tail@);
                } else if count == 2 {
                    push_str(&mut s, g.pridie);
                    push_str(&mut s, " ");
                    push_str(&mut s, e);
                    push_str(&mut s, tail.as_str());
                    assert(s@ =~= g.pridie@ + seq![' '] + e@ + tail@);
                } else {
                    push_str(&mut s, g.ante_diem);
                    push_str(&mut s, " ");
                    if self.leap() {
                        push_str(&mut s, g.bissextum);
                        push_str(&mut s, " ");
                    }
                    let numeral = roman_numeral(count as i16);
                    push_str(&mut s, numeral.as_str());
                    push_str(&mut s, " ");
                    push_str(&mut s, e);
                    push_str(&mut s, tail.as_str());
                    assert(s@ =~= g.ante_diem@ + seq![' '] + (if self@.4 {
                        g.bissextum@ + seq![' ']
                    } else {
                        Seq::empty()
                    }) + roman_numeral_text(self@.3) + seq![' '] + e@ + tail@);
                }
                s
            },
            None => String::new(),
        }
    }
}

/// The English names that `roman_event_name` gives, by number: a table fixed apart from the code that
/// writes dates.
pub proof fn law_roman_event_name_english()
    ensures
        dictionary_spec(Language::EN).roman is Some,
        roman_event_name(dictionary_spec(Language::EN).roman.unwrap(), 1) == "Kalends",
        roman_event_name(dictionary_spec(Language::EN).roman.unwrap(), 2) == "Nones",
        roman_event_name(dictionary_spec(Language::EN).roman.unwrap(), 3) == "Ides",
{
}

/// The English names that `roman_month_name` gives, by number: a table fixed apart from the code that
/// writes dates.
pub proof fn law_roman_month_name_english()
    ensures
        dictionary_spec(Language::EN).roman is Some,
        roman_month_name(dictionary_spec(Language::EN).roman.unwrap(), 1) == "January",
        roman_month_name(dictionary_spec(Language::EN).roman.unwrap(), 2) == "February",
        roman_month_name(dictionary_spec(Language::EN).roman.unwrap(), 3) == "March",
        roman_month_name(dictionary_spec(Language::EN).roman.unwrap(), 4) == "April",
        roman_month_name(dictionary_spec(Language::EN).roman.unwrap(), 5) == "May",
        roman_month_name(dictionary_spec(Language::EN).roman.unwrap(), 6) == "June",
        roman_month_name(dictionary_spec(Language::EN).roman.unwrap(), 7) == "July",
        roman_month_name(dictionary_spec(Language::EN).roman.unwrap(), 8) == "August",
        roman_month_name(dictionary_spec(Language::EN).roman.unwrap(), 9) == "September",
        roman_month_name(dictionary_spec(Language::EN).roman.unwrap(), 10) == "October",
        roman_month_name(dictionary_spec(Language::EN).roman.unwrap(), 11) == "November",
        roman_month_name(dictionary_spec(Language::EN).roman.unwrap(), 12) == "December",
{
}

/// The English text of a Roman date ends with its year counted from the founding of Rome,
/// then "Ab Urbe Condita": 753 BC (written -753) is year 1, 1 BC is year 753, AD 1 is year
/// 754, and a year before the founding counts back from 0.
pub proof fn law_roman_text_year(r: Roman)
    ensures
        exists|head: Seq<char>|
            roman_text(r) == head + seq![',', ' '] + integer_text(
                if -753 <= r@.0 <= -1 {
                    r@.0 + 754
                } else {
                    r@.0 + 753
                },
            ) + seq![' '] + "Ab Urbe Condita"@,
{
    let g = dictionary_spec(Language::EN).roman.unwrap();
    let e = roman_event_name(g, r@.2)@;
    let m = roman_month_name(g, r@.1)@;
    let front = if r@.3 == 1 {
        e + seq![' '] + g.x_of_y@
    } else if r@.3 == 2 {
        g.pridie@ + seq![' '] + e
    } else {
        g.ante_diem@ + seq![' '] + (if r@.4 {
            g.bissextum@ + seq![' ']
        } else {
            Seq::empty()
        }) + roman_numeral_text(r@.3) + seq![' '] + e
    };
    let head = front + seq![' '] + m;
    let y = integer_text(julian_to_auc_year(r@.0));
    assert(roman_text(r) =~= head + seq![',', ' '] + y + seq![' '] + "Ab Urbe Condita"@);
}

} // verus!
