use crate::day_cycle::akan::Akan;
use crate::day_cycle::akan::AkanPrefix;
use crate::day_cycle::akan::AkanStem;
use crate::display::private::push_str;
use crate::display::text::dictionary_spec;
use crate::display::text::get_dict;
use crate::display::text::AkanCycleDictionary;
use crate::display::text::Language;
use vstd::prelude::*;

verus! {

/// The name of a prefix of the Akan day names, by its number.
pub open spec fn akan_prefix_name<'a>(g: AkanCycleDictionary<'a>, p: int) -> &'a str {
    if p == 1 {
        g.nwona
    } else if p == 2 {
        g.nkyi
    } else if p == 3 {
        g.kuru
    } else if p == 4 {
        g.kwa
    } else if p == 5 {
        g.mono
    } else {
        g.fo
    }
}

/// The name of a stem of the Akan day names, by its number; the stem Fie is written Afie
/// unless its prefix is Fo.
pub open spec fn akan_stem_name<'a>(g: AkanCycleDictionary<'a>, p: int, s: int) -> &'a str {
    if s == 1 {
        g.wukuo
    } else if s == 2 {
        g.yaw
    } else if s == 3 {
        if p == 6 {
            g.fie
        } else {
            g.afie
        }
    } else if s == 4 {
        g.memene
    } else if s == 5 {
        g.kwasi
    } else if s == 6 {
        g.dwo
    } else {
        g.bene
    }
}

/// The English text of an Akan day name: its prefix and stem joined by a hyphen.
pub open spec fn akan_text(a: Akan) -> Seq<char> {
    match dictionary_spec(Language::EN).akan_cycle {
        Some(g) => akan_prefix_name(g, a@.0)@ + seq!['-'] + akan_stem_name(g, a@.0, a@.1)@,
        None => Seq::empty(),
    }
}

impl Akan {
    /// Writes the day name in English.
    pub fn to_string(&self) -> (s: String)
        ensures
            s@ == akan_text(*self),
    {
        match get_dict(Language::EN).akan_cycle {
            Some(g) => {
                let prefix = self.prefix();
                let p: &str = match prefix {
                    AkanPrefix::Nwona => g.nwona,
                    AkanPrefix::Nkyi => g.nkyi,
                    AkanPrefix::Kuru => g.kuru,
                    AkanPrefix::Kwa => g.kwa,
                    AkanPrefix::Mono => g.mono,
                    AkanPrefix::Fo => g.fo,
                };
                let st: &str = match self.stem() {
                    AkanStem::Wukuo => g.wukuo,
                    AkanStem::Yaw => g.yaw,
                    AkanStem::Fie => match prefix {
                        AkanPrefix::Fo => g.fie,
                        _ => g.afie,
                    },
                    AkanStem::Memene => g.memene,
                    AkanStem::Kwasi => g.kwasi,
                    AkanStem::Dwo => g.dwo,
                    AkanStem::Bene => g.bene,
                };
                assert(p == akan_prefix_name(g, self@.0));
                assert(st == akan_stem_name(g, self@.0, self@.1));
                let mut s = String::new();
                push_str(&mut s, p);
                push_str(&mut s, "-");
                push_str(&mut s, st);
                proof {
                    reveal_strlit("-");
                }
                assert(s@ =~= p@ + seq!['-'] + st@);
                s
            },
            None => String::new(),
        }
    }
}

/// The English names that `akan_prefix_name` gives, by number: a table fixed apart from the code that
/// writes dates.
pub proof fn law_akan_prefix_name_english()
    ensures
        dictionary_spec(Language::EN).akan_cycle is Some,
        akan_prefix_name(dictionary_spec(Language::EN).akan_cycle.unwrap(), 1) == "Nwona",
        akan_prefix_name(dictionary_spec(Language::EN).akan_cycle.unwrap(), 2) == "Nkyi",
        akan_prefix_name(dictionary_spec(Language::EN).akan_cycle.unwrap(), 3) == "Kuru",
        akan_prefix_name(dictionary_spec(Language::EN).akan_cycle.unwrap(), 4) == "Kwa",
        akan_prefix_name(dictionary_spec(Language::EN).akan_cycle.unwrap(), 5) == "Mono",
        akan_prefix_name(dictionary_spec(Language::EN).akan_cycle.unwrap(), 6) == "Fo",
{
}

/// The English stem names, by number: the third stem is "Fie" after the prefix Fo (number
/// 6) and "Afie" after every other prefix; a table fixed apart from the code that writes
/// dates.
pub proof fn law_akan_stem_name_english(p: int)
    ensures
        dictionary_spec(Language::EN).akan_cycle is Some,
        akan_stem_name(dictionary_spec(Language::EN).akan_cycle.unwrap(), p, 1) == "Wukuo",
        akan_stem_name(dictionary_spec(Language::EN).akan_cycle.unwrap(), p, 2) == "Yaw",
        p == 6 ==> akan_stem_name(dictionary_spec(Language::EN).akan_cycle.unwrap(), p, 3) == "Fie",
        p != 6 ==> akan_stem_name(dictionary_spec(Language::EN).akan_cycle.unwrap(), p, 3)
            == "Afie",
        akan_stem_name(dictionary_spec(Language::EN).akan_cycle.unwrap(), p, 4) == "Memene",
        akan_stem_name(dictionary_spec(Language::EN).akan_cycle.unwrap(), p, 5) == "Kwasi",
        akan_stem_name(dictionary_spec(Language::EN).akan_cycle.unwrap(), p, 6) == "Dwo",
        akan_stem_name(dictionary_spec(Language::EN).akan_cycle.unwrap(), p, 7) == "Bene",
{
}

} // verus!
