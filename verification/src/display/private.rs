use crate::display::format::Align;
use crate::display::format::Case;
use crate::display::format::DisplayOptions;
use crate::display::format::Numerals;
use crate::display::format::Sign;
use crate::calendar::prelude::Quarter;
use crate::day_count::fixed::Epoch;
use crate::day_count::fixed::ToFixed;
use convert_case::Casing;
use vstd::prelude::*;
use vstd::string::StrSliceExecFns;
use vstd::string::StringExecFns;
use vstd::utf8::encode_scalar;
use vstd::utf8::encode_utf8;

verus! {

/// The number that stands for a letter case in `case_converted`: the `convert_case` case
/// that it is written with (upper flat, flat, upper camel).
pub open spec fn case_number(c: Case) -> int {
    match c {
        Case::Upper => 0,
        Case::Lower => 1,
        Case::Title => 2,
    }
}

/// What `convert_case` makes of a text in one of the cases above.
pub uninterp spec fn case_converted(s: Seq<char>, case: int) -> Seq<char>;

/// Converts the case of a text with `convert_case::Casing::to_case`: `Upper` as
/// `Case::UpperFlat`, `Lower` as `Case::Flat` and `Title` as `Case::UpperCamel`. The result
/// is named, not stated: it depends on the crate's rules for splitting words.
#[verifier::external_body]
fn to_case(root: &str, case: Case) -> (r: String)
    ensures
        r@ == case_converted(root@, case_number(case)),
{
    let target = match case {
        Case::Upper => convert_case::Case::UpperFlat,
        Case::Lower => convert_case::Case::Flat,
        Case::Title => convert_case::Case::UpperCamel,
    };
    root.to_case(target)
}

/// The character of a decimal digit.
pub open spec fn digit_char(d: nat) -> char {
    (48 + d) as char
}

/// The decimal digits of a natural number, most significant first.
pub open spec fn decimal_text(n: nat) -> Seq<char>
    decreases n,
{
    if n < 10 {
        seq![digit_char(n)]
    } else {
        decimal_text(n / 10).push(digit_char(n % 10))
    }
}

/// Writes a natural number in decimal digits with `itoa::Buffer::format`, which gives the
/// digits of the number, most significant first, with no sign or padding.
#[verifier::external_body]
fn decimal_string(n: u128) -> (r: String)
    ensures
        r@ == decimal_text(n as nat),
{
    let mut buffer = itoa::Buffer::new();
    buffer.format(n).to_string()
}

/// A positive number in upper case Roman numerals: as many of the largest of the values
/// 1000 (M), 900 (CM), 500 (D), 400 (CD), 100 (C), 90 (XC), 50 (L), 40 (XL), 10 (X), 9 (IX),
/// 5 (V), 4 (IV) and 1 (I) as fit, then the same for what is left.
pub open spec fn roman_numeral_text(n: int) -> Seq<char>
    decreases n,
{
    if n <= 0 {
        Seq::empty()
    } else if n >= 1000 {
        seq!['M'] + roman_numeral_text(n - 1000)
    } else if n >= 900 {
        seq!['C', 'M'] + roman_numeral_text(n - 900)
    } else if n >= 500 {
        seq!['D'] + roman_numeral_text(n - 500)
    } else if n >= 400 {
        seq!['C', 'D'] + roman_numeral_text(n - 400)
    } else if n >= 100 {
        seq!['C'] + roman_numeral_text(n - 100)
    } else if n >= 90 {
        seq!['X', 'C'] + roman_numeral_text(n - 90)
    } else if n >= 50 {
        seq!['L'] + roman_numeral_text(n - 50)
    } else if n >= 40 {
        seq!['X', 'L'] + roman_numeral_text(n - 40)
    } else if n >= 10 {
        seq!['X'] + roman_numeral_text(n - 10)
    } else if n >= 9 {
        seq!['I', 'X'] + roman_numeral_text(n - 9)
    } else if n >= 5 {
        seq!['V'] + roman_numeral_text(n - 5)
    } else if n >= 4 {
        seq!['I', 'V'] + roman_numeral_text(n - 4)
    } else {
        seq!['I'] + roman_numeral_text(n - 1)
    }
}

/// Writes a positive number in Roman numerals with `numerals::roman::Roman::from`, which
/// takes the values from M down to I in the order above, and its upper case formatting;
/// `Roman::from` panics on zero and negative numbers.
#[verifier::external_body]
pub(crate) fn roman_numeral(n: i16) -> (r: String)
    requires
        n > 0,
    ensures
        r@ == roman_numeral_text(n as int),
{
    format!("{:X}", numerals::roman::Roman::from(n))
}

/// Appends a character to a string with `String::push`.
#[verifier::external_body]
fn push_char(s: &mut String, c: char)
    ensures
        final(s)@ == old(s)@.push(c),
{
    s.push(c);
}

/// Appends a text to a string.
pub(crate) fn push_str(s: &mut String, t: &str)
    ensures
        final(s)@ == old(s)@ + t@,
{
    s.append(t);
}

/// The length of a text in UTF-8 bytes, as `str::len` gives it.
pub open spec fn byte_len(s: Seq<char>) -> int {
    (encode_utf8(s).len() as usize) as int
}

/// A character repeated a number of times.
pub open spec fn repeat_char(c: char, n: nat) -> Seq<char> {
    Seq::new(n, |i: int| c)
}

/// The number of bytes of a character in UTF-8.
pub open spec fn char_width(c: char) -> int {
    encode_scalar(c as u32).len() as int
}

/// The number of characters from position `i` on that fit, one after another, in a number
/// of UTF-8 bytes.
pub open spec fn utf8_fit_from(s: Seq<char>, i: int, budget: int) -> nat
    decreases s.len() - i,
{
    if i < 0 || i >= s.len() || char_width(s[i]) > budget {
        0
    } else {
        1 + utf8_fit_from(s, i + 1, budget - char_width(s[i]))
    }
}

/// The text of `fmt_string`: the root in the chosen case, padded to the width, or cut to the
/// longest beginning that fits in the width in UTF-8 bytes.
pub open spec fn fmt_string_spec(root: Seq<char>, opt: DisplayOptions) -> Seq<char> {
    let cased = match opt.case {
        Some(c) => case_converted(root, case_number(c)),
        None => root,
    };
    let len = byte_len(cased);
    if opt.width is Some && opt.width->0 > len {
        let pad_width = (opt.width->0 - len) as nat;
        let left = pad_width / 2 + pad_width % 2;
        let right = (pad_width - left) as nat;
        let p = match opt.padding {
            Some(c) => c,
            None => ' ',
        };
        match opt.align {
            Some(Align::Right) => cased + repeat_char(p, left) + repeat_char(p, right),
            Some(Align::Center) => repeat_char(p, left) + cased + repeat_char(p, right),
            _ => repeat_char(p, left) + repeat_char(p, right) + cased,
        }
    } else {
        let max_len = match opt.width {
            Some(w) => w as int,
            None => len as int,
        };
        cased.take(utf8_fit_from(cased, 0, max_len) as int)
    }
}

/// The number of UTF-8 bytes of a character.
fn utf8_width(c: char) -> (r: usize)
    ensures
        r == char_width(c),
{
    let v = c as u32;
    if v <= 0x7F {
        1
    } else if v <= 0x7FF {
        2
    } else if v <= 0xFFFF {
        3
    } else {
        4
    }
}

/// A string of a character repeated a number of times.
fn repeat_string(c: char, n: usize) -> (r: String)
    ensures
        r@ == repeat_char(c, n as nat),
{
    let mut r = String::new();
    let mut i: usize = 0;
    while i < n
        invariant
            i <= n,
            r@ == repeat_char(c, i as nat),
        decreases n - i,
    {
        push_char(&mut r, c);
        i = i + 1;
        assert(r@ =~= repeat_char(c, i as nat));
    }
    r
}

/// The fitting characters, counted from the front, are those of the beginning.
proof fn lemma_fit_step(s: Seq<char>, i: int, budget: int)
    requires
        0 <= i < s.len(),
        char_width(s[i]) <= budget,
    ensures
        utf8_fit_from(s, i, budget) == 1 + utf8_fit_from(s, i + 1, budget - char_width(s[i])),
{
}

/// Writes a text with the given case, padding, alignment and width. Text longer than the
/// width is cut to the longest beginning that fits in the width in UTF-8 bytes.
pub fn fmt_string(root: &str, opt: DisplayOptions) -> (r: String)
    ensures
        r@ == fmt_string_spec(root@, opt),
{
    let cased_root: String = match opt.case {
        Some(c) => to_case(root, c),
        None => root.to_owned(),
    };
    let len = cased_root.as_str().len();
    let wide = match opt.width {
        Some(w) => w > len,
        None => false,
    };
    if wide {
        let width = opt.width.unwrap();
        let align = match opt.align {
            Some(a) => a,
            None => Align::Left,
        };
        let pad_char = match opt.padding {
            Some(c) => c,
            None => ' ',
        };
        let pad_width = width - len;
        let left = (pad_width / 2) + (pad_width % 2);
        let pad_left = repeat_string(pad_char, left);
        let pad_right = repeat_string(pad_char, pad_width - left);
        let mut result = String::new();
        match align {
            Align::Left => {
                push_str(&mut result, pad_left.as_str());
                push_str(&mut result, pad_right.as_str());
                push_str(&mut result, cased_root.as_str());
                assert(result@ =~= pad_left@ + pad_right@ + cased_root@);
            },
            Align::Right => {
                push_str(&mut result, cased_root.as_str());
                push_str(&mut result, pad_left.as_str());
                push_str(&mut result, pad_right.as_str());
                assert(result@ =~= cased_root@ + pad_left@ + pad_right@);
            },
            Align::Center => {
                push_str(&mut result, pad_left.as_str());
                push_str(&mut result, cased_root.as_str());
                push_str(&mut result, pad_right.as_str());
                assert(result@ =~= pad_left@ + cased_root@ + pad_right@);
            },
        }
        result
    } else {
        let max_len = match opt.width {
            Some(w) => w,
            None => len,
        };
        let s = cased_root.as_str();
        let n = s.unicode_len();
        let ghost cs = s@;
        let mut result = String::new();
        let mut used: usize = 0;
        let mut i: usize = 0;
        let mut fits = true;
        while i < n && fits
            invariant
                n == cs.len(),
                cs == s@,
                i <= n,
                used <= max_len,
                result@ == cs.take(i as int),
                fits ==> utf8_fit_from(cs, 0, max_len as int) == i + utf8_fit_from(
                    cs,
                    i as int,
                    max_len - used,
                ),
                !fits ==> utf8_fit_from(cs, 0, max_len as int) == i,
            decreases (n - i) as int + (if fits {
                1int
            } else {
                0int
            }),
        {
            let c = s.get_char(i);
            let w = utf8_width(c);
            if w <= max_len - used {
                proof {
                    lemma_fit_step(cs, i as int, max_len - used);
                }
                push_char(&mut result, c);
                used = used + w;
                i = i + 1;
                assert(result@ =~= cs.take(i as int));
            } else {
                fits = false;
            }
        }
        result
    }
}

/// The digits of a number: decimal digits of its magnitude, or Roman numerals for numbers
/// from 1 to 32767 (none otherwise).
pub open spec fn number_root(n: int, opt: DisplayOptions) -> Seq<char> {
    match opt.numerals {
        Some(Numerals::Roman) => if 0 < n <= 32767 {
            roman_numeral_text(n)
        } else {
            Seq::<char>::empty()
        },
        _ => decimal_text(if n < 0 {
            (-n) as nat
        } else {
            n as nat
        }),
    }
}

/// The sign written before a number.
pub open spec fn number_prefix(n: int, opt: DisplayOptions) -> Seq<char> {
    match opt.sign {
        Sign::Always => if n >= 0 {
            seq!['+']
        } else {
            seq!['-']
        },
        Sign::OnlyNegative => if n >= 0 {
            Seq::<char>::empty()
        } else {
            seq!['-']
        },
        Sign::Never => Seq::<char>::empty(),
    }
}

/// Whether numbers are padded with zeros between the sign and the digits: padding with
/// `'0'` and no alignment other than `Left`.
pub open spec fn zero_padded(opt: DisplayOptions) -> bool {
    opt.padding == Some('0') && (opt.align is None || opt.align == Some(Align::Left))
}

/// Whether a number can be written: with zero padding, a width must leave room for the sign
/// and the digits.
pub open spec fn number_fits(n: int, opt: DisplayOptions) -> bool {
    zero_padded(opt) && opt.width is Some ==> opt.width->0 >= byte_len(number_prefix(n, opt))
        + byte_len(number_root(n, opt))
}

/// The text of `fmt_number`: the sign, then zeros up to the width when zero padded, then the
/// digits, written by `fmt_string`.
pub open spec fn fmt_number_spec(n: int, opt: DisplayOptions) -> Seq<char> {
    let root = number_root(n, opt);
    let prefix = number_prefix(n, opt);
    let pad_width = match opt.width {
        Some(w) => (w - (byte_len(prefix) + byte_len(root))) as nat,
        None => 0,
    };
    let joined = if zero_padded(opt) {
        prefix + repeat_char('0', pad_width) + root
    } else {
        prefix + root
    };
    fmt_string_spec(joined, opt)
}

/// The digits of a number: decimal, or Roman numerals from 1 to 32767 and nothing else.
fn number_root_string(n: i128, opt: DisplayOptions) -> (r: String)
    ensures
        r@ == number_root(n as int, opt),
{
    match opt.numerals {
        Some(Numerals::Roman) => {
            if n > 0 && n <= 32767 {
                roman_numeral(n as i16)
            } else {
                String::new()
            }
        },
        _ => {
            let magnitude: u128 = if n < 0 {
                ((-(n + 1)) as u128) + 1
            } else {
                n as u128
            };
            decimal_string(magnitude)
        },
    }
}

/// The sign written before a number.
fn number_prefix_str(n: i128, opt: DisplayOptions) -> (r: &'static str)
    ensures
        r@ == number_prefix(n as int, opt),
{
    proof {
        reveal_strlit("+");
        reveal_strlit("-");
        reveal_strlit("");
    }
    match opt.sign {
        Sign::Always => if n >= 0 {
            "+"
        } else {
            "-"
        },
        Sign::OnlyNegative => if n >= 0 {
            ""
        } else {
            "-"
        },
        Sign::Never => "",
    }
}

/// Whether the options zero pad a number.
fn is_zero_padded(opt: DisplayOptions) -> (r: bool)
    ensures
        r == zero_padded(opt),
{
    match (opt.padding, opt.align) {
        (Some(c), None) => c == '0',
        (Some(c), Some(Align::Left)) => c == '0',
        (_, _) => false,
    }
}

/// Whether a number can be written with the given options: whether `fmt_number` may be
/// called on it.
pub fn number_fits_check(n: i128, opt: DisplayOptions) -> (r: bool)
    ensures
        r == number_fits(n as int, opt),
{
    let root = number_root_string(n, opt);
    let prefix = number_prefix_str(n, opt);
    if is_zero_padded(opt) {
        match opt.width {
            Some(w) => w as u128 >= prefix.len() as u128 + root.as_str().len() as u128,
            None => true,
        }
    } else {
        true
    }
}

/// Writes a number with the given digits, sign, padding, alignment and width. With zero
/// padding, the zeros go between the sign and the digits.
pub fn fmt_number(n: i128, opt: DisplayOptions) -> (r: String)
    requires
        number_fits(n as int, opt),
    ensures
        r@ == fmt_number_spec(n as int, opt),
{
    let root = number_root_string(n, opt);
    let prefix = number_prefix_str(n, opt);
    let zero_pad = is_zero_padded(opt);
    let mut joined = prefix.to_owned();
    if zero_pad {
        let non_pad_width = prefix.len() as u128 + root.as_str().len() as u128;
        let pad_width: usize = match opt.width {
            Some(w) => (w as u128 - non_pad_width) as usize,
            None => 0,
        };
        let padding = repeat_string('0', pad_width);
        push_str(&mut joined, padding.as_str());
    }
    push_str(&mut joined, root.as_str());
    fmt_string(joined.as_str(), opt)
}

/// Writes the quarter of a date as a number.
pub fn fmt_quarter<T: Quarter>(t: T, opt: DisplayOptions) -> (r: String)
    requires
        number_fits(t.quarter_spec(), opt),
    ensures
        r@ == fmt_number_spec(t.quarter_spec(), opt),
{
    let q = t.quarter();
    fmt_number(q as i128, opt)
}

/// Writes the number of days from the epoch of a date's calendar to the date.
pub fn fmt_days_since_epoch<T: Epoch + ToFixed>(t: T, opt: DisplayOptions) -> (r: String)
    requires
        number_fits(t.fixed_spec() - T::epoch_spec(), opt),
    ensures
        r@ == fmt_number_spec(t.fixed_spec() - T::epoch_spec(), opt),
{
    let days: i128 = t.to_fixed() as i128 - T::epoch() as i128;
    fmt_number(days, opt)
}

/// The number of seconds from an epoch to midnight of a day, brought into the range of
/// an `i16` as a saturating conversion does.
pub open spec fn seconds_since_epoch(days: int) -> int {
    if days * 86400 > 32767 {
        32767
    } else if days * 86400 < -32768 {
        -32768
    } else {
        days * 86400
    }
}

/// Writes the number of seconds from the epoch of a date's calendar to midnight of the date,
/// as a 16-bit number (saturated at its bounds).
pub fn fmt_seconds_since_epoch<T: Epoch + ToFixed>(t: T, opt: DisplayOptions) -> (r: String)
    requires
        number_fits(seconds_since_epoch(t.fixed_spec() - T::epoch_spec()), opt),
    ensures
        r@ == fmt_number_spec(seconds_since_epoch(t.fixed_spec() - T::epoch_spec()), opt),
{
    let days: i128 = t.to_fixed() as i128 - T::epoch() as i128;
    let s: i128 = days * 86400;
    let clamped: i128 = if s > 32767 {
        32767
    } else if s < -32768 {
        -32768
    } else {
        s
    };
    fmt_number(clamped, opt)
}

/// The decimal text of an integer as `Display` writes it: a minus sign before the digits of
/// a negative number.
pub open spec fn integer_text(n: int) -> Seq<char> {
    if n < 0 {
        seq!['-'] + decimal_text((-n) as nat)
    } else {
        decimal_text(n as nat)
    }
}

/// Writes an integer in decimal digits, with a minus sign when it is negative.
pub fn integer_string(n: i64) -> (r: String)
    ensures
        r@ == integer_text(n as int),
{
    if n < 0 {
        let magnitude: u128 = (-(n as i128)) as u128;
        let digits = decimal_string(magnitude);
        let mut s = String::new();
        push_char(&mut s, '-');
        push_str(&mut s, digits.as_str());
        s
    } else {
        decimal_string(n as u128)
    }
}

} // verus!
