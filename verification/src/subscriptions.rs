//! Checks on the subscription forms.
use vstd::prelude::*;
use vstd::string::*;
use vstd::utf8::*;
use crate::text::{all_ascii_digits, chars_of, collect_chars, is_ascii_digit, parse_i64, parsed_i64, same_text};

verus! {

/// The pieces of `s` between the `c`s, as `str::split(c)` gives them.
pub open spec fn pieces(s: Seq<char>, c: char) -> Seq<Seq<char>>
    decreases s.len(),
{
    if s.len() == 0 {
        seq![Seq::empty()]
    } else {
        let rest = pieces(s.drop_last(), c);
        if s.last() == c {
            rest.push(Seq::empty())
        } else {
            rest.update(rest.len() - 1, rest.last().push(s.last()))
        }
    }
}

proof fn lemma_pieces_nonempty(s: Seq<char>, c: char)
    ensures
        pieces(s, c).len() >= 1,
    decreases s.len(),
{
    if s.len() > 0 {
        lemma_pieces_nonempty(s.drop_last(), c);
    }
}

/// What `str::parse::<i32>` accepts.
pub open spec fn parsed_i32(s: Seq<char>) -> Option<i32> {
    match parsed_i64(s) {
        Some(v) => if i32::MIN <= v <= i32::MAX { Some(v as i32) } else { None },
        None => None,
    }
}

/// What `str::parse::<u32>` accepts: no '-' sign.
pub open spec fn parsed_u32(s: Seq<char>) -> Option<u32> {
    if s.len() > 0 && s[0] == '-' {
        None
    } else {
        match parsed_i64(s) {
            Some(v) => if 0 <= v <= u32::MAX { Some(v as u32) } else { None },
            None => None,
        }
    }
}

/// A number written with ASCII digits only, as `str::parse::<i32>` reads it.
pub open spec fn digits_i32(s: Seq<char>) -> Option<i32> {
    if all_ascii_digits(s) { parsed_i32(s) } else { None }
}

/// A number written with ASCII digits only, as `str::parse::<u32>` reads it.
pub open spec fn digits_u32(s: Seq<char>) -> Option<u32> {
    if all_ascii_digits(s) { parsed_u32(s) } else { None }
}

/// The check of a `YYYY-MM-DD` date: three pieces around '-', of four, two
/// and two characters, each a number in digits, and a year in 1900..=2100,
/// a month in 1..=12, a day in 1..=31.
pub open spec fn date_check(date: Seq<char>) -> Result<(), Seq<char>> {
    let ps = pieces(date, '-');
    if encode_utf8(date).len() != 10 || ps.len() != 3 || ps[0].len() != 4 || ps[1].len() != 2 || ps[2].len() != 2 {
        Err("日付はYYYY-MM-DD形式で入力してください"@)
    } else {
        match digits_i32(ps[0]) {
            None => Err("年は数値で入力してください"@),
            Some(y) => match digits_u32(ps[1]) {
                None => Err("月は数値で入力してください"@),
                Some(m) => match digits_u32(ps[2]) {
                    None => Err("日は数値で入力してください"@),
                    Some(d) => if !(1900 <= y <= 2100) {
                        Err("年は1900年から2100年の間で入力してください"@)
                    } else if !(1 <= m <= 12) {
                        Err("月は1から12の間で入力してください"@)
                    } else if !(1 <= d <= 31) {
                        Err("日は1から31の間で入力してください"@)
                    } else {
                        Ok(())
                    },
                },
            },
        }
    }
}

/// Whether every character of `text` is an ASCII digit.
fn digits_only(text: &str) -> (r: bool)
    ensures
        r == all_ascii_digits(text@),
{
    let cs = chars_of(text);
    let mut i: usize = 0;
    while i < cs.len()
        invariant
            cs@ == text@,
            i <= cs@.len(),
            forall|j: int| 0 <= j < i ==> is_ascii_digit(#[trigger] cs@[j]),
        decreases cs@.len() - i,
    {
        if !('0' <= cs[i] && cs[i] <= '9') {
            return false;
        }
        i = i + 1;
    }
    true
}

fn split_pieces(cs: &Vec<char>, c: char) -> (r: Vec<(usize, usize)>)
    ensures
        r@.len() == pieces(cs@, c).len(),
        forall|i: int| 0 <= i < r@.len() ==> #[trigger] r@[i].0 <= r@[i].1 <= cs@.len()
            && cs@.subrange(r@[i].0 as int, r@[i].1 as int) == pieces(cs@, c)[i],
{
    let mut r: Vec<(usize, usize)> = Vec::new();
    let mut start: usize = 0;
    let mut i: usize = 0;
    while i < cs.len()
        invariant
            i <= cs@.len(),
            start <= i,
            r@.len() + 1 == pieces(cs@.take(i as int), c).len(),
            forall|k: int| 0 <= k < r@.len() ==> #[trigger] r@[k].0 <= r@[k].1 <= i
                && cs@.subrange(r@[k].0 as int, r@[k].1 as int) == pieces(cs@.take(i as int), c)[k],
            cs@.subrange(start as int, i as int) == pieces(cs@.take(i as int), c).last(),
        decreases cs@.len() - i,
    {
        let ghost t = cs@.take(i as int + 1);
        assert(t.drop_last() =~= cs@.take(i as int));
        proof { lemma_pieces_nonempty(cs@.take(i as int), c); }
        if cs[i] == c {
            r.push((start, i));
            start = i + 1;
            assert(cs@.subrange(start as int, i as int + 1) =~= Seq::<char>::empty());
        } else {
            assert(cs@.subrange(start as int, i as int + 1) =~= cs@.subrange(start as int, i as int).push(cs@[i as int]));
        }
        i = i + 1;
    }
    assert(cs@.take(i as int) =~= cs@);
    r.push((start, i));
    r
}

/// Checks a `YYYY-MM-DD` date.
pub fn validate_date_format(date: &str) -> (r: Result<(), String>)
    ensures
        match date_check(date@) {
            Ok(_) => r is Ok,
            Err(m) => r matches Err(x) && x@ == m,
        },
{
    let cs = chars_of(date);
    let ps = split_pieces(&cs, '-');
    if date.as_bytes().len() != 10 || ps.len() != 3 || ps[0].1 - ps[0].0 != 4 || ps[1].1 - ps[1].0 != 2
        || ps[2].1 - ps[2].0 != 2 {
        return Err(String::from_str("日付はYYYY-MM-DD形式で入力してください"));
    }
    let year_text = collect_chars(&cs, ps[0].0, ps[0].1);
    let month_text = collect_chars(&cs, ps[1].0, ps[1].1);
    let day_text = collect_chars(&cs, ps[2].0, ps[2].1);
    if !digits_only(year_text.as_str()) {
        return Err(String::from_str("年は数値で入力してください"));
    }
    let year = match parse_i64(year_text.as_str()) {
        Some(v) => if -2147483648 <= v && v <= 2147483647 {
            v
        } else {
            return Err(String::from_str("年は数値で入力してください"));
        },
        None => return Err(String::from_str("年は数値で入力してください")),
    };
    if !digits_only(month_text.as_str()) {
        return Err(String::from_str("月は数値で入力してください"));
    }
    let month = match parse_unsigned(month_text.as_str()) {
        Some(v) => v,
        None => return Err(String::from_str("月は数値で入力してください")),
    };
    if !digits_only(day_text.as_str()) {
        return Err(String::from_str("日は数値で入力してください"));
    }
    let day = match parse_unsigned(day_text.as_str()) {
        Some(v) => v,
        None => return Err(String::from_str("日は数値で入力してください")),
    };
    if !(1900 <= year && year <= 2100) {
        return Err(String::from_str("年は1900年から2100年の間で入力してください"));
    }
    if !(1 <= month && month <= 12) {
        return Err(String::from_str("月は1から12の間で入力してください"));
    }
    if !(1 <= day && day <= 31) {
        return Err(String::from_str("日は1から31の間で入力してください"));
    }
    Ok(())
}

fn parse_unsigned(text: &str) -> (r: Option<i64>)
    ensures
        match parsed_u32(text@) {
            Some(v) => r == Some(v as i64),
            None => r is None,
        },
{
    let cs = chars_of(text);
    if cs.len() > 0 && cs[0] == '-' {
        return None;
    }
    match parse_i64(text) {
        Some(v) => if 0 <= v && v <= 4294967295 { Some(v) } else { None },
        None => None,
    }
}

/// A character with the Unicode `White_Space` property, which `str::trim`
/// removes.
pub open spec fn is_white_space(c: char) -> bool {
    ||| '\u{9}' <= c <= '\u{d}'
    ||| c == ' '
    ||| c == '\u{85}'
    ||| c == '\u{a0}'
    ||| c == '\u{1680}'
    ||| '\u{2000}' <= c <= '\u{200a}'
    ||| c == '\u{2028}'
    ||| c == '\u{2029}'
    ||| c == '\u{202f}'
    ||| c == '\u{205f}'
    ||| c == '\u{3000}'
}

/// Whether a text is empty once trimmed: every character is white space.
pub open spec fn blank(s: Seq<char>) -> bool {
    forall|i: int| 0 <= i < s.len() ==> is_white_space(#[trigger] s[i])
}

/// How a subscription amount compares with the accepted range, as the caller
/// finds it: above zero and at most ten digits.
#[derive(Debug, Clone, Copy, PartialEq, Eq, Structural)]
pub enum AmountCheck {
    /// Within the accepted range.
    Valid,
    /// Zero or less.
    NotPositive,
    /// More than ten digits.
    TooLarge,
}

/// The check of a subscription form: the name, when given, must not be blank
/// and must have at most 100 characters; the amount, when given, must be in range; the
/// billing cycle, when given, must be `monthly` or `annual`; the start date,
/// when given, must pass the date check. The first failing check answers.
pub open spec fn form_check(
    name: Option<Seq<char>>,
    amount: Option<AmountCheck>,
    billing_cycle: Option<Seq<char>>,
    start_date: Option<Seq<char>>,
) -> Result<(), Seq<char>> {
    if name is Some && blank(name->0) {
        Err("サービス名を入力してください"@)
    } else if name is Some && name->0.len() > 100 {
        Err("サービス名は100文字以内で入力してください"@)
    } else if amount == Some(AmountCheck::NotPositive) {
        Err("金額は正の数値である必要があります"@)
    } else if amount == Some(AmountCheck::TooLarge) {
        Err("金額は10桁以内で入力してください"@)
    } else if billing_cycle is Some && billing_cycle->0 != "monthly"@ && billing_cycle->0 != "annual"@ {
        Err("支払いサイクルは'monthly'または'annual'である必要があります"@)
    } else if start_date is Some {
        date_check(start_date->0)
    } else {
        Ok(())
    }
}

fn white_space(c: char) -> (r: bool)
    ensures
        r == is_white_space(c),
{
    ('\u{9}' <= c && c <= '\u{d}') || c == ' ' || c == '\u{85}' || c == '\u{a0}' || c == '\u{1680}' || ('\u{2000}' <= c
        && c <= '\u{200a}') || c == '\u{2028}' || c == '\u{2029}' || c == '\u{202f}' || c == '\u{205f}' || c == '\u{3000}'
}

/// Whether a text is empty once trimmed.
pub fn is_blank(text: &str) -> (r: bool)
    ensures
        r == blank(text@),
{
    let cs = chars_of(text);
    let mut i: usize = 0;
    while i < cs.len()
        invariant
            cs@ == text@,
            i <= cs@.len(),
            forall|j: int| 0 <= j < i ==> is_white_space(#[trigger] cs@[j]),
        decreases cs@.len() - i,
    {
        if !white_space(cs[i]) {
            return false;
        }
        i = i + 1;
    }
    true
}

/// Checks a subscription form; the amount comes already compared with its
/// range. A new subscription gives every field; an update gives those it
/// changes.
pub fn validate_subscription_form(
    name: Option<&str>,
    amount: Option<AmountCheck>,
    billing_cycle: Option<&str>,
    start_date: Option<&str>,
) -> (r: Result<(), String>)
    ensures
        match form_check(
            match name { Some(n) => Some(n@), None => None },
            amount,
            match billing_cycle { Some(c) => Some(c@), None => None },
            match start_date { Some(d) => Some(d@), None => None },
        ) {
            Ok(_) => r is Ok,
            Err(m) => r matches Err(x) && x@ == m,
        },
{
    proof {
        reveal_strlit("monthly");
        reveal_strlit("annual");
    }
    match name {
        Some(n) => {
            if is_blank(n) {
                return Err(String::from_str("サービス名を入力してください"));
            }
            if n.unicode_len() > 100 {
                return Err(String::from_str("サービス名は100文字以内で入力してください"));
            }
        },
        None => {},
    }
    match amount {
        Some(AmountCheck::NotPositive) => return Err(String::from_str("金額は正の数値である必要があります")),
        Some(AmountCheck::TooLarge) => return Err(String::from_str("金額は10桁以内で入力してください")),
        _ => {},
    }
    match billing_cycle {
        Some(c) => {
            if !same_text(c, "monthly") && !same_text(c, "annual") {
                return Err(String::from_str("支払いサイクルは'monthly'または'annual'である必要があります"));
            }
        },
        None => {},
    }
    match start_date {
        Some(d) => validate_date_format(d),
        None => Ok(()),
    }
}

} // verus!
