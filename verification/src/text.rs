//! Verified helpers on character sequences: decimal rendering and parsing of
//! integers, and copying characters between strings and vectors.
use vstd::prelude::*;
use vstd::string::*;

verus! {

/// The ASCII digit for a value below ten.
pub open spec fn digit_char(d: int) -> char {
    (('0' as int) + d) as char
}

/// Decimal rendering of a natural number, without leading zeros ("0" for zero).
pub open spec fn nat_decimal(n: nat) -> Seq<char>
    decreases n,
{
    if n < 10 {
        seq![digit_char(n as int)]
    } else {
        nat_decimal(n / 10).push(digit_char((n % 10) as int))
    }
}

/// Decimal rendering of an integer, with a leading '-' for negative values.
pub open spec fn int_decimal(n: int) -> Seq<char> {
    if n < 0 {
        seq!['-'] + nat_decimal((-n) as nat)
    } else {
        nat_decimal(n as nat)
    }
}

/// std: `String::push`. Claimed: the string gains the character at its end.
#[verifier::external_body]
pub(crate) fn push_char(s: &mut String, c: char)
    ensures
        final(s)@ == old(s)@.push(c),
{
    s.push(c);
}

fn digit_to_char(d: u64) -> (c: char)
    requires
        d < 10,
    ensures
        c == digit_char(d as int),
{
    let c = ((d as u8) + 48) as char;
    c
}

/// Renders an unsigned integer in decimal.
pub fn u64_to_decimal(n: u64) -> (s: String)
    ensures
        s@ == nat_decimal(n as nat),
    decreases n,
{
    if n < 10 {
        let mut s = String::new();
        push_char(&mut s, digit_to_char(n));
        assert(s@ =~= nat_decimal(n as nat));
        s
    } else {
        let mut s = u64_to_decimal(n / 10);
        push_char(&mut s, digit_to_char(n % 10));
        s
    }
}

/// Renders a signed integer in decimal, with a leading '-' when negative.
pub fn i64_to_decimal(n: i64) -> (s: String)
    ensures
        s@ == int_decimal(n as int),
{
    if n < 0 {
        let m: u64 = ((-(n + 1)) as u64) + 1;
        assert(m as int == -(n as int));
        let digits = u64_to_decimal(m);
        let mut s = String::new();
        push_char(&mut s, '-');
        s.append(digits.as_str());
        assert(s@ =~= seq!['-'] + nat_decimal(m as nat));
        s
    } else {
        u64_to_decimal(n as u64)
    }
}

/// The characters of a string.
pub fn chars_of(s: &str) -> (r: Vec<char>)
    ensures
        r@ == s@,
{
    let n = s.unicode_len();
    let mut r: Vec<char> = Vec::new();
    let mut i: usize = 0;
    while i < n
        invariant
            n == s@.len(),
            i <= n,
            r@ =~= s@.subrange(0, i as int),
        decreases n - i,
    {
        let c = s.get_char(i);
        r.push(c);
        i = i + 1;
    }
    assert(r@ =~= s@);
    r
}

/// The characters `cs[from..to]` as a string.
pub fn collect_chars(cs: &Vec<char>, from: usize, to: usize) -> (r: String)
    requires
        from <= to <= cs@.len(),
    ensures
        r@ == cs@.subrange(from as int, to as int),
{
    let mut r = String::new();
    let mut i = from;
    while i < to
        invariant
            from <= i <= to <= cs@.len(),
            r@ =~= cs@.subrange(from as int, i as int),
        decreases to - i,
    {
        push_char(&mut r, cs[i]);
        i = i + 1;
    }
    r
}

/// An ASCII decimal digit.
pub open spec fn is_ascii_digit(c: char) -> bool {
    '0' <= c && c <= '9'
}

/// Every character is an ASCII decimal digit.
pub open spec fn all_ascii_digits(s: Seq<char>) -> bool {
    forall|i: int| 0 <= i < s.len() ==> is_ascii_digit(#[trigger] s[i])
}

/// The value of a run of ASCII decimal digits, most significant first.
pub open spec fn digits_value(s: Seq<char>) -> nat
    decreases s.len(),
{
    if s.len() == 0 {
        0
    } else {
        digits_value(s.drop_last()) * 10 + ((s.last() as int - '0' as int) as nat)
    }
}

/// The text after an optional leading '+' or '-'.
pub open spec fn unsigned_part(s: Seq<char>) -> Seq<char> {
    if s.len() > 0 && (s[0] == '-' || s[0] == '+') { s.drop_first() } else { s }
}

/// The value of a sign and digits, as an integer of any size.
pub open spec fn signed_value(s: Seq<char>) -> int {
    if s.len() > 0 && s[0] == '-' {
        -(digits_value(unsigned_part(s)) as int)
    } else {
        digits_value(unsigned_part(s)) as int
    }
}

/// What `str::parse::<i64>` accepts: an optional '+' or '-' followed by at
/// least one ASCII digit and nothing else, whose value fits in an `i64`.
pub open spec fn parsed_i64(s: Seq<char>) -> Option<i64> {
    if unsigned_part(s).len() == 0 || !all_ascii_digits(unsigned_part(s)) {
        None
    } else if i64::MIN <= signed_value(s) && signed_value(s) <= i64::MAX {
        Some(signed_value(s) as i64)
    } else {
        None
    }
}

proof fn lemma_digits_value_grows(s: Seq<char>, i: int)
    requires
        0 <= i <= s.len(),
        all_ascii_digits(s),
    ensures
        digits_value(s.subrange(0, i)) <= digits_value(s),
    decreases s.len() - i,
{
    if i < s.len() {
        lemma_digits_value_grows(s, i + 1);
        let t = s.subrange(0, i + 1);
        assert(t.drop_last() =~= s.subrange(0, i));
        assert(is_ascii_digit(s[i]));
    } else {
        assert(s.subrange(0, i) =~= s);
    }
}

/// Parses a decimal `i64` as `str::parse::<i64>` does.
pub fn parse_i64(text: &str) -> (r: Option<i64>)
    ensures
        r == parsed_i64(text@),
{
    let cs = chars_of(text);
    let n = cs.len();
    let ghost s = text@;
    let mut start: usize = 0;
    let mut negative = false;
    if n > 0 && (cs[0] == '-' || cs[0] == '+') {
        negative = cs[0] == '-';
        start = 1;
    }
    let ghost digits = unsigned_part(s);
    assert(digits =~= s.subrange(start as int, n as int));
    if start == n {
        return None;
    }
    // The magnitude may reach 2^63 for a negative value.
    let limit: u64 = if negative { 9223372036854775808u64 } else { 9223372036854775807u64 };
    let mut acc: u64 = 0;
    let mut i: usize = start;
    while i < n
        invariant
            cs@ == s,
            s == text@,
            digits == unsigned_part(s),
            negative == (s.len() > 0 && s[0] == '-'),
            n == s.len(),
            start <= i <= n,
            start <= 1,
            digits =~= s.subrange(start as int, n as int),
            all_ascii_digits(s.subrange(start as int, i as int)),
            acc as int == digits_value(s.subrange(start as int, i as int)),
            acc <= limit,
            limit == if negative { 9223372036854775808u64 } else { 9223372036854775807u64 },
        decreases n - i,
    {
        let c = cs[i];
        let ghost before = s.subrange(start as int, i as int);
        let ghost after = s.subrange(start as int, i as int + 1);
        assert(after.drop_last() =~= before);
        if !('0' <= c && c <= '9') {
            assert(digits[i - start] == s[i as int]);
            assert(!is_ascii_digit(digits[i - start]));
            return None;
        }
        assert(all_ascii_digits(after)) by {
            assert forall|k: int| 0 <= k < after.len() implies is_ascii_digit(#[trigger] after[k]) by {
                if k < before.len() {
                    assert(after[k] == before[k]);
                }
            }
        }
        let d: u64 = (c as u32 - 48) as u64;
        if acc > (limit - d) / 10 {
            if !all_digits_from(&cs, i + 1) {
                proof {
                    let j = choose|j: int| i + 1 <= j < n && !is_ascii_digit(#[trigger] s[j]);
                    assert(digits[j - start] == s[j]);
                }
                return None;
            }
            proof {
                assert(acc * 10 + d > limit) by (nonlinear_arith)
                    requires acc > (limit - d) / 10, d <= 9, d <= limit;
                assert(all_ascii_digits(digits)) by {
                    assert forall|k: int| 0 <= k < digits.len() implies is_ascii_digit(#[trigger] digits[k]) by {
                        if k < after.len() {
                            assert(digits[k] == after[k]);
                        } else {
                            assert(digits[k] == s[start + k]);
                        }
                    }
                }
                lemma_digits_value_grows(digits, (i + 1 - start) as int);
                assert(digits.subrange(0, (i + 1 - start) as int) =~= after);
            }
            return None;
        }
        proof {
            assert(acc * 10 + d <= limit) by (nonlinear_arith)
                requires acc <= (limit - d) / 10, d <= 9, d <= limit;
        }
        acc = acc * 10 + d;
        i = i + 1;
    }
    assert(s.subrange(start as int, n as int) =~= digits);
    if negative {
        if acc == 9223372036854775808u64 {
            Some(i64::MIN)
        } else {
            Some(-(acc as i64))
        }
    } else {
        Some(acc as i64)
    }
}

fn all_digits_from(cs: &Vec<char>, from: usize) -> (r: bool)
    requires
        from <= cs@.len(),
    ensures
        r == (forall|j: int| from <= j < cs@.len() ==> is_ascii_digit(#[trigger] cs@[j])),
{
    let mut i = from;
    while i < cs.len()
        invariant
            from <= i <= cs@.len(),
            forall|j: int| from <= j < i ==> is_ascii_digit(#[trigger] cs@[j]),
        decreases cs@.len() - i,
    {
        if !('0' <= cs[i] && cs[i] <= '9') {
            return false;
        }
        i = i + 1;
    }
    true
}

/// Whether `s` begins with `prefix`.
pub open spec fn has_prefix(s: Seq<char>, prefix: Seq<char>) -> bool {
    prefix.len() <= s.len() && s.subrange(0, prefix.len() as int) == prefix
}

/// Whether `text` begins with `prefix`, as `str::starts_with` answers.
pub fn starts_with(text: &str, prefix: &str) -> (r: bool)
    ensures
        r == has_prefix(text@, prefix@),
{
    let t = chars_of(text);
    let p = chars_of(prefix);
    if p.len() > t.len() {
        return false;
    }
    let mut i: usize = 0;
    while i < p.len()
        invariant
            t@ == text@,
            p@ == prefix@,
            p@.len() <= t@.len(),
            i <= p@.len(),
            forall|k: int| 0 <= k < i ==> t@[k] == p@[k],
        decreases p@.len() - i,
    {
        if t[i] != p[i] {
            assert(text@.subrange(0, prefix@.len() as int)[i as int] != prefix@[i as int]);
            return false;
        }
        i = i + 1;
    }
    assert(text@.subrange(0, prefix@.len() as int) =~= prefix@);
    true
}

/// Whether two texts are equal, character by character.
pub fn same_text(a: &str, b: &str) -> (r: bool)
    ensures
        r == (a@ == b@),
{
    let x = chars_of(a);
    let y = chars_of(b);
    if x.len() != y.len() {
        return false;
    }
    let mut i: usize = 0;
    while i < x.len()
        invariant
            x@ == a@,
            y@ == b@,
            x@.len() == y@.len(),
            i <= x@.len(),
            forall|k: int| 0 <= k < i ==> x@[k] == y@[k],
        decreases x@.len() - i,
    {
        if x[i] != y[i] {
            return false;
        }
        i = i + 1;
    }
    assert(a@ =~= b@);
    true
}

/// The index of the first `c` in `s` from `from` on, or the length of `s`.
pub open spec fn index_of_char_from(s: Seq<char>, c: char, from: int) -> int
    decreases s.len() - from,
{
    if from >= s.len() {
        s.len() as int
    } else if s[from] == c {
        from
    } else {
        index_of_char_from(s, c, from + 1)
    }
}

/// What precedes the first `c` in `s` (all of `s` without one), as the first
/// piece of `str::split(c)`.
pub open spec fn before_char(s: Seq<char>, c: char) -> Seq<char> {
    s.take(index_of_char_from(s, c, 0))
}

pub proof fn lemma_index_of_char_bounds(s: Seq<char>, c: char, from: int)
    requires
        0 <= from <= s.len(),
    ensures
        from <= index_of_char_from(s, c, from) <= s.len(),
        index_of_char_from(s, c, from) < s.len() ==> s[index_of_char_from(s, c, from)] == c,
        forall|k: int| from <= k < index_of_char_from(s, c, from) ==> s[k] != c,
    decreases s.len() - from,
{
    if from < s.len() && s[from] != c {
        lemma_index_of_char_bounds(s, c, from + 1);
    }
}

/// The first piece of `text.split(c)`.
pub fn text_before_char(text: &str, c: char) -> (r: String)
    ensures
        r@ == before_char(text@, c),
{
    let cs = chars_of(text);
    let mut i: usize = 0;
    while i < cs.len() && cs[i] != c
        invariant
            cs@ == text@,
            i <= cs@.len(),
            index_of_char_from(text@, c, 0) == index_of_char_from(text@, c, i as int),
        decreases cs@.len() - i,
    {
        i = i + 1;
    }
    let r = collect_chars(&cs, 0, i);
    assert(r@ =~= text@.take(i as int));
    r
}

/// `pat` occurs in `s` at index `i`.
pub open spec fn occurs_at(s: Seq<char>, pat: Seq<char>, i: int) -> bool {
    0 <= i && i + pat.len() <= s.len() && s.subrange(i, i + pat.len()) == pat
}

/// The first index from `i` on at which `pat` occurs in `s`, as `str::find` reports it.
pub open spec fn find_from(s: Seq<char>, pat: Seq<char>, i: int) -> Option<int>
    decreases s.len() + 1 - i,
{
    if i < 0 || i + pat.len() > s.len() {
        None
    } else if occurs_at(s, pat, i) {
        Some(i)
    } else {
        find_from(s, pat, i + 1)
    }
}

pub proof fn lemma_find_from(s: Seq<char>, pat: Seq<char>, i: int)
    requires
        0 <= i,
    ensures
        match find_from(s, pat, i) {
            Some(j) => i <= j && occurs_at(s, pat, j) && forall|k: int| i <= k < j ==> !occurs_at(s, pat, k),
            None => forall|k: int| i <= k ==> !occurs_at(s, pat, k),
        },
    decreases s.len() + 1 - i,
{
    if i + pat.len() <= s.len() && !occurs_at(s, pat, i) {
        lemma_find_from(s, pat, i + 1);
    }
}

fn occurs_at_exec(s: &Vec<char>, pat: &Vec<char>, i: usize) -> (r: bool)
    requires
        i + pat@.len() <= s@.len(),
    ensures
        r == occurs_at(s@, pat@, i as int),
{
    let slen = s.len();
    let mut k: usize = 0;
    while k < pat.len()
        invariant
            slen == s@.len(),
            i + pat@.len() <= s@.len(),
            k <= pat@.len(),
            forall|m: int| 0 <= m < k ==> s@[i + m] == pat@[m],
        decreases pat@.len() - k,
    {
        if s[i + k] != pat[k] {
            assert(s@.subrange(i as int, i + pat@.len())[k as int] != pat@[k as int]);
            return false;
        }
        k = k + 1;
    }
    assert(s@.subrange(i as int, i + pat@.len()) =~= pat@);
    true
}

fn find_exec(s: &Vec<char>, pat: &Vec<char>, from: usize) -> (r: Option<usize>)
    requires
        from <= s@.len(),
    ensures
        match r {
            Some(j) => find_from(s@, pat@, from as int) == Some(j as int),
            None => find_from(s@, pat@, from as int) is None,
        },
{
    if pat.len() > s.len() {
        return None;
    }
    let last = s.len() - pat.len();
    if from > last {
        return None;
    }
    let mut i = from;
    while i < last
        invariant
            from <= i <= last,
            last + pat@.len() == s@.len(),
            find_from(s@, pat@, from as int) == find_from(s@, pat@, i as int),
        decreases last - i,
    {
        if occurs_at_exec(s, pat, i) {
            return Some(i);
        }
        i = i + 1;
    }
    if occurs_at_exec(s, pat, i) {
        assert(find_from(s@, pat@, i as int) == Some(i as int));
        Some(i)
    } else {
        assert(find_from(s@, pat@, i as int + 1) is None);
        None
    }
}

/// The character index at which `pat` first occurs in `text`, as `str::find`
/// reports it (here counted in characters rather than bytes).
pub fn text_find(text: &str, pat: &str) -> (r: Option<usize>)
    ensures
        match r {
            Some(j) => find_from(text@, pat@, 0) == Some(j as int),
            None => find_from(text@, pat@, 0) is None,
        },
{
    let s = chars_of(text);
    let p = chars_of(pat);
    find_exec(&s, &p, 0)
}

/// Whether `pat` occurs in `text`, as `str::contains` answers.
pub fn text_contains(text: &str, pat: &str) -> (r: bool)
    ensures
        r == (find_from(text@, pat@, 0) is Some),
{
    match text_find(text, pat) {
        Some(_) => true,
        None => false,
    }
}

/// `s` from index `i` on, with `to` between and around its characters (what
/// `str::replace` makes of an empty pattern).
pub open spec fn interleaved_from(s: Seq<char>, to: Seq<char>, i: int) -> Seq<char>
    decreases s.len() - i,
{
    if i >= s.len() {
        to
    } else {
        to + seq![s[i]] + interleaved_from(s, to, i + 1)
    }
}

/// `s` from index `i` on with every occurrence of `pat` replaced by `to`,
/// left to right and without overlaps, as `str::replace` does.
pub open spec fn replaced_from(s: Seq<char>, pat: Seq<char>, to: Seq<char>, i: int) -> Seq<char>
    decreases s.len() - i,
{
    if pat.len() == 0 {
        if i < 0 { Seq::empty() } else { interleaved_from(s, to, i) }
    } else if i < 0 || i >= s.len() {
        Seq::empty()
    } else if occurs_at(s, pat, i) {
        to + replaced_from(s, pat, to, i + pat.len())
    } else {
        seq![s[i]] + replaced_from(s, pat, to, i + 1)
    }
}

/// `text` with every occurrence of `pat` replaced by `to`, as `str::replace` does.
pub fn text_replace(text: &str, pat: &str, to: &str) -> (r: String)
    ensures
        r@ == replaced_from(text@, pat@, to@, 0),
{
    let s = chars_of(text);
    let p = chars_of(pat);
    let n = s.len();
    let mut out = String::new();
    let mut i: usize = 0;
    if p.len() == 0 {
        while i < n
            invariant
                s@ == text@,
                p@ == pat@,
                p@.len() == 0,
                n == s@.len(),
                i <= n,
                out@ + interleaved_from(s@, to@, i as int) == replaced_from(text@, pat@, to@, 0),
            decreases n - i,
        {
            let ghost before = out@;
            out.append(to);
            push_char(&mut out, s[i]);
            assert(out@ =~= before + to@ + seq![s@[i as int]]);
            assert(before + interleaved_from(s@, to@, i as int) =~= out@ + interleaved_from(s@, to@, i as int + 1));
            i = i + 1;
        }
        let ghost before = out@;
        out.append(to);
        assert(out@ =~= before + interleaved_from(s@, to@, i as int));
        return out;
    }
    assert(out@ + replaced_from(s@, p@, to@, 0) =~= replaced_from(s@, p@, to@, 0));
    while i < n
        invariant
            s@ == text@,
            p@ == pat@,
            p@.len() > 0,
            n == s@.len(),
            i <= n,
            out@ + replaced_from(s@, p@, to@, i as int) == replaced_from(text@, pat@, to@, 0),
        decreases n - i,
    {
        let ghost before = out@;
        if p.len() <= n - i && occurs_at_exec(&s, &p, i) {
            out.append(to);
            assert(before + replaced_from(s@, p@, to@, i as int) =~= out@ + replaced_from(s@, p@, to@, i + p@.len()));
            i = i + p.len();
        } else {
            push_char(&mut out, s[i]);
            assert(!occurs_at(s@, p@, i as int));
            assert(before + replaced_from(s@, p@, to@, i as int) =~= out@ + replaced_from(s@, p@, to@, i as int + 1));
            i = i + 1;
        }
    }
    assert(out@ + replaced_from(s@, p@, to@, i as int) =~= out@);
    out
}

/// The number of bytes of the UTF-8 encoding of a character.
pub fn utf8_width(c: char) -> (w: usize)
    ensures
        w == vstd::utf8::encode_scalar(c as u32).len(),
        1 <= w <= 4,
{
    proof {
        vstd::utf8::char_is_scalar(c);
    }
    let v = c as u32;
    if v <= 0x7F {
        1
    } else if v <= 0x7FF {
        2
    } else if v <= 0xFFFF {
        3
    } else {
        4
    }
}

/// Encoding a character more appends its encoding.
pub proof fn lemma_encode_utf8_push(s: Seq<char>, c: char)
    ensures
        vstd::utf8::encode_utf8(s.push(c)) == vstd::utf8::encode_utf8(s) + vstd::utf8::encode_scalar(c as u32),
    decreases s.len(),
{
    if s.len() == 0 {
        assert(s.push(c).drop_first() =~= Seq::<char>::empty());
        assert(s.push(c)[0] == c);
        assert(vstd::utf8::encode_utf8(s.push(c).drop_first()) =~= Seq::<u8>::empty());
        assert(vstd::utf8::encode_utf8(s) =~= Seq::<u8>::empty());
        assert(vstd::utf8::encode_utf8(s.push(c)) =~= vstd::utf8::encode_scalar(c as u32));
    } else {
        lemma_encode_utf8_push(s.drop_first(), c);
        assert(s.push(c).drop_first() =~= s.drop_first().push(c));
        assert(s.push(c)[0] == s[0]);
        assert(vstd::utf8::encode_utf8(s.push(c)) =~= vstd::utf8::encode_utf8(s) + vstd::utf8::encode_scalar(c as u32));
    }
}

/// The encodings of longer prefixes are longer.
pub proof fn lemma_prefix_encodings_grow(s: Seq<char>, i: int, j: int)
    requires
        0 <= i < j <= s.len(),
    ensures
        vstd::utf8::encode_utf8(s.take(i)).len() < vstd::utf8::encode_utf8(s.take(j)).len(),
    decreases j - i,
{
    vstd::utf8::char_is_scalar(s[j - 1]);
    assert(s.take(j) =~= s.take(j - 1).push(s[j - 1]));
    lemma_encode_utf8_push(s.take(j - 1), s[j - 1]);
    if i < j - 1 {
        lemma_prefix_encodings_grow(s, i, j - 1);
    }
}

/// The characters that the first `n` bytes of the UTF-8 encoding of `s`
/// hold, when those bytes end on a character boundary.
pub open spec fn byte_prefix(s: Seq<char>, n: int) -> Option<Seq<char>> {
    if exists|k: int| 0 <= k <= s.len() && #[trigger] vstd::utf8::encode_utf8(s.take(k)).len() == n {
        Some(s.take(choose|k: int| 0 <= k <= s.len() && #[trigger] vstd::utf8::encode_utf8(s.take(k)).len() == n))
    } else {
        None
    }
}

/// The text of the first `n` bytes of `s`, when they end on a character boundary.
pub fn text_byte_prefix(s: &str, n: usize) -> (r: Option<String>)
    requires
        n <= 1024,
    ensures
        match byte_prefix(s@, n as int) {
            Some(p) => r matches Some(x) && x@ == p,
            None => r is None,
        },
{
    let cs = chars_of(s);
    let mut k: usize = 0;
    let mut b: usize = 0;
    assert(s@.take(0) =~= Seq::<char>::empty());
    while k < cs.len() && b < n
        invariant
            cs@ == s@,
            k <= cs@.len(),
            n <= 1024,
            b <= n + 4,
            b == vstd::utf8::encode_utf8(s@.take(k as int)).len(),
            forall|j: int| 0 <= j < k ==> #[trigger] vstd::utf8::encode_utf8(s@.take(j)).len() < n,
        decreases cs@.len() - k,
    {
        proof {
            assert(s@.take(k as int + 1) =~= s@.take(k as int).push(s@[k as int]));
            lemma_encode_utf8_push(s@.take(k as int), s@[k as int]);
        }
        b = b + utf8_width(cs[k]);
        k = k + 1;
    }
    proof {
        assert forall|j: int| 0 <= j <= s@.len() && j != k implies #[trigger] vstd::utf8::encode_utf8(s@.take(j)).len() != n by {
            if j > k {
                lemma_prefix_encodings_grow(s@, k as int, j);
            }
        }
    }
    if b == n {
        assert(vstd::utf8::encode_utf8(s@.take(k as int)).len() == n);
        let p = collect_chars(&cs, 0, k);
        assert(p@ =~= s@.take(k as int));
        Some(p)
    } else {
        None
    }
}

} // verus!
