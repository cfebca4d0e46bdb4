//! Character-level text handling: whitespace, trimming, the first two words of
//! a line, and decimal numbers.

use vstd::prelude::*;

verus! {

/// The Unicode `White_Space` characters.
pub open spec fn is_ws(c: char) -> bool {
    let x = c as u32;
    ||| 0x09 <= x <= 0x0d
    ||| x == 0x20
    ||| x == 0x85
    ||| x == 0xa0
    ||| x == 0x1680
    ||| 0x2000 <= x <= 0x200a
    ||| x == 0x2028
    ||| x == 0x2029
    ||| x == 0x202f
    ||| x == 0x205f
    ||| x == 0x3000
}

/// Whether `c` is a Unicode whitespace character.
pub fn is_whitespace(c: char) -> (b: bool)
    ensures
        b == is_ws(c),
{
    let x = c as u32;
    (0x09 <= x && x <= 0x0d) || x == 0x20 || x == 0x85 || x == 0xa0 || x == 0x1680 || (0x2000 <= x
        && x <= 0x200a) || x == 0x2028 || x == 0x2029 || x == 0x202f || x == 0x205f || x == 0x3000
}

/// The first position at or after `i` that does not hold whitespace.
pub open spec fn skip_ws(s: Seq<char>, i: int) -> int
    decreases s.len() - i,
{
    if 0 <= i < s.len() && is_ws(s[i]) {
        skip_ws(s, i + 1)
    } else {
        i
    }
}

/// The first position at or after `i` that holds whitespace (or the end).
pub open spec fn word_end(s: Seq<char>, i: int) -> int
    decreases s.len() - i,
{
    if 0 <= i < s.len() && !is_ws(s[i]) {
        word_end(s, i + 1)
    } else {
        i
    }
}

/// The end of `s[lo..e]` once trailing whitespace is removed.
pub open spec fn trim_end(s: Seq<char>, lo: int, e: int) -> int
    decreases e - lo,
{
    if lo < e && is_ws(s[e - 1]) {
        trim_end(s, lo, e - 1)
    } else {
        e
    }
}

/// The bounds of `s` without its leading and trailing whitespace.
pub open spec fn trim_bounds(s: Seq<char>) -> (int, int) {
    let b = skip_ws(s, 0);
    (b, trim_end(s, b, s.len() as int))
}

/// `s` without leading and trailing whitespace.
pub open spec fn trim(s: Seq<char>) -> Seq<char> {
    s.subrange(trim_bounds(s).0, trim_bounds(s).1)
}

/// A configuration line read as a directive: nothing for a blank line or a
/// comment (`#` first), else its first word and, if any, its second word.
pub open spec fn directive(s: Seq<char>) -> Option<(Seq<char>, Option<Seq<char>>)> {
    let (b, e) = trim_bounds(s);
    if b >= e || s[b] == '#' {
        None
    } else {
        let k = word_end(s, b);
        let vs = skip_ws(s, k);
        Some((s.subrange(b, k), if vs >= e { None } else { Some(s.subrange(vs, word_end(s, vs))) }))
    }
}

pub proof fn lemma_skip_ws_bounds(s: Seq<char>, i: int)
    requires
        0 <= i <= s.len(),
    ensures
        i <= skip_ws(s, i) <= s.len(),
        skip_ws(s, i) < s.len() ==> !is_ws(s[skip_ws(s, i)]),
        forall|j: int| i <= j < skip_ws(s, i) ==> is_ws(#[trigger] s[j]),
    decreases s.len() - i,
{
    if i < s.len() && is_ws(s[i]) {
        lemma_skip_ws_bounds(s, i + 1);
    }
}

pub proof fn lemma_word_end_bounds(s: Seq<char>, i: int)
    requires
        0 <= i <= s.len(),
    ensures
        i <= word_end(s, i) <= s.len(),
        word_end(s, i) < s.len() ==> is_ws(s[word_end(s, i)]),
        forall|j: int| i <= j < word_end(s, i) ==> !is_ws(#[trigger] s[j]),
    decreases s.len() - i,
{
    if i < s.len() && !is_ws(s[i]) {
        lemma_word_end_bounds(s, i + 1);
    }
}

proof fn lemma_trim_end_bounds(s: Seq<char>, lo: int, e: int)
    requires
        0 <= lo <= e <= s.len(),
    ensures
        lo <= trim_end(s, lo, e) <= e,
        trim_end(s, lo, e) > lo ==> !is_ws(s[trim_end(s, lo, e) - 1]),
        forall|j: int| trim_end(s, lo, e) <= j < e ==> is_ws(#[trigger] s[j]),
    decreases e - lo,
{
    if lo < e && is_ws(s[e - 1]) {
        lemma_trim_end_bounds(s, lo, e - 1);
    }
}

/// The characters of `s`.
pub fn chars_of(s: &str) -> (v: Vec<char>)
    ensures
        v@ == s@,
{
    let n = s.unicode_len();
    let mut v: Vec<char> = Vec::new();
    for i in 0..n
        invariant
            n == s@.len(),
            v@ == s@.take(i as int),
    {
        v.push(s.get_char(i));
        assert(s@.take(i + 1) =~= s@.take(i as int).push(s@[i as int]));
    }
    assert(s@.take(n as int) =~= s@);
    v
}

/// `skip_ws(v, i)`.
pub fn skip_ws_from(v: &Vec<char>, i: usize) -> (j: usize)
    requires
        i <= v@.len(),
    ensures
        j == skip_ws(v@, i as int),
{
    let mut j = i;
    while j < v.len() && is_whitespace(v[j])
        invariant
            i <= j <= v@.len(),
            skip_ws(v@, i as int) == skip_ws(v@, j as int),
        decreases v@.len() - j,
    {
        j = j + 1;
    }
    j
}

/// `word_end(v, i)`.
pub fn word_end_from(v: &Vec<char>, i: usize) -> (j: usize)
    requires
        i <= v@.len(),
    ensures
        j == word_end(v@, i as int),
{
    let mut j = i;
    while j < v.len() && !is_whitespace(v[j])
        invariant
            i <= j <= v@.len(),
            word_end(v@, i as int) == word_end(v@, j as int),
        decreases v@.len() - j,
    {
        j = j + 1;
    }
    j
}

/// `trim_end(v, lo, e)`.
pub fn trim_end_from(v: &Vec<char>, lo: usize, e: usize) -> (j: usize)
    requires
        lo <= e <= v@.len(),
    ensures
        j == trim_end(v@, lo as int, e as int),
{
    let mut j = e;
    while j > lo && is_whitespace(v[j - 1])
        invariant
            lo <= j <= e,
            e <= v@.len(),
            trim_end(v@, lo as int, e as int) == trim_end(v@, lo as int, j as int),
        decreases j,
    {
        j = j - 1;
    }
    j
}

/// The characters `v[lo..hi]` as a string.
pub fn string_of(s: &str, lo: usize, hi: usize) -> (r: String)
    requires
        lo <= hi <= s@.len(),
    ensures
        r@ == s@.subrange(lo as int, hi as int),
{
    String::from_str(s.substring_char(lo, hi))
}

/// `trim(s)` as a string.
pub fn trimmed(s: &str) -> (r: String)
    ensures
        r@ == trim(s@),
{
    let v = chars_of(s);
    let b = skip_ws_from(&v, 0);
    proof {
        lemma_skip_ws_bounds(v@, 0);
    }
    let e = trim_end_from(&v, b, v.len());
    proof {
        lemma_trim_end_bounds(v@, b as int, v@.len() as int);
    }
    string_of(s, b, e)
}

/// Reads a configuration line as a directive (see `directive`).
pub fn parse_directive(line: &str) -> (r: Option<(String, Option<String>)>)
    ensures
        match (r, directive(line@)) {
            (None, None) => true,
            (Some((k, v)), Some((sk, sv))) => k@ == sk && match (v, sv) {
                (None, None) => true,
                (Some(x), Some(sx)) => x@ == sx,
                _ => false,
            },
            _ => false,
        },
{
    let v = chars_of(line);
    let n = v.len();
    let b = skip_ws_from(&v, 0);
    proof {
        lemma_skip_ws_bounds(v@, 0);
    }
    let e = trim_end_from(&v, b, n);
    proof {
        lemma_trim_end_bounds(v@, b as int, n as int);
    }
    if b >= e || v[b] == '#' {
        return None;
    }
    let k = word_end_from(&v, b);
    proof {
        lemma_word_end_bounds(v@, b as int);
    }
    let key = string_of(line, b, k);
    let vs = skip_ws_from(&v, k);
    proof {
        lemma_skip_ws_bounds(v@, k as int);
    }
    if vs >= e {
        Some((key, None))
    } else {
        let ve = word_end_from(&v, vs);
        proof {
            lemma_word_end_bounds(v@, vs as int);
        }
        Some((key, Some(string_of(line, vs, ve))))
    }
}

/// Whether the characters of `s` equal those of `lit`.
pub fn text_is(s: &String, lit: &str) -> (b: bool)
    ensures
        b == (s@ == lit@),
{
    *s == String::from_str(lit)
}

/// An ASCII decimal digit.
pub open spec fn is_digit(c: char) -> bool {
    48 <= (c as u32) <= 57
}

/// The value of a decimal digit.
pub open spec fn digit_val(c: char) -> nat {
    ((c as u32) - 48) as nat
}

/// Whether every character is a decimal digit.
pub open spec fn all_digits(d: Seq<char>) -> bool {
    forall|i: int| 0 <= i < d.len() ==> is_digit(#[trigger] d[i])
}

/// The value of a sequence of decimal digits.
pub open spec fn digits_value(d: Seq<char>) -> nat
    decreases d.len(),
{
    if d.len() == 0 {
        0
    } else {
        digits_value(d.drop_last()) * 10 + digit_val(d.last())
    }
}

/// An unsigned decimal number as `str::parse` reads it: an optional `+`, then
/// one or more digits, with a value of at most `max`.
pub open spec fn parse_unsigned(s: Seq<char>, max: nat) -> Option<nat> {
    if s.len() == 0 {
        None
    } else {
        let d = if s[0] == '+' { s.drop_first() } else { s };
        if d.len() == 0 || !all_digits(d) || digits_value(d) > max {
            None
        } else {
            Some(digits_value(d))
        }
    }
}

/// A signed decimal number as `str::parse` reads it: an optional sign, then one
/// or more digits, with a value between `-(max + 1)` and `max`.
pub open spec fn parse_signed(s: Seq<char>, max: nat) -> Option<int> {
    if s.len() > 0 && s[0] == '-' {
        let d = s.drop_first();
        if d.len() == 0 || !all_digits(d) || digits_value(d) > max + 1 {
            None
        } else {
            Some(-(digits_value(d) as int))
        }
    } else {
        match parse_unsigned(s, max) {
            Some(v) => Some(v as int),
            None => None,
        }
    }
}

proof fn lemma_digits_prefix(d: Seq<char>, i: int)
    requires
        0 <= i <= d.len(),
        all_digits(d),
    ensures
        digits_value(d.take(i)) <= digits_value(d),
    decreases d.len() - i,
{
    if i < d.len() {
        lemma_digits_prefix(d, i + 1);
        assert(d.take(i + 1).drop_last() =~= d.take(i));
    } else {
        assert(d.take(i) =~= d);
    }
}

/// The value of the digits `v[start..]`, if they are all digits and the value
/// is at most `max`.
fn digits_upto(v: &Vec<char>, start: usize, max: u64) -> (r: Option<u64>)
    requires
        start <= v@.len(),
        max <= u32::MAX,
    ensures
        match r {
            Some(x) => all_digits(v@.subrange(start as int, v@.len() as int)) && x == digits_value(
                v@.subrange(start as int, v@.len() as int),
            ) && x <= max,
            None => !all_digits(v@.subrange(start as int, v@.len() as int)) || digits_value(
                v@.subrange(start as int, v@.len() as int),
            ) > max,
        },
{
    let ghost d = v@.subrange(start as int, v@.len() as int);
    let n = v.len();
    let mut acc: u64 = 0;
    let mut i = start;
    while i < n
        invariant
            start <= i <= n,
            n == v@.len(),
            d == v@.subrange(start as int, n as int),
            max <= u32::MAX,
            acc <= max,
            all_digits(d.take(i - start)),
            acc == digits_value(d.take(i - start)),
        decreases n - i,
    {
        let c = v[i];
        let x = c as u32;
        if x < 48 || x > 57 {
            assert(!is_digit(d[i - start]));
            return None;
        }
        proof {
            assert(d.take(i - start + 1).drop_last() =~= d.take(i - start));
            assert(d.take(i - start + 1).last() == c);
        }
        acc = acc * 10 + (x - 48) as u64;
        if acc > max {
            proof {
                if all_digits(d) {
                    lemma_digits_prefix(d, i - start + 1);
                }
            }
            return None;
        }
        i = i + 1;
    }
    proof {
        assert(d.take(n - start) =~= d);
    }
    Some(acc)
}

/// `s.parse::<u16>()`, as an option.
pub fn parse_u16(s: &str) -> (r: Option<u16>)
    ensures
        match (r, parse_unsigned(s@, u16::MAX as nat)) {
            (Some(x), Some(y)) => x == y,
            (None, None) => true,
            _ => false,
        },
{
    let v = chars_of(s);
    if v.len() == 0 {
        return None;
    }
    let start: usize = if v[0] == '+' { 1 } else { 0 };
    proof {
        let d = if s@[0] == '+' { s@.drop_first() } else { s@ };
        assert(d =~= v@.subrange(start as int, v@.len() as int));
    }
    if start == v.len() {
        return None;
    }
    match digits_upto(&v, start, 65535) {
        Some(x) => Some(x as u16),
        None => None,
    }
}

/// `s.parse::<i32>()`, as an option.
pub fn parse_i32(s: &str) -> (r: Option<i32>)
    ensures
        match (r, parse_signed(s@, i32::MAX as nat)) {
            (Some(x), Some(y)) => x == y,
            (None, None) => true,
            _ => false,
        },
{
    let v = chars_of(s);
    if v.len() == 0 {
        return None;
    }
    if v[0] == '-' {
        proof {
            assert(s@.drop_first() =~= v@.subrange(1, v@.len() as int));
        }
        if v.len() == 1 {
            return None;
        }
        match digits_upto(&v, 1, 2147483648) {
            Some(x) => {
                if x == 2147483648 {
                    Some(-2147483647i32 - 1)
                } else {
                    Some(-(x as i32))
                }
            },
            None => None,
        }
    } else {
        let start: usize = if v[0] == '+' { 1 } else { 0 };
        proof {
            let d = if s@[0] == '+' { s@.drop_first() } else { s@ };
            assert(d =~= v@.subrange(start as int, v@.len() as int));
        }
        if start == v.len() {
            return None;
        }
        match digits_upto(&v, start, 2147483647) {
            Some(x) => Some(x as i32),
            None => None,
        }
    }
}

} // verus!
