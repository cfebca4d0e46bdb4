//! The wireless signal of the device, read from the kernel's table of
//! wireless interfaces (`/proc/net/wireless`), whose two first lines are headers:
//!
//! ```text
//! Inter-| sta-|   Quality        |   Discarded packets               | Missed | WE
//!  face | tus | link level noise |  nwid  crypt   frag  retry   misc | beacon | 22
//! wlan0: 0000   70.   -42.  -256     0      0       0      0      0        0
//! ```

use vstd::prelude::*;
use crate::text::{
    chars_of, lemma_skip_ws_bounds, lemma_word_end_bounds, parse_i32, parse_signed, skip_ws,
    skip_ws_from, string_of, word_end, word_end_from,
};

verus! {

/// The link quality and the signal level (in dBm) of an interface.
#[derive(Debug, Clone, Copy, PartialEq, Eq, Structural)]
pub struct WifiSignal {
    pub rssi: i32,
    pub dbm: i32,
}

/// Whether `s` begins with `p`.
pub open spec fn starts_with(s: Seq<char>, p: Seq<char>) -> bool {
    p.len() <= s.len() && s.subrange(0, p.len() as int) == p
}

/// The bounds of the word `n` (counting from zero) of `s` at or after `i`,
/// words being separated by whitespace.
pub open spec fn nth_word(s: Seq<char>, i: int, n: nat) -> Option<(int, int)>
    decreases n,
{
    let b = skip_ws(s, i);
    if !(0 <= i <= s.len()) || b >= s.len() {
        None
    } else if n == 0 {
        Some((b, word_end(s, b)))
    } else {
        nth_word(s, word_end(s, b), (n - 1) as nat)
    }
}

/// The end of `s[lo..e]` once trailing dots are removed.
pub open spec fn trim_dots(s: Seq<char>, lo: int, e: int) -> int
    decreases e - lo,
{
    if lo < e && s[e - 1] == '.' {
        trim_dots(s, lo, e - 1)
    } else {
        e
    }
}

/// The number in word `n` of a line, trailing dots removed, if the word
/// exists and reads as an `i32`.
pub open spec fn number_in_word(line: Seq<char>, n: nat) -> Option<int> {
    match nth_word(line, 0, n) {
        Some((b, e)) => parse_signed(line.subrange(b, trim_dots(line, b, e)), i32::MAX as nat),
        None => None,
    }
}

/// The signal of an interface's line: its third and fourth words.
pub open spec fn line_signal(line: Seq<char>) -> Option<(int, int)> {
    match (number_in_word(line, 2), number_in_word(line, 3)) {
        (Some(r), Some(d)) => Some((r, d)),
        _ => None,
    }
}

/// Whether a line is the interface's: it begins with the interface's name
/// once leading whitespace is skipped.
pub open spec fn is_interface_line(line: Seq<char>, iface: Seq<char>) -> bool {
    starts_with(line.subrange(skip_ws(line, 0), line.len() as int), iface)
}

/// The signal read from the table: the first line after the headers that is
/// the interface's decides (no signal when its numbers do not read).
pub open spec fn table_signal(lines: Seq<Seq<char>>, iface: Seq<char>, i: int) -> Option<(int, int)>
    decreases lines.len() - i,
{
    if i < 0 || i >= lines.len() {
        None
    } else if is_interface_line(lines[i], iface) {
        line_signal(lines[i])
    } else {
        table_signal(lines, iface, i + 1)
    }
}

proof fn lemma_nth_word_bounds(s: Seq<char>, i: int, n: nat)
    ensures
        nth_word(s, i, n) matches Some((b, e)) ==> 0 <= i <= b < e <= s.len(),
    decreases n,
{
    if 0 <= i <= s.len() {
        lemma_skip_ws_bounds(s, i);
        let b = skip_ws(s, i);
        if b < s.len() {
            lemma_word_end_bounds(s, b);
            if n > 0 {
                lemma_nth_word_bounds(s, word_end(s, b), (n - 1) as nat);
            }
        }
    }
}

/// `nth_word(v, i, n)`.
fn nth_word_from(v: &Vec<char>, i: usize, n: usize) -> (r: Option<(usize, usize)>)
    requires
        i <= v@.len(),
    ensures
        match (r, nth_word(v@, i as int, n as nat)) {
            (Some((b, e)), Some((sb, se))) => b == sb && e == se,
            (None, None) => true,
            _ => false,
        },
    decreases n,
{
    let b = skip_ws_from(v, i);
    proof {
        lemma_skip_ws_bounds(v@, i as int);
    }
    if b >= v.len() {
        return None;
    }
    let e = word_end_from(v, b);
    proof {
        lemma_word_end_bounds(v@, b as int);
    }
    if n == 0 {
        Some((b, e))
    } else {
        nth_word_from(v, e, n - 1)
    }
}

/// `trim_dots(v, lo, e)`.
fn trim_dots_from(v: &Vec<char>, lo: usize, e: usize) -> (j: usize)
    requires
        lo <= e <= v@.len(),
    ensures
        j == trim_dots(v@, lo as int, e as int),
        lo <= j <= e,
{
    let mut j = e;
    while j > lo && v[j - 1] == '.'
        invariant
            lo <= j <= e,
            e <= v@.len(),
            trim_dots(v@, lo as int, e as int) == trim_dots(v@, lo as int, j as int),
        decreases j,
    {
        j = j - 1;
    }
    j
}

fn number_in_word_of(line: &str, v: &Vec<char>, n: usize) -> (r: Option<i32>)
    requires
        v@ == line@,
    ensures
        match (r, number_in_word(line@, n as nat)) {
            (Some(x), Some(y)) => x == y,
            (None, None) => true,
            _ => false,
        },
{
    match nth_word_from(v, 0, n) {
        None => None,
        Some((b, e)) => {
            proof {
                lemma_nth_word_bounds(v@, 0, n as nat);
            }
            let t = trim_dots_from(v, b, e);
            let word = string_of(line, b, t);
            parse_i32(word.as_str())
        },
    }
}

fn interface_line(v: &Vec<char>, iface: &Vec<char>) -> (b: bool)
    ensures
        b == is_interface_line(v@, iface@),
{
    let start = skip_ws_from(v, 0);
    proof {
        lemma_skip_ws_bounds(v@, 0);
    }
    let ghost rest = v@.subrange(start as int, v@.len() as int);
    if iface.len() > v.len() - start {
        return false;
    }
    let vl = v.len();
    let mut k: usize = 0;
    while k < iface.len()
        invariant
            vl == v@.len(),
            start <= v@.len(),
            start == skip_ws(v@, 0),
            start + iface@.len() <= v@.len(),
            rest == v@.subrange(start as int, v@.len() as int),
            k <= iface@.len(),
            forall|j: int| 0 <= j < k ==> rest[j] == iface@[j],
        decreases iface@.len() - k,
    {
        if v[start + k] != iface[k] {
            proof {
                assert(rest.subrange(0, iface@.len() as int)[k as int] != iface@[k as int]);
            }
            return false;
        }
        k = k + 1;
    }
    proof {
        assert(rest.subrange(0, iface@.len() as int) =~= iface@);
    }
    true
}

/// Reads the signal of `interface` from the lines of the table; `None` when
/// no line after the headers is the interface's, or its numbers do not read.
pub fn read_wifi_signal(lines: &Vec<String>, interface: &str) -> (r: Option<WifiSignal>)
    ensures
        match (r, table_signal(lines@.map_values(|l: String| l@), interface@, 2)) {
            (Some(w), Some((rssi, dbm))) => w.rssi == rssi && w.dbm == dbm,
            (None, None) => true,
            _ => false,
        },
{
    let ghost views = lines@.map_values(|l: String| l@);
    let iface = chars_of(interface);
    let n = lines.len();
    let mut i: usize = 2;
    if n < 2 {
        return None;
    }
    while i < n
        invariant
            2 <= i <= n,
            n == lines@.len(),
            views == lines@.map_values(|l: String| l@),
            iface@ == interface@,
            table_signal(views, interface@, 2) == table_signal(views, interface@, i as int),
        decreases n - i,
    {
        let line = lines[i].as_str();
        let v = chars_of(line);
        proof {
            assert(views[i as int] == line@);
        }
        if interface_line(&v, &iface) {
            let rssi = number_in_word_of(line, &v, 2);
            let dbm = number_in_word_of(line, &v, 3);
            return match (rssi, dbm) {
                (Some(r), Some(d)) => Some(WifiSignal { rssi: r, dbm: d }),
                _ => None,
            };
        }
        i = i + 1;
    }
    None
}

} // verus!
