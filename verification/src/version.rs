//! Pieces shared by the tool-version parsers: `major.minor` numbers, the
//! n-th whitespace-separated token, the token after a marker.

use vstd::prelude::*;

use crate::text::{
    all_digits, dec, digits_value, dotted, is_digit, lemma_split_on_last, lemma_split_on_step,
    find, find_chars, lemma_find, occurs_at, lemma_split_on_nonempty_view, lines, lines_chars, parse_u32,
    parse_u32_chars, prefix_len, scan, slice_of, split_chars, split_on, split_ws, split_ws_chars,
    starts_with_chars, trim, trim_chars, views, CharClass,
};

verus! {

/// The first two `.`-separated pieces of `v`, each parsed as a `u32`.
pub open spec fn major_minor(v: Seq<char>) -> Option<(u32, u32)> {
    let p = split_on(v, '.');
    if p.len() >= 2 {
        match (parse_u32(p[0]), parse_u32(p[1])) {
            (Some(a), Some(b)) => Some((a, b)),
            _ => None,
        }
    } else {
        None
    }
}

/// The first `.`-separated piece of `v`, parsed as a `u32`.
pub open spec fn major_only(v: Seq<char>) -> Option<u32> {
    parse_u32(split_on(v, '.')[0])
}

/// The `n`-th whitespace-separated token of `s`.
pub open spec fn nth_token(s: Seq<char>, n: int) -> Option<Seq<char>> {
    let t = split_ws(s);
    if 0 <= n < t.len() {
        Some(t[n])
    } else {
        None
    }
}

/// The last whitespace-separated token of `s`.
pub open spec fn last_token(s: Seq<char>) -> Option<Seq<char>> {
    let t = split_ws(s);
    if t.len() > 0 {
        Some(t.last())
    } else {
        None
    }
}

/// The first line of `s`.
pub open spec fn first_line(s: Seq<char>) -> Option<Seq<char>> {
    let l = lines(s);
    if l.len() > 0 {
        Some(l[0])
    } else {
        None
    }
}

/// The last line of `s`.
pub open spec fn last_line(s: Seq<char>) -> Option<Seq<char>> {
    let l = lines(s);
    if l.len() > 0 {
        Some(l.last())
    } else {
        None
    }
}

/// What follows the first occurrence of `marker` in `s`.
pub open spec fn after(s: Seq<char>, marker: Seq<char>) -> Option<Seq<char>> {
    match find(s, marker) {
        Some(i) => Some(s.skip(i as int + marker.len())),
        None => None,
    }
}

/// The first token after the first occurrence of `marker`, read as `major.minor`
/// (`"<marker>3.20.0 ..."` gives `(3, 20)`).
pub open spec fn version_after(s: Seq<char>, marker: Seq<char>) -> Option<(u32, u32)> {
    match after(s, marker) {
        Some(rest) => match nth_token(rest, 0) {
            Some(t) => major_minor(t),
            None => None,
        },
        None => None,
    }
}

/// The `n`-th token read as `major.minor`.
pub open spec fn version_of_token(s: Seq<char>, n: int) -> Option<(u32, u32)> {
    match nth_token(s, n) {
        Some(t) => major_minor(t),
        None => None,
    }
}

/// `l.unwrap_or("")`.
pub open spec fn or_empty(l: Option<Seq<char>>) -> Seq<char> {
    match l {
        Some(x) => x,
        None => Seq::empty(),
    }
}

pub fn major_minor_chars(v: &[char]) -> (r: Option<(u32, u32)>)
    ensures
        r == major_minor(v@),
{
    let p = split_chars(v, '.');
    if p.len() < 2 {
        return None;
    }
    assert(p@[0]@ == views(p@)[0] && p@[1]@ == views(p@)[1]);
    let a = parse_u32_chars(&p[0]);
    let b = parse_u32_chars(&p[1]);
    match (a, b) {
        (Some(a), Some(b)) => Some((a, b)),
        _ => None,
    }
}

pub fn major_only_chars(v: &[char]) -> (r: Option<u32>)
    ensures
        r == major_only(v@),
{
    let p = split_chars(v, '.');
    proof {
        lemma_split_on_nonempty_view(v@, '.');
    }
    assert(p@[0]@ == views(p@)[0]);
    parse_u32_chars(&p[0])
}

pub fn nth_token_chars(s: &[char], n: usize) -> (r: Option<Vec<char>>)
    ensures
        match r {
            Some(t) => nth_token(s@, n as int) == Some(t@),
            None => nth_token(s@, n as int) is None,
        },
{
    let t = split_ws_chars(s);
    if n < t.len() {
        assert(t@[n as int]@ == views(t@)[n as int]);
        Some(slice_of(&t[n], 0, t[n].len()))
    } else {
        None
    }
}

pub fn last_token_chars(s: &[char]) -> (r: Option<Vec<char>>)
    ensures
        match r {
            Some(t) => last_token(s@) == Some(t@),
            None => last_token(s@) is None,
        },
{
    let t = split_ws_chars(s);
    if t.len() > 0 {
        let k = t.len() - 1;
        assert(t@[k as int]@ == views(t@)[k as int]);
        Some(slice_of(&t[k], 0, t[k].len()))
    } else {
        None
    }
}

pub fn first_line_chars(s: &[char]) -> (r: Option<Vec<char>>)
    ensures
        match r {
            Some(t) => first_line(s@) == Some(t@),
            None => first_line(s@) is None,
        },
{
    let l = lines_chars(s);
    if l.len() > 0 {
        assert(l@[0]@ == views(l@)[0]);
        Some(slice_of(&l[0], 0, l[0].len()))
    } else {
        None
    }
}

pub fn last_line_chars(s: &[char]) -> (r: Option<Vec<char>>)
    ensures
        match r {
            Some(t) => last_line(s@) == Some(t@),
            None => last_line(s@) is None,
        },
{
    let l = lines_chars(s);
    if l.len() > 0 {
        let k = l.len() - 1;
        assert(l@[k as int]@ == views(l@)[k as int]);
        Some(slice_of(&l[k], 0, l[k].len()))
    } else {
        None
    }
}

pub fn after_chars(s: &[char], marker: &[char]) -> (r: Option<Vec<char>>)
    ensures
        match r {
            Some(t) => after(s@, marker@) == Some(t@),
            None => after(s@, marker@) is None,
        },
{
    proof {
        lemma_find(s@, marker@);
    }
    let n = s.len();
    match find_chars(s, marker) {
        Some(i) => Some(slice_of(s, i + marker.len(), n)),
        None => None,
    }
}

pub fn version_after_chars(s: &[char], marker: &[char]) -> (r: Option<(u32, u32)>)
    ensures
        r == version_after(s@, marker@),
{
    match after_chars(s, marker) {
        Some(rest) => match nth_token_chars(&rest, 0) {
            Some(t) => major_minor_chars(&t),
            None => None,
        },
        None => None,
    }
}

pub fn version_of_token_chars(s: &[char], n: usize) -> (r: Option<(u32, u32)>)
    ensures
        r == version_of_token(s@, n as int),
{
    match nth_token_chars(s, n) {
        Some(t) => major_minor_chars(&t),
        None => None,
    }
}

/// `str::strip_prefix` on characters.
pub fn strip_prefix_chars(s: &[char], pat: &[char]) -> (r: Option<Vec<char>>)
    ensures
        match r {
            Some(t) => crate::text::strip_prefix(s@, pat@) == Some(t@),
            None => crate::text::strip_prefix(s@, pat@) is None,
        },
{
    if starts_with_chars(s, pat) {
        Some(slice_of(s, pat.len(), s.len()))
    } else {
        None
    }
}

/// `str::trim_start_matches(c)`: `s` without its leading run of `c`.
pub open spec fn trim_start_char(s: Seq<char>, c: char) -> Seq<char> {
    s.skip(prefix_len(s, CharClass::Is(c)) as int)
}

pub fn trim_start_char_chars(s: &[char], c: char) -> (r: Vec<char>)
    ensures
        r@ == trim_start_char(s@, c),
{
    let j = scan(s, 0, &CharClass::Is(c));
    assert(s@.skip(0) == s@);
    slice_of(s, j, s.len())
}

/// The leading run of ASCII digits and dots of `s`.
pub open spec fn digits_and_dots(s: Seq<char>) -> Seq<char> {
    s.take(prefix_len(s, CharClass::DigitOrDot) as int)
}

pub fn digits_and_dots_chars(s: &[char]) -> (r: Vec<char>)
    ensures
        r@ == digits_and_dots(s@),
{
    let j = scan(s, 0, &CharClass::DigitOrDot);
    assert(s@.skip(0) == s@);
    slice_of(s, 0, j)
}

/// The text between the first two `"` of `s`.
pub open spec fn quoted(s: Seq<char>) -> Option<Seq<char>> {
    match find(s, seq!['"']) {
        Some(i) => {
            let rest = s.skip(i as int + 1);
            match find(rest, seq!['"']) {
                Some(j) => Some(rest.take(j as int)),
                None => None,
            }
        },
        None => None,
    }
}

/// The Java major version in `java -version` output: the quoted version's
/// first piece, or its second when the first is `1` (`"1.8.0_392"` is 8).
pub open spec fn java_major(s: Seq<char>) -> Option<u32> {
    match quoted(s) {
        Some(v) => {
            let p = split_on(v, '.');
            if p[0] == seq!['1'] {
                if p.len() >= 2 {
                    parse_u32(p[1])
                } else {
                    None
                }
            } else {
                parse_u32(p[0])
            }
        },
        None => None,
    }
}

pub fn java_major_chars(s: &[char]) -> (r: Option<u32>)
    ensures
        r == java_major(s@),
{
    let q: Vec<char> = vec!['"'];
    assert(q@ == seq!['"']);
    proof {
        lemma_find(s@, q@);
    }
    let i = match find_chars(s, q.as_slice()) {
        Some(i) => i,
        None => return None,
    };
    assert(occurs_at(s@, q@, find(s@, q@)->0 as int));
    let n = s.len();
    assert(i + 1 <= n);
    let rest = slice_of(s, i + 1, n);
    assert(rest@ == s@.skip(i + 1));
    proof {
        lemma_find(rest@, q@);
    }
    let j = match find_chars(rest.as_slice(), q.as_slice()) {
        Some(j) => j,
        None => return None,
    };
    assert(occurs_at(rest@, q@, find(rest@, q@)->0 as int));
    let v = slice_of(rest.as_slice(), 0, j);
    assert(v@ == rest@.take(j as int));
    let p = split_chars(v.as_slice(), '.');
    proof {
        lemma_split_on_nonempty_view(v@, '.');
    }
    assert(p@[0]@ == views(p@)[0]);
    let one: Vec<char> = vec!['1'];
    assert(one@ == seq!['1']);
    if crate::text::chars_eq(p[0].as_slice(), one.as_slice()) {
        if p.len() >= 2 {
            assert(p@[1]@ == views(p@)[1]);
            parse_u32_chars(p[1].as_slice())
        } else {
            None
        }
    } else {
        parse_u32_chars(p[0].as_slice())
    }
}

/// The first line of the trimmed text, trimmed, read as `major.minor`
/// (what `--numeric-version`-style outputs print).
pub open spec fn first_line_version(s: Seq<char>) -> Option<(u32, u32)> {
    match first_line(trim(s)) {
        Some(l) => major_minor(trim(l)),
        None => None,
    }
}

pub fn first_line_version_chars(s: &[char]) -> (r: Option<(u32, u32)>)
    ensures
        r == first_line_version(s@),
{
    let t = trim_chars(s);
    match first_line_chars(t.as_slice()) {
        Some(l) => {
            let lt = trim_chars(l.as_slice());
            major_minor_chars(lt.as_slice())
        },
        None => None,
    }
}

/// The decimal rendering of a number is a non-empty run of digits worth the number.
pub proof fn lemma_dec_digits(n: nat)
    ensures
        dec(n).len() > 0,
        all_digits(dec(n)),
        digits_value(dec(n)) == n,
    decreases n,
{
    let d = crate::text::digit_char(n % 10);
    assert(d as nat == n % 10 + ('0' as nat));
    if n < 10 {
        assert(dec(n) == seq![d]);
        assert(dec(n).drop_last() =~= Seq::<char>::empty());
        assert(digits_value(Seq::<char>::empty()) == 0);
        assert(digits_value(dec(n)) == digits_value(dec(n).drop_last()) * 10 + ((d as nat) - ('0' as nat)) as nat);
    } else {
        lemma_dec_digits(n / 10);
        let s = dec(n / 10);
        let t = s.push(d);
        assert(t.drop_last() =~= s);
        assert(digits_value(t) == digits_value(s) * 10 + ((d as nat) - ('0' as nat)) as nat);
        assert(dec(n) == t);
        assert((n / 10) * 10 + n % 10 == n);
        assert forall|i: int| 0 <= i < t.len() implies is_digit(#[trigger] t[i]) by {
            if i < s.len() {
                assert(t[i] == s[i]);
            }
        }
    }
}

/// A number reads back from its decimal rendering.
pub proof fn lemma_parse_dec(n: u32)
    ensures
        parse_u32(dec(n as nat)) == Some(n),
{
    lemma_dec_digits(n as nat);
    assert(is_digit(dec(n as nat)[0]));
}

/// A version reads back from its own `major.minor` rendering: what a
/// too-old report shows as found is the version that was parsed.
pub proof fn lemma_major_minor_dotted(a: u32, b: u32)
    ensures
        major_minor(dotted(a, b)) == Some((a, b)),
{
    lemma_dec_digits(a as nat);
    lemma_dec_digits(b as nat);
    lemma_parse_dec(a);
    lemma_parse_dec(b);
    let x = dec(a as nat);
    let y = dec(b as nat);
    let s = dotted(a, b);
    assert(s == x + seq!['.'] + y);
    assert forall|j: int| 0 <= j < x.len() implies #[trigger] s[j] != '.' by {
        assert(s[j] == x[j]);
        assert(is_digit(x[j]));
    }
    assert(s[x.len() as int] == '.');
    lemma_split_on_step(s, '.', x.len() as int);
    assert(s.take(x.len() as int) =~= x);
    assert(s.skip(x.len() as int + 1) =~= y);
    assert forall|j: int| 0 <= j < y.len() implies #[trigger] y[j] != '.' by {
        assert(is_digit(y[j]));
    }
    lemma_split_on_last(y, '.');
    assert(split_on(s, '.') =~= seq![x, y]);
}

} // verus!
