//! Character-level string primitives with the exact semantics of the `str`
//! methods the runner relies on (`trim`, `lines`, `split`, `split_whitespace`,
//! `find`, `strip_prefix`, `parse`), stated over `Seq<char>`.

use vstd::prelude::*;

verus! {

/// Classes of characters that the scanning primitives test for.
pub enum CharClass {
    /// Unicode `White_Space` (what `char::is_whitespace` accepts).
    Ws,
    /// Anything that is not whitespace.
    NotWs,
    /// Exactly this character.
    Is(char),
    /// Any character but this one.
    Not(char),
    /// An ASCII digit or `.`.
    DigitOrDot,
}

/// `char::is_whitespace`: the Unicode `White_Space` property.
pub open spec fn is_ws(c: char) -> bool {
    ||| '\t' <= c <= '\r'
    ||| c == ' '
    ||| c == '\u{85}'
    ||| c == '\u{a0}'
    ||| c == '\u{1680}'
    ||| '\u{2000}' <= c <= '\u{200a}'
    ||| c == '\u{2028}'
    ||| c == '\u{2029}'
    ||| c == '\u{202f}'
    ||| c == '\u{205f}'
    ||| c == '\u{3000}'
}

pub open spec fn is_digit(c: char) -> bool {
    '0' <= c <= '9'
}

pub open spec fn in_class(k: CharClass, c: char) -> bool {
    match k {
        CharClass::Ws => is_ws(c),
        CharClass::NotWs => !is_ws(c),
        CharClass::Is(x) => c == x,
        CharClass::Not(x) => c != x,
        CharClass::DigitOrDot => is_digit(c) || c == '.',
    }
}

/// Number of leading characters of `s` in class `k`.
pub open spec fn prefix_len(s: Seq<char>, k: CharClass) -> nat
    decreases s.len(),
{
    if s.len() == 0 || !in_class(k, s[0]) {
        0
    } else {
        1 + prefix_len(s.drop_first(), k)
    }
}

/// Number of trailing characters of `s` in class `k`.
pub open spec fn suffix_len(s: Seq<char>, k: CharClass) -> nat
    decreases s.len(),
{
    if s.len() == 0 || !in_class(k, s.last()) {
        0
    } else {
        1 + suffix_len(s.drop_last(), k)
    }
}

/// `str::trim_start`.
pub open spec fn trim_start(s: Seq<char>) -> Seq<char> {
    s.skip(prefix_len(s, CharClass::Ws) as int)
}

/// `str::trim_end`.
pub open spec fn trim_end(s: Seq<char>) -> Seq<char> {
    s.take(s.len() - suffix_len(s, CharClass::Ws))
}

/// `str::trim`.
pub open spec fn trim(s: Seq<char>) -> Seq<char> {
    trim_end(trim_start(s))
}

/// The character views of a sequence of character vectors.
pub open spec fn views(v: Seq<Vec<char>>) -> Seq<Seq<char>> {
    v.map_values(|x: Vec<char>| x@)
}

/// `str::split(c)`: the pieces between occurrences of `c`, empty ones included.
pub open spec fn split_on(s: Seq<char>, c: char) -> Seq<Seq<char>>
    decreases s.len(),
{
    let i: int = prefix_len(s, CharClass::Not(c)) as int;
    if 0 <= i < s.len() {
        seq![s.take(i)] + split_on(s.skip(i + 1), c)
    } else {
        seq![s]
    }
}

/// `str::split_whitespace`: the maximal runs of non-whitespace characters.
pub open spec fn split_ws(s: Seq<char>) -> Seq<Seq<char>>
    decreases s.len(),
{
    let p: int = prefix_len(s, CharClass::Ws) as int;
    if 0 <= p < s.len() {
        let t = s.skip(p);
        let w: int = prefix_len(t, CharClass::NotWs) as int;
        if 0 < w <= t.len() {
            seq![t.take(w)] + split_ws(t.skip(w))
        } else {
            seq![]
        }
    } else {
        seq![]
    }
}

/// Drops one trailing `'\r'`.
pub open spec fn strip_cr(l: Seq<char>) -> Seq<char> {
    if l.len() > 0 && l.last() == '\r' {
        l.drop_last()
    } else {
        l
    }
}

/// `str::lines`: pieces ended by `"\n"` or `"\r\n"`; a final line ending is optional.
pub open spec fn lines(s: Seq<char>) -> Seq<Seq<char>>
    decreases s.len(),
{
    let i: int = prefix_len(s, CharClass::Not('\n')) as int;
    if s.len() == 0 {
        seq![]
    } else if 0 <= i < s.len() {
        seq![strip_cr(s.take(i))] + lines(s.skip(i + 1))
    } else {
        seq![s]
    }
}

/// `str::find(pat)`: the first position at which `pat` occurs.
pub open spec fn find(s: Seq<char>, pat: Seq<char>) -> Option<nat>
    decreases s.len(),
{
    if s.len() < pat.len() {
        None
    } else if s.take(pat.len() as int) == pat {
        Some(0)
    } else if s.len() == 0 {
        None
    } else {
        match find(s.drop_first(), pat) {
            Some(i) => Some(i + 1),
            None => None,
        }
    }
}

/// `str::strip_prefix(pat)`.
pub open spec fn strip_prefix(s: Seq<char>, pat: Seq<char>) -> Option<Seq<char>> {
    if pat.is_prefix_of(s) {
        Some(s.skip(pat.len() as int))
    } else {
        None
    }
}

/// `str::strip_suffix(pat)`.
pub open spec fn strip_suffix(s: Seq<char>, pat: Seq<char>) -> Option<Seq<char>> {
    if pat.is_suffix_of(s) {
        Some(s.take(s.len() - pat.len()))
    } else {
        None
    }
}

/// The value of a run of ASCII digits.
pub open spec fn digits_value(d: Seq<char>) -> nat
    decreases d.len(),
{
    if d.len() == 0 {
        0
    } else {
        digits_value(d.drop_last()) * 10 + ((d.last() as nat) - ('0' as nat)) as nat
    }
}

pub open spec fn all_digits(d: Seq<char>) -> bool {
    forall|i: int| 0 <= i < d.len() ==> is_digit(#[trigger] d[i])
}

/// `u32::from_str`: an optional `+`, then at least one ASCII digit, the value in range.
pub open spec fn parse_u32(s: Seq<char>) -> Option<u32> {
    let d = if s.len() > 0 && s[0] == '+' {
        s.drop_first()
    } else {
        s
    };
    if d.len() > 0 && all_digits(d) && digits_value(d) <= u32::MAX {
        Some(digits_value(d) as u32)
    } else {
        None
    }
}

/// `i64::from_str`: an optional sign, then at least one ASCII digit, the value in range.
pub open spec fn parse_i64(s: Seq<char>) -> Option<i64> {
    let neg = s.len() > 0 && s[0] == '-';
    let d = if s.len() > 0 && (s[0] == '+' || s[0] == '-') {
        s.drop_first()
    } else {
        s
    };
    if d.len() == 0 || !all_digits(d) {
        None
    } else if neg {
        if digits_value(d) <= 0x8000_0000_0000_0000 {
            Some((0 - digits_value(d)) as i64)
        } else {
            None
        }
    } else if digits_value(d) <= 0x7fff_ffff_ffff_ffff {
        Some(digits_value(d) as i64)
    } else {
        None
    }
}

// ---------------------------------------------------------------------------
// Lemmas
// ---------------------------------------------------------------------------

pub proof fn lemma_prefix_len_bound(s: Seq<char>, k: CharClass)
    ensures
        prefix_len(s, k) <= s.len(),
        forall|i: int| 0 <= i < prefix_len(s, k) ==> in_class(k, #[trigger] s[i]),
        prefix_len(s, k) < s.len() ==> !in_class(k, s[prefix_len(s, k) as int]),
    decreases s.len(),
{
    if s.len() > 0 && in_class(k, s[0]) {
        lemma_prefix_len_bound(s.drop_first(), k);
        assert forall|i: int| 0 <= i < prefix_len(s, k) implies in_class(k, #[trigger] s[i]) by {
            if i > 0 {
                assert(s[i] == s.drop_first()[i - 1]);
            }
        }
    }
}

/// The prefix length is exactly `n` when the first `n` characters are in the
/// class and the next one (if any) is not.
pub proof fn lemma_prefix_len_exact(s: Seq<char>, k: CharClass, n: int)
    requires
        0 <= n <= s.len(),
        forall|i: int| 0 <= i < n ==> in_class(k, #[trigger] s[i]),
        n == s.len() || !in_class(k, s[n]),
    ensures
        prefix_len(s, k) == n,
    decreases n,
{
    if n > 0 {
        assert(in_class(k, s[0]));
        assert forall|i: int| 0 <= i < n - 1 implies in_class(k, #[trigger] s.drop_first()[i]) by {
            assert(s.drop_first()[i] == s[i + 1]);
        }
        if n < s.len() {
            assert(s.drop_first()[n - 1] == s[n]);
        }
        lemma_prefix_len_exact(s.drop_first(), k, n - 1);
    }
}

pub proof fn lemma_suffix_len_bound(s: Seq<char>, k: CharClass)
    ensures
        suffix_len(s, k) <= s.len(),
        forall|i: int|
            s.len() - suffix_len(s, k) <= i < s.len() ==> in_class(k, #[trigger] s[i]),
        suffix_len(s, k) < s.len() ==> !in_class(k, s[s.len() - suffix_len(s, k) - 1]),
    decreases s.len(),
{
    if s.len() > 0 && in_class(k, s.last()) {
        lemma_suffix_len_bound(s.drop_last(), k);
        assert forall|i: int|
            s.len() - suffix_len(s, k) <= i < s.len() implies in_class(k, #[trigger] s[i]) by {
            if i < s.len() - 1 {
                assert(s[i] == s.drop_last()[i]);
            }
        }
        if suffix_len(s, k) < s.len() {
            assert(s[s.len() - suffix_len(s, k) - 1] == s.drop_last()[s.len() - suffix_len(s, k)
                - 1]);
        }
    }
}

pub proof fn lemma_suffix_len_exact(s: Seq<char>, k: CharClass, n: int)
    requires
        0 <= n <= s.len(),
        forall|i: int| s.len() - n <= i < s.len() ==> in_class(k, #[trigger] s[i]),
        n == s.len() || !in_class(k, s[s.len() - n - 1]),
    ensures
        suffix_len(s, k) == n,
    decreases n,
{
    if n > 0 {
        assert(in_class(k, s[s.len() - 1]));
        assert forall|i: int|
            s.drop_last().len() - (n - 1) <= i < s.drop_last().len() implies in_class(
            k,
            #[trigger] s.drop_last()[i],
        ) by {
            assert(s.drop_last()[i] == s[i]);
        }
        if n < s.len() {
            assert(s.drop_last()[s.drop_last().len() - (n - 1) - 1] == s[s.len() - n - 1]);
        }
        lemma_suffix_len_exact(s.drop_last(), k, n - 1);
    }
}

/// Unfolds `split_on` at a known first separator position.
/// `str::split` always yields at least one piece.
pub proof fn lemma_split_on_nonempty_view(s: Seq<char>, c: char)
    ensures
        split_on(s, c).len() >= 1,
    decreases s.len(),
{
    let i: int = prefix_len(s, CharClass::Not(c)) as int;
    if 0 <= i < s.len() {
        lemma_split_on_nonempty_view(s.skip(i + 1), c);
    }
}

pub proof fn lemma_split_on_step(s: Seq<char>, c: char, i: int)
    requires
        0 <= i < s.len(),
        s[i] == c,
        forall|j: int| 0 <= j < i ==> #[trigger] s[j] != c,
    ensures
        split_on(s, c) == seq![s.take(i)] + split_on(s.skip(i + 1), c),
{
    lemma_prefix_len_exact(s, CharClass::Not(c), i);
}

/// `split_on` of a string without the separator is the string itself.
pub proof fn lemma_split_on_last(s: Seq<char>, c: char)
    requires
        forall|j: int| 0 <= j < s.len() ==> #[trigger] s[j] != c,
    ensures
        split_on(s, c) == seq![s],
{
    lemma_prefix_len_exact(s, CharClass::Not(c), s.len() as int);
}

// ---------------------------------------------------------------------------
// Executable primitives
// ---------------------------------------------------------------------------

/// Appends one character to a `String` (`String::push`).
#[verifier::external_body]
pub(crate) fn push_char(s: &mut String, c: char)
    ensures
        final(s)@ == old(s)@.push(c),
{
    s.push(c);
}

/// The characters of `s`, in order.
pub fn chars_of(s: &str) -> (v: Vec<char>)
    ensures
        v@ == s@,
{
    let mut v: Vec<char> = Vec::new();
    for c in it: s.chars()
        invariant
            v@ == it.seq().take(it.index() as int),
    {
        v.push(c);
    }
    v
}

/// A `String` holding exactly the characters of `v`.
pub fn string_of(v: &[char]) -> (s: String)
    ensures
        s@ == v@,
{
    let mut s = String::new();
    let mut i: usize = 0;
    while i < v.len()
        invariant
            i <= v@.len(),
            s@ == v@.take(i as int),
        decreases v@.len() - i,
    {
        push_char(&mut s, v[i]);
        i = i + 1;
        assert(v@.take(i as int) == v@.take(i - 1).push(v@[i - 1]));
    }
    assert(v@.take(v@.len() as int) == v@);
    s
}

/// Appends the characters of `t` to `v`.
pub fn append_chars(v: &mut Vec<char>, t: &[char])
    ensures
        final(v)@ == old(v)@ + t@,
{
    let mut i: usize = 0;
    while i < t.len()
        invariant
            i <= t@.len(),
            v@ == old(v)@ + t@.take(i as int),
        decreases t@.len() - i,
    {
        v.push(t[i]);
        i = i + 1;
        assert(t@.take(i as int) == t@.take(i - 1).push(t@[i - 1]));
    }
    assert(t@.take(t@.len() as int) == t@);
}

/// Characters `a..b` of `s`.
pub fn slice_of(s: &[char], a: usize, b: usize) -> (r: Vec<char>)
    requires
        a <= b <= s@.len(),
    ensures
        r@ == s@.subrange(a as int, b as int),
{
    let mut r: Vec<char> = Vec::new();
    let mut i: usize = a;
    while i < b
        invariant
            a <= i <= b <= s@.len(),
            r@ == s@.subrange(a as int, i as int),
        decreases b - i,
    {
        r.push(s[i]);
        i = i + 1;
        assert(s@.subrange(a as int, i as int) == s@.subrange(a as int, i - 1).push(s@[i - 1]));
    }
    r
}

/// Whether two character sequences are equal.
pub fn chars_eq(a: &[char], b: &[char]) -> (r: bool)
    ensures
        r == (a@ == b@),
{
    if a.len() != b.len() {
        return false;
    }
    let mut i: usize = 0;
    while i < a.len()
        invariant
            a@.len() == b@.len(),
            i <= a@.len(),
            forall|j: int| 0 <= j < i ==> a@[j] == b@[j],
        decreases a@.len() - i,
    {
        if a[i] != b[i] {
            return false;
        }
        i = i + 1;
    }
    assert(a@ =~= b@);
    true
}

pub fn is_ws_exec(c: char) -> (r: bool)
    ensures
        r == is_ws(c),
{
    ('\t' <= c && c <= '\r') || c == ' ' || c == '\u{85}' || c == '\u{a0}' || c == '\u{1680}'
        || ('\u{2000}' <= c && c <= '\u{200a}') || c == '\u{2028}' || c == '\u{2029}' || c
        == '\u{202f}' || c == '\u{205f}' || c == '\u{3000}'
}

pub fn in_class_exec(k: &CharClass, c: char) -> (r: bool)
    ensures
        r == in_class(*k, c),
{
    match k {
        CharClass::Ws => is_ws_exec(c),
        CharClass::NotWs => !is_ws_exec(c),
        CharClass::Is(x) => c == *x,
        CharClass::Not(x) => c != *x,
        CharClass::DigitOrDot => ('0' <= c && c <= '9') || c == '.',
    }
}

/// Position of the first character at or after `from` that is not in class `k`
/// (or the length).
pub fn scan(s: &[char], from: usize, k: &CharClass) -> (j: usize)
    requires
        from <= s@.len(),
    ensures
        j == from + prefix_len(s@.skip(from as int), *k),
        from <= j <= s@.len(),
{
    let mut j = from;
    while j < s.len() && in_class_exec(k, s[j])
        invariant
            from <= j <= s@.len(),
            forall|i: int| from <= i < j ==> in_class(*k, #[trigger] s@[i]),
        decreases s@.len() - j,
    {
        j = j + 1;
    }
    proof {
        let t = s@.skip(from as int);
        assert forall|i: int| 0 <= i < j - from implies in_class(*k, #[trigger] t[i]) by {
            assert(t[i] == s@[from + i]);
        }
        if j < s@.len() {
            assert(t[j - from] == s@[j as int]);
        }
        lemma_prefix_len_exact(t, *k, j - from);
    }
    j
}

/// Position just past the last character before `to` that is not in class `k`
/// (or 0): `to - suffix_len(s[..to], k)`.
pub fn scan_back(s: &[char], to: usize, k: &CharClass) -> (j: usize)
    requires
        to <= s@.len(),
    ensures
        j == to - suffix_len(s@.take(to as int), *k),
        j <= to,
{
    let mut j = to;
    while j > 0 && in_class_exec(k, s[j - 1])
        invariant
            j <= to <= s@.len(),
            forall|i: int| j <= i < to ==> in_class(*k, #[trigger] s@[i]),
        decreases j,
    {
        j = j - 1;
    }
    proof {
        let t = s@.take(to as int);
        assert forall|i: int| t.len() - (to - j) <= i < t.len() implies in_class(
            *k,
            #[trigger] t[i],
        ) by {
            assert(t[i] == s@[i]);
        }
        if j > 0 {
            assert(t[t.len() - (to - j) - 1] == s@[j - 1]);
        }
        lemma_suffix_len_exact(t, *k, to - j);
    }
    j
}

/// `str::trim`.
pub fn trim_chars(s: &[char]) -> (r: Vec<char>)
    ensures
        r@ == trim(s@),
{
    let a = scan(s, 0, &CharClass::Ws);
    assert(s@.skip(0) == s@);
    let t = slice_of(s, a, s.len());
    assert(t@ == trim_start(s@));
    let b = scan_back(&t, t.len(), &CharClass::Ws);
    assert(t@.take(t@.len() as int) == t@);
    let r = slice_of(&t, 0, b);
    r
}

/// `str::split(c)`.
pub fn split_chars(s: &[char], c: char) -> (r: Vec<Vec<char>>)
    ensures
        views(r@) == split_on(s@, c),
{
    let mut acc: Vec<Vec<char>> = Vec::new();
    let mut start: usize = 0;
    let mut i: usize = 0;
    assert(s@.skip(0) == s@);
    while i < s.len()
        invariant
            start <= i <= s@.len(),
            forall|j: int| start <= j < i ==> #[trigger] s@[j] != c,
            views(acc@) + split_on(s@.skip(start as int), c) == split_on(s@, c),
        decreases s@.len() - i,
    {
        if s[i] == c {
            let piece = slice_of(s, start, i);
            proof {
                let t = s@.skip(start as int);
                assert forall|j: int| 0 <= j < i - start implies #[trigger] t[j] != c by {
                    assert(t[j] == s@[start + j]);
                }
                lemma_split_on_step(t, c, i - start);
                assert(t.take(i - start) == s@.subrange(start as int, i as int));
                assert(t.skip(i - start + 1) == s@.skip(i + 1));
            }
            let ghost old_acc = views(acc@);
            acc.push(piece);
            proof {
                assert(views(acc@) =~= old_acc.push(s@.subrange(start as int, i as int)));
                assert(old_acc + split_on(s@.skip(start as int), c) == old_acc + (seq![
                    s@.subrange(start as int, i as int),
                ] + split_on(s@.skip(i + 1), c)));
                assert(old_acc + (seq![s@.subrange(start as int, i as int)] + split_on(
                    s@.skip(i + 1),
                    c,
                )) == old_acc.push(s@.subrange(start as int, i as int)) + split_on(
                    s@.skip(i + 1),
                    c,
                ));
            }
            start = i + 1;
        }
        i = i + 1;
    }
    let last = slice_of(s, start, s.len());
    proof {
        let t = s@.skip(start as int);
        assert forall|j: int| 0 <= j < t.len() implies #[trigger] t[j] != c by {
            assert(t[j] == s@[start + j]);
        }
        lemma_split_on_last(t, c);
        assert(last@ == t);
    }
    let ghost old_acc = views(acc@);
    acc.push(last);
    assert(views(acc@) =~= old_acc.push(last@));
    assert(old_acc + seq![last@] == old_acc.push(last@));
    acc
}

/// `str::split_whitespace`.
pub fn split_ws_chars(s: &[char]) -> (r: Vec<Vec<char>>)
    ensures
        views(r@) == split_ws(s@),
{
    let mut acc: Vec<Vec<char>> = Vec::new();
    let mut i: usize = 0;
    assert(s@.skip(0) == s@);
    while i < s.len()
        invariant
            i <= s@.len(),
            views(acc@) + split_ws(s@.skip(i as int)) == split_ws(s@),
        decreases s@.len() - i,
    {
        let j = scan(s, i, &CharClass::Ws);
        if j == s.len() {
            proof {
                let t = s@.skip(i as int);
                lemma_prefix_len_bound(t, CharClass::Ws);
                assert(split_ws(t) == Seq::<Seq<char>>::empty());
                assert(views(acc@) + split_ws(t) == views(acc@));
                assert(s@.skip(s@.len() as int) == Seq::<char>::empty());
                assert(split_ws(Seq::<char>::empty()) == Seq::<Seq<char>>::empty());
                assert(views(acc@) + Seq::<Seq<char>>::empty() == views(acc@));
            }
            i = j;
        } else {
            let k = scan(s, j, &CharClass::NotWs);
            proof {
                let t = s@.skip(i as int);
                assert(t.skip(j - i) == s@.skip(j as int));
                lemma_prefix_len_bound(s@.skip(i as int), CharClass::Ws);
                assert(s@.skip(j as int)[0] == s@[j as int]);
                lemma_prefix_len_bound(s@.skip(i as int), CharClass::Ws);
                assert(!is_ws(s@[j as int])) by {
                    assert(t[j - i] == s@[j as int]);
                }
                let u = s@.skip(j as int);
                if k == j {
                    lemma_prefix_len_exact(u, CharClass::NotWs, 1);
                }
                assert(k > j);
                assert(u.take(k - j) == s@.subrange(j as int, k as int));
                assert(u.skip(k - j) == s@.skip(k as int));
                assert(split_ws(t) == seq![s@.subrange(j as int, k as int)] + split_ws(
                    s@.skip(k as int),
                ));
            }
            let piece = slice_of(s, j, k);
            let ghost old_acc = views(acc@);
            acc.push(piece);
            proof {
                assert(views(acc@) =~= old_acc.push(piece@));
                assert(old_acc + (seq![piece@] + split_ws(s@.skip(k as int))) == old_acc.push(
                    piece@,
                ) + split_ws(s@.skip(k as int)));
            }
            i = k;
        }
    }
    proof {
        assert(s@.skip(i as int) == Seq::<char>::empty());
        assert(split_ws(Seq::<char>::empty()) == Seq::<Seq<char>>::empty());
        assert(views(acc@) + Seq::<Seq<char>>::empty() == views(acc@));
    }
    acc
}

/// `str::lines`.
pub fn lines_chars(s: &[char]) -> (r: Vec<Vec<char>>)
    ensures
        views(r@) == lines(s@),
{
    let mut acc: Vec<Vec<char>> = Vec::new();
    let mut i: usize = 0;
    assert(s@.skip(0) == s@);
    while i < s.len()
        invariant
            i <= s@.len(),
            views(acc@) + lines(s@.skip(i as int)) == lines(s@),
        decreases s@.len() - i,
    {
        let j = scan(s, i, &CharClass::Not('\n'));
        let t = Ghost(s@.skip(i as int));
        if j == s.len() {
            let piece = slice_of(s, i, j);
            proof {
                assert(piece@ == t@);
                assert(lines(t@) == seq![t@]);
            }
            let ghost old_acc = views(acc@);
            acc.push(piece);
            proof {
                assert(views(acc@) =~= old_acc.push(piece@));
                assert(old_acc + seq![piece@] == old_acc.push(piece@));
                assert(s@.skip(j as int) == Seq::<char>::empty());
                assert(lines(Seq::<char>::empty()) == Seq::<Seq<char>>::empty());
                assert(views(acc@) + Seq::<Seq<char>>::empty() == views(acc@));
            }
            i = j;
        } else {
            let mut piece = slice_of(s, i, j);
            if piece.len() > 0 && piece[piece.len() - 1] == '\r' {
                piece.pop();
            }
            proof {
                assert(t@.take(j - i) == s@.subrange(i as int, j as int));
                assert(piece@ == strip_cr(t@.take(j - i)));
                assert(t@.skip(j - i + 1) == s@.skip(j + 1));
                assert(lines(t@) == seq![piece@] + lines(s@.skip(j + 1)));
            }
            let ghost old_acc = views(acc@);
            acc.push(piece);
            proof {
                assert(views(acc@) =~= old_acc.push(piece@));
                assert(old_acc + (seq![piece@] + lines(s@.skip(j + 1))) == old_acc.push(piece@)
                    + lines(s@.skip(j + 1)));
            }
            i = j + 1;
        }
    }
    proof {
        assert(s@.skip(i as int) == Seq::<char>::empty());
        assert(lines(Seq::<char>::empty()) == Seq::<Seq<char>>::empty());
        assert(views(acc@) + Seq::<Seq<char>>::empty() == views(acc@));
    }
    acc
}

/// Whether `pat` occurs in `s` at position `i`.
pub open spec fn occurs_at(s: Seq<char>, pat: Seq<char>, i: int) -> bool {
    0 <= i && i + pat.len() <= s.len() && s.subrange(i, i + pat.len()) == pat
}

pub proof fn lemma_find(s: Seq<char>, pat: Seq<char>)
    ensures
        match find(s, pat) {
            Some(i) => occurs_at(s, pat, i as int) && forall|j: int|
                0 <= j < i ==> !occurs_at(s, pat, j),
            None => forall|j: int| !occurs_at(s, pat, j),
        },
    decreases s.len(),
{
    if s.len() < pat.len() {
    } else if s.take(pat.len() as int) == pat {
        assert(s.subrange(0, pat.len() as int) == s.take(pat.len() as int));
    } else if s.len() == 0 {
        assert(pat.len() == 0);
        assert(s.take(0) == pat);
    } else {
        let t = s.drop_first();
        lemma_find(t, pat);
        assert(!occurs_at(s, pat, 0)) by {
            assert(s.subrange(0, pat.len() as int) == s.take(pat.len() as int));
        }
        assert forall|j: int| 1 <= j implies #[trigger] occurs_at(s, pat, j) == occurs_at(t, pat, j - 1) by {
            if 0 <= j - 1 && j - 1 + pat.len() <= t.len() {
                assert(t.subrange(j - 1, j - 1 + pat.len()) =~= s.subrange(j, j + pat.len()));
            }
        }
    }
}

/// Whether `pat` occurs in `s` at position `i`.
pub fn occurs_at_exec(s: &[char], pat: &[char], i: usize) -> (r: bool)
    ensures
        r == occurs_at(s@, pat@, i as int),
{
    if i > s.len() || pat.len() > s.len() - i {
        return false;
    }
    let mut j: usize = 0;
    while j < pat.len()
        invariant
            i + pat@.len() <= s@.len(),
            s@.len() <= usize::MAX,
            i <= s@.len(),
            pat@.len() <= s@.len(),
            j <= pat@.len(),
            forall|m: int| 0 <= m < j ==> s@[i + m] == pat@[m],
        decreases pat@.len() - j,
    {
        assert(i + j < s@.len());
        if s[i + j] != pat[j] {
            assert(s@.subrange(i as int, i + pat@.len())[j as int] == s@[i + j]);
            return false;
        }
        j = j + 1;
    }
    assert(s@.subrange(i as int, i + pat@.len()) =~= pat@);
    true
}

/// `str::find(pat)`.
pub fn find_chars(s: &[char], pat: &[char]) -> (r: Option<usize>)
    ensures
        r == (match find(s@, pat@) {
            Some(i) => Some(i as usize),
            None => None,
        }),
{
    proof {
        lemma_find(s@, pat@);
    }
    if pat.len() > s.len() {
        return None;
    }
    let limit = s.len() - pat.len();
    let mut i: usize = 0;
    loop
        invariant
            pat@.len() <= s@.len(),
            limit == s@.len() - pat@.len(),
            i <= limit,
            forall|j: int| 0 <= j < i ==> !occurs_at(s@, pat@, j),
            match find(s@, pat@) {
                Some(k) => occurs_at(s@, pat@, k as int) && forall|j: int|
                    0 <= j < k ==> !occurs_at(s@, pat@, j),
                None => forall|j: int| !occurs_at(s@, pat@, j),
            },
        decreases limit - i,
    {
        if occurs_at_exec(s, pat, i) {
            return Some(i);
        }
        if i == limit {
            return None;
        }
        i = i + 1;
    }
}

/// `str::starts_with(pat)`.
pub fn starts_with_chars(s: &[char], pat: &[char]) -> (r: bool)
    ensures
        r == pat@.is_prefix_of(s@),
{
    let r = occurs_at_exec(s, pat, 0);
    proof {
        if pat@.len() <= s@.len() {
            assert(s@.subrange(0, pat@.len() as int) == s@.subrange(0, 0int + pat@.len()));
        }
    }
    r
}

/// `str::ends_with(pat)`.
pub fn ends_with_chars(s: &[char], pat: &[char]) -> (r: bool)
    ensures
        r == pat@.is_suffix_of(s@),
{
    if pat.len() > s.len() {
        return false;
    }
    let r = occurs_at_exec(s, pat, s.len() - pat.len());
    proof {
        assert(s@.len() - pat@.len() + pat@.len() == s@.len());
    }
    r
}

pub proof fn lemma_digits_value_prefix(d: Seq<char>, n: int)
    requires
        all_digits(d),
        0 <= n <= d.len(),
    ensures
        digits_value(d.take(n)) <= digits_value(d),
    decreases d.len(),
{
    if n < d.len() {
        assert(d.drop_last().take(n) == d.take(n));
        lemma_digits_value_prefix(d.drop_last(), n);
        assert(is_digit(d[d.len() - 1]));
    } else {
        assert(d.take(n) == d);
    }
}

/// Parses the ASCII digits `s[a..b]`; `None` when one is not a digit or the
/// value exceeds `limit`.
fn digits_upto(s: &[char], a: usize, b: usize, limit: u64) -> (r: Option<u64>)
    requires
        a <= b <= s@.len(),
        limit >= 9,
    ensures
        match r {
            Some(v) => all_digits(s@.subrange(a as int, b as int)) && v == digits_value(
                s@.subrange(a as int, b as int),
            ) && v <= limit,
            None => !all_digits(s@.subrange(a as int, b as int)) || digits_value(
                s@.subrange(a as int, b as int),
            ) > limit,
        },
{
    let mut acc: u64 = 0;
    let mut i: usize = a;
    while i < b
        invariant
            a <= i <= b <= s@.len(),
            all_digits(s@.subrange(a as int, i as int)),
            acc == digits_value(s@.subrange(a as int, i as int)),
            acc <= limit,
            limit >= 9,
        decreases b - i,
    {
        let c = s[i];
        let ghost d = s@.subrange(a as int, b as int);
        if !('0' <= c && c <= '9') {
            assert(d[i - a] == c);
            return None;
        }
        let digit = (c as u64) - ('0' as u64);
        assert(digit <= 9);
        proof {
            let p = s@.subrange(a as int, i + 1);
            assert(p.drop_last() == s@.subrange(a as int, i as int));
            assert(p.last() == c);
            assert forall|m: int| 0 <= m < p.len() implies is_digit(#[trigger] p[m]) by {
                if m < p.len() - 1 {
                    assert(p[m] == s@.subrange(a as int, i as int)[m]);
                }
            }
        }
        if acc > (limit - digit) / 10 {
            proof {
                let p = s@.subrange(a as int, i + 1);
                assert(digits_value(p) == acc * 10 + digit);
                assert(digits_value(p) > limit) by (nonlinear_arith)
                    requires
                        acc > (limit - digit) / 10,
                        digits_value(p) == acc * 10 + digit,
                        digit <= 9,
                        digit <= limit,
                ;
                if all_digits(d) {
                    assert(d.take(i + 1 - a) == p);
                    lemma_digits_value_prefix(d, i + 1 - a);
                }
            }
            return None;
        }
        proof {
            assert(acc * 10 + digit <= limit) by (nonlinear_arith)
                requires
                    acc <= (limit - digit) / 10,
                    digit <= 9,
            ;
        }
        acc = acc * 10 + digit;
        i = i + 1;
    }
    Some(acc)
}

/// `u32::from_str` on the characters `s`.
pub fn parse_u32_chars(s: &[char]) -> (r: Option<u32>)
    ensures
        r == parse_u32(s@),
{
    let start: usize = if s.len() > 0 && s[0] == '+' {
        1
    } else {
        0
    };
    proof {
        if start == 1 {
            assert(s@.drop_first() == s@.subrange(1, s@.len() as int));
        } else {
            assert(s@ == s@.subrange(0, s@.len() as int));
        }
    }
    if start == s.len() {
        return None;
    }
    match digits_upto(s, start, s.len(), 0xffff_ffff) {
        Some(v) => Some(v as u32),
        None => None,
    }
}

/// `i64::from_str` on the characters `s`.
pub fn parse_i64_chars(s: &[char]) -> (r: Option<i64>)
    ensures
        r == parse_i64(s@),
{
    let neg = s.len() > 0 && s[0] == '-';
    let start: usize = if s.len() > 0 && (s[0] == '+' || s[0] == '-') {
        1
    } else {
        0
    };
    proof {
        if start == 1 {
            assert(s@.drop_first() == s@.subrange(1, s@.len() as int));
        } else {
            assert(s@ == s@.subrange(0, s@.len() as int));
        }
    }
    if start == s.len() {
        return None;
    }
    let limit: u64 = if neg {
        0x8000_0000_0000_0000
    } else {
        0x7fff_ffff_ffff_ffff
    };
    match digits_upto(s, start, s.len(), limit) {
        Some(v) => {
            if neg {
                if v == 0x8000_0000_0000_0000 {
                    Some(i64::MIN)
                } else {
                    Some(-(v as i64))
                }
            } else {
                Some(v as i64)
            }
        },
        None => None,
    }
}

/// The ASCII digit for `d < 10`.
pub open spec fn digit_char(d: nat) -> char {
    (d + ('0' as nat)) as char
}

/// Decimal rendering of `n` (what `format!("{}", n)` prints).
pub open spec fn dec(n: nat) -> Seq<char>
    decreases n,
{
    if n < 10 {
        seq![digit_char(n)]
    } else {
        dec(n / 10).push(digit_char(n % 10))
    }
}

/// Decimal rendering of a `u64`.
pub fn dec_chars(n: u64) -> (r: Vec<char>)
    ensures
        r@ == dec(n as nat),
    decreases n,
{
    if n < 10 {
        let c = char_of_digit(n);
        let mut v: Vec<char> = Vec::new();
        v.push(c);
        assert(v@ == seq![c]);
        v
    } else {
        let mut v = dec_chars(n / 10);
        let c = char_of_digit(n % 10);
        v.push(c);
        v
    }
}

fn char_of_digit(d: u64) -> (c: char)
    requires
        d < 10,
    ensures
        c == digit_char(d as nat),
{
    if d == 0 { '0' }
    else if d == 1 { '1' }
    else if d == 2 { '2' }
    else if d == 3 { '3' }
    else if d == 4 { '4' }
    else if d == 5 { '5' }
    else if d == 6 { '6' }
    else if d == 7 { '7' }
    else if d == 8 { '8' }
    else { '9' }
}

/// `format!("{}.{}", a, b)`.
pub open spec fn dotted(a: u32, b: u32) -> Seq<char> {
    dec(a as nat) + seq!['.'] + dec(b as nat)
}

pub fn dotted_string(a: u32, b: u32) -> (r: String)
    ensures
        r@ == dotted(a, b),
{
    let mut v = dec_chars(a as u64);
    v.push('.');
    let w = dec_chars(b as u64);
    append_chars(&mut v, &w);
    string_of(&v)
}

/// `format!("{}", n)` for a `u32`.
pub fn dec_string(n: u32) -> (r: String)
    ensures
        r@ == dec(n as nat),
{
    let v = dec_chars(n as u64);
    string_of(&v)
}

/// A `String` with the characters of a `str`.
pub fn owned(s: &str) -> (r: String)
    ensures
        r@ == s@,
{
    let v = chars_of(s);
    string_of(&v)
}

/// The concatenation of two strings.
pub fn concat(a: &str, b: &str) -> (r: String)
    ensures
        r@ == a@ + b@,
{
    let mut v = chars_of(a);
    let w = chars_of(b);
    append_chars(&mut v, &w);
    string_of(&v)
}

/// The character views of a sequence of strings.
pub open spec fn strs(v: Seq<String>) -> Seq<Seq<char>> {
    v.map_values(|x: String| x@)
}

/// The views of a list grown by one string.
pub proof fn lemma_strs_push(v: Seq<String>, x: String)
    ensures
        strs(v.push(x)) == strs(v).push(x@),
{
    assert(strs(v.push(x)) =~= strs(v).push(x@));
}

/// `str::trim` on a string.
pub fn trim_str(s: &str) -> (r: String)
    ensures
        r@ == trim(s@),
{
    let c = chars_of(s);
    let t = trim_chars(&c);
    string_of(&t)
}

/// What `format!("{:?}", s)` prints for a string: `s` quoted, with the
/// characters that `char::escape_debug` escapes escaped.
pub uninterp spec fn str_debug(s: Seq<char>) -> Seq<char>;

/// `format!("{:?}", s)`. Its result is named by `str_debug`.
#[verifier::external_body]
pub(crate) fn debug_str(s: &str) -> (r: String)
    ensures
        r@ == str_debug(s@),
{
    format!("{:?}", s)
}

} // verus!
