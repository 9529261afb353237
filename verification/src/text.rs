//! Character-level text utilities shared by the rest of the library.

use vstd::prelude::*;

verus! {

/// Whether `c` has the Unicode `White_Space` property, the set that
/// `char::is_whitespace` and `str::trim` go by.
pub open spec fn is_space(c: char) -> bool {
    let n = c as u32;
    ||| 9 <= n <= 13
    ||| n == 32
    ||| n == 0x85
    ||| n == 0xA0
    ||| n == 0x1680
    ||| 0x2000 <= n <= 0x200A
    ||| n == 0x2028
    ||| n == 0x2029
    ||| n == 0x202F
    ||| n == 0x205F
    ||| n == 0x3000
}

pub fn is_space_char(c: char) -> (r: bool)
    ensures
        r == is_space(c),
{
    let n = c as u32;
    (9 <= n && n <= 13) || n == 32 || n == 0x85 || n == 0xA0 || n == 0x1680 || (0x2000 <= n
        && n <= 0x200A) || n == 0x2028 || n == 0x2029 || n == 0x202F || n == 0x205F || n == 0x3000
}

/// Appends one character to a string (`String::push`).
#[verifier::external_body]
pub(crate) fn push_char(s: &mut String, c: char)
    ensures
        final(s)@ == old(s)@.push(c),
{
    s.push(c);
}

/// The characters of `s`, in order.
pub fn chars_of(s: &str) -> (v: Vec<char>)
    ensures
        v@ == s@,
{
    let mut v: Vec<char> = Vec::new();
    for c in it: s.chars()
        invariant
            v@ == it.seq().take(it.index() as int),
    {
        v.push(c);
    }
    v
}

} // verus!

verus! {

/// `s` with its leading white space removed.
pub open spec fn trim_front(s: Seq<char>) -> Seq<char>
    decreases s.len(),
{
    if s.len() > 0 && is_space(s[0]) {
        trim_front(s.drop_first())
    } else {
        s
    }
}

/// `s` with its trailing white space removed.
pub open spec fn trim_back(s: Seq<char>) -> Seq<char>
    decreases s.len(),
{
    if s.len() > 0 && is_space(s.last()) {
        trim_back(s.drop_last())
    } else {
        s
    }
}

/// `s` with white space removed from both ends, as `str::trim` gives it.
pub open spec fn trimmed(s: Seq<char>) -> Seq<char> {
    trim_back(trim_front(s))
}

/// A new string holding `v[lo..hi]`.
pub fn string_of(v: &Vec<char>, lo: usize, hi: usize) -> (r: String)
    requires
        lo <= hi <= v.len(),
    ensures
        r@ == v@.subrange(lo as int, hi as int),
{
    let mut r = String::new();
    let mut k = lo;
    while k < hi
        invariant
            lo <= k <= hi <= v.len(),
            r@ == v@.subrange(lo as int, k as int),
        decreases hi - k,
    {
        push_char(&mut r, v[k]);
        assert(v@.subrange(lo as int, k + 1) == v@.subrange(lo as int, k as int).push(v@[k as int]));
        k = k + 1;
    }
    r
}

/// `str::trim`: the text without leading and trailing white space.
pub fn trim(s: &str) -> (r: String)
    ensures
        r@ == trimmed(s@),
{
    let v = chars_of(s);
    let n = v.len();
    let mut i: usize = 0;
    assert(v@.subrange(0, n as int) == v@);
    while i < n && is_space_char(v[i])
        invariant
            i <= n == v.len(),
            trim_front(v@) == trim_front(v@.subrange(i as int, n as int)),
        decreases n - i,
    {
        assert(v@.subrange(i as int, n as int).drop_first() == v@.subrange(i + 1, n as int));
        i = i + 1;
    }
    assert(trim_front(v@) == v@.subrange(i as int, n as int));
    let mut j: usize = n;
    while j > i && is_space_char(v[j - 1])
        invariant
            i <= j <= n == v.len(),
            trim_back(v@.subrange(i as int, n as int)) == trim_back(v@.subrange(i as int, j as int)),
        decreases j,
    {
        assert(v@.subrange(i as int, j as int).drop_last() == v@.subrange(i as int, j - 1));
        j = j - 1;
    }
    string_of(&v, i, j)
}

/// `pat` occurs in `s` starting at position `i`.
pub open spec fn occurs_at(s: Seq<char>, pat: Seq<char>, i: int) -> bool {
    0 <= i && i + pat.len() <= s.len() && s.subrange(i, i + pat.len()) == pat
}

/// `pat` occurs somewhere in `s`, as `str::contains` decides it.
pub open spec fn has_substring(s: Seq<char>, pat: Seq<char>) -> bool {
    exists|i: int| occurs_at(s, pat, i)
}

fn matches_at(s: &Vec<char>, pat: &Vec<char>, i: usize) -> (r: bool)
    requires
        i <= s.len(),
    ensures
        r == occurs_at(s@, pat@, i as int),
{
    if pat.len() > s.len() - i {
        return false;
    }
    let mut k: usize = 0;
    while k < pat.len()
        invariant
            i + pat.len() <= s.len(),
            k <= pat.len(),
            forall|m: int| 0 <= m < k ==> s@[i + m] == pat@[m],
        decreases pat.len() - k,
    {
        if s[i + k] != pat[k] {
            assert(s@.subrange(i as int, i + pat.len())[k as int] != pat@[k as int]);
            return false;
        }
        k = k + 1;
    }
    assert(s@.subrange(i as int, i + pat.len()) == pat@);
    true
}

/// Whether `pat` occurs in `s` (`str::contains`).
pub fn contains_text(s: &Vec<char>, pat: &Vec<char>) -> (r: bool)
    ensures
        r == has_substring(s@, pat@),
{
    if pat.len() == 0 {
        assert(s@.subrange(0, 0) =~= pat@);
        assert(occurs_at(s@, pat@, 0));
        return true;
    }
    let mut i: usize = 0;
    while i < s.len()
        invariant
            pat.len() > 0,
            forall|m: int| 0 <= m < i ==> !occurs_at(s@, pat@, m),
        decreases s.len() - i,
    {
        if matches_at(s, pat, i) {
            return true;
        }
        i = i + 1;
    }
    false
}

} // verus!

verus! {

/// `s` with every non-overlapping occurrence of the non-empty `pat`,
/// taken from left to right, replaced by `rep` (`str::replace`).
pub open spec fn replace_all(s: Seq<char>, pat: Seq<char>, rep: Seq<char>) -> Seq<char>
    decreases s.len(),
{
    if s.len() == 0 {
        Seq::empty()
    } else if pat.len() > 0 && occurs_at(s, pat, 0) {
        rep + replace_all(s.skip(pat.len() as int), pat, rep)
    } else {
        seq![s[0]] + replace_all(s.drop_first(), pat, rep)
    }
}

/// `str::replace` for a non-empty pattern.
pub(crate) fn replace_text(s: &str, pat: &str, rep: &str) -> (r: String)
    requires
        pat@.len() > 0,
    ensures
        r@ == replace_all(s@, pat@, rep@),
{
    let v = chars_of(s);
    let p = chars_of(pat);
    let mut out = String::new();
    let mut i: usize = 0;
    assert(v@.skip(0) == v@);
    while i < v.len()
        invariant
            i <= v.len(),
            p@ == pat@,
            p@.len() > 0,
            out@ + replace_all(v@.skip(i as int), p@, rep@) == replace_all(v@, p@, rep@),
        decreases v.len() - i,
    {
        let ghost rest = v@.skip(i as int);
        let found = matches_at(&v, &p, i);
        if found {
            assert(rest.subrange(0, p@.len() as int) == v@.subrange(i as int, i + p@.len()));
            assert(occurs_at(rest, p@, 0));
            assert(rest.skip(p@.len() as int) == v@.skip(i + p@.len()));
            out.append(rep);
            i = i + p.len();
        } else {
            assert(p@.len() <= rest.len() ==> rest.subrange(0, p@.len() as int) == v@.subrange(
                i as int,
                i + p@.len(),
            ));
            assert(!occurs_at(rest, p@, 0));
            assert(rest.drop_first() == v@.skip(i + 1));
            push_char(&mut out, v[i]);
            i = i + 1;
        }
    }
    assert(v@.skip(i as int) == Seq::<char>::empty());
    out
}

/// The ASCII digit for `d < 10`.
pub open spec fn digit_char(d: nat) -> char {
    ((d + 48) as u8) as char
}

/// The decimal notation of `n`, without sign or leading zeros.
pub open spec fn decimal(n: nat) -> Seq<char>
    decreases n,
{
    if n < 10 {
        seq![digit_char(n)]
    } else {
        decimal(n / 10).push(digit_char(n % 10))
    }
}

/// Appends the decimal notation of `n` to `out`.
pub fn push_decimal(out: &mut String, n: u64)
    ensures
        final(out)@ == old(out)@ + decimal(n as nat),
    decreases n,
{
    if n >= 10 {
        push_decimal(out, n / 10);
    }
    let d: u8 = (n % 10) as u8;
    push_char(out, (d + 48) as char);
}

} // verus!

verus! {

proof fn lemma_trim_front_shape(s: Seq<char>)
    ensures
        trim_front(s).len() <= s.len(),
        trim_front(s) == s.skip(s.len() - trim_front(s).len()),
        trim_front(s).len() == 0 || !is_space(trim_front(s)[0]),
    decreases s.len(),
{
    if s.len() > 0 && is_space(s[0]) {
        lemma_trim_front_shape(s.drop_first());
        assert(s.drop_first().skip(s.drop_first().len() - trim_front(s).len()) == s.skip(
            s.len() - trim_front(s).len(),
        ));
    } else {
        assert(s.skip(0) == s);
    }
}

proof fn lemma_trim_back_shape(s: Seq<char>)
    ensures
        trim_back(s).len() <= s.len(),
        trim_back(s) == s.take(trim_back(s).len() as int),
        trim_back(s).len() == 0 || !is_space(trim_back(s).last()),
    decreases s.len(),
{
    if s.len() > 0 && is_space(s.last()) {
        lemma_trim_back_shape(s.drop_last());
        assert(s.drop_last().take(trim_back(s).len() as int) == s.take(trim_back(s).len() as int));
    } else {
        assert(s.take(s.len() as int) == s);
    }
}

/// Trimmed text neither starts nor ends with white space, and is a
/// contiguous part of the original.
pub proof fn lemma_trimmed_shape(s: Seq<char>)
    ensures
        trimmed(s).len() > 0 ==> !is_space(trimmed(s)[0]) && !is_space(trimmed(s).last()),
        exists|i: int, j: int| 0 <= i <= j <= s.len() && trimmed(s) == s.subrange(i, j),
{
    let f = trim_front(s);
    lemma_trim_front_shape(s);
    lemma_trim_back_shape(f);
    let t = trimmed(s);
    let i = s.len() - f.len();
    assert(t == s.subrange(i, i + t.len()));
    if t.len() > 0 {
        assert(t[0] == f[0]);
    }
}

/// Trimming twice is trimming once.
pub proof fn lemma_trim_idempotent(s: Seq<char>)
    ensures
        trimmed(trimmed(s)) == trimmed(s),
{
    let t = trimmed(s);
    lemma_trimmed_shape(s);
    assert(trim_front(t) == t);
    assert(trim_back(t) == t);
}

/// Text in which the pattern does not occur comes out of a replacement unchanged.
pub proof fn lemma_replace_without_occurrence(s: Seq<char>, pat: Seq<char>, rep: Seq<char>)
    requires
        pat.len() > 0,
        !has_substring(s, pat),
    ensures
        replace_all(s, pat, rep) == s,
    decreases s.len(),
{
    if s.len() > 0 {
        assert(!occurs_at(s, pat, 0));
        let d = s.drop_first();
        assert forall|i: int| !occurs_at(d, pat, i) by {
            if occurs_at(d, pat, i) {
                assert(d.subrange(i, i + pat.len()) == s.subrange(i + 1, i + 1 + pat.len()));
                assert(occurs_at(s, pat, i + 1));
            }
        }
        lemma_replace_without_occurrence(d, pat, rep);
        assert(seq![s[0]] + d == s);
    }
}

/// The white space characters are exactly those with the Unicode
/// `White_Space` property: U+0009 to U+000D (tab, line feed, vertical tab,
/// form feed, carriage return), space, U+0085, U+00A0, U+1680, U+2000 to
/// U+200A, U+2028, U+2029, U+202F, U+205F and U+3000.
pub proof fn lemma_space_is_unicode_white_space(c: char)
    ensures
        is_space(c) <==> (c == '\t' || c == '\n' || c == '\u{b}' || c == '\u{c}' || c == '\r'
            || c == ' ' || c == '\u{85}' || c == '\u{a0}' || c == '\u{1680}' || ('\u{2000}' as u32
            <= c as u32 && c as u32 <= '\u{200a}' as u32) || c == '\u{2028}' || c == '\u{2029}'
            || c == '\u{202f}' || c == '\u{205f}' || c == '\u{3000}'),
{
}

proof fn lemma_trim_front_of_spaces(w: Seq<char>)
    requires
        forall|i: int| 0 <= i < w.len() ==> is_space(w[i]),
    ensures
        trim_front(w) == Seq::<char>::empty(),
    decreases w.len(),
{
    if w.len() > 0 {
        lemma_trim_front_of_spaces(w.drop_first());
    }
}

proof fn lemma_trim_back_drops_spaces(x: Seq<char>, w: Seq<char>)
    requires
        forall|i: int| 0 <= i < w.len() ==> is_space(w[i]),
    ensures
        trim_back(x + w) == trim_back(x),
    decreases w.len(),
{
    if w.len() == 0 {
        assert(x + w == x);
    } else {
        assert((x + w).last() == w.last());
        assert((x + w).drop_last() == x + w.drop_last());
        lemma_trim_back_drops_spaces(x, w.drop_last());
    }
}

proof fn lemma_trim_front_append_spaces(s: Seq<char>, w: Seq<char>)
    requires
        forall|i: int| 0 <= i < w.len() ==> is_space(w[i]),
    ensures
        trim_front(s + w) == if trim_front(s).len() > 0 {
            trim_front(s) + w
        } else {
            Seq::<char>::empty()
        },
    decreases s.len(),
{
    if s.len() == 0 {
        assert(s + w == w);
        lemma_trim_front_of_spaces(w);
    } else {
        assert((s + w)[0] == s[0]);
        if is_space(s[0]) {
            assert((s + w).drop_first() == s.drop_first() + w);
            lemma_trim_front_append_spaces(s.drop_first(), w);
        }
    }
}

proof fn lemma_trim_front_prepend_spaces(w: Seq<char>, s: Seq<char>)
    requires
        forall|i: int| 0 <= i < w.len() ==> is_space(w[i]),
    ensures
        trim_front(w + s) == trim_front(s),
    decreases w.len(),
{
    if w.len() == 0 {
        assert(w + s == s);
    } else {
        assert((w + s)[0] == w[0]);
        assert((w + s).drop_first() == w.drop_first() + s);
        lemma_trim_front_prepend_spaces(w.drop_first(), s);
    }
}

/// White space added at either end of a text does not change the trimmed text.
pub proof fn lemma_trim_ignores_added_space(w: Seq<char>, s: Seq<char>)
    requires
        forall|i: int| 0 <= i < w.len() ==> is_space(w[i]),
    ensures
        trimmed(s + w) == trimmed(s),
        trimmed(w + s) == trimmed(s),
{
    lemma_trim_front_append_spaces(s, w);
    if trim_front(s).len() > 0 {
        lemma_trim_back_drops_spaces(trim_front(s), w);
    }
    lemma_trim_front_prepend_spaces(w, s);
}

/// Line endings, Windows or Unix, and tabs or spaces around a text are trimmed away.
pub proof fn lemma_trim_drops_line_endings(s: Seq<char>)
    ensures
        trimmed(s + seq!['\r', '\n']) == trimmed(s),
        trimmed(s + seq!['\n']) == trimmed(s),
        trimmed(seq![' ', '\t'] + s) == trimmed(s),
{
    lemma_trim_ignores_added_space(seq!['\r', '\n'], s);
    lemma_trim_ignores_added_space(seq!['\n'], s);
    lemma_trim_ignores_added_space(seq![' ', '\t'], s);
}

/// A pattern occurs in any text built around it, and never in a shorter text.
pub proof fn lemma_substring_basics(a: Seq<char>, p: Seq<char>, b: Seq<char>)
    ensures
        has_substring(a + p + b, p),
        p.len() > a.len() ==> !has_substring(a, p),
{
    assert((a + p + b).subrange(a.len() as int, a.len() + p.len() as int) == p);
    assert(occurs_at(a + p + b, p, a.len() as int));
}

/// A text that starts with the pattern has that start replaced, and the rest
/// replaced in turn.
pub proof fn lemma_replace_leading_pattern(pat: Seq<char>, rest: Seq<char>, rep: Seq<char>)
    requires
        pat.len() > 0,
    ensures
        replace_all(pat + rest, pat, rep) == rep + replace_all(rest, pat, rep),
{
    let s = pat + rest;
    assert(s.subrange(0, pat.len() as int) == pat);
    assert(occurs_at(s, pat, 0));
    assert(s.skip(pat.len() as int) == rest);
}

} // verus!
