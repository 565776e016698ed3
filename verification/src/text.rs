//! Character-level helpers shared by the slug, search and validation code.
//!
//! Strings are modelled by their `Seq<char>` view; the executable helpers
//! work on `Vec<char>` copies and rebuild `String`s from them.
use vstd::prelude::*;

verus! {

/// The characters of `s`, in order.
pub fn chars_of(s: &str) -> (v: Vec<char>)
    ensures
        v@ == s@,
{
    let mut v: Vec<char> = Vec::new();
    for c in it: s.chars()
        invariant
            v@ == it.seq().take(it.index() as int),
            it.seq() == s@,
    {
        v.push(c);
    }
    v
}

/// Appends one character (`String::push`).
#[verifier::external_body]
pub(crate) fn push_char(s: &mut String, c: char)
    ensures
        final(s)@ == old(s)@.push(c),
{
    s.push(c)
}

/// The string whose characters are `v`.
pub fn string_from_chars(v: &Vec<char>) -> (s: String)
    ensures
        s@ == v@,
{
    let mut s = String::new();
    let n = v.len();
    for i in 0..n
        invariant
            n == v@.len(),
            s@ == v@.take(i as int),
    {
        push_char(&mut s, v[i]);
        assert(v@.take(i + 1) == v@.take(i as int).push(v@[i as int]));
    }
    assert(v@.take(n as int) == v@);
    s
}

/// Owned copy of a string slice.
pub fn owned(s: &str) -> (r: String)
    ensures
        r@ == s@,
{
    s.to_owned()
}

/// `a` followed by `b`.
pub fn concat(a: &str, b: &str) -> (r: String)
    ensures
        r@ == a@ + b@,
{
    let mut r = owned(a);
    r.append(b);
    r
}

// ---------------------------------------------------------------------
// Views of optional and listed strings
// ---------------------------------------------------------------------
pub open spec fn opt_str_view(s: Option<&str>) -> Option<Seq<char>> {
    match s {
        Some(t) => Some(t@),
        None => None,
    }
}

pub open spec fn opt_string_view(s: Option<String>) -> Option<Seq<char>> {
    match s {
        Some(t) => Some(t@),
        None => None,
    }
}

pub open spec fn strings_view(v: Vec<String>) -> Seq<Seq<char>> {
    v@.map_values(|x: String| x@)
}

pub open spec fn opt_strings_view(v: Option<Vec<String>>) -> Option<Seq<Seq<char>>> {
    match v {
        Some(t) => Some(strings_view(t)),
        None => None,
    }
}

// ---------------------------------------------------------------------
// ASCII classes
// ---------------------------------------------------------------------
pub open spec fn is_ascii_digit(c: char) -> bool {
    '0' <= c && c <= '9'
}

pub open spec fn is_ascii_lower(c: char) -> bool {
    'a' <= c && c <= 'z'
}

pub open spec fn is_ascii_upper(c: char) -> bool {
    'A' <= c && c <= 'Z'
}

/// `char::is_ascii_alphanumeric`.
pub open spec fn is_ascii_alnum(c: char) -> bool {
    is_ascii_digit(c) || is_ascii_lower(c) || is_ascii_upper(c)
}

/// `char::to_ascii_lowercase`.
pub open spec fn ascii_lower(c: char) -> char {
    if is_ascii_upper(c) {
        ((c as u32) + 32) as char
    } else {
        c
    }
}

pub fn ascii_alnum(c: char) -> (b: bool)
    ensures
        b == is_ascii_alnum(c),
{
    ('0' <= c && c <= '9') || ('a' <= c && c <= 'z') || ('A' <= c && c <= 'Z')
}

pub fn to_ascii_lower(c: char) -> (r: char)
    ensures
        r == ascii_lower(c),
        is_ascii_upper(c) ==> is_ascii_lower(r),
        !is_ascii_upper(c) ==> r == c,
{
    if 'A' <= c && c <= 'Z' {
        let b: u8 = (c as u8) + 32;
        let r = b as char;
        assert(r == ((c as u32) + 32) as char);
        r
    } else {
        c
    }
}

// ---------------------------------------------------------------------
// Unicode white space (`char::is_whitespace`, property White_Space)
// ---------------------------------------------------------------------
/// The Unicode `White_Space` property, which `char::is_whitespace` and
/// `str::trim` use.
pub open spec fn is_white_space(c: char) -> bool {
    ||| ('\u{9}' <= c && c <= '\u{d}')
    ||| c == ' '
    ||| c == '\u{85}'
    ||| c == '\u{a0}'
    ||| c == '\u{1680}'
    ||| ('\u{2000}' <= c && c <= '\u{200a}')
    ||| c == '\u{2028}'
    ||| c == '\u{2029}'
    ||| c == '\u{202f}'
    ||| c == '\u{205f}'
    ||| c == '\u{3000}'
}

pub fn white_space(c: char) -> (b: bool)
    ensures
        b == is_white_space(c),
{
    ('\u{9}' <= c && c <= '\u{d}') || c == ' ' || c == '\u{85}' || c == '\u{a0}' || c
        == '\u{1680}' || ('\u{2000}' <= c && c <= '\u{200a}') || c == '\u{2028}' || c
        == '\u{2029}' || c == '\u{202f}' || c == '\u{205f}' || c == '\u{3000}'
}

/// `s` without its leading white space.
pub open spec fn trim_start(s: Seq<char>) -> Seq<char>
    decreases s.len(),
{
    if s.len() > 0 && is_white_space(s[0]) {
        trim_start(s.drop_first())
    } else {
        s
    }
}

/// `s` without its trailing white space.
pub open spec fn trim_end(s: Seq<char>) -> Seq<char>
    decreases s.len(),
{
    if s.len() > 0 && is_white_space(s.last()) {
        trim_end(s.drop_last())
    } else {
        s
    }
}

/// `str::trim`: leading and trailing white space removed.
pub open spec fn trim(s: Seq<char>) -> Seq<char> {
    trim_end(trim_start(s))
}

proof fn lemma_trim_start_skip(s: Seq<char>, i: int)
    requires
        0 <= i <= s.len(),
        forall|k: int| 0 <= k < i ==> is_white_space(#[trigger] s[k]),
    ensures
        trim_start(s) == trim_start(s.subrange(i, s.len() as int)),
    decreases i,
{
    if i > 0 {
        lemma_trim_start_skip(s.drop_first(), i - 1);
        assert(s.drop_first().subrange(i - 1, s.drop_first().len() as int) =~= s.subrange(
            i,
            s.len() as int,
        ));
    } else {
        assert(s.subrange(0, s.len() as int) =~= s);
    }
}

proof fn lemma_trim_end_skip(s: Seq<char>, j: int)
    requires
        0 <= j <= s.len(),
        forall|k: int| j <= k < s.len() ==> is_white_space(#[trigger] s[k]),
    ensures
        trim_end(s) == trim_end(s.subrange(0, j)),
    decreases s.len() - j,
{
    if j < s.len() {
        lemma_trim_end_skip(s.drop_last(), j);
        assert(s.drop_last().subrange(0, j) =~= s.subrange(0, j));
    } else {
        assert(s.subrange(0, j) =~= s);
    }
}

/// The characters of `v` from `lo` up to `hi`.
pub fn sub_chars(v: &Vec<char>, lo: usize, hi: usize) -> (r: Vec<char>)
    requires
        lo <= hi <= v@.len(),
    ensures
        r@ == v@.subrange(lo as int, hi as int),
{
    let mut r: Vec<char> = Vec::new();
    let mut i = lo;
    while i < hi
        invariant
            lo <= i <= hi <= v@.len(),
            r@ == v@.subrange(lo as int, i as int),
        decreases hi - i,
    {
        r.push(v[i]);
        assert(v@.subrange(lo as int, i + 1) == v@.subrange(lo as int, i as int).push(v@[i as int]));
        i = i + 1;
    }
    r
}

/// `str::trim` on a character vector.
pub fn trim_chars(v: &Vec<char>) -> (r: Vec<char>)
    ensures
        r@ == trim(v@),
{
    let n = v.len();
    let mut i: usize = 0;
    while i < n && white_space(v[i])
        invariant
            n == v@.len(),
            i <= n,
            forall|k: int| 0 <= k < i ==> is_white_space(#[trigger] v@[k]),
        decreases n - i,
    {
        i = i + 1;
    }
    proof {
        lemma_trim_start_skip(v@, i as int);
    }
    let ghost rest = v@.subrange(i as int, n as int);
    assert(trim_start(rest) == rest);
    let mut j: usize = n;
    while j > i && white_space(v[j - 1])
        invariant
            n == v@.len(),
            i <= j <= n,
            forall|k: int| j <= k < n ==> is_white_space(#[trigger] v@[k]),
        decreases j,
    {
        j = j - 1;
    }
    proof {
        assert forall|k: int| j - i <= k < rest.len() implies is_white_space(#[trigger] rest[k]) by {
            assert(rest[k] == v@[k + i]);
        }
        lemma_trim_end_skip(rest, j - i);
        assert(rest.subrange(0, j - i) =~= v@.subrange(i as int, j as int));
        let t = v@.subrange(i as int, j as int);
        if t.len() > 0 {
            assert(t.last() == v@[j - 1]);
        }
    }
    sub_chars(v, i, j)
}

/// `str::trim`, as an owned string.
pub fn trimmed(s: &str) -> (r: String)
    ensures
        r@ == trim(s@),
{
    let v = chars_of(s);
    let t = trim_chars(&v);
    string_from_chars(&t)
}

/// Equality of character vectors.
pub fn chars_eq(a: &Vec<char>, b: &Vec<char>) -> (r: bool)
    ensures
        r == (a@ == b@),
{
    if a.len() != b.len() {
        return false;
    }
    let n = a.len();
    for i in 0..n
        invariant
            n == a@.len(),
            n == b@.len(),
            forall|k: int| 0 <= k < i ==> a@[k] == b@[k],
    {
        if a[i] != b[i] {
            return false;
        }
    }
    assert(a@ =~= b@);
    true
}

/// Does `v` equal the text `s`?
pub fn chars_eq_str(v: &Vec<char>, s: &str) -> (r: bool)
    ensures
        r == (v@ == s@),
{
    let w = chars_of(s);
    chars_eq(v, &w)
}

// ---------------------------------------------------------------------
// Substring search
// ---------------------------------------------------------------------
/// `needle` occurs in `hay` starting at index `i`.
pub open spec fn occurs_at(hay: Seq<char>, needle: Seq<char>, i: int) -> bool {
    0 <= i && i + needle.len() <= hay.len() && hay.subrange(i, i + needle.len()) == needle
}

/// `str::contains` with a string pattern.
pub open spec fn contains_seq(hay: Seq<char>, needle: Seq<char>) -> bool {
    exists|i: int| occurs_at(hay, needle, i)
}

/// Does `needle` occur in `hay` at index `i`?
pub fn matches_at(hay: &Vec<char>, needle: &Vec<char>, i: usize) -> (b: bool)
    ensures
        b == occurs_at(hay@, needle@, i as int),
{
    if i > hay.len() || needle.len() > hay.len() - i {
        return false;
    }
    let m = needle.len();
    let hl = hay.len();
    for k in 0..m
        invariant
            m == needle@.len(),
            hl == hay@.len(),
            i + m <= hl,
            forall|t: int| 0 <= t < k ==> hay@[i + t] == needle@[t],
    {
        if hay[i + k] != needle[k] {
            assert(hay@.subrange(i as int, i + m)[k as int] != needle@[k as int]);
            return false;
        }
    }
    assert(hay@.subrange(i as int, i + m) =~= needle@);
    true
}

/// `str::contains` on character vectors.
pub fn contains_chars(hay: &Vec<char>, needle: &Vec<char>) -> (b: bool)
    ensures
        b == contains_seq(hay@, needle@),
{
    let n = hay.len();
    let mut i: usize = 0;
    while i < n
        invariant
            n == hay@.len(),
            i <= n,
            forall|t: int| 0 <= t < i ==> !occurs_at(hay@, needle@, t),
        decreases n - i,
    {
        if matches_at(hay, needle, i) {
            return true;
        }
        i = i + 1;
    }
    if matches_at(hay, needle, n) {
        return true;
    }
    assert forall|t: int| !occurs_at(hay@, needle@, t) by {
        if 0 <= t <= n {
        }
    }
    false
}

/// `str::contains` with a string pattern.
pub fn str_contains(hay: &str, needle: &str) -> (b: bool)
    ensures
        b == contains_seq(hay@, needle@),
{
    let h = chars_of(hay);
    let n = chars_of(needle);
    contains_chars(&h, &n)
}

/// Number of non-overlapping occurrences of `needle` in `hay`, scanning
/// from the left (`str::matches(..).count()` for a non-empty pattern).
pub open spec fn count_matches(hay: Seq<char>, needle: Seq<char>) -> nat
    recommends
        needle.len() > 0,
    decreases hay.len(),
{
    if needle.len() == 0 || hay.len() < needle.len() {
        0
    } else if hay.subrange(0, needle.len() as int) == needle {
        1 + count_matches(hay.subrange(needle.len() as int, hay.len() as int), needle)
    } else {
        count_matches(hay.drop_first(), needle)
    }
}

proof fn lemma_count_step(hay: Seq<char>, needle: Seq<char>, i: int)
    requires
        needle.len() > 0,
        0 <= i <= hay.len(),
    ensures
        occurs_at(hay, needle, i) ==> count_matches(hay.subrange(i, hay.len() as int), needle)
            == 1 + count_matches(hay.subrange(i + needle.len(), hay.len() as int), needle),
        i < hay.len() && !occurs_at(hay, needle, i) ==> count_matches(
            hay.subrange(i, hay.len() as int),
            needle,
        ) == count_matches(hay.subrange(i + 1, hay.len() as int), needle),
        i + needle.len() > hay.len() ==> count_matches(hay.subrange(i, hay.len() as int), needle)
            == 0,
{
    let rest = hay.subrange(i, hay.len() as int);
    if rest.len() >= needle.len() {
        assert(rest.subrange(0, needle.len() as int) =~= hay.subrange(i, i + needle.len()));
        assert(rest.subrange(needle.len() as int, rest.len() as int) =~= hay.subrange(
            i + needle.len(),
            hay.len() as int,
        ));
        assert(rest.drop_first() =~= hay.subrange(i + 1, hay.len() as int));
    }
}

/// `str::matches(needle).count()` for a non-empty `needle`.
pub fn count_occurrences(hay: &Vec<char>, needle: &Vec<char>) -> (c: usize)
    requires
        needle@.len() > 0,
    ensures
        c == count_matches(hay@, needle@),
{
    let n = hay.len();
    let m = needle.len();
    let mut i: usize = 0;
    let mut c: usize = 0;
    assert(hay@.subrange(0, n as int) =~= hay@);
    while i < n
        invariant
            n == hay@.len(),
            m == needle@.len(),
            m > 0,
            i <= n,
            c <= i,
            c + count_matches(hay@.subrange(i as int, n as int), needle@) == count_matches(
                hay@,
                needle@,
            ),
        decreases n - i,
    {
        proof {
            lemma_count_step(hay@, needle@, i as int);
        }
        if matches_at(hay, needle, i) {
            c = c + 1;
            i = i + m;
        } else {
            i = i + 1;
        }
    }
    proof {
        lemma_count_step(hay@, needle@, i as int);
    }
    c
}

// ---------------------------------------------------------------------
// Lines (`str::lines`)
// ---------------------------------------------------------------------
/// Index of the first `'\n'` at or after `from`, or `s.len()`.
pub open spec fn line_end(s: Seq<char>, from: int) -> int
    decreases s.len() - from,
{
    if from >= s.len() || s[from] == '\n' {
        if from >= s.len() { s.len() as int } else { from }
    } else {
        line_end(s, from + 1)
    }
}

/// A line that ended with `'\n'`, as `str::lines` yields it: one
/// trailing `'\r'` is dropped.
pub open spec fn strip_cr(l: Seq<char>) -> Seq<char> {
    if l.len() > 0 && l.last() == '\r' {
        l.drop_last()
    } else {
        l
    }
}

/// `str::lines` of the text starting at `from`: the pieces between
/// `'\n'`s (a `'\r'` before the `'\n'` dropped), with no empty piece
/// after a final `'\n'`.
pub open spec fn lines_from(s: Seq<char>, from: int) -> Seq<Seq<char>>
    decreases s.len() - from,
{
    if from < 0 || from >= s.len() {
        Seq::empty()
    } else {
        let e = line_end(s, from);
        proof {
            lemma_line_end_bounds(s, from);
        }
        if e >= s.len() {
            seq![s.subrange(from, e)]
        } else {
            seq![strip_cr(s.subrange(from, e))] + lines_from(s, e + 1)
        }
    }
}

/// `str::lines`.
pub open spec fn lines(s: Seq<char>) -> Seq<Seq<char>> {
    lines_from(s, 0)
}

pub proof fn lemma_line_end_bounds(s: Seq<char>, from: int)
    requires
        0 <= from <= s.len(),
    ensures
        from <= line_end(s, from) <= s.len(),
        line_end(s, from) < s.len() ==> s[line_end(s, from)] == '\n',
        forall|k: int| from <= k < line_end(s, from) ==> s[k] != '\n',
    decreases s.len() - from,
{
    if from < s.len() && s[from] != '\n' {
        lemma_line_end_bounds(s, from + 1);
    }
}

/// Dropping a trailing white-space character does not change what `trim`
/// gives.
proof fn lemma_trim_start_drop_ws_last(l: Seq<char>)
    requires
        l.len() > 0,
        is_white_space(l.last()),
    ensures
        trim_start(l).len() > 0 ==> trim_start(l.drop_last()) == trim_start(l).drop_last()
            && trim_start(l).last() == l.last(),
        trim_start(l).len() == 0 ==> trim_start(l.drop_last()).len() == 0,
    decreases l.len(),
{
    if is_white_space(l[0]) {
        if l.len() == 1 {
            assert(l.drop_first().len() == 0);
            assert(l.drop_last().len() == 0);
        } else {
            lemma_trim_start_drop_ws_last(l.drop_first());
            assert(l.drop_last().drop_first() =~= l.drop_first().drop_last());
            assert(l.drop_first().last() == l.last());
            assert(l.drop_last()[0] == l[0]);
            assert(trim_start(l) == trim_start(l.drop_first()));
            assert(trim_start(l.drop_last()) == trim_start(l.drop_last().drop_first()));
        }
    } else {
        assert(l.len() >= 2);
        assert(l.drop_last()[0] == l[0]);
        assert(trim_start(l) == l);
        assert(trim_start(l.drop_last()) == l.drop_last());
    }
}

/// A trailing `'\r'` does not change what `trim` gives.
pub proof fn lemma_trim_ignores_cr(l: Seq<char>)
    requires
        l.len() > 0,
        l.last() == '\r',
    ensures
        trim(strip_cr(l)) == trim(l),
{
    lemma_trim_start_drop_ws_last(l);
    let t = trim_start(l);
    if t.len() > 0 {
        assert(trim_end(t) == trim_end(t.drop_last()));
    }
}

/// Lines of `s` from `from` as they read when the text goes on after a
/// `'\n'` at its end: every piece, the last one too, loses a `'\r'` before
/// that `'\n'`, and the text after a final `'\n'` is an empty piece.
pub open spec fn closed_lines_from(s: Seq<char>, from: int) -> Seq<Seq<char>>
    decreases s.len() - from + 1,
{
    if from < 0 || from > s.len() {
        Seq::empty()
    } else {
        let e = line_end(s, from);
        proof {
            lemma_line_end_bounds(s, from);
        }
        if e >= s.len() {
            seq![strip_cr(s.subrange(from, e))]
        } else {
            seq![strip_cr(s.subrange(from, e))] + closed_lines_from(s, e + 1)
        }
    }
}

/// Before the joining `'\n'`, line ends in `a + "\n" + b` are those of `a`.
proof fn lemma_line_end_joined_head(a: Seq<char>, b: Seq<char>, from: int)
    requires
        0 <= from <= a.len(),
    ensures
        line_end(a + seq!['\n'] + b, from) == line_end(a, from),
    decreases a.len() - from,
{
    let s = a + seq!['\n'] + b;
    if from < a.len() {
        assert(s[from] == a[from]);
        if a[from] != '\n' {
            lemma_line_end_joined_head(a, b, from + 1);
        }
    } else {
        assert(s[from] == '\n');
    }
}

/// After the joining `'\n'`, line ends in `a + "\n" + b` are those of `b`,
/// shifted.
proof fn lemma_line_end_joined_tail(a: Seq<char>, b: Seq<char>, k: int)
    requires
        0 <= k <= b.len(),
    ensures
        line_end(a + seq!['\n'] + b, a.len() + 1 + k) == a.len() + 1 + line_end(b, k),
    decreases b.len() - k,
{
    let s = a + seq!['\n'] + b;
    let off = a.len() + 1;
    if k < b.len() {
        assert(s[off + k] == b[k]);
        if b[k] != '\n' {
            lemma_line_end_joined_tail(a, b, k + 1);
        }
    }
}

/// After the joining `'\n'`, the lines of `a + "\n" + b` are those of `b`.
proof fn lemma_lines_joined_tail(a: Seq<char>, b: Seq<char>, k: int)
    requires
        0 <= k,
    ensures
        lines_from(a + seq!['\n'] + b, a.len() + 1 + k) == lines_from(b, k),
    decreases b.len() - k,
{
    let s = a + seq!['\n'] + b;
    let off = a.len() + 1;
    if k < b.len() {
        lemma_line_end_joined_tail(a, b, k);
        lemma_line_end_bounds(b, k);
        let e = line_end(b, k);
        assert(s.subrange(off + k, off + e) =~= b.subrange(k, e));
        if e < b.len() {
            lemma_lines_joined_tail(a, b, e + 1);
        }
    }
}

/// The lines of `a + "\n" + b`: the closed lines of `a`, then the lines of
/// `b`.
pub proof fn lemma_lines_joined(a: Seq<char>, b: Seq<char>, from: int)
    requires
        0 <= from <= a.len(),
    ensures
        lines_from(a + seq!['\n'] + b, from) == closed_lines_from(a, from) + lines(b),
    decreases a.len() - from,
{
    let s = a + seq!['\n'] + b;
    lemma_line_end_joined_head(a, b, from);
    lemma_line_end_bounds(a, from);
    let e = line_end(a, from);
    assert(s.subrange(from, e) =~= a.subrange(from, e));
    if e < a.len() {
        lemma_lines_joined(a, b, e + 1);
        assert(seq![strip_cr(a.subrange(from, e))] + (closed_lines_from(a, e + 1) + lines(b))
            =~= seq![strip_cr(a.subrange(from, e))] + closed_lines_from(a, e + 1) + lines(b));
    } else {
        lemma_lines_joined_tail(a, b, 0);
        assert(a.len() + 1 + 0 == e + 1);
    }
}

/// Position of the next `'\n'` at or after `from`, or the length.
pub fn find_line_end(v: &Vec<char>, from: usize) -> (e: usize)
    requires
        from <= v@.len(),
    ensures
        e == line_end(v@, from as int),
        from <= e <= v@.len(),
{
    let n = v.len();
    let mut i = from;
    while i < n && v[i] != '\n'
        invariant
            n == v@.len(),
            from <= i <= n,
            line_end(v@, i as int) == line_end(v@, from as int),
        decreases n - i,
    {
        i = i + 1;
    }
    proof {
        lemma_line_end_bounds(v@, from as int);
    }
    i
}

/// The lines of `v`, as `str::lines` yields them.
pub fn split_lines(v: &Vec<char>) -> (r: Vec<Vec<char>>)
    ensures
        r@.len() == lines(v@).len(),
        forall|k: int| 0 <= k < r@.len() ==> #[trigger] r@[k]@ == lines(v@)[k],
{
    let n = v.len();
    let mut r: Vec<Vec<char>> = Vec::new();
    let mut from: usize = 0;
    while from < n
        invariant
            n == v@.len(),
            from <= n,
            lines(v@) == r@.map_values(|l: Vec<char>| l@) + lines_from(v@, from as int),
        decreases n - from,
    {
        let e = find_line_end(v, from);
        let mut piece = sub_chars(v, from, e);
        if e < n && piece.len() > 0 && piece[piece.len() - 1] == '\r' {
            piece.pop();
        }
        proof {
            if e < n {
                assert(piece@ == strip_cr(v@.subrange(from as int, e as int)));
            } else {
                assert(lines_from(v@, e + 1) =~= Seq::<Seq<char>>::empty());
                assert(seq![piece@] + lines_from(v@, e + 1) =~= seq![piece@]);
            }
        }
        let ghost before = r@.map_values(|l: Vec<char>| l@);
        r.push(piece);
        assert(r@.map_values(|l: Vec<char>| l@) =~= before.push(piece@));
        assert(lines_from(v@, from as int) == seq![piece@] + lines_from(v@, e + 1));
        assert(before + lines_from(v@, from as int) =~= before.push(piece@) + lines_from(
            v@,
            e + 1,
        ));
        if e < n {
            from = e + 1;
        } else {
            assert(lines_from(v@, e + 1) =~= lines_from(v@, n as int));
            from = n;
        }
    }
    assert(lines_from(v@, from as int) =~= Seq::<Seq<char>>::empty());
    assert(lines(v@) =~= r@.map_values(|l: Vec<char>| l@));
    r
}

// ---------------------------------------------------------------------
// Decimal and hexadecimal rendering
// ---------------------------------------------------------------------
/// The ASCII digit for `d < 10`.
pub open spec fn digit_char(d: nat) -> char {
    ((48 + d) as u32) as char
}

/// Decimal rendering of `n`, no sign, no leading zeros (`u64::to_string`).
pub open spec fn decimal(n: nat) -> Seq<char>
    decreases n,
{
    if n < 10 {
        seq![digit_char(n)]
    } else {
        decimal(n / 10).push(digit_char(n % 10))
    }
}

/// Decimal rendering of a signed number (`i64::to_string`).
pub open spec fn signed_decimal(n: int) -> Seq<char> {
    if n < 0 {
        seq!['-'] + decimal((-n) as nat)
    } else {
        decimal(n as nat)
    }
}

/// A decimal rendering is a non-empty run of ASCII digits.
pub proof fn lemma_decimal_digits(n: nat)
    ensures
        decimal(n).len() >= 1,
        forall|i: int| 0 <= i < decimal(n).len() ==> is_ascii_digit(#[trigger] decimal(n)[i]),
    decreases n,
{
    if n < 10 {
        assert(digit_char(n) as u32 == 48 + n);
    } else {
        lemma_decimal_digits(n / 10);
        assert(digit_char(n % 10) as u32 == 48 + n % 10);
    }
}

/// Different numbers have different decimal renderings.
pub proof fn lemma_decimal_injective(m: nat, n: nat)
    requires
        decimal(m) == decimal(n),
    ensures
        m == n,
    decreases m,
{
    lemma_decimal_digits(m);
    lemma_decimal_digits(n);
    if m < 10 && n < 10 {
        assert(decimal(m)[0] == digit_char(m));
        assert(digit_char(m) as u32 == 48 + m);
        assert(digit_char(n) as u32 == 48 + n);
    } else if m < 10 {
        lemma_decimal_digits(n / 10);
        assert(decimal(n).len() == decimal(n / 10).len() + 1);
    } else if n < 10 {
        lemma_decimal_digits(m / 10);
        assert(decimal(m).len() == decimal(m / 10).len() + 1);
    } else {
        let dm = decimal(m);
        assert(dm.last() == digit_char(m % 10));
        assert(decimal(n).last() == digit_char(n % 10));
        assert(digit_char(m % 10) as u32 == 48 + m % 10);
        assert(digit_char(n % 10) as u32 == 48 + n % 10);
        assert(decimal(m / 10) == dm.drop_last());
        assert(decimal(n / 10) == decimal(n).drop_last());
        lemma_decimal_injective(m / 10, n / 10);
        vstd::arithmetic::div_mod::lemma_fundamental_div_mod(m as int, 10);
        vstd::arithmetic::div_mod::lemma_fundamental_div_mod(n as int, 10);
    }
}

/// A signed rendering is a non-empty run of ASCII digits, possibly after
/// a `-`; different numbers have different renderings.
pub proof fn lemma_signed_decimal(m: int, n: int)
    ensures
        signed_decimal(m).len() >= 1,
        forall|i: int|
            0 <= i < signed_decimal(m).len() ==> is_ascii_digit(#[trigger] signed_decimal(m)[i])
                || signed_decimal(m)[i] == '-',
        signed_decimal(m) == signed_decimal(n) ==> m == n,
{
    if m < 0 {
        lemma_decimal_digits((-m) as nat);
        assert forall|i: int| 0 <= i < signed_decimal(m).len() implies is_ascii_digit(
            #[trigger] signed_decimal(m)[i],
        ) || signed_decimal(m)[i] == '-' by {
            if i > 0 {
                assert(signed_decimal(m)[i] == decimal((-m) as nat)[i - 1]);
            }
        }
    } else {
        lemma_decimal_digits(m as nat);
    }
    if signed_decimal(m) == signed_decimal(n) {
        lemma_decimal_digits((if m < 0 { -m } else { m }) as nat);
        lemma_decimal_digits((if n < 0 { -n } else { n }) as nat);
        if m < 0 && n < 0 {
            assert(decimal((-m) as nat) =~= signed_decimal(m).drop_first());
            assert(decimal((-n) as nat) =~= signed_decimal(n).drop_first());
            lemma_decimal_injective((-m) as nat, (-n) as nat);
        } else if m < 0 {
            assert(signed_decimal(m)[0] == '-');
            assert(is_ascii_digit(decimal(n as nat)[0]));
        } else if n < 0 {
            assert(signed_decimal(n)[0] == '-');
            assert(is_ascii_digit(decimal(m as nat)[0]));
        } else {
            lemma_decimal_injective(m as nat, n as nat);
        }
    }
}

fn digit(d: u64) -> (c: char)
    requires
        d < 10,
    ensures
        c == digit_char(d as nat),
{
    let b: u8 = (d as u8) + 48;
    b as char
}

fn decimal_chars(n: u64) -> (v: Vec<char>)
    ensures
        v@ == decimal(n as nat),
    decreases n,
{
    if n < 10 {
        let mut v = Vec::new();
        v.push(digit(n));
        assert(v@ =~= seq![digit_char(n as nat)]);
        v
    } else {
        let mut v = decimal_chars(n / 10);
        v.push(digit(n % 10));
        v
    }
}

/// `u64::to_string`.
pub fn u64_to_string(n: u64) -> (s: String)
    ensures
        s@ == decimal(n as nat),
{
    let v = decimal_chars(n);
    string_from_chars(&v)
}

/// `i64::to_string`.
pub fn i64_to_string(n: i64) -> (s: String)
    ensures
        s@ == signed_decimal(n as int),
{
    if n < 0 {
        let m: u64 = if n == i64::MIN {
            9223372036854775808u64
        } else {
            (-n) as u64
        };
        let mut v: Vec<char> = Vec::new();
        v.push('-');
        let mut d = decimal_chars(m);
        v.append(&mut d);
        assert(v@ =~= seq!['-'] + decimal((-(n as int)) as nat));
        string_from_chars(&v)
    } else {
        u64_to_string(n as u64)
    }
}

/// Lower-case hex digit for `d < 16`.
pub open spec fn hex_digit(d: nat) -> char {
    if d < 10 {
        digit_char(d)
    } else {
        ((87 + d) as u32) as char
    }
}

/// Two lower-case hex digits per byte, most significant first (the
/// `{:x}` rendering of a digest).
pub open spec fn hex_lower(bytes: Seq<u8>) -> Seq<char>
    decreases bytes.len(),
{
    if bytes.len() == 0 {
        Seq::empty()
    } else {
        hex_lower(bytes.drop_last()) + seq![
            hex_digit((bytes.last() / 16) as nat),
            hex_digit((bytes.last() % 16) as nat),
        ]
    }
}

proof fn lemma_hex_len(bytes: Seq<u8>)
    ensures
        hex_lower(bytes).len() == 2 * bytes.len(),
    decreases bytes.len(),
{
    if bytes.len() > 0 {
        lemma_hex_len(bytes.drop_last());
    }
}

fn hex_char(d: u8) -> (c: char)
    requires
        d < 16,
    ensures
        c == hex_digit(d as nat),
{
    if d < 10 {
        (d + 48) as char
    } else {
        (d + 87) as char
    }
}

/// Lower-case hexadecimal rendering of `bytes`.
pub fn to_hex_lower(bytes: &[u8]) -> (s: String)
    ensures
        s@ == hex_lower(bytes@),
        s@.len() == 2 * bytes@.len(),
{
    let n = bytes.len();
    let mut v: Vec<char> = Vec::new();
    for i in 0..n
        invariant
            n == bytes@.len(),
            v@ == hex_lower(bytes@.take(i as int)),
    {
        let b = bytes[i];
        v.push(hex_char(b / 16));
        v.push(hex_char(b % 16));
        assert(bytes@.take(i + 1).drop_last() =~= bytes@.take(i as int));
        assert(v@ =~= hex_lower(bytes@.take(i + 1)));
    }
    assert(bytes@.take(n as int) =~= bytes@);
    proof {
        lemma_hex_len(bytes@);
    }
    string_from_chars(&v)
}

// ---------------------------------------------------------------------
// Unicode case mapping (std)
// ---------------------------------------------------------------------
/// What `str::to_lowercase` returns for `s` (full Unicode lower-case
/// mapping).
pub uninterp spec fn unicode_lowercase(s: Seq<char>) -> Seq<char>;

/// The text is ASCII.
pub open spec fn is_ascii_text(s: Seq<char>) -> bool {
    forall|i: int| 0 <= i < s.len() ==> (#[trigger] s[i] as u32) < 128
}

/// Calls `str::to_lowercase`. The contract names its result and states
/// what the documentation fixes for ASCII text: each character maps to
/// its ASCII lower case (`A`-`Z` to `a`-`z`, all else unchanged). The
/// Unicode case tables are not restated.
#[verifier::external_body]
pub(crate) fn to_lowercase(s: &str) -> (r: String)
    ensures
        r@ == unicode_lowercase(s@),
        is_ascii_text(s@) ==> r@ == s@.map_values(|c: char| ascii_lower(c)),
{
    s.to_lowercase()
}

/// What `char::is_alphanumeric` returns for `c` (Unicode `Alphabetic` or
/// `Numeric`).
pub uninterp spec fn unicode_alphanumeric(c: char) -> bool;

/// Calls `char::is_alphanumeric`. The contract names its result and
/// states what the documentation fixes for ASCII: exactly the letters and
/// digits are alphanumeric. The Unicode tables are not restated.
#[verifier::external_body]
pub(crate) fn is_alphanumeric(c: char) -> (b: bool)
    ensures
        b == unicode_alphanumeric(c),
        (c as u32) < 128 ==> b == is_ascii_alnum(c),
{
    c.is_alphanumeric()
}

} // verus!
