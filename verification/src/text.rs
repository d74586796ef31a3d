//! Character-level text helpers with their mathematical models.
//!
//! Every executable helper states its result over `Seq<char>`, so callers can
//! reason about text processing without looking at the loops that do it.
use vstd::prelude::*;
use vstd::std_specs::iter::IteratorSpec;

verus! {

// ---------------------------------------------------------------- characters

/// Whether `c` is an ASCII letter or digit.
pub open spec fn is_ascii_alnum(c: char) -> bool {
    ('a' <= c && c <= 'z') || ('A' <= c && c <= 'Z') || ('0' <= c && c <= '9')
}

/// Whether `c` is an ASCII decimal digit.
pub open spec fn is_digit(c: char) -> bool {
    '0' <= c && c <= '9'
}

/// Whether `c` is a lowercase ASCII letter.
pub open spec fn is_ascii_lower(c: char) -> bool {
    'a' <= c && c <= 'z'
}

/// Whether `c` may stand in a single safe path component.
pub open spec fn is_component_char(c: char) -> bool {
    is_ascii_alnum(c) || c == '-' || c == '_'
}

/// The Unicode `White_Space` characters, as `char::is_whitespace` documents them.
pub open spec fn is_ws(c: char) -> bool {
    c == ' ' || c == '\t' || c == '\n' || c == '\r' || c == '\x0b' || c == '\x0c'
        || c == '\u{85}' || c == '\u{a0}' || c == '\u{1680}'
        || ('\u{2000}' <= c && c <= '\u{200a}')
        || c == '\u{2028}' || c == '\u{2029}' || c == '\u{202f}' || c == '\u{205f}'
        || c == '\u{3000}'
}

/// ASCII lowercase of one character; other characters are unchanged.
pub open spec fn lower_char(c: char) -> char {
    if 'A' <= c && c <= 'Z' { ((c as u32) + 32) as char } else { c }
}

/// ASCII lowercase of a text.
pub open spec fn lower(s: Seq<char>) -> Seq<char> {
    s.map_values(|c: char| lower_char(c))
}

pub fn char_is_ascii_alnum(c: char) -> (r: bool)
    ensures r == is_ascii_alnum(c),
{
    ('a' <= c && c <= 'z') || ('A' <= c && c <= 'Z') || ('0' <= c && c <= '9')
}

pub fn char_is_ws(c: char) -> (r: bool)
    ensures r == is_ws(c),
{
    c == ' ' || c == '\t' || c == '\n' || c == '\r' || c == '\x0b' || c == '\x0c'
        || c == '\u{85}' || c == '\u{a0}' || c == '\u{1680}'
        || ('\u{2000}' <= c && c <= '\u{200a}')
        || c == '\u{2028}' || c == '\u{2029}' || c == '\u{202f}' || c == '\u{205f}'
        || c == '\u{3000}'
}

/// ASCII lowercase of one character: `A`..=`Z` become `a`..=`z`, every other
/// character is kept.
pub fn char_lower(c: char) -> (r: char)
    ensures r == lower_char(c),
{
    if 'A' <= c && c <= 'Z' {
        let b: u8 = c as u8;
        (b + 32) as char
    } else {
        c
    }
}

/// `String::push`: appends one character.
#[verifier::external_body]
pub fn push_char(s: &mut String, c: char)
    ensures final(s)@ == old(s)@.push(c),
{
    s.push(c)
}

// ---------------------------------------------------------------- conversions

/// The characters of `s`, in order.
pub fn chars_of(s: &str) -> (r: Vec<char>)
    ensures r@ == s@,
{
    broadcast use vstd::string::group_string_axioms;
    let mut out: Vec<char> = Vec::new();
    for c in iter: s.chars()
        invariant
            out@ == iter.seq().take(iter.index() as int),
            iter.seq() == s@,
    {
        out.push(c);
    }
    out
}

/// The text made of `v[lo..hi]`.
pub fn string_of(v: &Vec<char>, lo: usize, hi: usize) -> (r: String)
    requires lo <= hi <= v.len(),
    ensures r@ == v@.subrange(lo as int, hi as int),
{
    let mut out = String::new();
    let mut i = lo;
    while i < hi
        invariant
            lo <= i <= hi <= v.len(),
            out@ == v@.subrange(lo as int, i as int),
        decreases hi - i,
    {
        push_char(&mut out, v[i]);
        i = i + 1;
        assert(out@ =~= v@.subrange(lo as int, i as int));
    }
    out
}

/// An owned copy of `s`.
pub fn owned(s: &str) -> (r: String)
    ensures r@ == s@,
{
    s.to_owned()
}

/// Whether `a` and `b` hold the same characters.
pub fn same_text(a: &str, b: &str) -> (r: bool)
    ensures r == (a@ == b@),
{
    a.to_owned() == b.to_owned()
}

/// `a` followed by `b`.
pub fn concat(a: &str, b: &str) -> (r: String)
    ensures r@ == a@ + b@,
{
    let mut out = a.to_owned();
    out.append(b);
    out
}

/// `a`, `b` and `c` in a row.
pub fn concat3(a: &str, b: &str, c: &str) -> (r: String)
    ensures r@ == a@ + b@ + c@,
{
    let mut out = a.to_owned();
    out.append(b);
    out.append(c);
    out
}

// ---------------------------------------------------------------- components

/// Replaces every character outside `[A-Za-z0-9_-]` with `-`.
pub open spec fn sanitize_component(s: Seq<char>) -> Seq<char> {
    Seq::new(s.len(), |i: int| if is_component_char(s[i]) { s[i] } else { '-' })
}

/// The safe component for `s`: the sanitized text, or `game` when it is empty.
pub open spec fn safe_component_spec(s: Seq<char>) -> Seq<char> {
    if s.len() == 0 { seq!['g', 'a', 'm', 'e'] } else { sanitize_component(s) }
}

/// Whether every character of `s` may stand in a safe path component.
pub open spec fn all_component_chars(s: Seq<char>) -> bool {
    forall|i: int| 0 <= i < s.len() ==> is_component_char(#[trigger] s[i])
}

/// Whether every character of `s` is an ASCII digit.
pub open spec fn all_digits(s: Seq<char>) -> bool {
    forall|i: int| 0 <= i < s.len() ==> is_digit(#[trigger] s[i])
}

/// Maps `value` onto a single path component: characters outside `[A-Za-z0-9_-]`
/// become `-`, and an empty value becomes `game`.
pub fn safe_component(value: &str) -> (r: String)
    ensures r@ == safe_component_spec(value@),
{
    let v = chars_of(value);
    let n = v.len();
    if n == 0 {
        proof { reveal_strlit("game"); }
        return "game".to_owned();
    }
    let mut out = String::new();
    let mut i: usize = 0;
    while i < n
        invariant
            n == v@.len(),
            v@ == value@,
            i <= n,
            out@ =~= sanitize_component(value@).take(i as int),
        decreases n - i,
    {
        let c = v[i];
        if char_is_ascii_alnum(c) || c == '-' || c == '_' {
            push_char(&mut out, c);
        } else {
            push_char(&mut out, '-');
        }
        i = i + 1;
    }
    proof { assert(sanitize_component(value@).take(n as int) =~= sanitize_component(value@)); }
    out
}

/// Whether every character of `value` is in `[A-Za-z0-9_-]`.
pub fn is_component_text(value: &str) -> (r: bool)
    ensures r == all_component_chars(value@),
{
    let v = chars_of(value);
    let mut i: usize = 0;
    while i < v.len()
        invariant
            v@ == value@,
            i <= v.len(),
            forall|j: int| 0 <= j < i ==> is_component_char(#[trigger] v@[j]),
        decreases v.len() - i,
    {
        let c = v[i];
        if !(char_is_ascii_alnum(c) || c == '-' || c == '_') {
            return false;
        }
        i = i + 1;
    }
    true
}

/// Whether every character of `value` is an ASCII digit.
pub fn is_digit_text(value: &str) -> (r: bool)
    ensures r == all_digits(value@),
{
    let v = chars_of(value);
    let mut i: usize = 0;
    while i < v.len()
        invariant
            v@ == value@,
            i <= v.len(),
            forall|j: int| 0 <= j < i ==> is_digit(#[trigger] v@[j]),
        decreases v.len() - i,
    {
        let c = v[i];
        if !('0' <= c && c <= '9') {
            return false;
        }
        i = i + 1;
    }
    true
}

// ---------------------------------------------------------------- case

/// The ASCII lowercase of `value`.
pub fn lowercase(value: &str) -> (r: String)
    ensures r@ == lower(value@),
{
    let v = chars_of(value);
    let mut out = String::new();
    let mut i: usize = 0;
    while i < v.len()
        invariant
            v@ == value@,
            i <= v.len(),
            out@ =~= lower(value@).take(i as int),
        decreases v.len() - i,
    {
        let c = char_lower(v[i]);
        push_char(&mut out, c);
        i = i + 1;
    }
    proof { assert(lower(value@).take(v.len() as int) =~= lower(value@)); }
    out
}

/// Whether `a` and `b` are equal up to ASCII case.
pub fn eq_ignore_ascii_case(a: &str, b: &str) -> (r: bool)
    ensures r == (lower(a@) == lower(b@)),
{
    let x = lowercase(a);
    let y = lowercase(b);
    x == y
}

// ---------------------------------------------------------------- search

/// Whether `s` begins with `p`.
pub open spec fn starts_with(s: Seq<char>, p: Seq<char>) -> bool {
    p.len() <= s.len() && s.take(p.len() as int) == p
}

/// Whether `s` ends with `p`.
pub open spec fn ends_with(s: Seq<char>, p: Seq<char>) -> bool {
    p.len() <= s.len() && s.skip(s.len() - p.len()) == p
}

/// Whether `n` occurs in `h` at position `i`.
pub open spec fn occurs_at(h: Seq<char>, n: Seq<char>, i: int) -> bool {
    0 <= i && i + n.len() <= h.len() && h.subrange(i, i + n.len()) == n
}

/// Whether `n` occurs somewhere in `h`.
pub open spec fn contains(h: Seq<char>, n: Seq<char>) -> bool {
    exists|i: int| occurs_at(h, n, i)
}

/// Whether the character `c` occurs in `s`.
pub open spec fn has_char(s: Seq<char>, c: char) -> bool {
    exists|i: int| 0 <= i < s.len() && s[i] == c
}

fn matches_at(h: &Vec<char>, n: &Vec<char>, i: usize) -> (r: bool)
    requires i + n.len() <= h.len(),
    ensures r == (h@.subrange(i as int, i + n.len()) == n@),
{
    let mut j: usize = 0;
    while j < n.len()
        invariant
            i + n.len() <= h.len(),
            j <= n.len(),
            forall|k: int| 0 <= k < j ==> h@[i + k] == n@[k],
        decreases n.len() - j,
    {
        if h[i + j] != n[j] {
            assert(h@.subrange(i as int, i + n.len())[j as int] != n@[j as int]);
            return false;
        }
        j = j + 1;
    }
    assert(h@.subrange(i as int, i + n.len()) =~= n@);
    true
}

/// Whether `needle` occurs in `hay`.
pub fn contains_text(hay: &str, needle: &str) -> (r: bool)
    ensures r == contains(hay@, needle@),
{
    let h = chars_of(hay);
    let n = chars_of(needle);
    if n.len() == 0 {
        assert(hay@.subrange(0, 0) =~= needle@);
        assert(occurs_at(hay@, needle@, 0));
        return true;
    }
    if n.len() > h.len() {
        proof {
            assert forall|i: int| !occurs_at(hay@, needle@, i) by {}
        }
        return false;
    }
    let last = h.len() - n.len();
    let mut i: usize = 0;
    while i <= last
        invariant
            h@ == hay@,
            n@ == needle@,
            last == h.len() - n.len(),
            1 <= n.len() <= h.len(),
            i <= last + 1,
            forall|k: int| 0 <= k < i ==> !occurs_at(hay@, needle@, k),
        decreases last + 1 - i,
    {
        if matches_at(&h, &n, i) {
            assert(occurs_at(hay@, needle@, i as int));
            return true;
        }
        i = i + 1;
    }
    proof {
        assert forall|k: int| !occurs_at(hay@, needle@, k) by {
            if 0 <= k && k + needle@.len() <= hay@.len() {
                assert(k <= last);
            }
        }
    }
    false
}

/// The number of non-overlapping occurrences of `n` in `h` from position `i` on,
/// found left to right as `str::matches` finds them.
pub open spec fn match_count_from(h: Seq<char>, n: Seq<char>, i: int) -> nat
    decreases h.len() - i,
{
    if n.len() == 0 || i < 0 || i + n.len() > h.len() {
        0
    } else if occurs_at(h, n, i) {
        1 + match_count_from(h, n, i + n.len())
    } else {
        match_count_from(h, n, i + 1)
    }
}

/// The number of non-overlapping occurrences of `n` in `h`.
pub open spec fn match_count(h: Seq<char>, n: Seq<char>) -> nat {
    match_count_from(h, n, 0)
}

/// `hay.matches(needle).count()` for a non-empty needle.
pub fn count_matches(hay: &str, needle: &str) -> (r: usize)
    requires needle@.len() > 0,
    ensures r == match_count(hay@, needle@),
{
    let h = chars_of(hay);
    let n = chars_of(needle);
    let mut count: usize = 0;
    let mut i: usize = 0;
    while n.len() <= h.len() - i
        invariant
            h@ == hay@,
            n@ == needle@,
            n.len() > 0,
            i <= h.len(),
            count <= i,
            count + match_count_from(hay@, needle@, i as int) == match_count(hay@, needle@),
        decreases h.len() - i,
    {
        if matches_at(&h, &n, i) {
            assert(occurs_at(hay@, needle@, i as int));
            count = count + 1;
            i = i + n.len();
        } else {
            assert(!occurs_at(hay@, needle@, i as int));
            i = i + 1;
        }
    }
    count
}

/// Whether `value` begins with `prefix`.
pub fn starts_with_text(value: &str, prefix: &str) -> (r: bool)
    ensures r == starts_with(value@, prefix@),
{
    let h = chars_of(value);
    let n = chars_of(prefix);
    if n.len() > h.len() {
        return false;
    }
    let r = matches_at(&h, &n, 0);
    proof { assert(value@.subrange(0, prefix@.len() as int) =~= value@.take(prefix@.len() as int)); }
    r
}

/// Whether `value` ends with `suffix`.
pub fn ends_with_text(value: &str, suffix: &str) -> (r: bool)
    ensures r == ends_with(value@, suffix@),
{
    let h = chars_of(value);
    let n = chars_of(suffix);
    if n.len() > h.len() {
        return false;
    }
    let r = matches_at(&h, &n, h.len() - n.len());
    proof {
        assert(value@.subrange(value@.len() - suffix@.len(), value@.len() as int)
            =~= value@.skip(value@.len() - suffix@.len()));
    }
    r
}

/// Whether the character `c` occurs in `value`.
pub fn has_char_text(value: &str, c: char) -> (r: bool)
    ensures r == has_char(value@, c),
{
    let v = chars_of(value);
    let mut i: usize = 0;
    while i < v.len()
        invariant
            v@ == value@,
            i <= v.len(),
            forall|k: int| 0 <= k < i ==> v@[k] != c,
        decreases v.len() - i,
    {
        if v[i] == c {
            return true;
        }
        i = i + 1;
    }
    false
}

// ---------------------------------------------------------------- trimming

/// `s` without its leading whitespace.
pub open spec fn trim_start(s: Seq<char>) -> Seq<char>
    decreases s.len(),
{
    if s.len() > 0 && is_ws(s[0]) { trim_start(s.drop_first()) } else { s }
}

/// `s` without its trailing whitespace.
pub open spec fn trim_end(s: Seq<char>) -> Seq<char>
    decreases s.len(),
{
    if s.len() > 0 && is_ws(s.last()) { trim_end(s.drop_last()) } else { s }
}

/// `s` without leading and trailing whitespace (`str::trim`).
pub open spec fn trim(s: Seq<char>) -> Seq<char> {
    trim_end(trim_start(s))
}

proof fn lemma_trim_start_skip(s: Seq<char>, i: int)
    requires
        0 <= i <= s.len(),
        forall|k: int| 0 <= k < i ==> is_ws(#[trigger] s[k]),
    ensures trim_start(s) == trim_start(s.skip(i)),
    decreases i,
{
    if i > 0 {
        assert(s.skip(1) =~= s.drop_first());
        lemma_trim_start_skip(s.drop_first(), i - 1);
        assert(s.drop_first().skip(i - 1) =~= s.skip(i));
    } else {
        assert(s.skip(0) =~= s);
    }
}

proof fn lemma_trim_end_take(s: Seq<char>, j: int)
    requires
        0 <= j <= s.len(),
        forall|k: int| j <= k < s.len() ==> is_ws(#[trigger] s[k]),
    ensures trim_end(s) == trim_end(s.take(j)),
    decreases s.len() - j,
{
    if j < s.len() {
        lemma_trim_end_take(s.drop_last(), j);
        assert(s.drop_last().take(j) =~= s.take(j));
    } else {
        assert(s.take(j) =~= s);
    }
}

/// The position of the first non-whitespace character in `v[lo..hi]`, or `hi`.
fn skip_ws_forward(v: &Vec<char>, lo: usize, hi: usize) -> (r: usize)
    requires lo <= hi <= v.len(),
    ensures
        lo <= r <= hi,
        forall|k: int| lo <= k < r ==> is_ws(#[trigger] v@[k]),
        r < hi ==> !is_ws(v@[r as int]),
{
    let mut i = lo;
    while i < hi && char_is_ws(v[i])
        invariant
            lo <= i <= hi <= v.len(),
            forall|k: int| lo <= k < i ==> is_ws(#[trigger] v@[k]),
        decreases hi - i,
    {
        i = i + 1;
    }
    i
}

/// The end of `v[lo..hi]` once trailing whitespace is removed.
fn skip_ws_backward(v: &Vec<char>, lo: usize, hi: usize) -> (r: usize)
    requires lo <= hi <= v.len(),
    ensures
        lo <= r <= hi,
        forall|k: int| r <= k < hi ==> is_ws(#[trigger] v@[k]),
        r > lo ==> !is_ws(v@[r - 1]),
{
    let mut j = hi;
    while j > lo && char_is_ws(v[j - 1])
        invariant
            lo <= j <= hi <= v.len(),
            forall|k: int| j <= k < hi ==> is_ws(#[trigger] v@[k]),
        decreases j - lo,
    {
        j = j - 1;
    }
    j
}

/// The bounds of `trim(v[lo..hi])` inside `v`.
pub fn trim_bounds(v: &Vec<char>, lo: usize, hi: usize) -> (r: (usize, usize))
    requires lo <= hi <= v.len(),
    ensures
        lo <= r.0 <= r.1 <= hi,
        v@.subrange(r.0 as int, r.1 as int) == trim(v@.subrange(lo as int, hi as int)),
{
    let i = skip_ws_forward(v, lo, hi);
    let j = skip_ws_backward(v, i, hi);
    proof {
        let s = v@.subrange(lo as int, hi as int);
        lemma_trim_start_skip(s, i - lo);
        assert(s.skip(i - lo) =~= v@.subrange(i as int, hi as int));
        let t = v@.subrange(i as int, hi as int);
        assert(t.len() == 0 || !is_ws(t[0]));
        assert(trim_start(t) == t);
        lemma_trim_end_take(t, j - i);
        assert(t.take(j - i) =~= v@.subrange(i as int, j as int));
        let u = v@.subrange(i as int, j as int);
        assert(u.len() == 0 || !is_ws(u.last()));
        assert(trim_end(u) == u);
    }
    (i, j)
}

/// `str::trim`: `value` without leading and trailing whitespace.
pub fn trimmed(value: &str) -> (r: String)
    ensures r@ == trim(value@),
{
    let v = chars_of(value);
    let (i, j) = trim_bounds(&v, 0, v.len());
    proof { assert(v@.subrange(0, v@.len() as int) =~= v@); }
    string_of(&v, i, j)
}

/// `s` with every leading and trailing `c` removed (`str::trim_matches` with one character).
pub open spec fn trim_char(s: Seq<char>, c: char) -> Seq<char>
    decreases s.len(),
{
    if s.len() > 0 && s[0] == c {
        trim_char(s.drop_first(), c)
    } else if s.len() > 0 && s.last() == c {
        trim_char(s.drop_last(), c)
    } else {
        s
    }
}

/// `str::trim_matches(c)`.
pub fn trim_char_text(value: &str, c: char) -> (r: String)
    ensures r@ == trim_char(value@, c),
{
    let v = chars_of(value);
    let mut i: usize = 0;
    let mut j: usize = v.len();
    assert(v@.subrange(0, v@.len() as int) =~= value@);
    while i < j && (v[i] == c || v[j - 1] == c)
        invariant
            v@ == value@,
            i <= j <= v.len(),
            trim_char(v@.subrange(i as int, j as int), c) == trim_char(value@, c),
        decreases j - i,
    {
        proof {
            let s = v@.subrange(i as int, j as int);
            assert(s.drop_first() =~= v@.subrange(i + 1, j as int));
            assert(s.drop_last() =~= v@.subrange(i as int, j - 1));
        }
        if v[i] == c {
            i = i + 1;
        } else {
            j = j - 1;
        }
    }
    proof { assert(v@.subrange(0, v@.len() as int) =~= value@); }
    string_of(&v, i, j)
}

/// `s` with every repeated leading occurrence of `p` removed (`str::trim_start_matches`).
pub open spec fn strip_all_prefix(s: Seq<char>, p: Seq<char>) -> Seq<char>
    decreases s.len(),
{
    if p.len() > 0 && starts_with(s, p) { strip_all_prefix(s.skip(p.len() as int), p) } else { s }
}

/// `str::trim_start_matches` with a text pattern.
pub fn strip_all_prefix_text(value: &str, prefix: &str) -> (r: String)
    ensures r@ == strip_all_prefix(value@, prefix@),
{
    let v = chars_of(value);
    let p = chars_of(prefix);
    let mut i: usize = 0;
    assert(v@.skip(0) =~= v@);
    while p.len() > 0 && p.len() <= v.len() - i && matches_at(&v, &p, i)
        invariant
            v@ == value@,
            p@ == prefix@,
            i <= v.len(),
            strip_all_prefix(v@.skip(i as int), p@) == strip_all_prefix(value@, prefix@),
        decreases v.len() - i,
    {
        proof {
            let s = v@.skip(i as int);
            assert(s.take(p@.len() as int) =~= v@.subrange(i as int, i + p@.len()));
            assert(s.skip(p@.len() as int) =~= v@.skip(i + p@.len()));
        }
        i = i + p.len();
    }
    proof {
        let s = v@.skip(i as int);
        if p@.len() > 0 && i + p@.len() <= v@.len() {
            assert(s.take(p@.len() as int) =~= v@.subrange(i as int, i + p@.len()));
        }
        assert(v@.skip(0) =~= v@);
        assert(v@.subrange(i as int, v@.len() as int) =~= s);
    }
    string_of(&v, i, v.len())
}

// ---------------------------------------------------------------- splitting

/// The pieces of `s` between occurrences of `sep` (`str::split` with one character).
pub open spec fn split_char(s: Seq<char>, sep: char) -> Seq<Seq<char>>
    decreases s.len(),
{
    if s.len() == 0 {
        seq![Seq::<char>::empty()]
    } else {
        let p = split_char(s.drop_last(), sep);
        if s.last() == sep {
            p.push(Seq::<char>::empty())
        } else {
            p.update(p.len() - 1, p.last().push(s.last()))
        }
    }
}

proof fn lemma_split_char_nonempty(s: Seq<char>, sep: char)
    ensures split_char(s, sep).len() >= 1,
    decreases s.len(),
{
    if s.len() > 0 {
        lemma_split_char_nonempty(s.drop_last(), sep);
    }
}

/// `str::split(sep)` for a single character, collected.
pub fn split_char_text(value: &str, sep: char) -> (r: Vec<String>)
    ensures r.deep_view() == split_char(value@, sep),
{
    let v = chars_of(value);
    let mut done: Vec<String> = Vec::new();
    let mut cur = String::new();
    let mut i: usize = 0;
    while i < v.len()
        invariant
            v@ == value@,
            i <= v.len(),
            done.deep_view().push(cur@) == split_char(value@.take(i as int), sep),
        decreases v.len() - i,
    {
        let c = v[i];
        proof {
            lemma_split_char_nonempty(value@.take(i as int), sep);
            assert(value@.take(i + 1).drop_last() =~= value@.take(i as int));
        }
        if c == sep {
            let finished = cur;
            done.push(finished);
            cur = String::new();
            assert(done.deep_view().push(cur@) =~= split_char(value@.take(i + 1), sep));
        } else {
            push_char(&mut cur, c);
            assert(done.deep_view().push(cur@) =~= split_char(value@.take(i + 1), sep));
        }
        i = i + 1;
    }
    assert(value@.take(v.len() as int) =~= value@);
    done.push(cur);
    done
}

/// The lines of `s` as `str::lines` yields them: pieces between `\n`, each without a
/// trailing `\r`, with no final empty piece after a closing `\n`.
pub open spec fn lines(s: Seq<char>) -> Seq<Seq<char>> {
    let pieces = split_char(s, '\n');
    let kept = if s.len() > 0 && s.last() == '\n' { pieces.drop_last() } else if s.len() == 0 {
        Seq::<Seq<char>>::empty()
    } else {
        pieces
    };
    kept.map_values(|l: Seq<char>| strip_cr(l))
}

/// `l` without one trailing `\r`.
pub open spec fn strip_cr(l: Seq<char>) -> Seq<char> {
    if l.len() > 0 && l.last() == '\r' { l.drop_last() } else { l }
}

fn strip_cr_text(l: String) -> (r: String)
    ensures r@ == strip_cr(l@),
{
    let v = chars_of(l.as_str());
    if v.len() > 0 && v[v.len() - 1] == '\r' {
        string_of(&v, 0, v.len() - 1)
    } else {
        l
    }
}

/// `str::lines`, collected.
pub fn lines_text(value: &str) -> (r: Vec<String>)
    ensures r.deep_view() == lines(value@),
{
    let pieces = split_char_text(value, '\n');
    let v = chars_of(value);
    let keep = if v.len() == 0 {
        0
    } else if v[v.len() - 1] == '\n' {
        proof { lemma_split_char_nonempty(value@, '\n'); }
        pieces.len() - 1
    } else {
        pieces.len()
    };
    let mut out: Vec<String> = Vec::new();
    let mut i: usize = 0;
    let ghost kept = if value@.len() > 0 && value@.last() == '\n' { split_char(value@, '\n').drop_last() }
        else if value@.len() == 0 { Seq::<Seq<char>>::empty() } else { split_char(value@, '\n') };
    assert(kept.len() == keep);
    while i < keep
        invariant
            keep <= pieces.len(),
            pieces.deep_view() == split_char(value@, '\n'),
            kept.len() == keep,
            forall|k: int| 0 <= k < keep ==> kept[k] == pieces.deep_view()[k],
            i <= keep,
            out.deep_view() =~= kept.map_values(|l: Seq<char>| strip_cr(l)).take(i as int),
        decreases keep - i,
    {
        let piece = pieces[i].clone();
        let line = strip_cr_text(piece);
        let ghost before = out.deep_view();
        out.push(line);
        proof {
            let m = kept.map_values(|l: Seq<char>| strip_cr(l));
            assert(out.deep_view() =~= before.push(line@));
            assert(m.take(i + 1) =~= m.take(i as int).push(m[i as int]));
        }
        i = i + 1;
    }
    assert(kept.map_values(|l: Seq<char>| strip_cr(l)).take(keep as int)
        =~= kept.map_values(|l: Seq<char>| strip_cr(l)));
    out
}

/// The whitespace-separated words of `s` (`str::split_whitespace`).
pub open spec fn words(s: Seq<char>) -> Seq<Seq<char>>
    decreases s.len(),
{
    if s.len() == 0 {
        Seq::<Seq<char>>::empty()
    } else {
        let w = words(s.drop_last());
        let c = s.last();
        if is_ws(c) {
            w
        } else if s.len() >= 2 && !is_ws(s[s.len() - 2]) {
            w.update(w.len() - 1, w.last().push(c))
        } else {
            w.push(seq![c])
        }
    }
}

proof fn lemma_words_nonempty(s: Seq<char>)
    requires s.len() > 0, !is_ws(s.last()),
    ensures words(s).len() >= 1,
    decreases s.len(),
{
    if s.len() >= 2 && !is_ws(s[s.len() - 2]) {
        lemma_words_nonempty(s.drop_last());
    }
}

/// `str::split_whitespace`, collected.
pub fn words_text(value: &str) -> (r: Vec<String>)
    ensures r.deep_view() == words(value@),
{
    let v = chars_of(value);
    let mut done: Vec<String> = Vec::new();
    let mut cur = String::new();
    let mut in_word = false;
    let mut i: usize = 0;
    while i < v.len()
        invariant
            v@ == value@,
            i <= v.len(),
            in_word == (i > 0 && !is_ws(v@[i - 1])),
            !in_word ==> cur@.len() == 0 && done.deep_view() == words(value@.take(i as int)),
            in_word ==> done.deep_view().push(cur@) == words(value@.take(i as int)),
        decreases v.len() - i,
    {
        let c = v[i];
        proof {
            assert(value@.take(i + 1).drop_last() =~= value@.take(i as int));
        }
        if char_is_ws(c) {
            if in_word {
                let finished = cur;
                done.push(finished);
                cur = String::new();
            }
            in_word = false;
            assert(done.deep_view() =~= words(value@.take(i + 1)));
        } else {
            push_char(&mut cur, c);
            if in_word {
                assert(done.deep_view().push(cur@) =~= words(value@.take(i + 1)));
            } else {
                assert(cur@ =~= seq![c]);
                assert(done.deep_view().push(cur@) =~= words(value@.take(i + 1)));
            }
            in_word = true;
        }
        i = i + 1;
    }
    assert(value@.take(v.len() as int) =~= value@);
    if in_word {
        done.push(cur);
    }
    done
}

/// `parts` with `sep` between neighbours (`[&str]::join`).
pub open spec fn joined_with(parts: Seq<Seq<char>>, sep: Seq<char>) -> Seq<char>
    decreases parts.len(),
{
    if parts.len() == 0 {
        Seq::empty()
    } else if parts.len() == 1 {
        parts[0]
    } else {
        joined_with(parts.drop_last(), sep) + sep + parts.last()
    }
}

/// `parts` joined with `sep` between neighbours.
pub fn join_texts(parts: &Vec<String>, sep: &str) -> (r: String)
    ensures r@ == joined_with(parts.deep_view(), sep@),
{
    let mut out = String::new();
    let mut i: usize = 0;
    while i < parts.len()
        invariant
            i <= parts.len(),
            out@ == joined_with(parts.deep_view().take(i as int), sep@),
        decreases parts.len() - i,
    {
        assert(parts.deep_view().take(i + 1).drop_last() =~= parts.deep_view().take(i as int));
        if i > 0 {
            out.append(sep);
        } else {
            assert(parts.deep_view().take(1)[0] == parts.deep_view()[0]);
        }
        out.append(parts[i].as_str());
        i = i + 1;
    }
    assert(parts.deep_view().take(i as int) =~= parts.deep_view());
    out
}

// ---------------------------------------------------------------- positions

/// Where `n` first occurs in `h`.
pub open spec fn first_occurrence(h: Seq<char>, n: Seq<char>) -> Option<int> {
    if contains(h, n) {
        Some(choose|i: int| occurs_at(h, n, i) && forall|j: int| 0 <= j < i ==> !occurs_at(h, n, j))
    } else {
        None
    }
}

/// Where `n` last occurs in `h`.
pub open spec fn last_occurrence(h: Seq<char>, n: Seq<char>) -> Option<int> {
    if contains(h, n) {
        Some(choose|i: int| occurs_at(h, n, i) && forall|j: int| i < j ==> !occurs_at(h, n, j))
    } else {
        None
    }
}

/// `str::find` with a text pattern: the position of the first occurrence.
pub fn find_text(hay: &str, needle: &str) -> (r: Option<usize>)
    ensures
        match r {
            Some(i) => occurs_at(hay@, needle@, i as int)
                && forall|j: int| 0 <= j < i ==> !occurs_at(hay@, needle@, j),
            None => !contains(hay@, needle@),
        },
        match r { Some(i) => first_occurrence(hay@, needle@) == Some(i as int), None => first_occurrence(hay@, needle@) is None },
{
    let h = chars_of(hay);
    let n = chars_of(needle);
    if n.len() > h.len() {
        proof { assert forall|i: int| !occurs_at(hay@, needle@, i) by {} }
        return None;
    }
    if n.len() == 0 {
        proof {
            assert(hay@.subrange(0, 0) =~= needle@);
            assert(occurs_at(hay@, needle@, 0));
            let w = choose|w: int| occurs_at(hay@, needle@, w) && forall|j: int| 0 <= j < w ==> !occurs_at(hay@, needle@, j);
            if w > 0 { assert(!occurs_at(hay@, needle@, 0)); }
        }
        return Some(0);
    }
    let last = h.len() - n.len();
    let mut i: usize = 0;
    while i <= last
        invariant
            h@ == hay@,
            n@ == needle@,
            last == h.len() - n.len(),
            1 <= n.len() <= h.len(),
            i <= last + 1,
            forall|k: int| 0 <= k < i ==> !occurs_at(hay@, needle@, k),
        decreases last + 1 - i,
    {
        if matches_at(&h, &n, i) {
            assert(occurs_at(hay@, needle@, i as int));
            proof {
                let w = choose|w: int| occurs_at(hay@, needle@, w) && forall|j: int| 0 <= j < w ==> !occurs_at(hay@, needle@, j);
                assert(occurs_at(hay@, needle@, w) && forall|j: int| 0 <= j < w ==> !occurs_at(hay@, needle@, j));
                if w < i { assert(!occurs_at(hay@, needle@, w)); }
                if w > i { assert(!occurs_at(hay@, needle@, i as int)); }
            }
            return Some(i);
        }
        i = i + 1;
    }
    proof {
        assert forall|k: int| !occurs_at(hay@, needle@, k) by {
            if 0 <= k && k + needle@.len() <= hay@.len() {
                assert(k <= last);
            }
        }
    }
    None
}

/// `str::rfind` with a text pattern: the position of the last occurrence.
pub fn rfind_text(hay: &str, needle: &str) -> (r: Option<usize>)
    ensures
        match r {
            Some(i) => occurs_at(hay@, needle@, i as int)
                && forall|j: int| i < j ==> !occurs_at(hay@, needle@, j),
            None => !contains(hay@, needle@),
        },
        match r { Some(i) => last_occurrence(hay@, needle@) == Some(i as int), None => last_occurrence(hay@, needle@) is None },
{
    let h = chars_of(hay);
    let n = chars_of(needle);
    if n.len() > h.len() {
        proof { assert forall|i: int| !occurs_at(hay@, needle@, i) by {} }
        return None;
    }
    if n.len() == 0 {
        proof {
            let l = hay@.len() as int;
            assert(hay@.subrange(l, l) =~= needle@);
            assert(occurs_at(hay@, needle@, l));
            let w = choose|w: int| occurs_at(hay@, needle@, w) && forall|j: int| w < j ==> !occurs_at(hay@, needle@, j);
            if w < l { assert(!occurs_at(hay@, needle@, l)); }
        }
        return Some(h.len());
    }
    let mut i: usize = h.len() - n.len() + 1;
    while i > 0
        invariant
            h@ == hay@,
            n@ == needle@,
            n.len() <= h.len(),
            i <= h.len() - n.len() + 1,
            forall|k: int| i <= k ==> !occurs_at(hay@, needle@, k),
        decreases i,
    {
        let k = i - 1;
        if matches_at(&h, &n, k) {
            assert(occurs_at(hay@, needle@, k as int));
            proof {
                let w = choose|w: int| occurs_at(hay@, needle@, w) && forall|j: int| w < j ==> !occurs_at(hay@, needle@, j);
                assert(occurs_at(hay@, needle@, w) && forall|j: int| w < j ==> !occurs_at(hay@, needle@, j));
                if w < k { assert(!occurs_at(hay@, needle@, k as int)); }
                if w > k { assert(!occurs_at(hay@, needle@, w)); }
            }
            return Some(k);
        }
        i = k;
    }
    None
}

/// The part of `s` from the last occurrence of `marker` on; all of `s` where
/// `marker` does not occur.
pub open spec fn from_last(s: Seq<char>, marker: Seq<char>) -> Seq<char> {
    match last_occurrence(s, marker) {
        Some(i) => s.skip(i),
        None => s,
    }
}

/// The part of `text` from the last occurrence of `marker` on.
pub fn from_last_text(text: &str, marker: &str) -> (r: String)
    ensures r@ == from_last(text@, marker@),
{
    match rfind_text(text, marker) {
        Some(i) => {
            let v = chars_of(text);
            string_of(&v, i, v.len())
        }
        None => text.to_owned(),
    }
}

/// Where the character `c` first occurs in `s`.
pub open spec fn first_char_at(s: Seq<char>, c: char) -> Option<int> {
    if has_char(s, c) {
        Some(choose|i: int| 0 <= i < s.len() && s[i] == c && forall|j: int| 0 <= j < i ==> s[j] != c)
    } else {
        None
    }
}

/// `str::split_once` at the first `c`: the parts before and after it.
pub open spec fn split_once_char(s: Seq<char>, c: char) -> Option<(Seq<char>, Seq<char>)> {
    match first_char_at(s, c) {
        Some(i) => Some((s.take(i), s.skip(i + 1))),
        None => None,
    }
}

/// `str::split_once` with a single character.
pub fn split_once_char_text(value: &str, c: char) -> (r: Option<(String, String)>)
    ensures
        match r {
            Some((a, b)) => split_once_char(value@, c) == Some((a@, b@)),
            None => split_once_char(value@, c) is None,
        },
{
    let v = chars_of(value);
    let mut i: usize = 0;
    while i < v.len()
        invariant
            v@ == value@,
            i <= v.len(),
            forall|j: int| 0 <= j < i ==> v@[j] != c,
        decreases v.len() - i,
    {
        if v[i] == c {
            proof {
                let w = choose|w: int| 0 <= w < value@.len() && value@[w] == c && forall|j: int| 0 <= j < w ==> value@[j] != c;
                assert(0 <= w < value@.len() && value@[w] == c && forall|j: int| 0 <= j < w ==> value@[j] != c);
                if w < i { assert(v@[w] != c); }
                if w > i { assert(value@[i as int] != c); }
            }
            return Some((string_of(&v, 0, i), string_of(&v, i + 1, v.len())));
        }
        i = i + 1;
    }
    None
}

/// Where the first whitespace character of `s` is.
pub open spec fn first_ws_at(s: Seq<char>) -> Option<int> {
    if exists|i: int| 0 <= i < s.len() && is_ws(s[i]) {
        Some(choose|i: int| 0 <= i < s.len() && is_ws(s[i]) && forall|j: int| 0 <= j < i ==> !is_ws(s[j]))
    } else {
        None
    }
}

/// `str::split_once(char::is_whitespace)`: the parts around the first whitespace.
pub open spec fn split_once_ws(s: Seq<char>) -> Option<(Seq<char>, Seq<char>)> {
    match first_ws_at(s) {
        Some(i) => Some((s.take(i), s.skip(i + 1))),
        None => None,
    }
}

/// `str::split_once(char::is_whitespace)`.
pub fn split_once_ws_text(value: &str) -> (r: Option<(String, String)>)
    ensures
        match r {
            Some((a, b)) => split_once_ws(value@) == Some((a@, b@)),
            None => split_once_ws(value@) is None,
        },
{
    let v = chars_of(value);
    let mut i: usize = 0;
    while i < v.len()
        invariant
            v@ == value@,
            i <= v.len(),
            forall|j: int| 0 <= j < i ==> !is_ws(v@[j]),
        decreases v.len() - i,
    {
        if char_is_ws(v[i]) {
            proof { lemma_first_ws(value@, i as int); }
            return Some((string_of(&v, 0, i), string_of(&v, i + 1, v.len())));
        }
        i = i + 1;
    }
    None
}

proof fn lemma_first_ws(s: Seq<char>, i: int)
    requires
        0 <= i < s.len(),
        is_ws(s[i]),
        forall|j: int| 0 <= j < i ==> !is_ws(s[j]),
    ensures first_ws_at(s) == Some(i),
{
    let w = choose|w: int| 0 <= w < s.len() && is_ws(s[w]) && forall|j: int| 0 <= j < w ==> !is_ws(s[j]);
    assert(0 <= w < s.len() && is_ws(s[w]) && forall|j: int| 0 <= j < w ==> !is_ws(s[j]));
    if w < i { assert(!is_ws(s[w])); }
    if w > i { assert(!is_ws(s[i])); }
}

/// `s` without its trailing `c`s (`str::trim_end_matches` with one character).
pub open spec fn trim_end_char(s: Seq<char>, c: char) -> Seq<char>
    decreases s.len(),
{
    if s.len() > 0 && s.last() == c { trim_end_char(s.drop_last(), c) } else { s }
}

/// `str::trim_end_matches(c)`.
pub fn trim_end_char_text(value: &str, c: char) -> (r: String)
    ensures r@ == trim_end_char(value@, c),
{
    let v = chars_of(value);
    let mut j: usize = v.len();
    assert(v@.take(j as int) =~= value@);
    while j > 0 && v[j - 1] == c
        invariant
            v@ == value@,
            j <= v.len(),
            trim_end_char(v@.take(j as int), c) == trim_end_char(value@, c),
        decreases j,
    {
        assert(v@.take(j as int).drop_last() =~= v@.take(j - 1));
        j = j - 1;
    }
    assert(v@.subrange(0, j as int) =~= v@.take(j as int));
    string_of(&v, 0, j)
}

/// The decimal digit for `d` (below ten).
pub open spec fn digit_char(d: nat) -> char {
    (('0' as u32) + d) as char
}

/// The decimal writing of `n`, without leading zeros.
pub open spec fn decimal(n: nat) -> Seq<char>
    decreases n,
{
    if n < 10 { seq![digit_char(n)] } else { decimal(n / 10).push(digit_char(n % 10)) }
}

/// The decimal writing of `n`.
pub fn decimal_text(n: u64) -> (r: String)
    ensures r@ == decimal(n as nat),
    decreases n,
{
    let d = (n % 10) as u32;
    let c = char_from_digit(d);
    if n < 10 {
        let mut s = String::new();
        push_char(&mut s, c);
        assert(s@ =~= seq![c]);
        s
    } else {
        let mut s = decimal_text(n / 10);
        push_char(&mut s, c);
        s
    }
}

fn char_from_digit(d: u32) -> (r: char)
    requires d < 10,
    ensures r == digit_char(d as nat),
{
    if d == 0 { '0' } else if d == 1 { '1' } else if d == 2 { '2' } else if d == 3 { '3' }
    else if d == 4 { '4' } else if d == 5 { '5' } else if d == 6 { '6' } else if d == 7 { '7' }
    else if d == 8 { '8' } else { '9' }
}

} // verus!
