//! Laws of writing runtime options into an options file: a second update with the
//! same values changes nothing.
use vstd::prelude::*;
use crate::runtime::profile::{
    option_key, option_line, options_header_from, options_start, section_end_from, section_header,
    set_between, updated_line, upserted_lines, missing_lines, with_options_section, lemma_missing_has,
};
use crate::strmap::{distinct_keys, lemma_map_of_distinct, lemma_sorted_distinct, map_of, sorted_keys, StrMap};
use crate::runtime::profile::upserted;
use crate::text::{first_char_at, has_char, is_ws, joined_with, lines, split_char, split_once_char, starts_with, strip_cr, trim, trim_end, trim_start};

verus! {

/// A key that an options line reads back as itself: non-empty, without surrounding
/// whitespace, and holding neither `=` nor `[`.
pub open spec fn plain_option_key(k: Seq<char>) -> bool {
    k.len() > 0 && trim(k) == k && !has_char(k, '=') && !has_char(k, '[')
}

proof fn lemma_trim_start_len(s: Seq<char>)
    ensures trim_start(s).len() <= s.len(),
    decreases s.len(),
{
    if s.len() > 0 && is_ws(s[0]) {
        lemma_trim_start_len(s.drop_first());
    }
}

proof fn lemma_trim_end_prefix(s: Seq<char>)
    ensures
        trim_end(s).len() <= s.len(),
        trim_end(s) == s.take(trim_end(s).len() as int),
    decreases s.len(),
{
    if s.len() > 0 && is_ws(s.last()) {
        lemma_trim_end_prefix(s.drop_last());
        assert(s.drop_last().take(trim_end(s).len() as int) =~= s.take(trim_end(s).len() as int));
    } else {
        assert(s.take(s.len() as int) =~= s);
    }
}

proof fn lemma_plain_key_starts_plain(k: Seq<char>)
    requires k.len() > 0, trim(k) == k,
    ensures !is_ws(k[0]),
{
    if is_ws(k[0]) {
        lemma_trim_start_len(k.drop_first());
        lemma_trim_end_prefix(trim_start(k));
        assert(trim(k).len() < k.len());
    }
}

/// An option line with a plain key is no section header, and no `[Options]` header.
proof fn lemma_option_line_not_header(k: Seq<char>, v: Seq<char>)
    requires plain_option_key(k),
    ensures
        !section_header(option_line(k, v)),
        trim(option_line(k, v)) != "[Options]"@,
{
    let x = option_line(k, v);
    lemma_plain_key_starts_plain(k);
    assert(x[0] == k[0]);
    assert(trim_start(x) == x);
    lemma_trim_end_prefix(x);
    let t = trim(x);
    assert(k[0] != '[') by {
        if k[0] == '[' { assert(has_char(k, '[')); }
    }
    if t.len() > 0 {
        assert(t[0] == x[0]);
        assert(t.take(1) != "["@) by {
            reveal_strlit("[");
            assert(t.take(1)[0] == k[0]);
        }
    }
    assert(!starts_with(t, "["@)) by { reveal_strlit("["); }
    assert(t != "[Options]"@) by {
        reveal_strlit("[Options]");
        if t == "[Options]"@ { assert(t[0] == '['); }
    }
}

/// An option line with a plain key is read back under that key.
proof fn lemma_option_line_key(k: Seq<char>, v: Seq<char>)
    requires plain_option_key(k),
    ensures option_key(option_line(k, v)) == Some(k),
{
    let x = option_line(k, v);
    reveal_strlit("=");
    assert(x[k.len() as int] == '=');
    assert(has_char(x, '='));
    let i = first_char_at(x, '=')->0;
    assert(0 <= i < x.len() && x[i] == '=' && forall|j: int| 0 <= j < i ==> x[j] != '=');
    if i < k.len() {
        assert(x[i] == k[i]);
        assert(has_char(k, '='));
    }
    assert(i == k.len());
    assert(x.take(i) =~= k);
}


/// Whether every key of `entries` is plain.
pub open spec fn plain_keys(entries: Seq<(Seq<char>, Seq<char>)>) -> bool {
    forall|i: int| 0 <= i < entries.len() ==> plain_option_key(#[trigger] entries[i].0)
}

proof fn lemma_map_keys_plain(entries: Seq<(Seq<char>, Seq<char>)>, k: Seq<char>)
    requires distinct_keys(entries), plain_keys(entries), map_of(entries).dom().contains(k),
    ensures plain_option_key(k),
{
    lemma_map_of_distinct(entries);
    let i = choose|i: int| 0 <= i < entries.len() && entries[i].0 == k;
    assert(plain_option_key(entries[i].0));
}

/// Updating an updated line again changes nothing.
proof fn lemma_updated_line_stable(x: Seq<char>, entries: Seq<(Seq<char>, Seq<char>)>)
    requires distinct_keys(entries), plain_keys(entries),
    ensures
        updated_line(updated_line(x, map_of(entries)), map_of(entries)) == updated_line(x, map_of(entries)),
        !section_header(x) ==> !section_header(updated_line(x, map_of(entries))),
{
    let m = map_of(entries);
    match option_key(x) {
        Some(k) => {
            if m.dom().contains(k) {
                lemma_map_keys_plain(entries, k);
                lemma_option_line_key(k, m[k]);
                lemma_option_line_not_header(k, m[k]);
            }
        },
        None => {},
    }
}

/// The lines of `missing_lines` are option lines of some of the entries.
proof fn lemma_missing_are_entries(entries: Seq<(Seq<char>, Seq<char>)>, ls: Seq<Seq<char>>, s: int, e: int, w: int)
    requires 0 <= w < missing_lines(entries, ls, s, e).len(),
    ensures exists|j: int| 0 <= j < entries.len()
        && missing_lines(entries, ls, s, e)[w] == option_line(#[trigger] entries[j].0, entries[j].1),
    decreases entries.len(),
{
    let rest = missing_lines(entries.drop_last(), ls, s, e);
    if w < rest.len() {
        lemma_missing_are_entries(entries.drop_last(), ls, s, e, w);
        let j = choose|j: int| 0 <= j < entries.drop_last().len()
            && rest[w] == option_line(#[trigger] entries.drop_last()[j].0, entries.drop_last()[j].1);
        assert(entries.drop_last()[j] == entries[j]);
        if !set_between(ls, s, e, entries.last().0) {
            assert(missing_lines(entries, ls, s, e)[w] == rest[w]);
        }
    } else {
        assert(entries[entries.len() - 1] == entries.last());
    }
}

/// With every key already set, nothing is missing.
proof fn lemma_nothing_missing(entries: Seq<(Seq<char>, Seq<char>)>, ls: Seq<Seq<char>>, s: int, e: int)
    requires forall|j: int| 0 <= j < entries.len() ==> set_between(ls, s, e, #[trigger] entries[j].0),
    ensures missing_lines(entries, ls, s, e).len() == 0,
    decreases entries.len(),
{
    if entries.len() > 0 {
        assert forall|j: int| 0 <= j < entries.drop_last().len() implies
            set_between(ls, s, e, #[trigger] entries.drop_last()[j].0) by {
            assert(entries.drop_last()[j] == entries[j]);
        }
        lemma_nothing_missing(entries.drop_last(), ls, s, e);
        assert(set_between(ls, s, e, entries[entries.len() - 1].0));
    }
}

/// Where two line lists agree up to the header at `h`, that header is found in both.
proof fn lemma_header_agree(a: Seq<Seq<char>>, b: Seq<Seq<char>>, i: int, h: int)
    requires
        0 <= i <= h,
        h < a.len(), h < b.len(),
        forall|j: int| i <= j <= h ==> a[j] == b[j],
        options_header_from(a, i) == Some(h),
    ensures options_header_from(b, i) == Some(h),
    decreases h - i,
{
    if trim(a[i]) != "[Options]"@ {
        lemma_header_facts(a, i + 1);
        lemma_header_agree(a, b, i + 1, h);
    }
}

/// The end of the section that starts at `i`: `t`, where no line from `i` up to `t`
/// is a header and `t` is the end or a header.
proof fn lemma_section_end_at(a: Seq<Seq<char>>, i: int, t: int)
    requires
        0 <= i <= t <= a.len(),
        forall|j: int| i <= j < t ==> !section_header(#[trigger] a[j]),
        t == a.len() || section_header(a[t]),
    ensures section_end_from(a, i) == t,
    decreases t - i,
{
    if i < t {
        lemma_section_end_at(a, i + 1, t);
    }
}

proof fn lemma_section_end_facts(a: Seq<Seq<char>>, i: int)
    requires 0 <= i <= a.len(),
    ensures
        i <= section_end_from(a, i) <= a.len(),
        forall|j: int| i <= j < section_end_from(a, i) ==> !section_header(#[trigger] a[j]),
        section_end_from(a, i) == a.len() || section_header(a[section_end_from(a, i)]),
    decreases a.len() - i,
{
    if i < a.len() && !section_header(a[i]) {
        lemma_section_end_facts(a, i + 1);
    }
}

proof fn lemma_header_facts(ls: Seq<Seq<char>>, i: int)
    requires 0 <= i,
    ensures
        options_header_from(ls, i) matches Some(h) ==> i <= h < ls.len() && trim(ls[h]) == "[Options]"@
            && forall|j: int| i <= j < h ==> trim(#[trigger] ls[j]) != "[Options]"@,
        options_header_from(ls, i) is None ==> forall|j: int| i <= j < ls.len() ==> trim(#[trigger] ls[j]) != "[Options]"@,
    decreases ls.len() - i,
{
    if i < ls.len() && trim(ls[i]) != "[Options]"@ {
        lemma_header_facts(ls, i + 1);
    }
}

proof fn lemma_header_first(ls: Seq<Seq<char>>, i: int, h: int)
    requires
        0 <= i <= h < ls.len(),
        trim(ls[h]) == "[Options]"@,
        forall|j: int| i <= j < h ==> trim(#[trigger] ls[j]) != "[Options]"@,
    ensures options_header_from(ls, i) == Some(h),
    decreases h - i,
{
    if i < h {
        lemma_header_first(ls, i + 1, h);
    }
}


proof fn lemma_options_section(ls: Seq<Seq<char>>)
    ensures
        0 <= options_start(ls) < with_options_section(ls).len(),
        options_header_from(with_options_section(ls), 0) == Some(options_start(ls)),
{
    let l = with_options_section(ls);
    let s = options_start(ls);
    lemma_header_facts(ls, 0);
    reveal_strlit("[Options]");
    if options_header_from(ls, 0) is None {
        assert(l.last() == "[Options]"@);
        assert(trim_start("[Options]"@) == "[Options]"@);
        assert(trim_end("[Options]"@) == "[Options]"@);
        assert(trim_start(Seq::<char>::empty()) == Seq::<char>::empty());
        assert(trim_end(Seq::<char>::empty()) == Seq::<char>::empty());
        assert forall|j: int| 0 <= j < s implies trim(#[trigger] l[j]) != "[Options]"@ by {
            if j < ls.len() {
                assert(l[j] == ls[j]);
            } else {
                assert(l[j] == Seq::<char>::empty());
            }
        }
        lemma_header_first(l, 0, s);
    }
}

/// Writing the same values into an options file a second time changes no line: the
/// lines of the result, updated again, are the same lines, where every key of
/// `values` is plain (non-empty, without surrounding whitespace, `=` or `[`).
#[verifier::spinoff_prover]
#[verifier::rlimit(60)]
pub proof fn lemma_upsert_lines_idempotent(ls: Seq<Seq<char>>, values: StrMap)
    requires
        sorted_keys(values@),
        plain_keys(values@),
    ensures upserted_lines(upserted_lines(ls, values), values) == upserted_lines(ls, values),
{
    let entries = values@;
    lemma_sorted_distinct(entries);
    lemma_map_of_distinct(entries);
    let m = values.map();
    let l = with_options_section(ls);
    let s = options_start(ls);
    lemma_options_section(ls);
    lemma_section_end_facts(l, s + 1);
    let e = section_end_from(l, s + 1);
    let upd = Seq::new(l.len(), |i: int| if s < i < e { updated_line(l[i], m) } else { l[i] });
    let mi = missing_lines(entries, l, s, e);
    let l2 = upd.take(e) + mi + upd.skip(e);
    assert(l2 == upserted_lines(ls, values));
    let e2 = e + mi.len();
    assert(l2.len() == l.len() + mi.len());
    assert forall|j: int| 0 <= j < e implies l2[j] == upd[j] by {}
    assert forall|j: int| e <= j < e2 implies l2[j] == mi[j - e] by {}
    assert forall|j: int| e2 <= j < l2.len() implies l2[j] == upd[j - mi.len()] by {}
    // the header stays where it was
    assert forall|j: int| 0 <= j <= s implies l[j] == l2[j] by {}
    lemma_header_agree(l, l2, 0, s);
    assert(with_options_section(l2) == l2);
    assert(options_start(l2) == s);
    // the section now ends after the added lines
    assert forall|j: int| s + 1 <= j < e2 implies !section_header(#[trigger] l2[j]) by {
        if j < e {
            lemma_updated_line_stable(l[j], entries);
        } else {
            let w = j - e;
            lemma_missing_are_entries(entries, l, s, e, w);
            let jj = choose|jj: int| 0 <= jj < entries.len()
                && mi[w] == option_line(#[trigger] entries[jj].0, entries[jj].1);
            lemma_option_line_not_header(entries[jj].0, entries[jj].1);
        }
    }
    if e < l.len() {
        assert(l2[e2] == l[e]);
    }
    lemma_section_end_at(l2, s + 1, e2);
    assert(section_end_from(l2, s + 1) == e2);
    // updating again changes no line
    let upd2 = Seq::new(l2.len(), |i: int| if s < i < e2 { updated_line(l2[i], m) } else { l2[i] });
    assert forall|i: int| 0 <= i < l2.len() implies upd2[i] == l2[i] by {
        if s < i < e {
            lemma_updated_line_stable(l[i], entries);
        } else if e <= i < e2 {
            let w = i - e;
            lemma_missing_are_entries(entries, l, s, e, w);
            let jj = choose|jj: int| 0 <= jj < entries.len()
                && mi[w] == option_line(#[trigger] entries[jj].0, entries[jj].1);
            lemma_option_line_key(entries[jj].0, entries[jj].1);
            assert(m.dom().contains(entries[jj].0));
            assert(m[entries[jj].0] == entries[jj].1);
        }
    }
    assert(upd2 =~= l2);
    // every key is now set
    assert forall|jj: int| 0 <= jj < entries.len() implies set_between(l2, s, e2, #[trigger] entries[jj].0) by {
        let k = entries[jj].0;
        assert(m.dom().contains(k));
        lemma_map_keys_plain(entries, k);
        if set_between(l, s, e, k) {
            let i = choose|i: int| s < i < e && option_key(#[trigger] l[i]) == Some(k);
            lemma_option_line_key(k, m[k]);
            assert(l2[i] == option_line(k, m[k]));
            assert(option_key(l2[i]) == Some(k));
        } else {
            lemma_missing_has(entries, l, s, e, jj);
            let w = choose|w: int| 0 <= w < mi.len() && mi[w] == option_line(entries[jj].0, entries[jj].1);
            lemma_option_line_key(k, entries[jj].1);
            assert(l2[e + w] == mi[w]);
            assert(option_key(l2[e + w]) == Some(k));
        }
    }
    lemma_nothing_missing(entries, l2, s, e2);
    assert(upd2.take(e2) + missing_lines(entries, l2, s, e2) + upd2.skip(e2) =~= l2);
}


// ---------------------------------------------------------------- lines and text

proof fn lemma_split_nonempty(s: Seq<char>, sep: char)
    ensures split_char(s, sep).len() >= 1,
    decreases s.len(),
{
    if s.len() > 0 {
        lemma_split_nonempty(s.drop_last(), sep);
    }
}

proof fn lemma_split_push_sep(t: Seq<char>, sep: char)
    ensures split_char(t.push(sep), sep) == split_char(t, sep).push(Seq::<char>::empty()),
{
    assert(t.push(sep).drop_last() =~= t);
}

proof fn lemma_split_append_plain(t: Seq<char>, b: Seq<char>, sep: char)
    requires !has_char(b, sep),
    ensures
        split_char(t + b, sep) == split_char(t, sep).update(split_char(t, sep).len() - 1,
            split_char(t, sep).last() + b),
    decreases b.len(),
{
    lemma_split_nonempty(t, sep);
    let p = split_char(t, sep);
    if b.len() == 0 {
        assert(t + b =~= t);
        assert(p.update(p.len() - 1, p.last() + b) =~= p);
    } else {
        let bd = b.drop_last();
        assert(!has_char(bd, sep)) by {
            if has_char(bd, sep) {
                let i = choose|i: int| 0 <= i < bd.len() && bd[i] == sep;
                assert(b[i] == sep);
            }
        }
        lemma_split_append_plain(t, bd, sep);
        assert((t + b).drop_last() =~= t + bd);
        assert((t + b).last() == b.last());
        assert(b.last() != sep) by { assert(b[b.len() - 1] == b.last()); }
        let q = split_char(t + bd, sep);
        assert(q.len() == p.len());
        assert(q.update(q.len() - 1, q.last().push(b.last())) =~= p.update(p.len() - 1, p.last() + b)) by {
            assert(q.last() == p.last() + bd);
            assert((p.last() + bd).push(b.last()) =~= p.last() + b);
        }
    }
}

/// Whether no line holds `sep`.
pub open spec fn lines_without(ls: Seq<Seq<char>>, c: char) -> bool {
    forall|i: int| 0 <= i < ls.len() ==> !has_char(#[trigger] ls[i], c)
}

proof fn lemma_split_joined(ls: Seq<Seq<char>>, sep: char)
    requires ls.len() >= 1, lines_without(ls, sep),
    ensures split_char(joined_with(ls, seq![sep]), sep) == ls,
    decreases ls.len(),
{
    if ls.len() == 1 {
        lemma_split_append_plain(Seq::<char>::empty(), ls[0], sep);
        assert(Seq::<char>::empty() + ls[0] =~= ls[0]);
        assert(seq![Seq::<char>::empty()].update(0, Seq::<char>::empty() + ls[0]) =~= ls);
    } else {
        let init = ls.drop_last();
        assert(lines_without(init, sep)) by {
            assert forall|i: int| 0 <= i < init.len() implies !has_char(#[trigger] init[i], sep) by {
                assert(init[i] == ls[i]);
            }
        }
        lemma_split_joined(init, sep);
        let j = joined_with(init, seq![sep]);
        assert(joined_with(ls, seq![sep]) == j + seq![sep] + ls.last());
        assert(j + seq![sep] =~= j.push(sep));
        lemma_split_push_sep(j, sep);
        assert(!has_char(ls.last(), sep)) by { assert(ls[ls.len() - 1] == ls.last()); }
        lemma_split_append_plain(j.push(sep), ls.last(), sep);
        assert(init.push(Seq::<char>::empty()).update(init.len() as int, Seq::<char>::empty() + ls.last()) =~= ls);
    }
}

/// Whether `x` ends with `\r`.
pub open spec fn ends_in_cr(x: Seq<char>) -> bool {
    x.len() > 0 && x.last() == '\r'
}

/// Whether `x` can stand as one line of a file: no `\n`, and no `\r` at its end.
pub open spec fn line_form(x: Seq<char>) -> bool {
    !has_char(x, '\n') && !ends_in_cr(x)
}

/// Whether every line of `ls` can stand as one line.
pub open spec fn all_line_form(ls: Seq<Seq<char>>) -> bool {
    forall|i: int| 0 <= i < ls.len() ==> line_form(#[trigger] ls[i])
}

/// Lines without `\n` and not ending in `\r`, written one per line, read back as the
/// same lines.
pub proof fn lemma_lines_of_joined(ls: Seq<Seq<char>>)
    requires ls.len() >= 1, all_line_form(ls),
    ensures lines(joined_with(ls, "\n"@) + "\n"@) == ls,
{
    reveal_strlit("\n");
    assert("\n"@ =~= seq!['\n']);
    assert(lines_without(ls, '\n')) by {
        assert forall|i: int| 0 <= i < ls.len() implies !has_char(#[trigger] ls[i], '\n') by {
            assert(line_form(ls[i]));
        }
    }
    let j = joined_with(ls, "\n"@);
    lemma_split_joined(ls, '\n');
    let s = j + "\n"@;
    assert(s =~= j.push('\n'));
    lemma_split_push_sep(j, '\n');
    assert(split_char(s, '\n').drop_last() =~= ls);
    assert forall|i: int| 0 <= i < ls.len() implies strip_cr(#[trigger] ls[i]) == ls[i] by {
        assert(line_form(ls[i]));
    }
    assert(ls.map_values(|l: Seq<char>| strip_cr(l)) =~= ls);
}

proof fn lemma_split_pieces_clean(s: Seq<char>, sep: char)
    ensures lines_without(split_char(s, sep), sep),
    decreases s.len(),
{
    lemma_split_nonempty(s, sep);
    if s.len() > 0 {
        let sd = s.drop_last();
        lemma_split_pieces_clean(sd, sep);
        lemma_split_nonempty(sd, sep);
        let p = split_char(sd, sep);
        if s.last() != sep {
            let q = p.update(p.len() - 1, p.last().push(s.last()));
            assert forall|i: int| 0 <= i < q.len() implies !has_char(#[trigger] q[i], sep) by {
                if i == p.len() - 1 {
                    assert(p[p.len() - 1] == p.last());
                    if has_char(q[i], sep) {
                        let k = choose|k: int| 0 <= k < q[i].len() && q[i][k] == sep;
                        if k < p.last().len() { assert(p.last()[k] == sep); }
                    }
                }
            }
        } else {
            let q = p.push(Seq::<char>::empty());
            assert forall|i: int| 0 <= i < q.len() implies !has_char(#[trigger] q[i], sep) by {
                if i < p.len() { assert(q[i] == p[i]); }
            }
        }
    }
}

/// Whether `x` holds neither `\n` nor `\r`.
pub open spec fn single_line(x: Seq<char>) -> bool {
    !has_char(x, '\n') && !has_char(x, '\r')
}

/// Whether no key or value of `entries` spans lines.
pub open spec fn single_line_entries(entries: Seq<(Seq<char>, Seq<char>)>) -> bool {
    forall|i: int| 0 <= i < entries.len() ==> single_line(#[trigger] entries[i].0) && single_line(entries[i].1)
}

proof fn lemma_option_line_form(k: Seq<char>, v: Seq<char>)
    requires single_line(k), single_line(v),
    ensures line_form(option_line(k, v)),
{
    reveal_strlit("=");
    let x = option_line(k, v);
    if has_char(x, '\n') {
        let i = choose|i: int| 0 <= i < x.len() && x[i] == '\n';
        if i < k.len() { assert(k[i] == '\n'); assert(has_char(k, '\n')); }
        else if i > k.len() { assert(v[i - k.len() - 1] == '\n'); assert(has_char(v, '\n')); }
    }
    if v.len() > 0 {
        assert(x.last() == v[v.len() - 1]);
        if v[v.len() - 1] == '\r' { assert(has_char(v, '\r')); }
    } else {
        assert(x.last() == '=');
    }
}

proof fn lemma_upserted_line_form(ls: Seq<Seq<char>>, values: StrMap)
    requires
        sorted_keys(values@),
        single_line_entries(values@),
        all_line_form(ls),
    ensures
        upserted_lines(ls, values).len() >= 1,
        all_line_form(upserted_lines(ls, values)),
{
    let entries = values@;
    lemma_sorted_distinct(entries);
    lemma_map_of_distinct(entries);
    let m = values.map();
    let l = with_options_section(ls);
    let s = options_start(ls);
    lemma_options_section(ls);
    lemma_section_end_facts(l, s + 1);
    let e = section_end_from(l, s + 1);
    reveal_strlit("[Options]");
    assert forall|i: int| 0 <= i < l.len() implies line_form(#[trigger] l[i]) by {
        if i >= ls.len() {
            if l[i] == "[Options]"@ {
                if has_char("[Options]"@, '\n') {
                    let k = choose|k: int| 0 <= k < 9 && "[Options]"@[k] == '\n';
                }
            }
        } else {
            assert(l[i] == ls[i]);
        }
    }
    let upd = Seq::new(l.len(), |i: int| if s < i < e { updated_line(l[i], m) } else { l[i] });
    assert forall|i: int| 0 <= i < upd.len() implies line_form(#[trigger] upd[i]) by {
        if s < i < e {
            match option_key(l[i]) {
                Some(k) => {
                    if m.dom().contains(k) {
                        let j = choose|j: int| 0 <= j < entries.len() && entries[j].0 == k;
                        assert(m[entries[j].0] == entries[j].1);
                        lemma_option_line_form(k, m[k]);
                    }
                },
                None => {},
            }
        }
    }
    let mi = missing_lines(entries, l, s, e);
    assert forall|w: int| 0 <= w < mi.len() implies line_form(#[trigger] mi[w]) by {
        lemma_missing_are_entries(entries, l, s, e, w);
        let jj = choose|jj: int| 0 <= jj < entries.len() && mi[w] == option_line(#[trigger] entries[jj].0, entries[jj].1);
        lemma_option_line_form(entries[jj].0, entries[jj].1);
    }
    let out = upd.take(e) + mi + upd.skip(e);
    assert(out == upserted_lines(ls, values));
    assert forall|i: int| 0 <= i < out.len() implies line_form(#[trigger] out[i]) by {
        if i < e { assert(out[i] == upd[i]); }
        else if i < e + mi.len() { assert(out[i] == mi[i - e]); }
        else { assert(out[i] == upd[i - mi.len()]); }
    }
}

/// Writing the same values into an options file a second time gives the same text,
/// where every key of `values` is plain (non-empty, without surrounding whitespace,
/// `=` or `[`), no key or value spans lines, and no line of the file ends in a bare
/// `\r` before its line break (`\r\n` line ends are fine: they are read as `\n`).
pub proof fn lemma_upsert_idempotent(existing: Seq<char>, values: StrMap)
    requires
        sorted_keys(values@),
        plain_keys(values@),
        single_line_entries(values@),
        forall|i: int| 0 <= i < lines(existing).len() ==> !ends_in_cr(#[trigger] lines(existing)[i]),
    ensures upserted(upserted(existing, values), values) == upserted(existing, values),
{
    let ls0 = lines(existing);
    lemma_split_pieces_clean(existing, '\n');
    let pieces = split_char(existing, '\n');
    let kept = if existing.len() > 0 && existing.last() == '\n' { pieces.drop_last() }
        else if existing.len() == 0 { Seq::<Seq<char>>::empty() } else { pieces };
    assert forall|i: int| 0 <= i < ls0.len() implies line_form(#[trigger] ls0[i]) by {
        let x = kept[i];
        assert(x == pieces[i]);
        assert(!has_char(x, '\n'));
        assert(ls0[i] == strip_cr(x));
        assert(!ends_in_cr(ls0[i]));
        if has_char(strip_cr(x), '\n') {
            let k = choose|k: int| 0 <= k < strip_cr(x).len() && strip_cr(x)[k] == '\n';
            assert(x[k] == '\n');
        }
    }
    let l1 = upserted_lines(ls0, values);
    lemma_upserted_line_form(ls0, values);
    lemma_lines_of_joined(l1);
    lemma_upsert_lines_idempotent(ls0, values);
}

} // verus!
