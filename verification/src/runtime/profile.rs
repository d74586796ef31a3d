//! A game's runtime options file (an INI file with an `[Options]` section): where
//! it is in the Wine prefix, and how the profile's options are written into it.
use vstd::prelude::*;
use crate::error::{PortCellarError, Result};
use crate::games::{GameProfile, opt_str};
use crate::paths::{join, path_join, replace_char, replace_char_text};
use crate::strmap::StrMap;
use crate::text::{
    chars_of, concat, concat3, ends_with, join_texts, joined_with, lines, lines_text, lower_char, split_char,
    split_char_text, split_once_char, split_once_char_text, starts_with, starts_with_text, string_of, trim,
    trim_char, trim_char_text, trimmed,
};
use crate::types::WineSteamRuntime;

verus! {

// ---------------------------------------------------------------- the options file

/// Whether a line, trimmed, is a section header `[...]`.
pub open spec fn section_header(line: Seq<char>) -> bool {
    starts_with(trim(line), "["@) && ends_with(trim(line), "]"@)
}

/// The first line from `i` on that is the `[Options]` header.
pub open spec fn options_header_from(ls: Seq<Seq<char>>, i: int) -> Option<int>
    decreases ls.len() - i,
{
    if i < 0 || i >= ls.len() {
        None
    } else if trim(ls[i]) == "[Options]"@ {
        Some(i)
    } else {
        options_header_from(ls, i + 1)
    }
}

/// The first line from `i` on that is a section header, or the end.
pub open spec fn section_end_from(ls: Seq<Seq<char>>, i: int) -> int
    decreases ls.len() - i,
{
    if i < 0 || i >= ls.len() {
        ls.len() as int
    } else if section_header(ls[i]) {
        i
    } else {
        section_end_from(ls, i + 1)
    }
}

/// The lines with an `[Options]` section: as they are when they have one; otherwise
/// with the header appended, after an empty line unless they end with one.
pub open spec fn with_options_section(ls: Seq<Seq<char>>) -> Seq<Seq<char>> {
    if options_header_from(ls, 0) is Some {
        ls
    } else if ls.len() > 0 && ls.last().len() > 0 {
        ls.push(Seq::empty()).push("[Options]"@)
    } else {
        ls.push("[Options]"@)
    }
}

/// Where the `[Options]` header is in `with_options_section(ls)`.
pub open spec fn options_start(ls: Seq<Seq<char>>) -> int {
    match options_header_from(ls, 0) {
        Some(i) => i,
        None => with_options_section(ls).len() - 1,
    }
}

/// The key of an option line: the text before its first `=`, trimmed.
pub open spec fn option_key(line: Seq<char>) -> Option<Seq<char>> {
    match split_once_char(line, '=') {
        Some((k, _)) => Some(trim(k)),
        None => None,
    }
}

/// An option line as written: `key=value`.
pub open spec fn option_line(key: Seq<char>, value: Seq<char>) -> Seq<char> {
    key + "="@ + value
}

/// A line of the options section with its value replaced when `values` has its key.
pub open spec fn updated_line(line: Seq<char>, values: Map<Seq<char>, Seq<char>>) -> Seq<char> {
    match option_key(line) {
        Some(k) => if values.dom().contains(k) { option_line(k, values[k]) } else { line },
        None => line,
    }
}

/// Whether some line of `ls` strictly between `s` and `e` is an option line for `key`.
pub open spec fn set_between(ls: Seq<Seq<char>>, s: int, e: int, key: Seq<char>) -> bool {
    exists|i: int| s < i < e && option_key(#[trigger] ls[i]) == Some(key)
}

/// The option lines for the entries of `entries` not already set between `s` and `e`,
/// in key order.
pub open spec fn missing_lines(entries: Seq<(Seq<char>, Seq<char>)>, ls: Seq<Seq<char>>, s: int, e: int) -> Seq<Seq<char>>
    decreases entries.len(),
{
    if entries.len() == 0 {
        Seq::empty()
    } else {
        let rest = missing_lines(entries.drop_last(), ls, s, e);
        let (k, v) = entries.last();
        if set_between(ls, s, e, k) { rest } else { rest.push(option_line(k, v)) }
    }
}

/// The lines of the options file after the update: every option line of the
/// `[Options]` section whose key `values` has gets that value, and the options not
/// yet set are added, in key order, at the end of the section.
pub open spec fn upserted_lines(ls: Seq<Seq<char>>, values: StrMap) -> Seq<Seq<char>> {
    let l = with_options_section(ls);
    let s = options_start(ls);
    let e = section_end_from(l, s + 1);
    let updated = Seq::new(l.len(), |i: int| if s < i < e { updated_line(l[i], values.map()) } else { l[i] });
    updated.take(e) + missing_lines(values@, l, s, e) + updated.skip(e)
}

/// The text of the options file after the update, each line ended by a newline.
pub open spec fn upserted(existing: Seq<char>, values: StrMap) -> Seq<char> {
    joined_with(upserted_lines(lines(existing), values), "\n"@) + "\n"@
}

fn options_header(ls: &Vec<String>) -> (r: Option<usize>)
    ensures
        match r {
            Some(i) => options_header_from(ls.deep_view(), 0) == Some(i as int) && i < ls@.len(),
            None => options_header_from(ls.deep_view(), 0) is None,
        },
{
    let mut i: usize = 0;
    proof { reveal_strlit("[Options]"); }
    while i < ls.len()
        invariant
            i <= ls.len(),
            options_header_from(ls.deep_view(), 0) == options_header_from(ls.deep_view(), i as int),
        decreases ls.len() - i,
    {
        if crate::text::same_text(trimmed(ls[i].as_str()).as_str(), "[Options]") {
            return Some(i);
        }
        i = i + 1;
    }
    None
}

fn section_end(ls: &Vec<String>, from: usize) -> (r: usize)
    requires from <= ls.len(),
    ensures r == section_end_from(ls.deep_view(), from as int), from <= r <= ls.len(),
{
    let mut i = from;
    proof { reveal_strlit("["); reveal_strlit("]"); }
    while i < ls.len()
        invariant
            from <= i <= ls.len(),
            section_end_from(ls.deep_view(), from as int) == section_end_from(ls.deep_view(), i as int),
        decreases ls.len() - i,
    {
        let t = trimmed(ls[i].as_str());
        if starts_with_text(t.as_str(), "[") && crate::text::ends_with_text(t.as_str(), "]") {
            return i;
        }
        i = i + 1;
    }
    i
}

fn key_of(line: &str) -> (r: Option<String>)
    ensures crate::games::opt_text(r) == option_key(line@),
{
    match split_once_char_text(line, '=') {
        Some((k, _)) => Some(trimmed(k.as_str())),
        None => None,
    }
}

fn set_in(ls: &Vec<String>, s: usize, e: usize, key: &str) -> (r: bool)
    requires s < e <= ls.len(),
    ensures r == set_between(ls.deep_view(), s as int, e as int, key@),
{
    let mut i = s + 1;
    while i < e
        invariant
            s < i <= e, e <= ls.len(),
            forall|k: int| s < k < i ==> option_key(#[trigger] ls.deep_view()[k]) != Some(key@),
        decreases e - i,
    {
        match key_of(ls[i].as_str()) {
            Some(k) => {
                if crate::text::same_text(k.as_str(), key) {
                    assert(option_key(ls.deep_view()[i as int]) == Some(key@));
                    return true;
                }
            }
            None => {}
        }
        i = i + 1;
    }
    false
}

/// The options file `existing` with `values` written into its `[Options]` section.
pub fn upsert_runtime_options(existing: &str, values: &StrMap) -> (r: String)
    ensures r@ == upserted(existing@, *values),
{
    let mut ls = lines_text(existing);
    let ghost orig = ls.deep_view();
    proof { reveal_strlit("[Options]"); }
    let s = match options_header(&ls) {
        Some(i) => i,
        None => {
            if ls.len() > 0 && ls[ls.len() - 1].unicode_len() > 0 {
                crate::runtime::launch::push_text(&mut ls, String::new());
            }
            crate::runtime::launch::push_text(&mut ls, "[Options]".to_owned());
            assert(ls.deep_view() =~= with_options_section(orig));
            ls.len() - 1
        }
    };
    let ghost l = ls.deep_view();
    assert(l == with_options_section(orig));
    assert(s == options_start(orig));
    let e = section_end(&ls, s + 1);
    // the inserted lines, computed from the lines before they are updated
    let mut missing: Vec<String> = Vec::new();
    let mut k: usize = 0;
    while k < values.len()
        invariant
            k <= values@.len(),
            ls.deep_view() == l,
            s < e <= ls.len(),
            missing.deep_view() == missing_lines(values@.take(k as int), l, s as int, e as int),
        decreases values@.len() - k,
    {
        let key = values.key_at(k);
        let value = values.value_at(k);
        assert(values@.take(k + 1).drop_last() =~= values@.take(k as int));
        assert(values@.take(k + 1).last() == values@[k as int]);
        if !set_in(&ls, s, e, key.as_str()) {
            crate::runtime::launch::push_text(&mut missing, concat3(key.as_str(), "=", value.as_str()));
        }
        k = k + 1;
    }
    assert(values@.take(k as int) =~= values@);
    // update the section's option lines
    let ghost updated = Seq::new(l.len(), |i: int| if s < i < e { updated_line(l[i], values.map()) } else { l[i] });
    let mut out: Vec<String> = Vec::new();
    let mut i: usize = 0;
    while i < e
        invariant
            i <= e <= ls.len(),
            ls.deep_view() == l,
            updated == Seq::new(l.len(), |i: int| if s < i < e { updated_line(l[i], values.map()) } else { l[i] }),
            out.deep_view() == updated.take(i as int),
        decreases e - i,
    {
        let line = ls[i].as_str();
        let next = if s < i {
            match key_of(line) {
                Some(key) => match values.get(key.as_str()) {
                    Some(v) => concat3(key.as_str(), "=", v.as_str()),
                    None => line.to_owned(),
                },
                None => line.to_owned(),
            }
        } else {
            line.to_owned()
        };
        assert(next@ == updated[i as int]);
        crate::runtime::launch::push_text(&mut out, next);
        assert(updated.take(i + 1) =~= updated.take(i as int).push(updated[i as int]));
        i = i + 1;
    }
    crate::runtime::launch::append_texts(&mut out, &missing);
    let mut j: usize = e;
    let ghost front = out.deep_view();
    while j < ls.len()
        invariant
            e <= j <= ls.len(),
            ls.deep_view() == l,
            updated == Seq::new(l.len(), |i: int| if s < i < e { updated_line(l[i], values.map()) } else { l[i] }),
            out.deep_view() == front + updated.subrange(e as int, j as int),
        decreases ls.len() - j,
    {
        assert(updated[j as int] == l[j as int]);
        crate::runtime::launch::push_text(&mut out, ls[j].clone());
        assert(updated.subrange(e as int, j + 1) =~= updated.subrange(e as int, j as int).push(updated[j as int]));
        j = j + 1;
    }
    assert(updated.subrange(e as int, j as int) =~= updated.skip(e as int));
    assert(out.deep_view() =~= upserted_lines(orig, *values));
    let text = join_texts(&out, "\n");
    proof { reveal_strlit("\n"); }
    concat(text.as_str(), "\n")
}

proof fn lemma_section_end_bounds(ls: Seq<Seq<char>>, i: int)
    requires 0 <= i <= ls.len(),
    ensures i <= section_end_from(ls, i) <= ls.len(),
    decreases ls.len() - i,
{
    if i < ls.len() && !section_header(ls[i]) {
        lemma_section_end_bounds(ls, i + 1);
    }
}

proof fn lemma_header_bounds(ls: Seq<Seq<char>>, i: int)
    requires 0 <= i,
    ensures options_header_from(ls, i) matches Some(j) ==> i <= j < ls.len(),
    decreases ls.len() - i,
{
    if i < ls.len() && trim(ls[i]) != "[Options]"@ {
        lemma_header_bounds(ls, i + 1);
    }
}

proof fn lemma_header_found(ls: Seq<Seq<char>>, i: int)
    requires 0 <= i,
    ensures options_header_from(ls, i) matches Some(j) ==> trim(ls[j]) == "[Options]"@,
    decreases ls.len() - i,
{
    if i < ls.len() && trim(ls[i]) != "[Options]"@ {
        lemma_header_found(ls, i + 1);
    }
}

pub(crate) proof fn lemma_missing_has(entries: Seq<(Seq<char>, Seq<char>)>, ls: Seq<Seq<char>>, s: int, e: int, j: int)
    requires
        0 <= j < entries.len(),
        !set_between(ls, s, e, entries[j].0),
    ensures missing_lines(entries, ls, s, e).contains(option_line(entries[j].0, entries[j].1)),
    decreases entries.len(),
{
    let rest = missing_lines(entries.drop_last(), ls, s, e);
    if j == entries.len() - 1 {
        let m = rest.push(option_line(entries[j].0, entries[j].1));
        assert(m[rest.len() as int] == option_line(entries[j].0, entries[j].1));
    } else {
        assert(entries.drop_last()[j] == entries[j]);
        lemma_missing_has(entries.drop_last(), ls, s, e, j);
        let w = choose|w: int| 0 <= w < rest.len() && rest[w] == option_line(entries[j].0, entries[j].1);
        if !set_between(ls, s, e, entries.last().0) {
            assert(rest.push(option_line(entries.last().0, entries.last().1))[w] == rest[w]);
        }
    }
}

/// After an update, every option of `values` is written as `key=value` on a line
/// after the `[Options]` header, which stays where it was found (or ends the lines
/// it was added to).
pub proof fn lemma_upsert_sets_every_value(existing: Seq<char>, values: StrMap, key: Seq<char>)
    requires
        crate::strmap::sorted_keys(values@),
        values.map().dom().contains(key),
    ensures
        ({
            let ls = lines(existing);
            let out = upserted_lines(ls, values);
            &&& trim(out[options_start(ls)]) == "[Options]"@
            &&& exists|i: int| options_start(ls) < i < out.len() && out[i] == option_line(key, values.map()[key])
        }),
{
    let ls = lines(existing);
    let l = with_options_section(ls);
    let s = options_start(ls);
    lemma_header_bounds(ls, 0);
    reveal_strlit("[Options]");
    assert(0 <= s < l.len() && trim(l[s]) == "[Options]"@) by {
        if options_header_from(ls, 0) is None {
            assert(l.last() == "[Options]"@);
            assert(crate::text::trim_start("[Options]"@) == "[Options]"@);
            assert(crate::text::trim_end("[Options]"@) == "[Options]"@);
        } else {
            lemma_header_found(ls, 0);
        }
    }
    lemma_section_end_bounds(l, s + 1);
    let e = section_end_from(l, s + 1);
    let updated = Seq::new(l.len(), |i: int| if s < i < e { updated_line(l[i], values.map()) } else { l[i] });
    let m = missing_lines(values@, l, s, e);
    let out = updated.take(e) + m + updated.skip(e);
    assert(out == upserted_lines(ls, values));
    assert(out[s] == l[s]);
    crate::strmap::lemma_sorted_distinct(values@);
    crate::strmap::lemma_map_of_distinct(values@);
    let j = choose|j: int| 0 <= j < values@.len() && values@[j].0 == key;
    assert(values.map()[values@[j].0] == values@[j].1);
    let v = values.map()[key];
    if set_between(l, s, e, key) {
        let i = choose|i: int| s < i < e && option_key(#[trigger] l[i]) == Some(key);
        assert(updated[i] == option_line(key, v));
        assert(out[i] == updated[i]);
    } else {
        lemma_missing_has(values@, l, s, e, j);
        let w = choose|w: int| 0 <= w < m.len() && m[w] == option_line(key, v);
        assert(out[e + w] == m[w]);
    }
}

// ---------------------------------------------------------------- paths in the prefix

/// The number of bytes of `c` in UTF-8.
pub open spec fn utf8_width(c: char) -> int {
    if (c as u32) < 0x80 { 1 } else if (c as u32) < 0x800 { 2 } else if (c as u32) < 0x10000 { 3 } else { 4 }
}

/// Where the path part of a Windows path begins (byte 3, after `C:\`), counted in
/// characters; nothing where byte 3 is past the end or inside a character.
pub open spec fn path_part_start(t: Seq<char>) -> Option<int> {
    if t.len() >= 2 && utf8_width(t[1]) == 2 {
        Some(2)
    } else if t.len() >= 3 && utf8_width(t[1]) == 1 && utf8_width(t[2]) == 1 {
        Some(3)
    } else {
        None
    }
}

/// `parts` pushed one by one onto `base`; nothing if one of them is `.` or `..`.
pub open spec fn pushed_parts(base: Seq<char>, parts: Seq<Seq<char>>) -> Option<Seq<char>>
    decreases parts.len(),
{
    if parts.len() == 0 {
        Some(base)
    } else {
        match pushed_parts(base, parts.drop_last()) {
            Some(p) => {
                let part = parts.last();
                if part.len() == 0 {
                    Some(p)
                } else if part == seq!['.'] || part == seq!['.', '.'] {
                    None
                } else {
                    Some(path_join(p, part))
                }
            },
            None => None,
        }
    }
}

/// The host path of a Windows path inside the prefix: `C:` is the prefix's
/// `drive_c` and `Z:` the host's root; the path may be quoted, must not climb, and
/// its pieces are separated by `\` or `/`.
pub open spec fn prefix_path_of(prefix: Seq<char>, windows_path: Seq<char>) -> Option<Seq<char>> {
    let t = trim_char(trim(windows_path), '"');
    if t.len() == 0 {
        None
    } else {
        let drive = lower_char(t[0]);
        match path_part_start(t) {
            None => None,
            Some(st) => {
                let base = if drive == 'c' { Some(path_join(prefix, "drive_c"@)) }
                    else if drive == 'z' { Some("/"@) } else { None };
                match base {
                    Some(b) => pushed_parts(b, split_char(replace_char(t.skip(st), '\\', '/'), '/')),
                    None => None,
                }
            },
        }
    }
}

fn width(c: char) -> (r: u32)
    ensures r == utf8_width(c),
{
    let n = c as u32;
    if n < 0x80 { 1 } else if n < 0x800 { 2 } else if n < 0x10000 { 3 } else { 4 }
}

/// The host path of a Windows path inside the prefix.
pub fn prefix_path_from_windows_path(prefix: &str, windows_path: &str) -> (r: Option<String>)
    ensures crate::games::opt_text(r) == prefix_path_of(prefix@, windows_path@),
{
    let t = trim_char_text(trimmed(windows_path).as_str(), '"');
    let v = chars_of(t.as_str());
    if v.len() == 0 {
        return None;
    }
    let drive = crate::text::char_lower(v[0]);
    let st: usize = if v.len() >= 2 && width(v[1]) == 2 {
        2
    } else if v.len() >= 3 && width(v[1]) == 1 && width(v[2]) == 1 {
        3
    } else {
        return None;
    };
    proof { reveal_strlit("drive_c"); reveal_strlit("/"); }
    let mut path = if drive == 'c' {
        join(prefix, "drive_c")
    } else if drive == 'z' {
        "/".to_owned()
    } else {
        return None;
    };
    let tail = string_of(&v, st, v.len());
    let parts = split_char_text(replace_char_text(tail.as_str(), '\\', '/').as_str(), '/');
    let ghost base = path@;
    let ghost pv = parts.deep_view();
    assert(tail@ =~= t@.skip(st as int));
    assert(prefix_path_of(prefix@, windows_path@) == pushed_parts(base, pv));
    assert(pv.take(0) =~= Seq::<Seq<char>>::empty());
    let mut i: usize = 0;
    while i < parts.len()
        invariant
            i <= parts.len(),
            pv == parts.deep_view(),
            prefix_path_of(prefix@, windows_path@) == pushed_parts(base, pv),
            pushed_parts(base, pv.take(i as int)) == Some(path@),
        decreases parts.len() - i,
    {
        assert(pv.take(i + 1).drop_last() =~= pv.take(i as int));
        let p = chars_of(parts[i].as_str());
        if p.len() > 0 {
            let dot = (p.len() == 1 && p[0] == '.') || (p.len() == 2 && p[0] == '.' && p[1] == '.');
            proof {
                if p@.len() == 1 && p@[0] == '.' { assert(p@ =~= seq!['.']); }
                if p@.len() == 2 && p@[0] == '.' && p@[1] == '.' { assert(p@ =~= seq!['.', '.']); }
            }
            if dot {
                proof { lemma_pushed_none_stays(base, pv, i as int); }
                return None;
            }
            path = join(path.as_str(), parts[i].as_str());
        }
        i = i + 1;
    }
    assert(pv.take(i as int) =~= pv);
    Some(path)
}

proof fn lemma_pushed_none_stays(base: Seq<char>, parts: Seq<Seq<char>>, i: int)
    requires
        0 <= i < parts.len(),
        pushed_parts(base, parts.take(i + 1)) is None,
    ensures pushed_parts(base, parts) is None,
    decreases parts.len() - i,
{
    if i + 1 < parts.len() {
        assert(parts.take(i + 2).drop_last() =~= parts.take(i + 1));
        lemma_pushed_none_stays(base, parts, i + 1);
    } else {
        assert(parts.take(i + 1) =~= parts);
    }
}

// ---------------------------------------------------------------- the plan

/// Where a runtime options file is, and the options written into it.
#[derive(Debug)]
pub struct GameRuntimeProfilePlan {
    pub options_path: String,
    pub values: StrMap,
}

/// The runtime profile plan of Isaac.
pub type IsaacRuntimeProfilePlan = GameRuntimeProfilePlan;

/// The save directory a `savedatapath.txt` names: the first line that, trimmed,
/// begins with the profile's marker and whose rest is a path in the prefix.
pub open spec fn saved_path_from(ls: Seq<Seq<char>>, marker: Seq<char>, prefix: Seq<char>, i: int) -> Option<Seq<char>>
    decreases ls.len() - i,
{
    if i < 0 || i >= ls.len() {
        None
    } else if starts_with(trim(ls[i]), marker)
        && prefix_path_of(prefix, trim(ls[i]).skip(marker.len() as int)) is Some {
        prefix_path_of(prefix, trim(ls[i]).skip(marker.len() as int))
    } else {
        saved_path_from(ls, marker, prefix, i + 1)
    }
}

/// The save directory of a game: the one `savedatapath.txt` names, if it names one
/// the profile's marker finds; otherwise the profile's folder under the Wine user's
/// `Documents/My Games`.
pub open spec fn save_dir_of<P: GameProfile>(
    profile: P,
    prefix: Seq<char>,
    savedata_text: Option<Seq<char>>,
    user_dir: Seq<char>,
) -> core::result::Result<Seq<char>, Seq<char>> {
    match profile.spec_default_documents_subdir() {
        None => Err(profile.spec_name() + " has no save directory contract"@),
        Some(subdir) => {
            let found = match (savedata_text, profile.spec_savedata_path_marker()) {
                (Some(t), Some(m)) => saved_path_from(lines(t), m, prefix, 0),
                _ => None,
            };
            match found {
                Some(p) => Ok(p),
                None => Ok(path_join(path_join(user_dir, "Documents/My Games"@), subdir)),
            }
        },
    }
}

fn saved_path(text: &str, marker: &str, prefix: &str) -> (r: Option<String>)
    ensures crate::games::opt_text(r) == saved_path_from(lines(text@), marker@, prefix@, 0),
{
    let ls = lines_text(text);
    let m = chars_of(marker);
    let mut i: usize = 0;
    while i < ls.len()
        invariant
            i <= ls.len(),
            m@ == marker@,
            ls.deep_view() == lines(text@),
            saved_path_from(lines(text@), marker@, prefix@, 0) == saved_path_from(lines(text@), marker@, prefix@, i as int),
        decreases ls.len() - i,
    {
        let t = trimmed(ls[i].as_str());
        if starts_with_text(t.as_str(), marker) {
            let tv = chars_of(t.as_str());
            let rest = string_of(&tv, m.len(), tv.len());
            assert(rest@ =~= t@.skip(marker@.len() as int));
            match prefix_path_from_windows_path(prefix, rest.as_str()) {
                Some(p) => { return Some(p); }
                None => {}
            }
        }
        i = i + 1;
    }
    None
}

/// The save directory of a game in the runtime's prefix, given the text of
/// `savedatapath.txt` in its install (if it could be read) and the Wine user's
/// directory.
pub fn game_save_dir<P: GameProfile>(
    runtime: &WineSteamRuntime,
    profile: &P,
    savedata_text: Option<&str>,
    user_dir: &str,
) -> (r: Result<String>)
    ensures
        match r {
            Ok(p) => save_dir_of(*profile, runtime.prefix@, match savedata_text { Some(t) => Some(t@), None => None }, user_dir@) == Ok::<Seq<char>, Seq<char>>(p@),
            Err(e) => save_dir_of(*profile, runtime.prefix@, match savedata_text { Some(t) => Some(t@), None => None }, user_dir@) == Err::<Seq<char>, Seq<char>>(e.text()),
        },
{
    let subdir = match profile.default_documents_subdir() {
        Some(s) => s,
        None => {
            return Err(PortCellarError::message(concat(profile.name(), " has no save directory contract")));
        }
    };
    let found = match (savedata_text, profile.savedata_path_marker()) {
        (Some(t), Some(m)) => saved_path(t, m, runtime.prefix.as_str()),
        _ => None,
    };
    match found {
        Some(p) => Ok(p),
        None => Ok(join(join(user_dir, "Documents/My Games").as_str(), subdir)),
    }
}

/// Where the runtime options file of a game is: the profile's Windows path in the
/// prefix, or `options.ini` in its save directory; with the profile's options.
pub open spec fn options_path_of<P: GameProfile>(
    profile: P,
    runtime: WineSteamRuntime,
    savedata_text: Option<Seq<char>>,
    user_dir: Seq<char>,
) -> core::result::Result<Seq<char>, Seq<char>> {
    match profile.spec_runtime_options_path_hint() {
        Some(hint) => match prefix_path_of(runtime.prefix@, hint) {
            Some(p) => Ok(p),
            None => Err(profile.spec_name() + " has an invalid runtime options path: "@ + hint),
        },
        None => match runtime.game_install_dir {
            None => Err("Windows "@ + profile.spec_name() + " files were not found in the Wine Steam library"@),
            Some(_) => match save_dir_of(profile, runtime.prefix@, savedata_text, user_dir) {
                Ok(d) => Ok(path_join(d, "options.ini"@)),
                Err(e) => Err(e),
            },
        },
    }
}

/// The runtime profile plan of a game on a runtime: where its options file is and
/// the options written into it. `savedata_text` is the text of the install's
/// `savedatapath.txt`, if it could be read; `user_dir` the Wine user's directory.
pub fn game_runtime_profile_plan_for<P: GameProfile>(
    profile: &P,
    runtime: &WineSteamRuntime,
    savedata_text: Option<&str>,
    user_dir: &str,
) -> (r: Result<GameRuntimeProfilePlan>)
    ensures
        match r {
            Ok(plan) => options_path_of(*profile, *runtime, match savedata_text { Some(t) => Some(t@), None => None }, user_dir@)
                    == Ok::<Seq<char>, Seq<char>>(plan.options_path@)
                && plan.values@ == profile.spec_runtime_options(),
            Err(e) => options_path_of(*profile, *runtime, match savedata_text { Some(t) => Some(t@), None => None }, user_dir@)
                    == Err::<Seq<char>, Seq<char>>(e.text()),
        },
{
    let options_path = match profile.runtime_options_path_hint() {
        Some(hint) => match prefix_path_from_windows_path(runtime.prefix.as_str(), hint) {
            Some(p) => p,
            None => {
                return Err(PortCellarError::message(concat3(profile.name(), " has an invalid runtime options path: ", hint)));
            }
        },
        None => {
            if runtime.game_install_dir.is_none() {
                return Err(PortCellarError::message(concat3("Windows ", profile.name(),
                    " files were not found in the Wine Steam library")));
            }
            match game_save_dir(runtime, profile, savedata_text, user_dir) {
                Ok(d) => join(d.as_str(), "options.ini"),
                Err(e) => { return Err(e); }
            }
        }
    };
    Ok(GameRuntimeProfilePlan { options_path, values: profile.runtime_options() })
}

/// The Wine user's directory in a prefix's `drive_c/users`: the login user's, if it
/// is a directory; else the first directory found there; else `user`.
pub fn wine_user_dir(users_dir: &str, login_user_dir: Option<&str>, first_dir: Option<&str>) -> (r: String)
    ensures
        r@ == match login_user_dir {
            Some(d) => d@,
            None => match first_dir { Some(d) => d@, None => path_join(users_dir@, "user"@) },
        },
{
    match login_user_dir {
        Some(d) => d.to_owned(),
        None => match first_dir {
            Some(d) => d.to_owned(),
            None => join(users_dir, "user"),
        },
    }
}

} // verus!
