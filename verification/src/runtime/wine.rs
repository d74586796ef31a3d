//! Wine settings that are computed from plain values: flags, search paths, DLL
//! overrides, virtual desktops and prefix paths.
use vstd::prelude::*;
use crate::paths::{components, is_absolute, join, path_components, path_join};
use crate::text::{chars_of, concat3, lower, lowercase, push_char, same_text, split_char, split_char_text, trim, trimmed};

verus! {

/// Whether an environment flag's value turns it on: `1`, `true`, `yes` or `on`,
/// ignoring surrounding whitespace and ASCII case.
pub open spec fn flag_enabled(value: Seq<char>) -> bool {
    let v = lower(trim(value));
    v == "1"@ || v == "true"@ || v == "yes"@ || v == "on"@
}

/// Whether the flag value `value` turns a flag on.
pub fn env_flag_enabled(value: &str) -> (r: bool)
    ensures r == flag_enabled(value@),
{
    let t = trimmed(value);
    let v = lowercase(t.as_str());
    let s = v.as_str();
    same_text(s, "1") || same_text(s, "true") || same_text(s, "yes") || same_text(s, "on")
}

/// `parts`, each preceded by a backslash.
pub open spec fn backslashed(parts: Seq<Seq<char>>) -> Seq<char>
    decreases parts.len(),
{
    if parts.len() == 0 {
        Seq::empty()
    } else {
        backslashed(parts.drop_last()) + seq!['\\'] + parts.last()
    }
}

/// `Path::starts_with`: whether the components of `base` begin the components of
/// `path`, both absolute or both relative.
pub open spec fn has_base(base: Seq<char>, path: Seq<char>) -> bool {
    &&& is_absolute(base) == is_absolute(path)
    &&& components(base).len() <= components(path).len()
    &&& components(path).take(components(base).len() as int) == components(base)
}

/// The Windows path of a host path inside the prefix's `drive_c`, on drive `C:`.
pub open spec fn windows_in_prefix(prefix: Seq<char>, path: Seq<char>) -> Option<Seq<char>> {
    let base = path_join(prefix, "drive_c"@);
    if has_base(base, path) {
        Some("C:"@ + backslashed(components(path).skip(components(base).len() as int)))
    } else {
        None
    }
}

/// The pieces of `parts` other than `..`.
pub open spec fn without_parent_pieces(parts: Seq<Seq<char>>) -> Seq<Seq<char>>
    decreases parts.len(),
{
    if parts.len() == 0 {
        parts
    } else if parts.last() == seq!['.', '.'] {
        without_parent_pieces(parts.drop_last())
    } else {
        without_parent_pieces(parts.drop_last()).push(parts.last())
    }
}

/// The Windows path of an absolute host path outside the prefix, on drive `Z:`.
pub open spec fn windows_for_host(prefix: Seq<char>, path: Seq<char>) -> Option<Seq<char>> {
    if has_base(prefix, path) || !is_absolute(path) {
        None
    } else {
        Some("Z:"@ + backslashed(without_parent_pieces(components(path))))
    }
}

fn base_of(base: &str, path: &str) -> (r: bool)
    ensures r == has_base(base@, path@),
{
    let b = path_components(base);
    let p = path_components(path);
    let bv = chars_of(base);
    let pv = chars_of(path);
    let b_abs = bv.len() > 0 && bv[0] == '/';
    let p_abs = pv.len() > 0 && pv[0] == '/';
    if b_abs != p_abs || b.len() > p.len() {
        return false;
    }
    let mut i: usize = 0;
    while i < b.len()
        invariant
            i <= b.len() <= p.len(),
            b.deep_view() == components(base@),
            p.deep_view() == components(path@),
            forall|k: int| 0 <= k < i ==> b.deep_view()[k] == p.deep_view()[k],
        decreases b.len() - i,
    {
        if b[i] != p[i] {
            assert(p.deep_view().take(b.len() as int)[i as int] != b.deep_view()[i as int]);
            return false;
        }
        i = i + 1;
    }
    assert(p.deep_view().take(b.len() as int) =~= b.deep_view());
    true
}

fn backslashed_text(parts: &Vec<String>, from: usize) -> (r: String)
    requires from <= parts.len(),
    ensures r@ == backslashed(parts.deep_view().skip(from as int)),
{
    let mut out = String::new();
    let mut i: usize = from;
    assert(parts.deep_view().skip(from as int).take(0) =~= Seq::<Seq<char>>::empty());
    while i < parts.len()
        invariant
            from <= i <= parts.len(),
            out@ == backslashed(parts.deep_view().skip(from as int).take(i - from)),
        decreases parts.len() - i,
    {
        let ghost d = parts.deep_view().skip(from as int);
        assert(d.take(i + 1 - from).drop_last() =~= d.take(i - from));
        push_char(&mut out, '\\');
        out.append(parts[i].as_str());
        i = i + 1;
    }
    assert(parts.deep_view().skip(from as int).take(i - from) =~= parts.deep_view().skip(from as int));
    out
}

/// The `C:` path of `path` inside the prefix at `prefix`, if it lies in `drive_c`.
pub fn windows_path_in_prefix(prefix: &str, path: &str) -> (r: Option<String>)
    ensures
        match r {
            Some(w) => windows_in_prefix(prefix@, path@) == Some(w@),
            None => windows_in_prefix(prefix@, path@) is None,
        },
{
    proof { reveal_strlit("drive_c"); reveal_strlit("C:"); }
    let base = join(prefix, "drive_c");
    if !base_of(base.as_str(), path) {
        return None;
    }
    let p = path_components(path);
    let b = path_components(base.as_str());
    let mut out = "C:".to_owned();
    out.append(backslashed_text(&p, b.len()).as_str());
    Some(out)
}

/// The `Z:` path of an absolute host path that lies outside the prefix at `prefix`.
pub fn windows_path_for_host_path(prefix: &str, path: &str) -> (r: Option<String>)
    ensures
        match r {
            Some(w) => windows_for_host(prefix@, path@) == Some(w@),
            None => windows_for_host(prefix@, path@) is None,
        },
{
    proof { reveal_strlit("Z:"); }
    if base_of(prefix, path) {
        return None;
    }
    let pv = chars_of(path);
    if !(pv.len() > 0 && pv[0] == '/') {
        return None;
    }
    let parts = path_components(path);
    let mut kept: Vec<String> = Vec::new();
    let mut i: usize = 0;
    while i < parts.len()
        invariant
            i <= parts.len(),
            kept.deep_view() == without_parent_pieces(parts.deep_view().take(i as int)),
        decreases parts.len() - i,
    {
        assert(parts.deep_view().take(i + 1).drop_last() =~= parts.deep_view().take(i as int));
        let c = chars_of(parts[i].as_str());
        let dots = c.len() == 2 && c[0] == '.' && c[1] == '.';
        proof {
            if dots { assert(c@ =~= seq!['.', '.']); }
        }
        if !dots {
            let ghost before = kept.deep_view();
            kept.push(parts[i].clone());
            assert(kept.deep_view() =~= before.push(parts.deep_view()[i as int]));
        }
        i = i + 1;
    }
    assert(parts.deep_view().take(i as int) =~= parts.deep_view());
    let mut out = "Z:".to_owned();
    assert(kept.deep_view().skip(0) =~= kept.deep_view());
    out.append(backslashed_text(&kept, 0).as_str());
    Some(out)
}

/// Whether `item` is one of `items`.
pub open spec fn listed(items: Seq<Seq<char>>, item: Seq<char>) -> bool {
    exists|i: int| 0 <= i < items.len() && items[i] == item
}

/// `WINEDLLOVERRIDES` with `override_value` put in front of what was already set:
/// unset gives the override alone; an empty value, or one whose `;`-separated parts
/// already hold the override, stays as it is.
pub open spec fn prepended_override(override_value: Seq<char>, existing: Option<Seq<char>>) -> Seq<char> {
    match existing {
        None => override_value,
        Some(e) => if e.len() == 0 || listed(split_char(e, ';'), override_value) {
            e
        } else {
            override_value + ";"@ + e
        },
    }
}

/// Puts a DLL override in front of the `WINEDLLOVERRIDES` already set, once.
pub fn prepend_dll_override(override_value: &str, existing: Option<&str>) -> (r: String)
    ensures r@ == prepended_override(override_value@, match existing { Some(e) => Some(e@), None => None }),
{
    let e = match existing {
        None => { return override_value.to_owned(); }
        Some(e) => e,
    };
    if e.unicode_len() == 0 {
        return e.to_owned();
    }
    let parts = split_char_text(e, ';');
    let mut i: usize = 0;
    while i < parts.len()
        invariant
            i <= parts.len(),
            existing == Some(e),
            parts.deep_view() == split_char(e@, ';'),
            forall|k: int| 0 <= k < i ==> parts.deep_view()[k] != override_value@,
        decreases parts.len() - i,
    {
        if same_text(parts[i].as_str(), override_value) {
            assert(parts.deep_view()[i as int] == override_value@);
            assert(listed(split_char(e@, ';'), override_value@));
            return e.to_owned();
        }
        i = i + 1;
    }
    proof { reveal_strlit(";"); }
    concat3(override_value, ";", e)
}

/// The virtual desktop that a `PORTCELLAR_VIRTUAL_DESKTOP` value asks for: none for
/// an off value (`0`, `false`, `no`, `none`, `off`, `disabled`, ignoring whitespace
/// and ASCII case), the default size `1440x900` for an empty value or `auto`, and
/// otherwise the trimmed value.
pub open spec fn virtual_desktop_of(value: Seq<char>) -> Option<Seq<char>> {
    let t = trim(value);
    let l = lower(t);
    if l == "0"@ || l == "false"@ || l == "no"@ || l == "none"@ || l == "off"@ || l == "disabled"@ {
        None
    } else if t.len() == 0 || l == "auto"@ {
        Some("1440x900"@)
    } else {
        Some(t)
    }
}

/// The virtual desktop a setting's value asks for.
pub fn virtual_desktop_from_value(value: &str) -> (r: Option<String>)
    ensures
        match r {
            Some(s) => virtual_desktop_of(value@) == Some(s@),
            None => virtual_desktop_of(value@) is None,
        },
{
    let t = trimmed(value);
    let l = lowercase(t.as_str());
    let ls = l.as_str();
    if same_text(ls, "0") || same_text(ls, "false") || same_text(ls, "no") || same_text(ls, "none")
        || same_text(ls, "off") || same_text(ls, "disabled")
    {
        return None;
    }
    if t.unicode_len() == 0 || same_text(ls, "auto") {
        return Some("1440x900".to_owned());
    }
    Some(t)
}

/// A `:`-separated search path with `path` put in front of what was already set:
/// unset gives the path alone; an empty value, or one that already lists the path,
/// stays as it is.
pub open spec fn prepended_path(path: Seq<char>, existing: Option<Seq<char>>) -> Seq<char> {
    match existing {
        None => path,
        Some(e) => if e.len() == 0 || listed(split_char(e, ':'), path) {
            e
        } else {
            path + ":"@ + e
        },
    }
}

/// Puts a directory in front of a `:`-separated search path, once.
pub fn prepend_env_path(path: &str, existing: Option<&str>) -> (r: String)
    ensures r@ == prepended_path(path@, match existing { Some(e) => Some(e@), None => None }),
{
    let e = match existing {
        None => { return path.to_owned(); }
        Some(e) => e,
    };
    if e.unicode_len() == 0 {
        return e.to_owned();
    }
    let parts = split_char_text(e, ':');
    let mut i: usize = 0;
    while i < parts.len()
        invariant
            i <= parts.len(),
            existing == Some(e),
            parts.deep_view() == split_char(e@, ':'),
            forall|k: int| 0 <= k < i ==> parts.deep_view()[k] != path@,
        decreases parts.len() - i,
    {
        if same_text(parts[i].as_str(), path) {
            assert(parts.deep_view()[i as int] == path@);
            assert(listed(split_char(e@, ':'), path@));
            return e.to_owned();
        }
        i = i + 1;
    }
    proof { reveal_strlit(":"); }
    concat3(path, ":", e)
}

// ---------------------------------------------------------------- putting in front once

pub(crate) proof fn lemma_split_without_sep(s: Seq<char>, sep: char)
    requires !s.contains(sep),
    ensures split_char(s, sep) == seq![s],
    decreases s.len(),
{
    if s.len() == 0 {
        assert(s =~= Seq::<char>::empty());
        assert(split_char(s, sep) =~= seq![s]);
    } else {
        let d = s.drop_last();
        if d.contains(sep) {
            let i = choose|i: int| 0 <= i < d.len() && d[i] == sep;
            assert(s[i] == sep);
        }
        lemma_split_without_sep(d, sep);
        if s.last() == sep {
            assert(s[s.len() - 1] == sep);
            assert(s.contains(sep));
        }
        assert(s.last() != sep);
        let p = split_char(d, sep);
        assert(p == seq![d]);
        assert(split_char(s, sep) == p.update(p.len() - 1, p.last().push(s.last())));
        assert(d.push(s.last()) =~= s);
        assert(p.update(p.len() - 1, p.last().push(s.last())) =~= seq![s]);
    }
}

proof fn lemma_split_first_piece(s: Seq<char>, sep: char, k: int)
    requires
        0 <= k < s.len(),
        s[k] == sep,
        !s.take(k).contains(sep),
    ensures
        split_char(s, sep).len() >= 2,
        split_char(s, sep)[0] == s.take(k),
    decreases s.len(),
{
    let d = s.drop_last();
    if s.len() == k + 1 {
        assert(d =~= s.take(k));
        lemma_split_without_sep(s.take(k), sep);
    } else {
        assert(d.take(k) =~= s.take(k));
        lemma_split_first_piece(d, sep, k);
    }
}

/// Where `v` holds no `sep`, `v` is the first `sep`-separated piece of `v`, of `v`
/// followed by `sep` and anything, and so is listed among the pieces.
proof fn lemma_front_piece_listed(v: Seq<char>, rest: Option<Seq<char>>, sep: char)
    requires !v.contains(sep),
    ensures
        match rest {
            Some(x) => listed(split_char(v + seq![sep] + x, sep), v),
            None => listed(split_char(v, sep), v),
        },
{
    match rest {
        Some(x) => {
            let s = v + seq![sep] + x;
            assert(s[v.len() as int] == sep);
            assert(s.take(v.len() as int) =~= v);
            lemma_split_first_piece(s, sep, v.len() as int);
            assert(split_char(s, sep)[0] == v);
        }
        None => {
            lemma_split_without_sep(v, sep);
            assert(split_char(v, sep)[0] == v);
        }
    }
}

/// Putting a DLL override in front of `WINEDLLOVERRIDES` a second time changes
/// nothing, for an override that holds no `;` (the separator of the variable).
pub proof fn lemma_prepend_override_idempotent(v: Seq<char>, e: Option<Seq<char>>)
    requires !v.contains(';'),
    ensures prepended_override(v, Some(prepended_override(v, e))) == prepended_override(v, e),
{
    reveal_strlit(";");
    assert(";"@ =~= seq![';']);
    match e {
        None => {
            lemma_front_piece_listed(v, None, ';');
        }
        Some(x) => {
            if !(x.len() == 0 || listed(split_char(x, ';'), v)) {
                lemma_front_piece_listed(v, Some(x), ';');
            }
        }
    }
}

/// Putting a directory in front of a search path a second time changes nothing,
/// for a directory that holds no `:` (the separator of the path).
pub proof fn lemma_prepend_path_idempotent(path: Seq<char>, e: Option<Seq<char>>)
    requires !path.contains(':'),
    ensures prepended_path(path, Some(prepended_path(path, e))) == prepended_path(path, e),
{
    reveal_strlit(":");
    assert(":"@ =~= seq![':']);
    match e {
        None => {
            lemma_front_piece_listed(path, None, ':');
        }
        Some(x) => {
            if !(x.len() == 0 || listed(split_char(x, ':'), path)) {
                lemma_front_piece_listed(path, Some(x), ':');
            }
        }
    }
}

} // verus!
