//! Textual paths: joining, components, and the checks the library makes on them.
//!
//! Paths are Unix texts. A path's components are its `/`-separated pieces
//! without empty pieces and without `.`; an absolute path begins with the
//! root component `/`.
use vstd::prelude::*;
use crate::text::{chars_of, concat, join_texts, joined_with, push_char, same_text, split_char, split_char_text, string_of, trim, trimmed};

verus! {

/// `s` with every `from` replaced by `to`.
pub open spec fn replace_char(s: Seq<char>, from: char, to: char) -> Seq<char> {
    s.map_values(|c: char| if c == from { to } else { c })
}

/// `str::replace` with one character for one character.
pub fn replace_char_text(value: &str, from: char, to: char) -> (r: String)
    ensures r@ == replace_char(value@, from, to),
{
    let v = chars_of(value);
    let mut out = String::new();
    let mut i: usize = 0;
    while i < v.len()
        invariant
            v@ == value@,
            i <= v.len(),
            out@ =~= replace_char(value@, from, to).take(i as int),
        decreases v.len() - i,
    {
        let c = v[i];
        if c == from { push_char(&mut out, to); } else { push_char(&mut out, c); }
        i = i + 1;
    }
    assert(replace_char(value@, from, to).take(v.len() as int) =~= replace_char(value@, from, to));
    out
}

/// Whether `s` is an absolute path.
pub open spec fn is_absolute(s: Seq<char>) -> bool {
    s.len() > 0 && s[0] == '/'
}

/// `Path::join`: `b` when it is absolute, and otherwise `b` below `a`.
pub open spec fn path_join(a: Seq<char>, b: Seq<char>) -> Seq<char> {
    if is_absolute(b) {
        b
    } else if a.len() == 0 {
        b
    } else if a.last() == '/' {
        a + b
    } else {
        a + seq!['/'] + b
    }
}

/// `b` below `a`.
pub fn join(a: &str, b: &str) -> (r: String)
    ensures r@ == path_join(a@, b@),
{
    let bv = chars_of(b);
    if bv.len() > 0 && bv[0] == '/' {
        return b.to_owned();
    }
    let av = chars_of(a);
    if av.len() == 0 {
        return b.to_owned();
    }
    if av[av.len() - 1] == '/' {
        return concat(a, b);
    }
    let mut out = a.to_owned();
    push_char(&mut out, '/');
    out.append(b);
    assert(out@ =~= a@ + seq!['/'] + b@);
    out
}

/// Whether a `/`-separated piece is a component (neither empty nor `.`).
pub open spec fn is_component(p: Seq<char>) -> bool {
    p.len() > 0 && p != seq!['.']
}

/// The pieces of `parts` that are components, in order.
pub open spec fn keep_components(parts: Seq<Seq<char>>) -> Seq<Seq<char>>
    decreases parts.len(),
{
    if parts.len() == 0 {
        parts
    } else if is_component(parts.last()) {
        keep_components(parts.drop_last()).push(parts.last())
    } else {
        keep_components(parts.drop_last())
    }
}

/// The components of `s` after its root.
pub open spec fn components(s: Seq<char>) -> Seq<Seq<char>> {
    keep_components(split_char(s, '/'))
}

fn is_dot(v: &String) -> (r: bool)
    ensures r == (v@ == seq!['.']),
{
    let c = chars_of(v.as_str());
    let r = c.len() == 1 && c[0] == '.';
    proof { if c@.len() == 1 && c@[0] == '.' { assert(c@ =~= seq!['.']); } }
    r
}

/// The components of `path` after its root.
pub fn path_components(path: &str) -> (r: Vec<String>)
    ensures r.deep_view() == components(path@),
{
    let parts = split_char_text(path, '/');
    let mut out: Vec<String> = Vec::new();
    let mut i: usize = 0;
    while i < parts.len()
        invariant
            i <= parts.len(),
            parts.deep_view() == split_char(path@, '/'),
            out.deep_view() == keep_components(parts.deep_view().take(i as int)),
        decreases parts.len() - i,
    {
        let p = &parts[i];
        proof { assert(parts.deep_view().take(i + 1).drop_last() =~= parts.deep_view().take(i as int)); }
        if p.as_str().unicode_len() > 0 && !is_dot(p) {
            let ghost before = out.deep_view();
            out.push(p.clone());
            assert(out.deep_view() =~= before.push(p@));
        }
        i = i + 1;
    }
    assert(parts.deep_view().take(parts.len() as int) =~= parts.deep_view());
    out
}

/// Whether some `/`-separated piece of `s` is `..`.
pub open spec fn has_parent_piece(s: Seq<char>) -> bool {
    exists|i: int| 0 <= i < split_char(s, '/').len() && #[trigger] split_char(s, '/')[i] == seq!['.', '.']
}

fn is_dot_dot(v: &String) -> (r: bool)
    ensures r == (v@ == seq!['.', '.']),
{
    let c = chars_of(v.as_str());
    let r = c.len() == 2 && c[0] == '.' && c[1] == '.';
    proof { if r { assert(c@ =~= seq!['.', '.']); } }
    r
}

/// Whether some `/`-separated piece of `value` is `..`.
pub fn has_parent_piece_text(value: &str) -> (r: bool)
    ensures r == has_parent_piece(value@),
{
    let parts = split_char_text(value, '/');
    let mut i: usize = 0;
    while i < parts.len()
        invariant
            i <= parts.len(),
            parts.deep_view() == split_char(value@, '/'),
            forall|k: int| 0 <= k < i ==> parts.deep_view()[k] != seq!['.', '.'],
        decreases parts.len() - i,
    {
        if is_dot_dot(&parts[i]) {
            assert(split_char(value@, '/')[i as int] == seq!['.', '.']);
            return true;
        }
        i = i + 1;
    }
    false
}

/// Whether `s` is a non-empty relative path that never climbs with `..`.
pub open spec fn relative_path_ok(s: Seq<char>) -> bool {
    trim(s).len() > 0 && !is_absolute(s) && !has_parent_piece(s)
}

/// Whether `value` is a non-empty relative path that never climbs with `..`.
pub fn is_safe_relative_path(value: &str) -> (r: bool)
    ensures r == relative_path_ok(value@),
{
    let t = trimmed(value);
    if t.as_str().unicode_len() == 0 {
        return false;
    }
    let v = chars_of(value);
    if v.len() > 0 && v[0] == '/' {
        return false;
    }
    !has_parent_piece_text(value)
}

/// Whether the component before the last one of `s` is `name`.
pub open spec fn parent_name_is(s: Seq<char>, name: Seq<char>) -> bool {
    let c = components(s);
    c.len() >= 2 && c[c.len() - 2] == name
}

/// Whether the parent directory of `path` is named `name`.
pub fn parent_named(path: &str, name: &str) -> (r: bool)
    ensures r == parent_name_is(path@, name@),
{
    let c = path_components(path);
    if c.len() < 2 {
        return false;
    }
    let n = name.to_owned();
    c[c.len() - 2] == n
}

/// Whether the last component of `s` is `name`.
pub open spec fn last_name_is(s: Seq<char>, name: Seq<char>) -> bool {
    let c = components(s);
    c.len() >= 1 && c.last() == name
}

/// Whether the last component of `path` is `name`.
pub fn file_named(path: &str, name: &str) -> (r: bool)
    ensures r == last_name_is(path@, name@),
{
    let c = path_components(path);
    if c.len() < 1 {
        return false;
    }
    let n = name.to_owned();
    c[c.len() - 1] == n
}

/// `parts` joined by `/`.
pub open spec fn joined(parts: Seq<Seq<char>>) -> Seq<char>
    decreases parts.len(),
{
    if parts.len() == 0 {
        Seq::empty()
    } else if parts.len() == 1 {
        parts[0]
    } else {
        joined(parts.drop_last()) + seq!['/'] + parts.last()
    }
}

/// The path made of `parts`, below the root when `absolute`.
pub open spec fn rebuild(parts: Seq<Seq<char>>, absolute: bool) -> Seq<char> {
    if absolute { seq!['/'] + joined(parts) } else { joined(parts) }
}

/// `Path::parent`: the path without its last component, or nothing for a path with
/// no components (the root, or the empty path). The result is written in normal form.
pub open spec fn parent_of(s: Seq<char>) -> Option<Seq<char>> {
    let c = components(s);
    if c.len() == 0 { None } else { Some(rebuild(c.drop_last(), is_absolute(s))) }
}

fn joined_text(parts: &Vec<String>, n: usize) -> (r: String)
    requires n <= parts.len(),
    ensures r@ == joined(parts.deep_view().take(n as int)),
    decreases n,
{
    if n == 0 {
        assert(parts.deep_view().take(0) =~= Seq::<Seq<char>>::empty());
        return String::new();
    }
    if n == 1 {
        assert(parts.deep_view().take(1)[0] == parts.deep_view()[0]);
        return parts[0].clone();
    }
    let mut out = joined_text(parts, n - 1);
    push_char(&mut out, '/');
    out.append(parts[n - 1].as_str());
    assert(parts.deep_view().take(n as int).drop_last() =~= parts.deep_view().take(n - 1));
    out
}

/// The parent of `path`, written in normal form.
pub fn parent_path(path: &str) -> (r: Option<String>)
    ensures
        match r {
            Some(p) => parent_of(path@) == Some(p@),
            None => parent_of(path@) is None,
        },
{
    let c = path_components(path);
    if c.len() == 0 {
        return None;
    }
    let inner = joined_text(&c, c.len() - 1);
    assert(c.deep_view().take(c.len() - 1) =~= components(path@).drop_last());
    let v = chars_of(path);
    if v.len() > 0 && v[0] == '/' {
        let mut out = String::new();
        push_char(&mut out, '/');
        out.append(inner.as_str());
        Some(out)
    } else {
        Some(inner)
    }
}

/// The position of the last `c` in `s`, or -1.
pub open spec fn last_index_of(s: Seq<char>, c: char) -> int
    decreases s.len(),
{
    if s.len() == 0 {
        -1
    } else if s.last() == c {
        s.len() - 1
    } else {
        last_index_of(s.drop_last(), c)
    }
}

/// `Path::extension`: the text after the last `.` of the file name, where the name
/// does not begin with that dot; nothing for a path without a file name.
pub open spec fn extension_of(s: Seq<char>) -> Option<Seq<char>> {
    let c = components(s);
    if c.len() == 0 || c.last() == seq!['.', '.'] {
        None
    } else {
        let n = c.last();
        let d = last_index_of(n, '.');
        if d <= 0 { None } else { Some(n.skip(d + 1)) }
    }
}

proof fn lemma_last_index_bounds(s: Seq<char>, c: char)
    ensures
        -1 <= last_index_of(s, c) < s.len(),
        last_index_of(s, c) >= 0 ==> s[last_index_of(s, c)] == c,
        forall|k: int| last_index_of(s, c) < k < s.len() ==> s[k] != c,
    decreases s.len(),
{
    if s.len() > 0 && s.last() != c {
        lemma_last_index_bounds(s.drop_last(), c);
        assert forall|k: int| last_index_of(s, c) < k < s.len() implies s[k] != c by {
            if k < s.len() - 1 {
                assert(s.drop_last()[k] == s[k]);
            }
        }
    }
}

/// The extension of `path`'s file name.
pub fn path_extension(path: &str) -> (r: Option<String>)
    ensures
        match r {
            Some(e) => extension_of(path@) == Some(e@),
            None => extension_of(path@) is None,
        },
{
    let c = path_components(path);
    if c.len() == 0 {
        return None;
    }
    let n = chars_of(c[c.len() - 1].as_str());
    if n.len() == 2 && n[0] == '.' && n[1] == '.' {
        assert(n@ =~= seq!['.', '.']);
        return None;
    }
    proof {
        if n@ == seq!['.', '.'] { assert(n@.len() == 2 && n@[0] == '.' && n@[1] == '.'); }
        lemma_last_index_bounds(n@, '.');
    }
    let mut i: usize = n.len();
    while i > 0 && n[i - 1] != '.'
        invariant
            i <= n.len(),
            forall|k: int| i <= k < n.len() ==> n@[k] != '.',
        decreases i,
    {
        i = i - 1;
    }
    proof {
        let d = last_index_of(n@, '.');
        if i > 0 {
            assert(n@[i - 1] == '.');
            assert(d >= i - 1);
            assert(d == i - 1);
        } else {
            assert(d == -1);
        }
    }
    if i <= 1 {
        return None;
    }
    Some(string_of(&n, i, n.len()))
}

/// Whether `path` lies at or below `root`, component by component.
pub open spec fn below_root(root: Seq<char>, path: Seq<char>) -> bool {
    let r = components(root);
    let p = components(path);
    is_absolute(root) == is_absolute(path) && r.len() <= p.len() && p.take(r.len() as int) == r
}

/// How a file is shown relative to a directory it was found under: its components
/// below `root` joined by `/`; a path outside `root` shows all its components, an
/// absolute one after its root (`/`), itself written as a component.
pub open spec fn relative_display_of(root: Seq<char>, path: Seq<char>) -> Seq<char> {
    let p = components(path);
    if below_root(root, path) {
        joined_with(p.skip(components(root).len() as int), "/"@)
    } else if is_absolute(path) {
        if p.len() == 0 { "/"@ } else { "//"@ + joined_with(p, "/"@) }
    } else {
        joined_with(p, "/"@)
    }
}

fn starts_with_parts(pc: &Vec<String>, rc: &Vec<String>) -> (r: bool)
    requires rc.len() <= pc.len(),
    ensures r == (pc.deep_view().take(rc.len() as int) == rc.deep_view()),
{
    let mut i: usize = 0;
    while i < rc.len()
        invariant
            rc.len() <= pc.len(),
            i <= rc.len(),
            forall|k: int| 0 <= k < i ==> pc.deep_view()[k] == rc.deep_view()[k],
        decreases rc.len() - i,
    {
        if !same_text(rc[i].as_str(), pc[i].as_str()) {
            assert(pc.deep_view().take(rc.len() as int)[i as int] != rc.deep_view()[i as int]);
            return false;
        }
        i = i + 1;
    }
    assert(pc.deep_view().take(rc.len() as int) =~= rc.deep_view());
    true
}

/// How `path` is shown relative to `root`.
pub fn relative_display(root: &str, path: &str) -> (r: String)
    ensures r@ == relative_display_of(root@, path@),
{
    let rc = path_components(root);
    let pc = path_components(path);
    let rv = chars_of(root);
    let pv = chars_of(path);
    let root_abs = rv.len() > 0 && rv[0] == '/';
    let path_abs = pv.len() > 0 && pv[0] == '/';
    proof { reveal_strlit("/"); reveal_strlit("//"); }
    let below = root_abs == path_abs && rc.len() <= pc.len() && starts_with_parts(&pc, &rc);
    if below {
        let mut rest: Vec<String> = Vec::new();
        let mut k: usize = rc.len();
        while k < pc.len()
            invariant
                rc.len() <= k <= pc.len(),
                rest.deep_view() == pc.deep_view().subrange(rc.len() as int, k as int),
            decreases pc.len() - k,
        {
            let ghost before = rest.deep_view();
            let item = pc[k].clone();
            rest.push(item);
            assert(rest.deep_view() =~= before.push(pc.deep_view()[k as int]));
            assert(pc.deep_view().subrange(rc.len() as int, k + 1)
                =~= pc.deep_view().subrange(rc.len() as int, k as int).push(pc.deep_view()[k as int]));
            k = k + 1;
        }
        assert(pc.deep_view().subrange(rc.len() as int, k as int) =~= pc.deep_view().skip(rc.len() as int));
        join_texts(&rest, "/")
    } else if path_abs {
        if pc.len() == 0 {
            "/".to_owned()
        } else {
            concat("//", join_texts(&pc, "/").as_str())
        }
    } else {
        join_texts(&pc, "/")
    }
}

/// Whether `path` lies at or below `root`, component by component.
pub fn is_below(root: &str, path: &str) -> (r: bool)
    ensures r == below_root(root@, path@),
{
    let rc = path_components(root);
    let pc = path_components(path);
    let rv = chars_of(root);
    let pv = chars_of(path);
    let root_abs = rv.len() > 0 && rv[0] == '/';
    let path_abs = pv.len() > 0 && pv[0] == '/';
    root_abs == path_abs && rc.len() <= pc.len() && starts_with_parts(&pc, &rc)
}

} // verus!
