//! Steam's key-value text (`.vdf` and `.acf` files): each line's quoted tokens.
use vstd::prelude::*;
use crate::strmap::StrMap;
use crate::text::{chars_of, lines, lines_text, push_char, same_text};

verus! {

/// The tokens of `s` from position `i` on, read outside any quotes.
pub open spec fn tokens_outside(s: Seq<char>, i: int) -> Seq<Seq<char>>
    decreases s.len() - i, 1int,
{
    if i < 0 || i >= s.len() {
        Seq::empty()
    } else if s[i] == '"' {
        tokens_inside(s, i + 1, Seq::empty())
    } else {
        tokens_outside(s, i + 1)
    }
}

/// The tokens of `s` from position `i` on, inside a quoted token that holds `token`
/// so far: a backslash takes the next character as it is, a quote ends the token,
/// and the end of the line ends it too.
pub open spec fn tokens_inside(s: Seq<char>, i: int, token: Seq<char>) -> Seq<Seq<char>>
    decreases s.len() - i, 0int,
{
    if i < 0 || i >= s.len() {
        seq![token]
    } else if s[i] == '"' {
        seq![token] + tokens_outside(s, i + 1)
    } else if s[i] == '\\' {
        if i + 1 < s.len() { tokens_inside(s, i + 2, token.push(s[i + 1])) } else { seq![token] }
    } else {
        tokens_inside(s, i + 1, token.push(s[i]))
    }
}

/// The quoted tokens of a line.
pub open spec fn quoted(line: Seq<char>) -> Seq<Seq<char>> {
    tokens_outside(line, 0)
}

/// The quoted tokens of a line, unescaped.
pub fn quoted_tokens(line: &str) -> (r: Vec<String>)
    ensures r.deep_view() == quoted(line@),
{
    let v = chars_of(line);
    let mut tokens: Vec<String> = Vec::new();
    let mut token = String::new();
    let mut inside = false;
    let mut i: usize = 0;
    while i < v.len()
        invariant
            v@ == line@,
            i <= v.len(),
            !inside ==> token@.len() == 0,
            quoted(line@) == tokens.deep_view() + if inside {
                tokens_inside(line@, i as int, token@)
            } else {
                tokens_outside(line@, i as int)
            },
        decreases v.len() - i,
    {
        let c = v[i];
        let ghost before = tokens.deep_view();
        if !inside {
            if c == '"' {
                assert(token@ =~= Seq::<char>::empty());
                inside = true;
            }
            i = i + 1;
        } else if c == '"' {
            let done = token;
            tokens.push(done);
            token = String::new();
            inside = false;
            assert(tokens.deep_view() + tokens_outside(line@, i + 1) =~= before + (seq![done@] + tokens_outside(line@, i + 1)));
            i = i + 1;
        } else if c == '\\' {
            if i + 1 < v.len() {
                let ghost t0 = token@;
                push_char(&mut token, v[i + 1]);
                assert(tokens_inside(line@, i as int, t0) == tokens_inside(line@, i + 2, t0.push(line@[i + 1])));
                i = i + 2;
            } else {
                i = i + 1;
                assert(tokens_inside(line@, i as int, token@) == seq![token@]);
            }
        } else {
            let ghost t0 = token@;
            push_char(&mut token, c);
            assert(tokens_inside(line@, i as int, t0) == tokens_inside(line@, i + 1, t0.push(c)));
            i = i + 1;
        }
    }
    if inside {
        let ghost before = tokens.deep_view();
        tokens.push(token);
        assert(tokens.deep_view() =~= before + seq![token@]);
    } else {
        assert(tokens.deep_view() =~= tokens.deep_view() + Seq::<Seq<char>>::empty());
    }
    tokens
}

/// The keys and values of the lines of a key-value text: each line whose quoted
/// tokens are two or more stores its second token under its first; a later line
/// replaces an earlier one with the same key.
pub open spec fn key_values(ls: Seq<Seq<char>>) -> Map<Seq<char>, Seq<char>>
    decreases ls.len(),
{
    if ls.len() == 0 {
        Map::empty()
    } else {
        let m = key_values(ls.drop_last());
        let t = quoted(ls.last());
        if t.len() >= 2 { m.insert(t[0], t[1]) } else { m }
    }
}

/// The keys and values of a key-value text.
pub fn parse_key_values(text: &str) -> (r: StrMap)
    ensures r.map() == key_values(lines(text@)),
{
    let ls = lines_text(text);
    let mut values = StrMap::new();
    assert(values.map() =~= Map::<Seq<char>, Seq<char>>::empty());
    let mut i: usize = 0;
    while i < ls.len()
        invariant
            i <= ls.len(),
            ls.deep_view() == lines(text@),
            values.map() == key_values(ls.deep_view().take(i as int)),
        decreases ls.len() - i,
    {
        let tokens = quoted_tokens(ls[i].as_str());
        assert(ls.deep_view().take(i + 1).drop_last() =~= ls.deep_view().take(i as int));
        if tokens.len() >= 2 {
            values.insert(tokens[0].clone(), tokens[1].clone());
        }
        i = i + 1;
    }
    assert(ls.deep_view().take(i as int) =~= ls.deep_view());
    values
}

/// The second tokens of the lines whose first token is `key`, in order.
pub open spec fn values_of_key(ls: Seq<Seq<char>>, key: Seq<char>) -> Seq<Seq<char>>
    decreases ls.len(),
{
    if ls.len() == 0 {
        Seq::empty()
    } else {
        let t = quoted(ls.last());
        let rest = values_of_key(ls.drop_last(), key);
        if t.len() >= 2 && t[0] == key { rest.push(t[1]) } else { rest }
    }
}

/// The values stored under `key` on the lines of a key-value text, in order.
pub fn values_for_key(text: &str, key: &str) -> (r: Vec<String>)
    ensures r.deep_view() == values_of_key(lines(text@), key@),
{
    let ls = lines_text(text);
    let mut out: Vec<String> = Vec::new();
    let mut i: usize = 0;
    while i < ls.len()
        invariant
            i <= ls.len(),
            ls.deep_view() == lines(text@),
            out.deep_view() == values_of_key(ls.deep_view().take(i as int), key@),
        decreases ls.len() - i,
    {
        let tokens = quoted_tokens(ls[i].as_str());
        assert(ls.deep_view().take(i + 1).drop_last() =~= ls.deep_view().take(i as int));
        if tokens.len() >= 2 && same_text(tokens[0].as_str(), key) {
            let ghost before = out.deep_view();
            out.push(tokens[1].clone());
            assert(out.deep_view() =~= before.push(tokens.deep_view()[1]));
        }
        i = i + 1;
    }
    assert(ls.deep_view().take(i as int) =~= ls.deep_view());
    out
}

} // verus!
