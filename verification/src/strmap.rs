//! An ordered map from text to text, kept sorted by key.
//!
//! It plays the part of `BTreeMap<String, String>`: keys are unique and are
//! visited in lexicographic order of their characters, which is the order of
//! their UTF-8 bytes.
use vstd::prelude::*;

verus! {

/// Lexicographic order on texts (by code point).
pub open spec fn text_lt(a: Seq<char>, b: Seq<char>) -> bool
    decreases a.len(),
{
    if a.len() == 0 {
        b.len() > 0
    } else if b.len() == 0 {
        false
    } else if a[0] != b[0] {
        a[0] < b[0]
    } else {
        text_lt(a.drop_first(), b.drop_first())
    }
}

pub proof fn lemma_text_lt_irreflexive(a: Seq<char>)
    ensures !text_lt(a, a),
    decreases a.len(),
{
    if a.len() > 0 {
        lemma_text_lt_irreflexive(a.drop_first());
    }
}

pub proof fn lemma_text_lt_total(a: Seq<char>, b: Seq<char>)
    ensures a == b || text_lt(a, b) || text_lt(b, a),
    decreases a.len(),
{
    if a.len() > 0 && b.len() > 0 && a[0] == b[0] {
        lemma_text_lt_total(a.drop_first(), b.drop_first());
        if a.drop_first() == b.drop_first() {
            assert(a =~= seq![a[0]] + a.drop_first());
            assert(b =~= seq![b[0]] + b.drop_first());
        }
    } else if a.len() == 0 && b.len() == 0 {
        assert(a =~= b);
    }
}

pub proof fn lemma_text_lt_asymmetric(a: Seq<char>, b: Seq<char>)
    requires text_lt(a, b),
    ensures !text_lt(b, a),
    decreases a.len(),
{
    if a.len() > 0 && b.len() > 0 && a[0] == b[0] {
        lemma_text_lt_asymmetric(a.drop_first(), b.drop_first());
    }
}

pub proof fn lemma_text_lt_transitive(a: Seq<char>, b: Seq<char>, c: Seq<char>)
    requires text_lt(a, b), text_lt(b, c),
    ensures text_lt(a, c),
    decreases a.len(),
{
    if a.len() > 0 && b.len() > 0 && c.len() > 0 && a[0] == b[0] && b[0] == c[0] {
        lemma_text_lt_transitive(a.drop_first(), b.drop_first(), c.drop_first());
    }
}

/// Whether `a` precedes `b` in lexicographic order.
pub fn text_less(a: &Vec<char>, b: &Vec<char>) -> (r: bool)
    ensures r == text_lt(a@, b@),
{
    let mut i: usize = 0;
    assert(a@.skip(0) =~= a@);
    assert(b@.skip(0) =~= b@);
    while i < a.len() && i < b.len() && a[i] == b[i]
        invariant
            i <= a.len(),
            i <= b.len(),
            text_lt(a@.skip(i as int), b@.skip(i as int)) == text_lt(a@, b@),
        decreases a.len() - i,
    {
        proof {
            assert(a@.skip(i as int).drop_first() =~= a@.skip(i + 1));
            assert(b@.skip(i as int).drop_first() =~= b@.skip(i + 1));
        }
        i = i + 1;
    }
    proof {
        if i == 0 {
            assert(a@.skip(0) =~= a@);
            assert(b@.skip(0) =~= b@);
        }
    }
    if i == a.len() {
        i < b.len()
    } else if i == b.len() {
        false
    } else {
        a[i] < b[i]
    }
}

/// The keys of `entries`, in order.
pub open spec fn keys_of(entries: Seq<(Seq<char>, Seq<char>)>) -> Seq<Seq<char>> {
    entries.map_values(|e: (Seq<char>, Seq<char>)| e.0)
}

/// Whether the keys of `entries` are strictly increasing.
pub open spec fn sorted_keys(entries: Seq<(Seq<char>, Seq<char>)>) -> bool {
    forall|i: int, j: int| 0 <= i < j < entries.len() ==> text_lt(#[trigger] entries[i].0, #[trigger] entries[j].0)
}

/// The map that `entries` denotes.
pub open spec fn map_of(entries: Seq<(Seq<char>, Seq<char>)>) -> Map<Seq<char>, Seq<char>>
    decreases entries.len(),
{
    if entries.len() == 0 {
        Map::empty()
    } else {
        map_of(entries.drop_last()).insert(entries.last().0, entries.last().1)
    }
}

/// An ordered text map.
#[derive(Debug)]
pub struct StrMap {
    entries: Vec<(String, String)>,
}

impl Clone for StrMap {
    fn clone(&self) -> (r: Self)
        ensures r@ == self@,
    {
        let mut out: Vec<(String, String)> = Vec::new();
        let mut i: usize = 0;
        while i < self.entries.len()
            invariant
                i <= self.entries.len(),
                out@.len() == i,
                forall|k: int| 0 <= k < i ==> (#[trigger] out@[k]).0@ == self.entries@[k].0@
                    && out@[k].1@ == self.entries@[k].1@,
            decreases self.entries.len() - i,
        {
            let k = self.entries[i].0.clone();
            let v = self.entries[i].1.clone();
            out.push((k, v));
            i = i + 1;
        }
        proof { use_type_invariant(self); }
        assert(out@.map_values(|e: (String, String)| (e.0@, e.1@)) =~= self@);
        let r = StrMap { entries: out };
        r
    }
}

impl View for StrMap {
    type V = Seq<(Seq<char>, Seq<char>)>;

    /// The entries, in key order.
    closed spec fn view(&self) -> Seq<(Seq<char>, Seq<char>)> {
        self.entries@.map_values(|e: (String, String)| (e.0@, e.1@))
    }
}

impl StrMap {
    /// Keys strictly increase.
    #[verifier::type_invariant]
    spec fn inv(self) -> bool {
        sorted_keys(self@)
    }

    /// The map this value denotes.
    pub open spec fn map(&self) -> Map<Seq<char>, Seq<char>> {
        map_of(self@)
    }

    /// An empty map.
    pub fn new() -> (r: Self)
        ensures r@ == Seq::<(Seq<char>, Seq<char>)>::empty(),
    {
        let r = StrMap { entries: Vec::new() };
        assert(r@ =~= Seq::<(Seq<char>, Seq<char>)>::empty());
        r
    }

    /// The number of entries.
    pub fn len(&self) -> (r: usize)
        ensures r == self@.len(),
    {
        self.entries.len()
    }

    /// Whether there are no entries.
    pub fn is_empty(&self) -> (r: bool)
        ensures r == (self@.len() == 0),
    {
        self.entries.len() == 0
    }

    /// The key of entry `i`.
    pub fn key_at(&self, i: usize) -> (r: &String)
        requires i < self@.len(),
        ensures r@ == self@[i as int].0,
    {
        &self.entries[i].0
    }

    /// The value of entry `i`.
    pub fn value_at(&self, i: usize) -> (r: &String)
        requires i < self@.len(),
        ensures r@ == self@[i as int].1,
    {
        &self.entries[i].1
    }

    /// The position of the first entry whose key is not below `key`.
    fn lower_bound(&self, key: &Vec<char>) -> (r: usize)
        ensures
            r <= self@.len(),
            forall|i: int| 0 <= i < r ==> text_lt(#[trigger] self@[i].0, key@),
            r < self@.len() ==> !text_lt(self@[r as int].0, key@),
    {
        let mut i: usize = 0;
        while i < self.entries.len()
            invariant
                i <= self.entries.len(),
                forall|j: int| 0 <= j < i ==> text_lt(#[trigger] self@[j].0, key@),
            decreases self.entries.len() - i,
        {
            let k = crate::text::chars_of(self.entries[i].0.as_str());
            if !text_less(&k, key) {
                return i;
            }
            i = i + 1;
        }
        i
    }

    /// The value stored for `key`, if any.
    pub fn get(&self, key: &str) -> (r: Option<&String>)
        ensures
            match r {
                Some(v) => exists|i: int| 0 <= i < self@.len() && self@[i].0 == key@ && self@[i].1 == v@,
                None => forall|i: int| 0 <= i < self@.len() ==> self@[i].0 != key@,
            },
            match r {
                Some(v) => self.map().dom().contains(key@) && self.map()[key@] == v@,
                None => !self.map().dom().contains(key@),
            },
    {
        proof {
            use_type_invariant(self);
            lemma_sorted_distinct(self@);
            lemma_map_of_distinct(self@);
        }
        let k = crate::text::chars_of(key);
        let p = self.lower_bound(&k);
        if p < self.entries.len() {
            let pk = crate::text::chars_of(self.entries[p].0.as_str());
            if !text_less(&k, &pk) {
                proof { lemma_text_lt_total(pk@, k@); }
                assert(self@[p as int].0 == key@);
                return Some(&self.entries[p].1);
            }
            proof {
                assert forall|i: int| 0 <= i < self@.len() implies self@[i].0 != key@ by {
                    if i >= p {
                        if i > p {
                            lemma_text_lt_transitive(key@, self@[p as int].0, self@[i].0);
                        }
                        lemma_text_lt_irreflexive(key@);
                    } else {
                        lemma_text_lt_irreflexive(key@);
                    }
                }
            }
        } else {
            proof {
                assert forall|i: int| 0 <= i < self@.len() implies self@[i].0 != key@ by {
                    lemma_text_lt_irreflexive(key@);
                }
            }
        }
        None
    }

    /// Whether `key` has an entry.
    pub fn contains_key(&self, key: &str) -> (r: bool)
        ensures r == (exists|i: int| 0 <= i < self@.len() && self@[i].0 == key@),
    {
        self.get(key).is_some()
    }

    /// Stores `value` under `key`, replacing an earlier value for the same key and
    /// otherwise inserting the entry at its place in key order.
    pub fn insert(&mut self, key: String, value: String)
        ensures
            exists|p: int| 0 <= p <= old(self)@.len() && ({
                ||| (p < old(self)@.len() && old(self)@[p].0 == key@
                    && final(self)@ == old(self)@.update(p, (key@, value@)))
                ||| ((p == old(self)@.len() || old(self)@[p].0 != key@)
                    && final(self)@ == old(self)@.insert(p, (key@, value@)))
            }),
            final(self).map() == old(self).map().insert(key@, value@),
            sorted_keys(final(self)@),
    {
        proof { use_type_invariant(&*self); }
        let k = crate::text::chars_of(key.as_str());
        let p = self.lower_bound(&k);
        let ghost before = self@;
        let ghost kv = k@;
        let ghost val = value@;
        let mut replace = false;
        if p < self.entries.len() {
            let pk = crate::text::chars_of(self.entries[p].0.as_str());
            if !text_less(&k, &pk) {
                proof { lemma_text_lt_total(pk@, k@); }
                replace = true;
            }
        }
        let mut out: Vec<(String, String)> = Vec::new();
        let mut i: usize = 0;
        while i < p
            invariant
                i <= p <= self.entries.len(),
                self@ == before,
                out@.len() == i,
                forall|j: int| 0 <= j < i ==> (#[trigger] out@[j]).0@ == before[j].0 && out@[j].1@ == before[j].1,
            decreases p - i,
        {
            out.push((self.entries[i].0.clone(), self.entries[i].1.clone()));
            i = i + 1;
        }
        out.push((key, value));
        let mut j: usize = if replace { p + 1 } else { p };
        let ghost sh: int = if replace { 1int } else { 0int };
        while j < self.entries.len()
            invariant
                p <= j <= self.entries.len(),
                replace ==> p < j,
                self@ == before,
                sh == (if replace { 1int } else { 0int }),
                out@.len() == p + 1 + j - p - sh,
                forall|q: int| 0 <= q < p ==> (#[trigger] out@[q]).0@ == before[q].0 && out@[q].1@ == before[q].1,
                out@[p as int].0@ == kv && out@[p as int].1@ == val,
                forall|q: int| p + sh <= q < j ==>
                    out@[q + 1 - sh].0@ == (#[trigger] before[q]).0
                    && out@[q + 1 - sh].1@ == before[q].1,
            decreases self.entries.len() - j,
        {
            out.push((self.entries[j].0.clone(), self.entries[j].1.clone()));
            j = j + 1;
        }
        let ghost result = out@.map_values(|e: (String, String)| (e.0@, e.1@));
        proof {
            if replace {
                assert(result =~= before.update(p as int, (kv, val)));
                assert forall|a: int, b: int| 0 <= a < b < result.len()
                    implies text_lt(#[trigger] result[a].0, #[trigger] result[b].0) by {
                    assert(text_lt(before[a].0, before[b].0));
                }
            } else {
                assert(result =~= before.insert(p as int, (kv, val)));
                if p < before.len() {
                    lemma_text_lt_total(before[p as int].0, kv);
                }
                assert forall|a: int, b: int| 0 <= a < b < result.len()
                    implies text_lt(#[trigger] result[a].0, #[trigger] result[b].0) by {
                    if b < p {
                        assert(text_lt(before[a].0, before[b].0));
                    } else if b == p {
                        assert(text_lt(before[a].0, kv));
                    } else if a < p {
                        assert(text_lt(before[a].0, kv));
                        if b - 1 > p {
                            assert(text_lt(before[p as int].0, before[b - 1].0));
                            lemma_text_lt_transitive(kv, before[p as int].0, before[b - 1].0);
                        }
                        lemma_text_lt_transitive(before[a].0, kv, before[b - 1].0);
                    } else if a == p {
                        if b - 1 > p {
                            assert(text_lt(before[p as int].0, before[b - 1].0));
                            lemma_text_lt_transitive(kv, before[p as int].0, before[b - 1].0);
                        }
                    } else {
                        assert(text_lt(before[a - 1].0, before[b - 1].0));
                    }
                }
            }
            lemma_insert_map(before, result, p as int, kv, val, replace);
        }
        self.entries = out;
    }
}

/// `a` precedes `b` when they agree before position `i` and differ there upward.
pub proof fn lemma_text_lt_at(a: Seq<char>, b: Seq<char>, i: int)
    requires
        0 <= i < a.len(),
        i < b.len(),
        a.take(i) == b.take(i),
        a[i] < b[i],
    ensures text_lt(a, b),
    decreases i,
{
    if i > 0 {
        assert(a[0] == a.take(i)[0]);
        assert(b[0] == b.take(i)[0]);
        assert(a.drop_first().take(i - 1) =~= a.take(i).drop_first());
        assert(b.drop_first().take(i - 1) =~= b.take(i).drop_first());
        lemma_text_lt_at(a.drop_first(), b.drop_first(), i - 1);
    }
}

/// Keys that increase from each entry to the next increase throughout.
pub proof fn lemma_sorted_from_adjacent(entries: Seq<(Seq<char>, Seq<char>)>)
    requires forall|i: int| 0 <= i < entries.len() - 1 ==> text_lt(#[trigger] entries[i].0, entries[i + 1].0),
    ensures sorted_keys(entries),
{
    assert forall|i: int, j: int| 0 <= i < j < entries.len() implies text_lt(#[trigger] entries[i].0, #[trigger] entries[j].0) by {
        lemma_sorted_between(entries, i, j);
    }
}

proof fn lemma_sorted_between(entries: Seq<(Seq<char>, Seq<char>)>, i: int, j: int)
    requires
        forall|k: int| 0 <= k < entries.len() - 1 ==> text_lt(#[trigger] entries[k].0, entries[k + 1].0),
        0 <= i < j < entries.len(),
    ensures text_lt(entries[i].0, entries[j].0),
    decreases j - i,
{
    if j > i + 1 {
        lemma_sorted_between(entries, i, j - 1);
        assert(text_lt(entries[j - 1].0, entries[j].0));
        lemma_text_lt_transitive(entries[i].0, entries[j - 1].0, entries[j].0);
    }
}

impl StrMap {
    /// The keys, in increasing order; they are exactly the keys the map holds.
    pub fn keys(&self) -> (r: Vec<String>)
        ensures
            r.deep_view() == keys_of(self@),
            sorted_keys(self@),
            forall|k: Seq<char>| #[trigger] self.map().dom().contains(k) <==> keys_of(self@).contains(k),
    {
        proof {
            use_type_invariant(self);
            lemma_sorted_distinct(self@);
            lemma_map_of_distinct(self@);
            assert forall|k: Seq<char>| #[trigger] self.map().dom().contains(k) <==> keys_of(self@).contains(k) by {
                if keys_of(self@).contains(k) {
                    let i = choose|i: int| 0 <= i < keys_of(self@).len() && keys_of(self@)[i] == k;
                    assert(self@[i].0 == k);
                }
                if self.map().dom().contains(k) {
                    let i = choose|i: int| 0 <= i < self@.len() && self@[i].0 == k;
                    assert(keys_of(self@)[i] == k);
                }
            }
        }
        let mut out: Vec<String> = Vec::new();
        let mut i: usize = 0;
        while i < self.entries.len()
            invariant
                i <= self.entries.len(),
                out.deep_view() == keys_of(self@).take(i as int),
            decreases self.entries.len() - i,
        {
            let ghost before = out.deep_view();
            out.push(self.entries[i].0.clone());
            assert(keys_of(self@).take(i + 1) =~= before.push(self@[i as int].0));
            assert(out.deep_view() =~= before.push(self@[i as int].0));
            i = i + 1;
        }
        assert(keys_of(self@).take(i as int) =~= keys_of(self@));
        out
    }
}

impl StrMap {
    /// The map holding `entries`, whose keys must already increase.
    pub fn from_sorted(entries: Vec<(String, String)>) -> (r: Self)
        requires sorted_keys(entries@.map_values(|e: (String, String)| (e.0@, e.1@))),
        ensures r@ == entries@.map_values(|e: (String, String)| (e.0@, e.1@)),
    {
        StrMap { entries }
    }
}

/// Whether no two entries share a key.
pub open spec fn distinct_keys(entries: Seq<(Seq<char>, Seq<char>)>) -> bool {
    forall|i: int, j: int| 0 <= i < j < entries.len() ==> #[trigger] entries[i].0 != #[trigger] entries[j].0
}

/// Increasing keys are distinct.
pub proof fn lemma_sorted_distinct(entries: Seq<(Seq<char>, Seq<char>)>)
    requires sorted_keys(entries),
    ensures distinct_keys(entries),
{
    assert forall|i: int, j: int| 0 <= i < j < entries.len() implies #[trigger] entries[i].0 != #[trigger] entries[j].0 by {
        assert(text_lt(entries[i].0, entries[j].0));
        lemma_text_lt_irreflexive(entries[i].0);
    }
}

/// The map of entries with distinct keys holds exactly their keys, each with its value.
pub proof fn lemma_map_of_distinct(entries: Seq<(Seq<char>, Seq<char>)>)
    requires distinct_keys(entries),
    ensures
        forall|k: Seq<char>| #[trigger] map_of(entries).dom().contains(k)
            <==> exists|i: int| 0 <= i < entries.len() && entries[i].0 == k,
        forall|i: int| 0 <= i < entries.len() ==> map_of(entries)[#[trigger] entries[i].0] == entries[i].1,
    decreases entries.len(),
{
    if entries.len() > 0 {
        let init = entries.drop_last();
        assert(distinct_keys(init)) by {
            assert forall|i: int, j: int| 0 <= i < j < init.len() implies #[trigger] init[i].0 != #[trigger] init[j].0 by {
                assert(init[i] == entries[i] && init[j] == entries[j]);
            }
        }
        lemma_map_of_distinct(init);
        let n = entries.len() - 1;
        assert forall|k: Seq<char>| #[trigger] map_of(entries).dom().contains(k)
            <==> exists|i: int| 0 <= i < entries.len() && entries[i].0 == k by {
            assert(map_of(entries) == map_of(init).insert(entries[n].0, entries[n].1));
            if map_of(entries).dom().contains(k) && k != entries[n].0 {
                assert(map_of(init).dom().contains(k));
                let i = choose|i: int| 0 <= i < init.len() && init[i].0 == k;
                assert(entries[i] == init[i]);
            }
            if exists|i: int| 0 <= i < entries.len() && entries[i].0 == k {
                let i = choose|i: int| 0 <= i < entries.len() && entries[i].0 == k;
                if i < n {
                    assert(init[i] == entries[i]);
                    assert(map_of(init).dom().contains(init[i].0));
                }
            }
        }
        assert forall|i: int| 0 <= i < entries.len() implies map_of(entries)[#[trigger] entries[i].0] == entries[i].1 by {
            if i < n {
                assert(init[i] == entries[i]);
                assert(entries[i].0 != entries[n].0);
            }
        }
    }
}

proof fn lemma_insert_map(
    before: Seq<(Seq<char>, Seq<char>)>,
    result: Seq<(Seq<char>, Seq<char>)>,
    p: int,
    kv: Seq<char>,
    val: Seq<char>,
    replace: bool,
)
    requires
        sorted_keys(before),
        sorted_keys(result),
        0 <= p <= before.len(),
        replace ==> p < before.len() && before[p].0 == kv && result == before.update(p, (kv, val)),
        !replace ==> result == before.insert(p, (kv, val)),
    ensures
        map_of(result) == map_of(before).insert(kv, val),
{
    lemma_sorted_distinct(before);
    lemma_sorted_distinct(result);
    lemma_map_of_distinct(before);
    lemma_map_of_distinct(result);
    let mb = map_of(before);
    let mr = map_of(result);
    let target = mb.insert(kv, val);
    // the position in `result` of entry `j` of `before`
    let at = |j: int| if replace || j < p { j } else { j + 1 };
    assert forall|j: int| 0 <= j < before.len() && !(replace && j == p)
        implies #[trigger] result[at(j)] == before[j] by {}
    assert(result[p] == (kv, val));
    assert forall|k: Seq<char>| #[trigger] mr.dom().contains(k) <==> target.dom().contains(k) by {
        if mr.dom().contains(k) && k != kv {
            let i = choose|i: int| 0 <= i < result.len() && result[i].0 == k;
            let j = if replace || i < p { i } else { i - 1 };
            assert(i != p);
            assert(result[at(j)] == before[j]);
            assert(mb.dom().contains(before[j].0));
        }
        if k == kv {
            assert(mr.dom().contains(result[p].0));
        } else if mb.dom().contains(k) {
            let j = choose|j: int| 0 <= j < before.len() && before[j].0 == k;
            assert(result[at(j)] == before[j]);
            assert(mr.dom().contains(result[at(j)].0));
        }
    }
    assert forall|k: Seq<char>| #[trigger] mr.dom().contains(k) implies mr[k] == target[k] by {
        if k == kv {
            assert(mr[result[p].0] == result[p].1);
        } else {
            let j = choose|j: int| 0 <= j < before.len() && before[j].0 == k;
            assert(result[at(j)] == before[j]);
            assert(mr[result[at(j)].0] == result[at(j)].1);
            assert(mb[before[j].0] == before[j].1);
        }
    }
    assert(mr =~= target);
}

} // verus!
