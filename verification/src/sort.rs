//! A stable sort for the lists that reports keep in a fixed order.
use vstd::prelude::*;
use vstd::multiset::Multiset;
use crate::strmap::{lemma_text_lt_irreflexive, lemma_text_lt_transitive, text_less, text_lt};
use crate::text::chars_of;

verus! {

/// An order in which items are listed: `precedes(a, b)` when `a` comes strictly
/// before `b`. It must be irreflexive and transitive.
pub trait ListOrder: Sized {
    /// Whether `a` comes strictly before `b`.
    spec fn precedes(a: Self, b: Self) -> bool;

    /// Nothing comes before itself.
    proof fn lemma_irreflexive(a: Self)
        ensures !Self::precedes(a, a);

    /// What comes before something that comes before `c` comes before `c`.
    proof fn lemma_transitive(a: Self, b: Self, c: Self)
        requires Self::precedes(a, b), Self::precedes(b, c),
        ensures Self::precedes(a, c);

    /// Whether `self` comes strictly before `other`.
    fn goes_before(&self, other: &Self) -> (r: bool)
        ensures r == Self::precedes(*self, *other);
}

/// Whether no item of `s` comes strictly before an item listed ahead of it.
pub open spec fn in_order<T: ListOrder>(s: Seq<T>) -> bool {
    forall|i: int, j: int| 0 <= i < j < s.len() ==> !T::precedes(#[trigger] s[j], #[trigger] s[i])
}

fn insertion_point<T: ListOrder>(out: &Vec<T>, x: &T) -> (p: usize)
    requires in_order(out@),
    ensures
        p <= out@.len(),
        forall|k: int| 0 <= k < p ==> !T::precedes(*x, #[trigger] out@[k]),
        p < out@.len() ==> T::precedes(*x, out@[p as int]),
{
    let mut p: usize = 0;
    while p < out.len()
        invariant
            p <= out@.len(),
            forall|k: int| 0 <= k < p ==> !T::precedes(*x, #[trigger] out@[k]),
        decreases out.len() - p,
    {
        if x.goes_before(&out[p]) {
            return p;
        }
        p = p + 1;
    }
    p
}

proof fn lemma_insert_in_order<T: ListOrder>(s: Seq<T>, p: int, x: T)
    requires
        in_order(s),
        0 <= p <= s.len(),
        forall|k: int| 0 <= k < p ==> !T::precedes(x, #[trigger] s[k]),
        p < s.len() ==> T::precedes(x, s[p]),
    ensures in_order(s.insert(p, x)),
{
    let t = s.insert(p, x);
    assert forall|j: int| p <= j < s.len() implies !T::precedes(#[trigger] s[j], x) by {
        if T::precedes(s[j], x) {
            if j == p {
                T::lemma_transitive(s[p], x, s[p]);
                T::lemma_irreflexive(s[p]);
            } else {
                T::lemma_transitive(s[j], x, s[p]);
            }
        }
    }
    assert forall|i: int, j: int| 0 <= i < j < t.len() implies !T::precedes(#[trigger] t[j], #[trigger] t[i]) by {
        if j < p {
            assert(t[i] == s[i] && t[j] == s[j]);
        } else if j == p {
            assert(t[j] == x && t[i] == s[i]);
        } else if i < p {
            assert(t[i] == s[i] && t[j] == s[j - 1]);
        } else if i == p {
            assert(t[i] == x && t[j] == s[j - 1]);
        } else {
            assert(t[i] == s[i - 1] && t[j] == s[j - 1]);
        }
    }
}

/// `v` in order, each item once as often as it was given; items that neither comes
/// before the other keep their order.
pub fn sort_in_order<T: ListOrder>(v: Vec<T>) -> (r: Vec<T>)
    ensures
        in_order(r@),
        r@.to_multiset() == v@.to_multiset(),
{
    broadcast use vstd::seq_lib::group_to_multiset_ensures, vstd::multiset::group_multiset_axioms;
    let ghost orig = v@;
    let mut rest = v;
    let mut out: Vec<T> = Vec::new();
    assert(out@.to_multiset() =~= Multiset::<T>::empty());
    while rest.len() > 0
        invariant
            in_order(out@),
            out@.to_multiset().add(rest@.to_multiset()) == orig.to_multiset(),
        decreases rest.len(),
    {
        let ghost before_rest = rest@;
        let ghost before_out = out@;
        let x = rest.remove(0);
        assert(x == before_rest[0]);
        assert(rest@ == before_rest.remove(0));
        proof { vstd::seq_lib::to_multiset_remove(before_rest, 0); }
        assert(rest@.to_multiset() == before_rest.to_multiset().remove(x));
        let p = insertion_point(&out, &x);
        proof { lemma_insert_in_order(before_out, p as int, x); }
        out.insert(p, x);
        assert(out@ == before_out.insert(p as int, x));
        proof { vstd::seq_lib::to_multiset_insert(before_out, p as int, x); }
        assert(out@.to_multiset() == before_out.to_multiset().insert(x));
        proof {
            assert(before_rest.contains(x));
            vstd::seq_lib::to_multiset_contains(before_rest, x);
            assert(before_rest.to_multiset().count(x) > 0);
            assert forall|y: T| #[trigger] out@.to_multiset().add(rest@.to_multiset()).count(y)
                == before_out.to_multiset().add(before_rest.to_multiset()).count(y) by {
                broadcast use vstd::multiset::group_multiset_properties;
            }
        }
        assert(out@.to_multiset().add(rest@.to_multiset()) =~= before_out.to_multiset().add(before_rest.to_multiset()));
    }
    assert(rest@.to_multiset() =~= Multiset::<T>::empty());
    assert(out@.to_multiset().add(rest@.to_multiset()) =~= out@.to_multiset());
    out
}

/// Texts are listed in increasing order of their characters.
impl ListOrder for String {
    open spec fn precedes(a: Self, b: Self) -> bool {
        text_lt(a@, b@)
    }

    proof fn lemma_irreflexive(a: Self) {
        lemma_text_lt_irreflexive(a@);
    }

    proof fn lemma_transitive(a: Self, b: Self, c: Self) {
        lemma_text_lt_transitive(a@, b@, c@);
    }

    fn goes_before(&self, other: &Self) -> (r: bool) {
        text_less(&chars_of(self.as_str()), &chars_of(other.as_str()))
    }
}

/// Whether `a` is before `b` in text order.
pub fn text_before(a: &str, b: &str) -> (r: bool)
    ensures r == text_lt(a@, b@),
{
    text_less(&chars_of(a), &chars_of(b))
}

} // verus!
