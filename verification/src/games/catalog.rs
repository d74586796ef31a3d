//! A catalog of data-driven profiles, ordered and keyed by Steam app id.
use vstd::prelude::*;
use super::GameProfile;
use super::generic::{GenericGameProfile, ProfileModel};
use crate::error::{PortCellarError, Result};
use crate::strmap::{lemma_text_lt_irreflexive, lemma_text_lt_total, lemma_text_lt_transitive, text_less, text_lt};
use crate::text::{chars_of, concat, same_text};

verus! {

/// A profile in a catalog, with the file it was read from.
#[derive(Debug)]
pub struct GenericGameProfileCatalogEntry {
    profile: GenericGameProfile,
    path: String,
}

impl View for GenericGameProfileCatalogEntry {
    type V = (ProfileModel, Seq<char>);

    closed spec fn view(&self) -> (ProfileModel, Seq<char>) {
        (self.profile@, self.path@)
    }
}

impl GenericGameProfileCatalogEntry {
    /// The profile.
    pub fn profile(&self) -> (r: &GenericGameProfile)
        ensures r@ == self@.0,
    {
        &self.profile
    }

    /// The file the profile was read from.
    pub fn path(&self) -> (r: &str)
        ensures r@ == self@.1,
    {
        self.path.as_str()
    }

    /// The profile's app id.
    pub fn app_id(&self) -> (r: &str)
        ensures r@ == self@.0.app_id,
    {
        self.profile.app_id()
    }

    /// The profile's name.
    pub fn name(&self) -> (r: &str)
        ensures r@ == self@.0.name,
    {
        self.profile.name()
    }
}

/// The app id an entry view is keyed by.
pub open spec fn entry_key(e: (ProfileModel, Seq<char>)) -> Seq<char> {
    e.0.app_id
}

/// Whether the entries' app ids strictly increase.
#[verifier::opaque]
pub open spec fn keys_increase(entries: Seq<(ProfileModel, Seq<char>)>) -> bool {
    forall|i: int, j: int| 0 <= i < j < entries.len() ==> text_lt(#[trigger] entry_key(entries[i]), #[trigger] entry_key(entries[j]))
}

/// The view of a loaded `(path, profile)` pair as an entry.
pub open spec fn loaded_view(l: (String, GenericGameProfile)) -> (ProfileModel, Seq<char>) {
    (l.1@, l.0@)
}

/// Whether the item at `j` repeats the app id of an earlier item, and no earlier item
/// does so.
pub open spec fn is_first_duplicate(loaded: Seq<(String, GenericGameProfile)>, j: int) -> bool {
    &&& 0 <= j < loaded.len()
    &&& exists|i: int| 0 <= i < j && #[trigger] loaded[i].1@.app_id == loaded[j].1@.app_id
    &&& no_duplicates(loaded.take(j))
}

/// Whether no two items share an app id.
#[verifier::opaque]
pub open spec fn no_duplicates(loaded: Seq<(String, GenericGameProfile)>) -> bool {
    forall|a: int, b: int| 0 <= a < b < loaded.len() ==> #[trigger] loaded[a].1@.app_id != #[trigger] loaded[b].1@.app_id
}

/// The views of catalog entries.
pub open spec fn views(entries: Seq<GenericGameProfileCatalogEntry>) -> Seq<(ProfileModel, Seq<char>)> {
    entries.map_values(|e: GenericGameProfileCatalogEntry| e@)
}

/// Whether each of the first `k` loaded items appears in `v`.
#[verifier::opaque]
pub open spec fn covers(v: Seq<(ProfileModel, Seq<char>)>, loaded: Seq<(String, GenericGameProfile)>, k: int) -> bool {
    forall|m: int| 0 <= m < k ==> exists|j: int| 0 <= j < v.len() && #[trigger] v[j] == loaded_view(#[trigger] loaded[m])
}

/// Whether each item of `v` is one of the first `k` loaded items.
#[verifier::opaque]
pub open spec fn covered_by(v: Seq<(ProfileModel, Seq<char>)>, loaded: Seq<(String, GenericGameProfile)>, k: int) -> bool {
    forall|j: int| 0 <= j < v.len() ==> exists|m: int| 0 <= m < k && #[trigger] v[j] == loaded_view(#[trigger] loaded[m])
}

proof fn lemma_views_keys(entries: Seq<GenericGameProfileCatalogEntry>, p: int, key: Seq<char>)
    requires
        0 <= p <= entries.len(),
        forall|i: int| 0 <= i < p ==> text_lt(#[trigger] entries[i]@.0.app_id, key),
        p < entries.len() ==> !text_lt(entries[p]@.0.app_id, key),
    ensures
        views(entries).len() == entries.len(),
        forall|i: int| 0 <= i < p ==> text_lt(#[trigger] views(entries)[i].0.app_id, key),
        p < entries.len() ==> !text_lt(views(entries)[p].0.app_id, key)
            && views(entries)[p].0.app_id == entries[p]@.0.app_id,
{
    assert forall|i: int| 0 <= i < p implies text_lt(#[trigger] views(entries)[i].0.app_id, key) by {
        assert(views(entries)[i] == entries[i]@);
    }
    if p < entries.len() {
        assert(views(entries)[p] == entries[p]@);
    }
}

proof fn lemma_found_duplicate(ev: Seq<(ProfileModel, Seq<char>)>, orig: Seq<(String, GenericGameProfile)>, k: int, p: int)
    requires
        0 <= k < orig.len(),
        0 <= p < ev.len(),
        ev[p].0.app_id == orig[k].1@.app_id,
        covered_by(ev, orig, k),
        no_duplicates(orig.take(k)),
    ensures is_first_duplicate(orig, k),
{
    reveal(covered_by);
    let m = choose|m: int| 0 <= m < k && #[trigger] ev[p] == loaded_view(#[trigger] orig[m]);
    assert(orig[m].1@.app_id == orig[k].1@.app_id);
}

proof fn lemma_insert_keeps_order(ev: Seq<(ProfileModel, Seq<char>)>, p: int, x: (ProfileModel, Seq<char>))
    requires
        0 <= p <= ev.len(),
        keys_increase(ev),
        forall|i: int| 0 <= i < p ==> text_lt(#[trigger] ev[i].0.app_id, x.0.app_id),
        p < ev.len() ==> text_lt(x.0.app_id, ev[p].0.app_id),
    ensures keys_increase(ev.insert(p, x)),
{
    reveal(keys_increase);
    let nv = ev.insert(p, x);
    assert forall|i: int, j: int| 0 <= i < j < nv.len() implies text_lt(#[trigger] entry_key(nv[i]), #[trigger] entry_key(nv[j])) by {
        if i < p && j == p {
        } else if i < p && j > p {
            if j - 1 > p {
                assert(text_lt(entry_key(ev[p]), entry_key(ev[j - 1])));
                lemma_text_lt_transitive(x.0.app_id, ev[p].0.app_id, ev[j - 1].0.app_id);
            }
            lemma_text_lt_transitive(ev[i].0.app_id, x.0.app_id, ev[j - 1].0.app_id);
        } else if i == p {
            if j - 1 > p {
                assert(text_lt(entry_key(ev[p]), entry_key(ev[j - 1])));
                lemma_text_lt_transitive(x.0.app_id, ev[p].0.app_id, ev[j - 1].0.app_id);
            }
        } else if i > p {
            assert(text_lt(entry_key(ev[i - 1]), entry_key(ev[j - 1])));
        } else {
            assert(text_lt(entry_key(ev[i]), entry_key(ev[j])));
        }
    }
}

proof fn lemma_key_absent(ev: Seq<(ProfileModel, Seq<char>)>, p: int, key: Seq<char>)
    requires
        0 <= p <= ev.len(),
        keys_increase(ev),
        forall|i: int| 0 <= i < p ==> text_lt(#[trigger] ev[i].0.app_id, key),
        p < ev.len() ==> text_lt(key, ev[p].0.app_id),
    ensures forall|j: int| 0 <= j < ev.len() ==> #[trigger] ev[j].0.app_id != key,
{
    reveal(keys_increase);
    assert forall|j: int| 0 <= j < ev.len() implies #[trigger] ev[j].0.app_id != key by {
        lemma_text_lt_irreflexive(key);
        if j > p {
            assert(text_lt(entry_key(ev[p]), entry_key(ev[j])));
            lemma_text_lt_transitive(key, ev[p].0.app_id, ev[j].0.app_id);
        }
    }
}

proof fn lemma_insert_keeps_covers(ev: Seq<(ProfileModel, Seq<char>)>, orig: Seq<(String, GenericGameProfile)>, k: int, p: int)
    requires
        0 <= k < orig.len(),
        0 <= p <= ev.len(),
        covers(ev, orig, k),
    ensures covers(ev.insert(p, loaded_view(orig[k])), orig, k + 1),
{
    reveal(covers);
    let x = loaded_view(orig[k]);
    let nv = ev.insert(p, x);
    assert forall|m: int| 0 <= m < k + 1 implies exists|j: int| 0 <= j < nv.len() && #[trigger] nv[j] == loaded_view(#[trigger] orig[m]) by {
        if m == k {
            assert(nv[p] == x);
        } else {
            let j = choose|j: int| 0 <= j < ev.len() && #[trigger] ev[j] == loaded_view(#[trigger] orig[m]);
            let j2 = if j < p { j } else { j + 1 };
            assert(nv[j2] == ev[j]);
        }
    }
}

proof fn lemma_insert_keeps_covered_by(ev: Seq<(ProfileModel, Seq<char>)>, orig: Seq<(String, GenericGameProfile)>, k: int, p: int)
    requires
        0 <= k < orig.len(),
        0 <= p <= ev.len(),
        covered_by(ev, orig, k),
    ensures covered_by(ev.insert(p, loaded_view(orig[k])), orig, k + 1),
{
    reveal(covered_by);
    let nv = ev.insert(p, loaded_view(orig[k]));
    assert forall|j: int| 0 <= j < nv.len() implies exists|m: int| 0 <= m < k + 1 && #[trigger] nv[j] == loaded_view(#[trigger] orig[m]) by {
        if j == p {
            assert(nv[j] == loaded_view(orig[k]));
        } else {
            let j0 = if j < p { j } else { j - 1 };
            assert(nv[j] == ev[j0]);
            let m = choose|m: int| 0 <= m < k && #[trigger] ev[j0] == loaded_view(#[trigger] orig[m]);
            assert(nv[j] == loaded_view(orig[m]));
        }
    }
}

proof fn lemma_new_key_keeps_distinct(ev: Seq<(ProfileModel, Seq<char>)>, orig: Seq<(String, GenericGameProfile)>, k: int)
    requires
        0 <= k < orig.len(),
        covers(ev, orig, k),
        no_duplicates(orig.take(k)),
        forall|j: int| 0 <= j < ev.len() ==> #[trigger] ev[j].0.app_id != orig[k].1@.app_id,
    ensures no_duplicates(orig.take(k + 1)),
{
    reveal(covers);
    reveal(no_duplicates);
    assert forall|a: int, b: int| 0 <= a < b < orig.take(k + 1).len()
        implies #[trigger] orig.take(k + 1)[a].1@.app_id != #[trigger] orig.take(k + 1)[b].1@.app_id by {
        if b == k {
            let j = choose|j: int| 0 <= j < ev.len() && #[trigger] ev[j] == loaded_view(#[trigger] orig[a]);
            assert(ev[j].0.app_id != orig[k].1@.app_id);
        } else {
            assert(orig.take(k)[a] == orig[a]);
            assert(orig.take(k)[b] == orig[b]);
        }
    }
}

/// A catalog of profiles with distinct app ids, in app id order.
#[derive(Debug)]
pub struct GenericGameProfileCatalog {
    root: String,
    entries: Vec<GenericGameProfileCatalogEntry>,
}

impl View for GenericGameProfileCatalog {
    type V = (Seq<char>, Seq<(ProfileModel, Seq<char>)>);

    closed spec fn view(&self) -> (Seq<char>, Seq<(ProfileModel, Seq<char>)>) {
        (self.root@, self.entries@.map_values(|e: GenericGameProfileCatalogEntry| e@))
    }
}

impl GenericGameProfileCatalog {
    /// App ids strictly increase.
    #[verifier::type_invariant]
    spec fn inv(self) -> bool {
        keys_increase(self@.1)
    }


    /// An empty catalog rooted at `root` (a root with no profile files).
    pub fn empty(root: &str) -> (r: Self)
        ensures r@.0 == root@, r@.1.len() == 0,
    {
        let entries: Vec<GenericGameProfileCatalogEntry> = Vec::new();
        assert(views(entries@) =~= Seq::<(ProfileModel, Seq<char>)>::empty());
        assert(keys_increase(views(entries@))) by { reveal(keys_increase); }
        let r = GenericGameProfileCatalog { root: root.to_owned(), entries };
        r
    }

    fn lower_bound(entries: &Vec<GenericGameProfileCatalogEntry>, key: &Vec<char>) -> (r: usize)
        ensures
            r <= entries@.len(),
            forall|i: int| 0 <= i < r ==> text_lt(#[trigger] entries@[i]@.0.app_id, key@),
            r < entries@.len() ==> !text_lt(entries@[r as int]@.0.app_id, key@),
    {
        let mut i: usize = 0;
        while i < entries.len()
            invariant
                i <= entries.len(),
                forall|j: int| 0 <= j < i ==> text_lt(#[trigger] entries@[j]@.0.app_id, key@),
            decreases entries.len() - i,
        {
            let k = chars_of(entries[i].app_id());
            if !text_less(&k, key) {
                return i;
            }
            i = i + 1;
        }
        i
    }

    /// The catalog of the profiles read under `root`, each with the file it came
    /// from, ordered by app id. Two profiles with the same app id are an error.
    #[verifier::rlimit(30)]
    pub fn from_profiles(root: &str, loaded: Vec<(String, GenericGameProfile)>) -> (r: Result<Self>)
        ensures
            match r {
                Ok(c) => {
                    &&& no_duplicates(loaded@)
                    &&& c@.0 == root@
                    &&& keys_increase(c@.1)
                    &&& c@.1.len() == loaded@.len()
                    &&& covers(c@.1, loaded@, loaded@.len() as int)
                },
                Err(e) => exists|j: int| is_first_duplicate(loaded@, j)
                    && e.text() == "duplicate profile app_id "@ + loaded@[j].1@.app_id + " in catalog "@ + root@,
            },
    {
        let ghost orig = loaded@;
        let mut rest = loaded;
        let mut entries: Vec<GenericGameProfileCatalogEntry> = Vec::new();
        let mut k: usize = 0;
        let n = rest.len();
        proof {
            assert(views(entries@) =~= Seq::<(ProfileModel, Seq<char>)>::empty());
            assert(keys_increase(views(entries@))) by { reveal(keys_increase); }
            assert(no_duplicates(orig.take(0))) by { reveal(no_duplicates); }
            assert(covers(views(entries@), orig, 0)) by { reveal(covers); }
            assert(covered_by(views(entries@), orig, 0)) by { reveal(covered_by); }
        }
        while rest.len() > 0
            invariant
                k <= orig.len(),
                orig.len() == n,
                orig == loaded@,
                rest@ == orig.skip(k as int),
                entries@.len() == k,
                keys_increase(views(entries@)),
                no_duplicates(orig.take(k as int)),
                covers(views(entries@), orig, k as int),
                covered_by(views(entries@), orig, k as int),
            decreases rest.len(),
        {
            let ghost ev = views(entries@);
            assert(rest@[0] == orig[k as int]);
            let (path, profile) = rest.remove(0);
            assert(rest@ =~= orig.skip(k + 1));
            let key = chars_of(profile.app_id());
            let p = Self::lower_bound(&entries, &key);
            proof { lemma_views_keys(entries@, p as int, key@); }
            if p < entries.len() {
                let pk = chars_of(entries[p].app_id());
                if !text_less(&key, &pk) {
                    proof {
                        lemma_text_lt_total(pk@, key@);
                        assert(ev[p as int].0.app_id == key@);
                        lemma_found_duplicate(ev, orig, k as int, p as int);
                    }
                    let message = concat(concat(concat("duplicate profile app_id ", profile.app_id()).as_str(),
                        " in catalog ").as_str(), root);
                    let e = PortCellarError::message(message);
                    assert(e.text() == "duplicate profile app_id "@ + loaded@[k as int].1@.app_id + " in catalog "@ + root@);
                    return Err(e);
                }
                proof { lemma_text_lt_total(pk@, key@); }
            }
            let entry = GenericGameProfileCatalogEntry { profile, path };
            let ghost e_view = entry@;
            proof {
                assert(e_view == loaded_view(orig[k as int]));
                lemma_key_absent(ev, p as int, key@);
                lemma_insert_keeps_order(ev, p as int, e_view);
                lemma_insert_keeps_covers(ev, orig, k as int, p as int);
                lemma_insert_keeps_covered_by(ev, orig, k as int, p as int);
                lemma_new_key_keeps_distinct(ev, orig, k as int);
            }
            entries.insert(p, entry);
            proof {
                assert(views(entries@) =~= ev.insert(p as int, e_view));
            }
            k = k + 1;
        }
        assert(orig.take(k as int) =~= orig);
        let c = GenericGameProfileCatalog { root: root.to_owned(), entries };
        assert(c@.1 == views(c.entries@));
        Ok(c)
    }

    /// The directory the catalog was read from.
    pub fn root(&self) -> (r: &str)
        ensures r@ == self@.0,
    {
        self.root.as_str()
    }

    /// The entries, in app id order.
    pub fn entries(&self) -> (r: &[GenericGameProfileCatalogEntry])
        ensures r@.map_values(|e: GenericGameProfileCatalogEntry| e@) == self@.1,
    {
        self.entries.as_slice()
    }

    /// The profile for `app_id`, if the catalog has one.
    pub fn profile_for_app_id(&self, app_id: &str) -> (r: Option<&GenericGameProfile>)
        ensures
            match r {
                Some(p) => exists|j: int| 0 <= j < self@.1.len() && #[trigger] self@.1[j].0 == p@ && p@.app_id == app_id@
                    && forall|i: int| 0 <= i < j ==> #[trigger] self@.1[i].0.app_id != app_id@,
                None => forall|j: int| 0 <= j < self@.1.len() ==> #[trigger] self@.1[j].0.app_id != app_id@,
            },
    {
        let mut i: usize = 0;
        while i < self.entries.len()
            invariant
                i <= self.entries.len(),
                forall|j: int| 0 <= j < i ==> #[trigger] self@.1[j].0.app_id != app_id@,
            decreases self.entries.len() - i,
        {
            if same_text(self.entries[i].app_id(), app_id) {
                assert(self@.1[i as int].0 == self.entries@[i as int].profile@);
                return Some(self.entries[i].profile());
            }
            i = i + 1;
        }
        None
    }
}

} // verus!
