//! Game modules: a directory per game holding `module.toml` and the public profiles
//! of its variants. Loading validates everything and prepares nothing.
//!
//! The directories and files are read by the caller, which also parses the TOML;
//! each check below is one step of loading, in the order loading takes them.
use vstd::prelude::*;
use crate::analyze::discovery::{debug_quoted, debug_text};
use crate::error::{PortCellarError, Result};
use crate::games::generic::GenericGameProfile;
use crate::games::{GameProfile, GameRuntimeArtifact, SteamIntegration};
use crate::strmap::{text_lt, StrMap};
use crate::text::{
    all_digits, chars_of, concat, concat3, ends_with, ends_with_text, has_char, has_char_text, is_digit,
    is_digit_text, same_text, split_char, split_char_text, trim, trimmed,
};

verus! {

/// The format tag of module descriptors.
pub const GAME_MODULE_FORMAT_VERSION: &'static str = "portcellar-module-v1";

/// A profile a variant offers: its id and its file inside the module.
#[derive(Debug)]
pub struct GameModuleProfileReference {
    pub id: String,
    pub path: String,
}

/// A variant of a game (a store release, a version), with its store ids and profiles.
#[derive(Debug)]
pub struct GameModuleVariant {
    pub id: String,
    pub name: String,
    pub stores: StrMap,
    pub profiles: Vec<GameModuleProfileReference>,
}

/// The contents of `module.toml`.
#[derive(Debug)]
pub struct GameModuleDescriptor {
    pub format_version: String,
    pub id: String,
    pub name: String,
    pub revision: u64,
    pub variants: Vec<GameModuleVariant>,
}

// ---------------------------------------------------------------- identifiers and paths

/// Whether a piece of an identifier is made of lowercase ASCII letters and digits.
pub open spec fn slug_piece(p: Seq<char>) -> bool {
    p.len() > 0 && forall|i: int| 0 <= i < p.len() ==> (('a' <= #[trigger] p[i] && p[i] <= 'z') || is_digit(p[i]))
}

/// Whether `value` is a module identifier: `-`-separated pieces of lowercase ASCII
/// letters and digits, none empty.
pub open spec fn slug_ok(value: Seq<char>) -> bool {
    forall|i: int| 0 <= i < split_char(value, '-').len() ==> slug_piece(#[trigger] split_char(value, '-')[i])
}

fn is_slug_piece(p: &str) -> (r: bool)
    ensures r == slug_piece(p@),
{
    let v = chars_of(p);
    if v.len() == 0 {
        return false;
    }
    let mut i: usize = 0;
    while i < v.len()
        invariant
            v@ == p@,
            i <= v.len(),
            forall|k: int| 0 <= k < i ==> (('a' <= #[trigger] v@[k] && v@[k] <= 'z') || is_digit(v@[k])),
        decreases v.len() - i,
    {
        let c = v[i];
        if !(('a' <= c && c <= 'z') || ('0' <= c && c <= '9')) {
            return false;
        }
        i = i + 1;
    }
    true
}

/// The error for a value that is not a module identifier.
pub open spec fn slug_error(value: Seq<char>) -> Seq<char> {
    "invalid module identifier: "@ + debug_quoted(value)
}

/// Checks that `value` is a module identifier.
pub fn slug(value: &str) -> (r: Result<()>)
    ensures
        r is Ok == slug_ok(value@),
        r matches Err(e) ==> e.text() == slug_error(value@),
{
    let parts = split_char_text(value, '-');
    let mut i: usize = 0;
    while i < parts.len()
        invariant
            i <= parts.len(),
            parts.deep_view() == split_char(value@, '-'),
            forall|k: int| 0 <= k < i ==> slug_piece(#[trigger] split_char(value@, '-')[k]),
        decreases parts.len() - i,
    {
        if !is_slug_piece(parts[i].as_str()) {
            assert(!slug_piece(split_char(value@, '-')[i as int]));
            return Err(PortCellarError::message(concat("invalid module identifier: ", debug_text(value).as_str())));
        }
        i = i + 1;
    }
    Ok(())
}

/// Whether a `/`-separated piece of a module path names nothing or climbs.
pub open spec fn bad_path_piece(p: Seq<char>) -> bool {
    p.len() == 0 || p == seq!['.'] || p == seq!['.', '.']
}

/// Whether `value` may name a file inside a module: a relative `.toml` path without
/// backslashes, colons or NULs, and with no empty, `.` or `..` piece.
pub open spec fn module_path_ok(value: Seq<char>) -> bool {
    &&& ends_with(value, ".toml"@)
    &&& !has_char(value, '\\') && !has_char(value, ':') && !has_char(value, '\0')
    &&& forall|i: int| 0 <= i < split_char(value, '/').len() ==> !bad_path_piece(#[trigger] split_char(value, '/')[i])
}

fn is_bad_piece(p: &str) -> (r: bool)
    ensures r == bad_path_piece(p@),
{
    let v = chars_of(p);
    let r = v.len() == 0 || (v.len() == 1 && v[0] == '.') || (v.len() == 2 && v[0] == '.' && v[1] == '.');
    proof {
        if v@.len() == 1 && v@[0] == '.' { assert(v@ =~= seq!['.']); }
        if v@.len() == 2 && v@[0] == '.' && v@[1] == '.' { assert(v@ =~= seq!['.', '.']); }
    }
    r
}

/// Checks that `value` may name a file inside a module. The caller then follows it
/// piece by piece, refusing symbolic links and anything but a regular file inside
/// the module.
pub fn check_module_path(value: &str) -> (r: Result<()>)
    ensures
        r is Ok == module_path_ok(value@),
        r matches Err(e) ==> e.text() == "invalid module file path: "@ + debug_quoted(value@),
{
    let fail = !ends_with_text(value, ".toml") || has_char_text(value, '\\') || has_char_text(value, ':')
        || has_char_text(value, '\0');
    if fail {
        return Err(PortCellarError::message(concat("invalid module file path: ", debug_text(value).as_str())));
    }
    let parts = split_char_text(value, '/');
    let mut i: usize = 0;
    while i < parts.len()
        invariant
            i <= parts.len(),
            parts.deep_view() == split_char(value@, '/'),
            forall|k: int| 0 <= k < i ==> !bad_path_piece(#[trigger] split_char(value@, '/')[k]),
        decreases parts.len() - i,
    {
        if is_bad_piece(parts[i].as_str()) {
            assert(bad_path_piece(split_char(value@, '/')[i as int]));
            return Err(PortCellarError::message(concat("invalid module file path: ", debug_text(value).as_str())));
        }
        i = i + 1;
    }
    Ok(())
}

// ---------------------------------------------------------------- the descriptor

/// What the header of a descriptor found in directory `dir_name` must satisfy, as
/// the error of the first check that fails.
pub open spec fn header_error(dir_name: Option<Seq<char>>, d: GameModuleDescriptor) -> Option<Seq<char>> {
    if d.format_version@ != GAME_MODULE_FORMAT_VERSION@ {
        Some("unsupported module format"@)
    } else if !slug_ok(d.id@) {
        Some(slug_error(d.id@))
    } else if dir_name != Some(d.id@) {
        Some("module id must match its directory"@)
    } else if trim(d.name@).len() == 0 || d.revision == 0 || d.variants@.len() == 0 {
        Some("module requires a name, positive revision and variants"@)
    } else {
        None
    }
}

/// Checks a descriptor's format, id, directory, name, revision and variants.
pub fn check_module_header(dir_name: Option<&str>, d: &GameModuleDescriptor) -> (r: Result<()>)
    ensures
        match r {
            Ok(()) => header_error(match dir_name { Some(n) => Some(n@), None => None }, *d) is None,
            Err(e) => header_error(match dir_name { Some(n) => Some(n@), None => None }, *d) == Some(e.text()),
        },
{
    if !same_text(d.format_version.as_str(), GAME_MODULE_FORMAT_VERSION) {
        return Err(PortCellarError::message("unsupported module format".to_owned()));
    }
    match slug(d.id.as_str()) {
        Ok(()) => {}
        Err(e) => { return Err(e); }
    }
    let matches_dir = match dir_name {
        Some(n) => same_text(n, d.id.as_str()),
        None => false,
    };
    if !matches_dir {
        return Err(PortCellarError::message("module id must match its directory".to_owned()));
    }
    if trimmed(d.name.as_str()).unicode_len() == 0 || d.revision == 0 || d.variants.len() == 0 {
        return Err(PortCellarError::message("module requires a name, positive revision and variants".to_owned()));
    }
    Ok(())
}

/// Whether `ids` holds `id`.
pub open spec fn holds_id(ids: Seq<Seq<char>>, id: Seq<char>) -> bool {
    exists|i: int| 0 <= i < ids.len() && ids[i] == id
}

/// The error of the first store entry, from `i` on, whose name is not an identifier
/// or whose id is blank, or not numeric for Steam.
pub open spec fn store_error(stores: Seq<(Seq<char>, Seq<char>)>, i: int) -> Option<Seq<char>>
    decreases stores.len() - i,
{
    if i < 0 || i >= stores.len() {
        None
    } else {
        let (store, id) = stores[i];
        if !slug_ok(store) {
            Some(slug_error(store))
        } else if trim(id).len() == 0 || (store == "steam"@ && !all_digits(id)) {
            Some("invalid "@ + store + " store id"@)
        } else {
            store_error(stores, i + 1)
        }
    }
}

/// What a variant must satisfy, given the ids of the variants before it, as the
/// error of the first check that fails.
pub open spec fn variant_error(v: GameModuleVariant, earlier: Seq<Seq<char>>) -> Option<Seq<char>> {
    if !slug_ok(v.id@) {
        Some(slug_error(v.id@))
    } else if holds_id(earlier, v.id@) || trim(v.name@).len() == 0 || v.profiles@.len() == 0 {
        Some("variant requires a unique id, name and profiles"@)
    } else {
        store_error(v.stores@, 0)
    }
}

/// Checks a variant's id (unique among `earlier`), name, profiles and store ids.
pub fn check_module_variant(v: &GameModuleVariant, earlier: &Vec<String>) -> (r: Result<()>)
    ensures
        match r {
            Ok(()) => variant_error(*v, earlier.deep_view()) is None,
            Err(e) => variant_error(*v, earlier.deep_view()) == Some(e.text()),
        },
{
    match slug(v.id.as_str()) {
        Ok(()) => {}
        Err(e) => { return Err(e); }
    }
    let mut seen = false;
    let mut k: usize = 0;
    while k < earlier.len()
        invariant
            k <= earlier.len(),
            seen == holds_id(earlier.deep_view().take(k as int), v.id@),
        decreases earlier.len() - k,
    {
        if same_text(earlier[k].as_str(), v.id.as_str()) {
            seen = true;
        }
        proof {
            let t = earlier.deep_view().take(k + 1);
            if holds_id(t, v.id@) && !holds_id(earlier.deep_view().take(k as int), v.id@) {
                let j = choose|j: int| 0 <= j < t.len() && t[j] == v.id@;
                if j < k { assert(earlier.deep_view().take(k as int)[j] == t[j]); }
            }
            if holds_id(earlier.deep_view().take(k as int), v.id@) {
                let j = choose|j: int| 0 <= j < k && earlier.deep_view().take(k as int)[j] == v.id@;
                assert(t[j] == v.id@);
            }
            if earlier.deep_view()[k as int] == v.id@ {
                assert(t[k as int] == v.id@);
            }
        }
        k = k + 1;
    }
    assert(earlier.deep_view().take(k as int) =~= earlier.deep_view());
    if seen || trimmed(v.name.as_str()).unicode_len() == 0 || v.profiles.len() == 0 {
        return Err(PortCellarError::message("variant requires a unique id, name and profiles".to_owned()));
    }
    proof { reveal_strlit("steam"); }
    let mut i: usize = 0;
    while i < v.stores.len()
        invariant
            i <= v.stores@.len(),
            store_error(v.stores@, 0) == store_error(v.stores@, i as int),
            variant_error(*v, earlier.deep_view()) == store_error(v.stores@, 0),
        decreases v.stores@.len() - i,
    {
        let store = v.stores.key_at(i);
        let id = v.stores.value_at(i);
        match slug(store.as_str()) {
            Ok(()) => {}
            Err(e) => { return Err(e); }
        }
        let steam = same_text(store.as_str(), "steam");
        if trimmed(id.as_str()).unicode_len() == 0 || (steam && !is_digit_text(id.as_str())) {
            return Err(PortCellarError::message(concat3("invalid ", store.as_str(), " store id")));
        }
        i = i + 1;
    }
    Ok(())
}

/// What a profile reference must satisfy: an identifier id and a path inside the module.
pub open spec fn reference_error(r: GameModuleProfileReference) -> Option<Seq<char>> {
    if !slug_ok(r.id@) {
        Some(slug_error(r.id@))
    } else if !module_path_ok(r.path@) {
        Some("invalid module file path: "@ + debug_quoted(r.path@))
    } else {
        None
    }
}

/// Checks a profile reference's id and path.
pub fn check_module_reference(reference: &GameModuleProfileReference) -> (r: Result<()>)
    ensures
        match r {
            Ok(()) => reference_error(*reference) is None,
            Err(e) => reference_error(*reference) == Some(e.text()),
        },
{
    match slug(reference.id.as_str()) {
        Ok(()) => {}
        Err(e) => { return Err(e); }
    }
    check_module_path(reference.path.as_str())
}

// ---------------------------------------------------------------- profiles

/// The profiles of a module's variants, keyed by variant and profile id.
#[derive(Debug)]
pub struct ModuleProfiles {
    entries: Vec<(String, String, GenericGameProfile)>,
}

impl View for ModuleProfiles {
    type V = Seq<(Seq<char>, Seq<char>)>;

    /// The keys (variant id, profile id), in the order they were accepted.
    closed spec fn view(&self) -> Seq<(Seq<char>, Seq<char>)> {
        self.entries@.map_values(|e: (String, String, GenericGameProfile)| (e.0@, e.1@))
    }
}

impl ModuleProfiles {
    /// No key is accepted twice.
    #[verifier::type_invariant]
    spec fn inv(self) -> bool {
        forall|i: int, j: int| 0 <= i < j < self@.len() ==> #[trigger] self@[i] != #[trigger] self@[j]
    }

    /// The profile accepted under (`variant`, `id`).
    pub closed spec fn profile_at(&self, variant: Seq<char>, id: Seq<char>) -> Option<GenericGameProfile> {
        if exists|i: int| 0 <= i < self@.len() && self@[i] == (variant, id) {
            let i = choose|i: int| 0 <= i < self@.len() && self@[i] == (variant, id);
            Some(self.entries@[i].2)
        } else {
            None
        }
    }

    /// No profiles.
    pub fn new() -> (r: Self)
        ensures r@.len() == 0,
    {
        let r = ModuleProfiles { entries: Vec::new() };
        assert(r@ =~= Seq::<(Seq<char>, Seq<char>)>::empty());
        r
    }

    fn position(&self, variant: &str, id: &str) -> (r: Option<usize>)
        ensures
            match r {
                Some(i) => i < self@.len() && self@[i as int] == (variant@, id@),
                None => forall|i: int| 0 <= i < self@.len() ==> self@[i] != (variant@, id@),
            },
    {
        let mut i: usize = 0;
        while i < self.entries.len()
            invariant
                i <= self.entries.len(),
                forall|k: int| 0 <= k < i ==> self@[k] != (variant@, id@),
            decreases self.entries.len() - i,
        {
            if same_text(self.entries[i].0.as_str(), variant) && same_text(self.entries[i].1.as_str(), id) {
                assert(self@[i as int] == (variant@, id@));
                return Some(i);
            }
            i = i + 1;
        }
        None
    }

    /// Accepts the profile of reference `id` of `variant`: a profile that requires Steam
    /// must carry the variant's Steam store id, and no key is accepted twice.
    pub fn accept_profile(&mut self, variant: &GameModuleVariant, id: &str, profile: GenericGameProfile) -> (r: Result<()>)
        ensures
            match r {
                Ok(()) => final(self)@ == old(self)@.push((variant.id@, id@))
                    && final(self).profile_at(variant.id@, id@) == Some(profile),
                Err(e) => *final(self) == *old(self) && if profile.spec_steam_integration() == SteamIntegration::Required
                    && !(variant.stores.map().dom().contains("steam"@) && variant.stores.map()["steam"@] == profile.spec_app_id()) {
                    e.text() == "Steam-required profile must match variant stores.steam"@
                } else {
                    (exists|i: int| 0 <= i < old(self)@.len() && old(self)@[i] == (variant.id@, id@))
                        && e.text() == "duplicate profile id in variant"@
                },
            },
    {
        proof { use_type_invariant(&*self); }
        if profile.steam_integration() == SteamIntegration::Required {
            let matches = match variant.stores.get("steam") {
                Some(s) => same_text(s.as_str(), profile.app_id()),
                None => false,
            };
            if !matches {
                return Err(PortCellarError::message("Steam-required profile must match variant stores.steam".to_owned()));
            }
        }
        if self.position(variant.id.as_str(), id).is_some() {
            return Err(PortCellarError::message("duplicate profile id in variant".to_owned()));
        }
        let ghost before = self@;
        let ghost n = self.entries@.len();
        let mut entries: Vec<(String, String, GenericGameProfile)> = Vec::new();
        std::mem::swap(&mut entries, &mut self.entries);
        entries.push((variant.id.clone(), id.to_owned(), profile));
        assert(entries@.map_values(|e: (String, String, GenericGameProfile)| (e.0@, e.1@)) =~= before.push((variant.id@, id@)));
        *self = ModuleProfiles { entries };
        assert(self@ =~= before.push((variant.id@, id@)));
        assert(self@[n as int] == (variant.id@, id@));
        proof {
            let i = choose|i: int| 0 <= i < self@.len() && self@[i] == (variant.id@, id@);
            if i != n {
                assert(before[i] == (variant.id@, id@));
            }
        }
        Ok(())
    }

    /// The profile accepted under (`variant`, `id`), if any.
    pub fn get(&self, variant: &str, id: &str) -> (r: Option<&GenericGameProfile>)
        ensures
            match r {
                Some(p) => self.profile_at(variant@, id@) == Some(*p),
                None => self.profile_at(variant@, id@) is None,
            },
    {
        proof { use_type_invariant(self); }
        match self.position(variant, id) {
            Some(i) => {
                proof {
                    let j = choose|j: int| 0 <= j < self@.len() && self@[j] == (variant@, id@);
                    if j != i {
                        if j < i { assert(self@[j] != self@[i as int]); } else { assert(self@[i as int] != self@[j]); }
                    }
                }
                Some(&self.entries[i].2)
            }
            None => None,
        }
    }
}

/// A loaded module: its descriptor and the profiles of its variants.
#[derive(Debug)]
pub struct GameModule {
    pub descriptor: GameModuleDescriptor,
    pub profiles: ModuleProfiles,
}

// ---------------------------------------------------------------- the catalog

/// The loaded modules, in identifier order.
#[derive(Debug)]
pub struct GameModuleCatalog {
    modules: Vec<GameModule>,
}

impl View for GameModuleCatalog {
    type V = Seq<GameModule>;

    /// The modules, in identifier order.
    closed spec fn view(&self) -> Seq<GameModule> {
        self.modules@
    }
}

/// The identifiers of `modules`, in order.
pub open spec fn module_ids(modules: Seq<GameModule>) -> Seq<Seq<char>> {
    modules.map_values(|m: GameModule| m.descriptor.id@)
}

/// Whether identifiers strictly increase.
pub open spec fn ids_increase(ids: Seq<Seq<char>>) -> bool {
    forall|i: int, j: int| 0 <= i < j < ids.len() ==> text_lt(#[trigger] ids[i], #[trigger] ids[j])
}

impl GameModuleCatalog {
    /// Module identifiers strictly increase.
    #[verifier::type_invariant]
    spec fn inv(self) -> bool {
        ids_increase(module_ids(self.modules@))
    }

    /// No modules.
    pub fn new() -> (r: Self)
        ensures r@.len() == 0,
    {
        GameModuleCatalog { modules: Vec::new() }
    }

    /// The modules, in strictly increasing identifier order.
    pub fn modules(&self) -> (r: &Vec<GameModule>)
        ensures
            r@ == self@,
            ids_increase(module_ids(self@)),
    {
        proof { use_type_invariant(self); }
        &self.modules
    }

    /// Adds a loaded module at its place in identifier order; a second module with
    /// the same identifier is refused.
    pub fn add_module(&mut self, module: GameModule) -> (r: Result<()>)
        ensures
            ids_increase(module_ids(final(self)@)),
            match r {
                Ok(()) => !holds_id(module_ids(old(self)@), module.descriptor.id@)
                    && exists|p: int| 0 <= p <= old(self)@.len()
                        && final(self)@ == old(self)@.insert(p, module),
                Err(e) => holds_id(module_ids(old(self)@), module.descriptor.id@)
                    && final(self)@ == old(self)@
                    && e.text() == "duplicate module id: "@ + module.descriptor.id@,
            },
    {
        proof { use_type_invariant(&*self); }
        let ghost ids = module_ids(self.modules@);
        let mut p: usize = 0;
        while p < self.modules.len()
            invariant
                p <= self.modules@.len(),
                ids == module_ids(self.modules@),
                ids_increase(ids),
                forall|k: int| 0 <= k < p ==> text_lt(#[trigger] ids[k], module.descriptor.id@),
            ensures
                p <= self.modules@.len(),
                forall|k: int| 0 <= k < p ==> text_lt(#[trigger] ids[k], module.descriptor.id@),
                p < self.modules@.len() ==> text_lt(module.descriptor.id@, ids[p as int]),
            decreases self.modules.len() - p,
        {
            let here = self.modules[p].descriptor.id.as_str();
            if same_text(here, module.descriptor.id.as_str()) {
                assert(ids[p as int] == module.descriptor.id@);
                return Err(PortCellarError::message(concat("duplicate module id: ", module.descriptor.id.as_str())));
            }
            if crate::sort::text_before(module.descriptor.id.as_str(), here) {
                break;
            }
            proof { crate::strmap::lemma_text_lt_total(ids[p as int], module.descriptor.id@); }
            p = p + 1;
        }
        let ghost key = module.descriptor.id@;
        proof {
            assert forall|i: int| 0 <= i < ids.len() implies ids[i] != key by {
                if i < p {
                    crate::strmap::lemma_text_lt_irreflexive(key);
                } else if p < self.modules@.len() {
                    assert(text_lt(key, ids[p as int]));
                    if i > p {
                        crate::strmap::lemma_text_lt_transitive(key, ids[p as int], ids[i]);
                    }
                    crate::strmap::lemma_text_lt_irreflexive(key);
                }
            }
        }
        let ghost old_modules = self.modules@;
        let ghost added = module;
        assert(!holds_id(ids, key));
        let mut modules: Vec<GameModule> = Vec::new();
        std::mem::swap(&mut modules, &mut self.modules);
        modules.insert(p, module);
        proof {
            let nids = module_ids(modules@);
            assert(nids =~= ids.insert(p as int, key));
            assert forall|a: int, b: int| 0 <= a < b < nids.len() implies text_lt(#[trigger] nids[a], #[trigger] nids[b]) by {
                if b < p {
                    assert(text_lt(ids[a], ids[b]));
                } else if b == p {
                    assert(text_lt(ids[a], key));
                } else if a < p {
                    assert(text_lt(key, ids[p as int]));
                    if b - 1 > p {
                        crate::strmap::lemma_text_lt_transitive(key, ids[p as int], ids[b - 1]);
                    }
                    crate::strmap::lemma_text_lt_transitive(ids[a], key, ids[b - 1]);
                } else if a == p {
                    assert(text_lt(key, ids[p as int]));
                    if b - 1 > p {
                        crate::strmap::lemma_text_lt_transitive(key, ids[p as int], ids[b - 1]);
                    }
                } else {
                    assert(text_lt(ids[a - 1], ids[b - 1]));
                }
            }
        }
        self.modules = modules;
        assert(self@ == old_modules.insert(p as int, added));
        assert(old(self)@ == old_modules);
        assert(module_ids(old(self)@) == ids);
        assert(0 <= p <= old_modules.len());
        Ok(())
    }

    /// The profile `profile` of variant `variant` of module `module`.
    pub fn profile(&self, module: &str, variant: &str, profile: &str) -> (r: Option<&GenericGameProfile>)
        ensures
            match r {
                Some(p) => exists|i: int| 0 <= i < self@.len()
                    && self@[i].descriptor.id@ == module@
                    && (forall|k: int| 0 <= k < i ==> self@[k].descriptor.id@ != module@)
                    && self@[i].profiles.profile_at(variant@, profile@) == Some(*p),
                None => forall|i: int| 0 <= i < self@.len() && self@[i].descriptor.id@ == module@
                    && (forall|k: int| 0 <= k < i ==> self@[k].descriptor.id@ != module@)
                    ==> self@[i].profiles.profile_at(variant@, profile@) is None,
            },
    {
        let mut i: usize = 0;
        while i < self.modules.len()
            invariant
                i <= self.modules.len(),
                self.modules@ == self@,
                forall|k: int| 0 <= k < i ==> self@[k].descriptor.id@ != module@,
            decreases self.modules.len() - i,
        {
            if same_text(self.modules[i].descriptor.id.as_str(), module) {
                return self.modules[i].profiles.get(variant, profile);
            }
            i = i + 1;
        }
        None
    }
}

/// The error of a module that failed to load, prefixed with where it is.
pub fn module_error(path: &str, error: PortCellarError) -> (r: PortCellarError)
    ensures r.text() == path@ + ": "@ + error.text(),
{
    PortCellarError::message(concat3(path, ": ", error.to_string().as_str()))
}

} // verus!
