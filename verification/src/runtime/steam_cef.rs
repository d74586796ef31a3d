//! Patching Steam's browser (CEF) under Wine: each `cef.win*` directory's
//! `steamwebhelper.exe` is replaced by a small wrapper, and stale browser cache locks
//! are removed. The directories are walked, and the wrapper built and copied, by the
//! caller; here is what decides the plan.
use vstd::prelude::*;
use vstd::string::StringSliceAdditionalSpecFns;
use crate::strmap::{lemma_text_lt_irreflexive, lemma_text_lt_transitive, text_lt};
use crate::paths::{join, path_join};
use crate::text::{contains, contains_text, ends_with, ends_with_text, starts_with, starts_with_text};

verus! {

/// A wrapper file is smaller than this.
pub const STEAM_WEBHELPER_WRAPPER_SIZE_CEILING: u64 = 500000;

/// The text that marks the current wrapper's binary.
pub const STEAM_WEBHELPER_WRAPPER_MARKER: &'static str = "portcellar-steamwebhelper-wrapper-v5";

/// The architecture of a Steam webhelper.
#[derive(Debug, Clone, Copy, PartialEq, Eq, Structural)]
pub enum SteamWebHelperArch {
    X86,
    X86_64,
}

/// A webhelper to patch.
#[derive(Debug, Clone)]
pub struct SteamCefPatchTarget {
    pub arch: SteamWebHelperArch,
    pub already_patched: bool,
    pub cef_dir: String,
    pub real: String,
    pub target: String,
}

/// The webhelpers to patch and the cache locks to remove.
#[derive(Debug)]
pub struct SteamCefPatchPlan {
    pub cef_targets: Vec<SteamCefPatchTarget>,
    pub htmlcache_locks: Vec<String>,
    pub steam_dir: String,
}

/// What a patch did.
#[derive(Debug)]
pub struct SteamCefPatchResult {
    pub patched_targets: Vec<SteamCefPatchTarget>,
    pub removed_locks: Vec<String>,
}

/// The architecture of the webhelper in a `cef.win*` directory: 64-bit where the
/// name says `x64` or `win64`.
pub open spec fn arch_for_cef_dir(name: Seq<char>) -> SteamWebHelperArch {
    if contains(name, "x64"@) || contains(name, "win64"@) { SteamWebHelperArch::X86_64 } else { SteamWebHelperArch::X86 }
}

/// The architecture of the webhelper in a `cef.win*` directory.
pub fn steamwebhelper_arch_for_cef_dir(name: &str) -> (r: SteamWebHelperArch)
    ensures r == arch_for_cef_dir(name@),
{
    if contains_text(name, "x64") || contains_text(name, "win64") { SteamWebHelperArch::X86_64 } else { SteamWebHelperArch::X86 }
}

/// Whether a directory holds a Steam browser: its name begins with `cef.win`.
pub fn is_cef_dir_name(name: &str) -> (r: bool)
    ensures r == starts_with(name@, "cef.win"@),
{
    starts_with_text(name, "cef.win")
}

/// Whether a file in the browser cache is a lock: a `Singleton*` file or a `.lock`.
pub open spec fn lock_file_name(name: Seq<char>) -> bool {
    starts_with(name, "Singleton"@) || ends_with(name, ".lock"@)
}

/// Whether a file in the browser cache is a lock.
pub fn is_htmlcache_lock_name(name: &str) -> (r: bool)
    ensures r == lock_file_name(name@),
{
    starts_with_text(name, "Singleton") || ends_with_text(name, ".lock")
}

/// Whether `needle` is not empty and occurs in `haystack`.
pub open spec fn holds_bytes(haystack: Seq<u8>, needle: Seq<u8>) -> bool {
    needle.len() > 0 && exists|i: int| 0 <= i && i + needle.len() <= haystack.len()
        && #[trigger] haystack.subrange(i, i + needle.len()) == needle
}

fn bytes_at(h: &[u8], n: &[u8], i: usize) -> (r: bool)
    requires i + n@.len() <= h@.len(),
    ensures r == (h@.subrange(i as int, i + n@.len()) == n@),
{
    let mut j: usize = 0;
    let hl = h.len();
    assert(hl == h@.len());
    while j < n.len()
        invariant
            hl == h@.len(),
            i + n@.len() <= h@.len(),
            j <= n@.len(),
            forall|k: int| 0 <= k < j ==> h@[i + k] == n@[k],
        decreases n.len() - j,
    {
        if h[i + j] != n[j] {
            assert(h@.subrange(i as int, i + n@.len())[j as int] != n@[j as int]);
            return false;
        }
        j = j + 1;
    }
    assert(h@.subrange(i as int, i + n@.len()) =~= n@);
    true
}

/// Whether `needle` is not empty and occurs in `haystack`.
pub fn contains_bytes(haystack: &[u8], needle: &[u8]) -> (r: bool)
    ensures r == holds_bytes(haystack@, needle@),
{
    if needle.len() == 0 || needle.len() > haystack.len() {
        return false;
    }
    let last = haystack.len() - needle.len();
    let mut i: usize = 0;
    while i <= last
        invariant
            1 <= needle@.len() <= haystack@.len(),
            haystack@.len() == haystack.len(),
            needle@.len() == needle.len(),
            last == haystack@.len() - needle@.len(),
            i <= last + 1,
            forall|k: int| 0 <= k < i ==> #[trigger] haystack@.subrange(k, k + needle@.len()) != needle@,
        decreases last + 1 - i,
    {
        if bytes_at(haystack, needle, i) {
            return true;
        }
        i = i + 1;
    }
    proof {
        assert forall|k: int| 0 <= k && k + needle@.len() <= haystack@.len()
            implies #[trigger] haystack@.subrange(k, k + needle@.len()) != needle@ by {
            assert(k <= last);
        }
    }
    false
}

/// Whether a webhelper's bytes are the current wrapper: they hold its marker.
pub fn is_current_steamwebhelper_wrapper(bytes: &[u8]) -> (r: bool)
    ensures r == holds_bytes(bytes@, STEAM_WEBHELPER_WRAPPER_MARKER.spec_bytes()),
{
    contains_bytes(bytes, STEAM_WEBHELPER_WRAPPER_MARKER.as_bytes())
}

/// Whether a webhelper of `size` bytes is small enough to be a wrapper.
pub fn is_wrapper_like(size: u64) -> (r: bool)
    ensures r == (size < STEAM_WEBHELPER_WRAPPER_SIZE_CEILING),
{
    size < STEAM_WEBHELPER_WRAPPER_SIZE_CEILING
}

/// Patch targets are listed by directory.
impl crate::sort::ListOrder for SteamCefPatchTarget {
    open spec fn precedes(a: Self, b: Self) -> bool {
        text_lt(a.cef_dir@, b.cef_dir@)
    }

    proof fn lemma_irreflexive(a: Self) {
        lemma_text_lt_irreflexive(a.cef_dir@);
    }

    proof fn lemma_transitive(a: Self, b: Self, c: Self) {
        lemma_text_lt_transitive(a.cef_dir@, b.cef_dir@, c.cef_dir@);
    }

    fn goes_before(&self, other: &Self) -> (r: bool) {
        crate::sort::text_before(self.cef_dir.as_str(), other.cef_dir.as_str())
    }
}


/// The patch target in the `cef.win*` directory `cef_dir` (named `name`), whose
/// `steamwebhelper.exe` holds `bytes`: its architecture, whether it is already the
/// current wrapper, and where Valve's helper is kept once wrapped.
pub fn cef_patch_target(cef_dir: &str, name: &str, bytes: &[u8]) -> (r: SteamCefPatchTarget)
    ensures
        r.arch == arch_for_cef_dir(name@),
        r.already_patched == holds_bytes(bytes@, STEAM_WEBHELPER_WRAPPER_MARKER.spec_bytes()),
        r.cef_dir@ == cef_dir@,
        r.real@ == path_join(cef_dir@, "steamwebhelper_real.exe"@),
        r.target@ == path_join(cef_dir@, "steamwebhelper.exe"@),
{
    SteamCefPatchTarget {
        arch: steamwebhelper_arch_for_cef_dir(name),
        already_patched: is_current_steamwebhelper_wrapper(bytes),
        cef_dir: cef_dir.to_owned(),
        real: join(cef_dir, "steamwebhelper_real.exe"),
        target: join(cef_dir, "steamwebhelper.exe"),
    }
}

/// Whether a plan has work: a helper not yet wrapped, or a cache lock to remove.
pub open spec fn patch_needed(plan: SteamCefPatchPlan) -> bool {
    (exists|i: int| 0 <= i < plan.cef_targets@.len() && !(#[trigger] plan.cef_targets@[i]).already_patched)
        || plan.htmlcache_locks@.len() > 0
}

/// Whether `plan` has work to do.
pub fn cef_patch_needed(plan: &SteamCefPatchPlan) -> (r: bool)
    ensures r == patch_needed(*plan),
{
    let mut i: usize = 0;
    while i < plan.cef_targets.len()
        invariant
            i <= plan.cef_targets.len(),
            forall|j: int| 0 <= j < i ==> (#[trigger] plan.cef_targets@[j]).already_patched,
        decreases plan.cef_targets.len() - i,
    {
        if !plan.cef_targets[i].already_patched {
            return true;
        }
        i = i + 1;
    }
    plan.htmlcache_locks.len() > 0
}

/// What patching one helper does.
#[derive(Debug, Clone, Copy, PartialEq, Eq, Structural)]
pub enum CefHelperStep {
    /// Valve's helper cannot be found: stop with an error.
    ValveHelperMissing,
    /// Keep Valve's helper aside, then put the wrapper in its place.
    PreserveThenWrap,
    /// Valve's helper is already kept: put the wrapper in place.
    Wrap,
}

/// The step for a helper that is `already_patched` or not, whose kept copy of
/// Valve's helper is present (and not itself a wrapper) or not, and whose current
/// file looks like a wrapper by its size or not.
pub open spec fn cef_helper_step_of(already_patched: bool, valve_present: bool, target_wrapper_like: bool) -> CefHelperStep {
    if valve_present {
        CefHelperStep::Wrap
    } else if already_patched || target_wrapper_like {
        CefHelperStep::ValveHelperMissing
    } else {
        CefHelperStep::PreserveThenWrap
    }
}

/// Decides how one helper is patched.
pub fn cef_helper_step(already_patched: bool, valve_present: bool, target_wrapper_like: bool) -> (r: CefHelperStep)
    ensures r == cef_helper_step_of(already_patched, valve_present, target_wrapper_like),
{
    if valve_present {
        CefHelperStep::Wrap
    } else if already_patched || target_wrapper_like {
        CefHelperStep::ValveHelperMissing
    } else {
        CefHelperStep::PreserveThenWrap
    }
}

/// Valve's helper is never overwritten by a wrapper: a helper is only copied aside
/// when it is not already patched and does not look like a wrapper.
pub proof fn lemma_valve_helper_preserved(already_patched: bool, valve_present: bool, target_wrapper_like: bool)
    ensures
        cef_helper_step_of(already_patched, valve_present, target_wrapper_like) == CefHelperStep::PreserveThenWrap
            ==> !already_patched && !target_wrapper_like && !valve_present,
{
}


/// The Steam directory a patch works in: the directory holding the runtime's
/// `steam.exe`, or the error where there is none.
pub fn steam_dir_for_patch(runtime: &crate::types::WineSteamRuntime) -> (r: crate::error::Result<String>)
    ensures
        match runtime.steam_exe {
            None => r matches Err(e) && e.text() == "Windows Steam was not found in the configured Wine prefix"@,
            Some(exe) => match crate::paths::parent_of(exe@) {
                Some(d) => r matches Ok(s) && s@ == d,
                None => r matches Err(e) && e.text() == "Windows Steam executable has no parent"@,
            },
        },
{
    match &runtime.steam_exe {
        None => Err(crate::error::PortCellarError::message(
            "Windows Steam was not found in the configured Wine prefix".to_owned())),
        Some(exe) => match crate::paths::parent_path(exe.as_str()) {
            Some(d) => Ok(d),
            None => Err(crate::error::PortCellarError::message("Windows Steam executable has no parent".to_owned())),
        },
    }
}

/// The patch plan for the Steam directory `steam_dir`: the helpers found there in
/// directory order, and the cache locks found in text order.
pub fn cef_patch_plan(steam_dir: String, cef_targets: Vec<SteamCefPatchTarget>, htmlcache_locks: Vec<String>) -> (r: SteamCefPatchPlan)
    ensures
        r.steam_dir == steam_dir,
        crate::sort::in_order(r.cef_targets@),
        r.cef_targets@.to_multiset() == cef_targets@.to_multiset(),
        crate::sort::in_order(r.htmlcache_locks@),
        r.htmlcache_locks@.to_multiset() == htmlcache_locks@.to_multiset(),
{
    SteamCefPatchPlan {
        cef_targets: crate::sort::sort_in_order(cef_targets),
        htmlcache_locks: crate::sort::sort_in_order(htmlcache_locks),
        steam_dir,
    }
}

} // verus!
