//! Analysis of a Steam or local install: what it holds, and the profile candidate
//! that follows from it.
use vstd::prelude::*;
use crate::error::{PortCellarError, Result};
use crate::games::generic::{GenericGameProfile, ProfileModel};
use crate::games::{opt_text, GameCapability, RuntimeDependency, SteamCefPolicy};
use crate::text::{concat, concat3, contains, contains_text, lower, lowercase, same_text};
use crate::inspect::crash::CrashSummary;
use crate::types::WineSteamRuntime;
use discovery::{any_contains, has_item};

pub mod discovery;
pub mod local;
pub mod pe;
pub mod steam_client;
pub mod report;


verus! {

/// The format tag of porting analyses.
pub const PORTING_ANALYSIS_VERSION: &'static str = "porting-analysis-v1";

/// The format tag of local game analyses.
pub const LOCAL_GAME_ANALYSIS_VERSION: &'static str = "local-game-analysis-v1";

/// What a PE image's headers show.
#[derive(Debug, Clone)]
pub struct PeSummary {
    pub machine: Option<String>,
    pub subsystem: Option<String>,
    pub import_dlls: Vec<String>,
    pub detected_layers: Vec<String>,
}

/// A Steam app manifest found in a library.
#[derive(Debug)]
pub struct SteamAppManifest {
    pub source: String,
    pub app_id: String,
    pub name: String,
    pub build_id: Option<String>,
    pub install_dir_name: String,
    pub manifest_path: String,
    pub install_dir: String,
}

/// A Windows executable found in an install, with its score.
#[derive(Debug)]
pub struct WindowsExeCandidate {
    pub path: String,
    pub relative_path: String,
    pub file_name: String,
    pub size: u64,
    pub pe: Option<PeSummary>,
    pub score: i32,
    pub reasons: Vec<String>,
}

/// The runtime facts an analysis keeps.
#[derive(Debug)]
pub struct RuntimeSnapshot {
    pub wine: Option<String>,
    pub wine_version: Option<String>,
    pub windows_version: Option<String>,
    pub prefix: String,
    pub steam_exe: Option<String>,
    pub dxmt_root: Option<String>,
    pub steam_running: bool,
    pub logged_in: Option<bool>,
    pub connection_status: Option<String>,
    pub cef_status: Option<String>,
    pub readiness_issues: Vec<String>,
}

/// Whether `s` is the snapshot of `runtime`: every field it keeps, as it was.
pub open spec fn is_snapshot_of(s: RuntimeSnapshot, runtime: WineSteamRuntime) -> bool {
    &&& s.wine == runtime.wine
    &&& s.wine_version == runtime.wine_version
    &&& s.windows_version == runtime.windows_version
    &&& s.prefix == runtime.prefix
    &&& s.steam_exe == runtime.steam_exe
    &&& s.dxmt_root == runtime.dxmt_root
    &&& s.steam_running == runtime.running
    &&& s.logged_in == runtime.logged_in
    &&& s.connection_status == runtime.connection_status
    &&& s.cef_status == runtime.cef_status
    &&& s.readiness_issues.deep_view() == runtime.readiness_issues.deep_view()
}

impl RuntimeSnapshot {
    /// The snapshot of an inspected runtime.
    pub fn from_runtime(runtime: &WineSteamRuntime) -> (r: Self)
        ensures is_snapshot_of(r, *runtime),
    {
        RuntimeSnapshot {
            wine: crate::games::clone_opt(&runtime.wine),
            wine_version: crate::games::clone_opt(&runtime.wine_version),
            windows_version: crate::games::clone_opt(&runtime.windows_version),
            prefix: runtime.prefix.clone(),
            steam_exe: crate::games::clone_opt(&runtime.steam_exe),
            dxmt_root: crate::games::clone_opt(&runtime.dxmt_root),
            steam_running: runtime.running,
            logged_in: runtime.logged_in,
            connection_status: crate::games::clone_opt(&runtime.connection_status),
            cef_status: crate::games::clone_opt(&runtime.cef_status),
            readiness_issues: crate::games::clone_strings(&runtime.readiness_issues),
        }
    }
}

/// Where a porting analysis was written.
#[derive(Debug)]
pub struct PortingAnalysisArtifacts {
    pub root: String,
    pub report_path: String,
    pub profile_draft_path: String,
    pub profile_path: Option<String>,
    pub reproduce_path: String,
    pub raw_doctor_path: String,
    pub experiment_path: String,
}

/// The analysis of a Steam game's install and runtime.
#[derive(Debug)]
pub struct GamePortingAnalysis {
    pub version: &'static str,
    pub app_id: String,
    pub slug: String,
    pub manifest: Option<SteamAppManifest>,
    pub exe_candidates: Vec<WindowsExeCandidate>,
    pub selected_exe: Option<WindowsExeCandidate>,
    pub bundled_dlls: Vec<String>,
    pub runtime: RuntimeSnapshot,
    pub latest_crash: Option<CrashSummary>,
    pub recommendations: Vec<String>,
    pub blockers: Vec<String>,
}

/// A profile drafted from an analysis, with what a person should review.
#[derive(Debug)]
pub struct GameProfileCandidate {
    pub analysis_version: &'static str,
    pub profile: GenericGameProfile,
    pub review_items: Vec<String>,
}

/// The analysis of a game installed outside Steam.
#[derive(Debug)]
pub struct LocalGameAnalysis {
    pub version: &'static str,
    pub root: String,
    pub name: String,
    pub slug: String,
    pub app_id: String,
    pub windows_install_path: String,
    pub exe_candidates: Vec<WindowsExeCandidate>,
    pub selected_exe: Option<WindowsExeCandidate>,
    pub bundled_dlls: Vec<String>,
    pub profile: GenericGameProfile,
    pub review_items: Vec<String>,
}

/// Where a local game analysis was written.
#[derive(Debug)]
pub struct LocalGameAnalysisArtifacts {
    pub root: String,
    pub report_path: String,
    pub profile_path: String,
    pub reproduce_path: String,
}

/// The capability a detected layer declares, if any.
pub open spec fn layer_capability(layer: Seq<char>) -> Option<GameCapability> {
    if layer == "steamworks"@ { Some(GameCapability::Steamworks) }
    else if layer == "d3d12"@ { Some(GameCapability::Direct3d12) }
    else if layer == "d3d11/dxgi"@ { Some(GameCapability::Direct3d11) }
    else if layer == "d3d9"@ { Some(GameCapability::Direct3d9) }
    else if layer == "opengl"@ { Some(GameCapability::OpenGl) }
    else if layer == "vulkan"@ { Some(GameCapability::Vulkan) }
    else if layer == "media-codec"@ { Some(GameCapability::VideoPlayback) }
    else if layer == "audio"@ { Some(GameCapability::Audio) }
    else if layer == "anti-cheat-risk"@ { Some(GameCapability::AntiCheat) }
    else { None }
}

pub(crate) fn capability_for_layer(layer: &str) -> (r: Option<GameCapability>)
    ensures r == layer_capability(layer@),
{
    proof {
        reveal_strlit("steamworks"); reveal_strlit("d3d12"); reveal_strlit("d3d11/dxgi");
        reveal_strlit("d3d9"); reveal_strlit("opengl"); reveal_strlit("vulkan");
        reveal_strlit("media-codec"); reveal_strlit("audio"); reveal_strlit("anti-cheat-risk");
    }
    if same_text(layer, "steamworks") { Some(GameCapability::Steamworks) }
    else if same_text(layer, "d3d12") { Some(GameCapability::Direct3d12) }
    else if same_text(layer, "d3d11/dxgi") { Some(GameCapability::Direct3d11) }
    else if same_text(layer, "d3d9") { Some(GameCapability::Direct3d9) }
    else if same_text(layer, "opengl") { Some(GameCapability::OpenGl) }
    else if same_text(layer, "vulkan") { Some(GameCapability::Vulkan) }
    else if same_text(layer, "media-codec") { Some(GameCapability::VideoPlayback) }
    else if same_text(layer, "audio") { Some(GameCapability::Audio) }
    else if same_text(layer, "anti-cheat-risk") { Some(GameCapability::AntiCheat) }
    else { None }
}

/// The capabilities the layers declare.
pub open spec fn layer_capabilities(layers: Seq<Seq<char>>) -> Set<GameCapability> {
    Set::new(|c: GameCapability| exists|i: int| 0 <= i < layers.len() && layer_capability(#[trigger] layers[i]) == Some(c))
}

/// Whether some imported DLL, lowercased, contains one of `needles`.
pub open spec fn imports_any(dlls: Seq<Seq<char>>, needles: Seq<Seq<char>>) -> bool {
    exists|i: int, j: int| 0 <= i < dlls.len() && 0 <= j < needles.len() && contains(lower(#[trigger] dlls[i]), #[trigger] needles[j])
}

/// The dependencies that imports call for, in the order they are checked.
pub open spec fn import_dependencies(dlls: Seq<Seq<char>>) -> Seq<RuntimeDependency> {
    let d = |c: bool, x: RuntimeDependency| if c { seq![x] } else { Seq::<RuntimeDependency>::empty() };
    d(imports_any(dlls, seq!["vcruntime"@, "msvcp"@]), RuntimeDependency::Vcrun2022)
        + d(imports_any(dlls, seq!["d3dcompiler"@]), RuntimeDependency::D3dCompiler)
        + d(imports_any(dlls, seq!["openal"@]), RuntimeDependency::OpenAl)
        + d(imports_any(dlls, seq!["xaudio2"@]), RuntimeDependency::XAudio)
        + d(imports_any(dlls, seq!["mfplat"@, "mfreadwrite"@, "wmvcore"@]), RuntimeDependency::MediaFoundation)
}

/// The profile an analysis drafts, before PE evidence is applied.
pub open spec fn base_candidate_model(a: GamePortingAnalysis) -> ProfileModel {
    let m = a.manifest->0;
    let s = a.selected_exe->0;
    let p0 = crate::games::generic::new_model(a.app_id@, m.name@, s.relative_path@);
    ProfileModel {
        install_dir_hint: m.install_dir_name@,
        bottle_name: crate::text::safe_component_spec("game-"@ + a.app_id@),
        runtime_profile_version: a.version@ + "-"@ + a.app_id@,
        steam_cef_policy: SteamCefPolicy::CrossOverCompatible,
        wine_windows_version: match a.runtime.windows_version { Some(v) => v@, None => p0.wine_windows_version },
        ..p0
    }
}

/// The review items that do not depend on PE evidence.
pub open spec fn base_review_items(a: GamePortingAnalysis) -> Seq<Seq<char>> {
    a.blockers.deep_view().map_values(|b: Seq<char>| "analysis blocker: "@ + b)
        + (if a.runtime.wine is Some {
            seq!["observed Wine engine is evidence only; pin wine_engine_path manually when reproducibility requires it"@]
        } else { Seq::empty() })
        + seq![
            "graphics backend remains Auto until a backend matrix entry is validated by smoke testing"@,
            "Steam UI uses the observed CrossOver-compatible CEF policy; game graphics remain independent"@,
        ]
}

/// The review items that PE evidence adds.
pub open spec fn pe_review_items(pe: PeSummary) -> Seq<Seq<char>> {
    let dlls = pe.import_dlls.deep_view();
    (if imports_any(dlls, seq!["vcruntime"@, "msvcp"@]) {
        seq!["Visual C++ imports detected; verify both x86 and x64 redistributable components before applying the vcrun2022 recipe"@]
    } else { Seq::empty() })
    + (if imports_any(dlls, seq!["quartz"@, "theora"@, "bink"@, "avcodec"@]) {
        seq!["Non-MediaFoundation media imports detected; verify bundled codec/DirectShow behavior during video smoke instead of inferring a Media Foundation dependency"@]
    } else { Seq::empty() })
    + (if !has_item(pe.detected_layers.deep_view(), "steamworks"@) {
        seq!["Steam integration remains Required because the analysis came from a Steam manifest; verify the runtime path"@]
    } else { Seq::empty() })
}

/// Whether `c` is the profile candidate that analysis `a` drafts.
pub open spec fn is_candidate_of(c: GameProfileCandidate, a: GamePortingAnalysis) -> bool {
    let base = base_candidate_model(a);
    &&& c.analysis_version == a.version
    &&& match a.selected_exe->0.pe {
        None => c.profile@ == base
            && c.review_items.deep_view() == base_review_items(a) + seq!["selected executable has no PE summary"@],
        Some(pe) => c.profile@ == (ProfileModel {
                capabilities: base.capabilities.union(layer_capabilities(pe.detected_layers.deep_view())),
                dependencies: base.dependencies + import_dependencies(pe.import_dlls.deep_view()),
                ..base
            })
            && c.review_items.deep_view() == base_review_items(a) + pe_review_items(pe),
    }
}

pub(crate) fn imports_any_of(dlls: &Vec<String>, needles: &Vec<&str>) -> (r: bool)
    ensures r == imports_any(dlls.deep_view(), needles@.map_values(|n: &str| n@)),
{
    let ghost nv = needles@.map_values(|n: &str| n@);
    let mut i: usize = 0;
    while i < dlls.len()
        invariant
            i <= dlls.len(),
            nv == needles@.map_values(|n: &str| n@),
            forall|a: int, b: int| 0 <= a < i && 0 <= b < nv.len() ==> !contains(lower(#[trigger] dlls.deep_view()[a]), #[trigger] nv[b]),
        decreases dlls.len() - i,
    {
        let l = lowercase(dlls[i].as_str());
        let mut j: usize = 0;
        while j < needles.len()
            invariant
                i < dlls.len(),
                j <= needles.len(),
                nv == needles@.map_values(|n: &str| n@),
                l@ == lower(dlls.deep_view()[i as int]),
                forall|a: int, b: int| 0 <= a < i && 0 <= b < nv.len() ==> !contains(lower(#[trigger] dlls.deep_view()[a]), #[trigger] nv[b]),
                forall|b: int| 0 <= b < j ==> !contains(lower(dlls.deep_view()[i as int]), #[trigger] nv[b]),
            decreases needles.len() - j,
        {
            if contains_text(l.as_str(), needles[j]) {
                assert(contains(lower(dlls.deep_view()[i as int]), nv[j as int]));
                return true;
            }
            j = j + 1;
        }
        i = i + 1;
    }
    false
}

pub(crate) fn needles1(a: &'static str) -> (r: Vec<&'static str>)
    ensures r@.map_values(|n: &str| n@) == seq![a@],
{
    let mut v: Vec<&'static str> = Vec::new();
    v.push(a);
    assert(v@.map_values(|n: &str| n@) =~= seq![a@]);
    v
}

pub(crate) fn push_review(items: &mut Vec<String>, text: &str)
    ensures final(items).deep_view() == old(items).deep_view().push(text@),
{
    let ghost before = items.deep_view();
    items.push(text.to_owned());
    assert(items.deep_view() =~= before.push(text@));
}

pub(crate) fn add_layer_capabilities(profile: GenericGameProfile, layers: &Vec<String>) -> (r: GenericGameProfile)
    ensures
        r@ == (ProfileModel {
            capabilities: profile@.capabilities.union(layer_capabilities(layers.deep_view())),
            ..profile@
        }),
{
    let ghost base = profile@;
    let ghost lv = layers.deep_view();
    let mut profile = profile;
    proof {
        assert(layer_capabilities(lv.take(0)) =~= Set::<GameCapability>::empty());
        assert(base.capabilities.union(layer_capabilities(lv.take(0))) =~= base.capabilities);
        assert(profile@ == (ProfileModel { capabilities: base.capabilities.union(layer_capabilities(lv.take(0))), ..base }));
    }
    let mut k: usize = 0;
    while k < layers.len()
        invariant
            k <= layers.len(),
            lv == layers.deep_view(),
            profile@ == (ProfileModel {
                capabilities: base.capabilities.union(layer_capabilities(lv.take(k as int))),
                ..base
            }),
        decreases layers.len() - k,
    {
        let ghost prev = profile@;
        let found = capability_for_layer(layers[k].as_str());
        proof { lemma_layer_capabilities_step(lv, k as int, found); }
        match found {
            Some(c) => {
                profile = profile.with_capability(c);
                assert(base.capabilities.union(layer_capabilities(lv.take(k + 1)))
                    =~= prev.capabilities.insert(c));
            }
            None => {}
        }
        k = k + 1;
    }
    assert(lv.take(k as int) =~= lv);
    profile
}

proof fn lemma_layer_capabilities_step(lv: Seq<Seq<char>>, k: int, found: Option<GameCapability>)
    requires
        0 <= k < lv.len(),
        found == layer_capability(lv[k]),
    ensures
        layer_capabilities(lv.take(k + 1)) == match found {
            Some(c) => layer_capabilities(lv.take(k)).insert(c),
            None => layer_capabilities(lv.take(k)),
        },
{
    let next = match found {
        Some(c) => layer_capabilities(lv.take(k)).insert(c),
        None => layer_capabilities(lv.take(k)),
    };
    assert(lv.take(k + 1)[k] == lv[k]);
    assert forall|x: GameCapability| layer_capabilities(lv.take(k + 1)).contains(x) == next.contains(x) by {
        if layer_capabilities(lv.take(k)).contains(x) {
            let i = choose|i: int| 0 <= i < lv.take(k).len()
                && layer_capability(#[trigger] lv.take(k)[i]) == Some(x);
            assert(lv.take(k + 1)[i] == lv.take(k)[i]);
        }
        if layer_capabilities(lv.take(k + 1)).contains(x) {
            let i = choose|i: int| 0 <= i < lv.take(k + 1).len()
                && layer_capability(#[trigger] lv.take(k + 1)[i]) == Some(x);
            if i < k {
                assert(lv.take(k)[i] == lv.take(k + 1)[i]);
            }
        }
    }
    assert(layer_capabilities(lv.take(k + 1)) =~= next);
}

fn add_import_evidence(profile: GenericGameProfile, review_items: &mut Vec<String>, pe: &PeSummary)
    -> (r: GenericGameProfile)
    ensures
        r@ == (ProfileModel {
            capabilities: profile@.capabilities.union(layer_capabilities(pe.detected_layers.deep_view())),
            dependencies: profile@.dependencies + import_dependencies(pe.import_dlls.deep_view()),
            ..profile@
        }),
        final(review_items).deep_view() == old(review_items).deep_view() + pe_review_items(*pe),
{
    let ghost base = profile@;
    let mut profile = add_layer_capabilities(profile, &pe.detected_layers);
    let dlls = &pe.import_dlls;
    let ghost dv = dlls.deep_view();
    let mut two: Vec<&'static str> = Vec::new();
    two.push("vcruntime");
    two.push("msvcp");
    assert(two@.map_values(|n: &str| n@) =~= seq!["vcruntime"@, "msvcp"@]);
    let mut media: Vec<&'static str> = Vec::new();
    media.push("mfplat");
    media.push("mfreadwrite");
    media.push("wmvcore");
    assert(media@.map_values(|n: &str| n@) =~= seq!["mfplat"@, "mfreadwrite"@, "wmvcore"@]);
    let mut codecs: Vec<&'static str> = Vec::new();
    codecs.push("quartz");
    codecs.push("theora");
    codecs.push("bink");
    codecs.push("avcodec");
    assert(codecs@.map_values(|n: &str| n@) =~= seq!["quartz"@, "theora"@, "bink"@, "avcodec"@]);

    let ghost items0 = review_items.deep_view();
    let ghost deps0 = profile@.dependencies;
    if imports_any_of(dlls, &two) {
        profile = profile.with_dependency(RuntimeDependency::Vcrun2022);
        push_review(review_items,
            "Visual C++ imports detected; verify both x86 and x64 redistributable components before applying the vcrun2022 recipe");
    }
    if imports_any_of(dlls, &needles1("d3dcompiler")) {
        profile = profile.with_dependency(RuntimeDependency::D3dCompiler);
    }
    if imports_any_of(dlls, &needles1("openal")) {
        profile = profile.with_dependency(RuntimeDependency::OpenAl);
    }
    if imports_any_of(dlls, &needles1("xaudio2")) {
        profile = profile.with_dependency(RuntimeDependency::XAudio);
    }
    if imports_any_of(dlls, &media) {
        profile = profile.with_dependency(RuntimeDependency::MediaFoundation);
    }
    assert(profile@.dependencies =~= deps0 + import_dependencies(dv));
    if imports_any_of(dlls, &codecs) {
        push_review(review_items,
            "Non-MediaFoundation media imports detected; verify bundled codec/DirectShow behavior during video smoke instead of inferring a Media Foundation dependency");
    }
    if !discovery::has_text(&pe.detected_layers, "steamworks") {
        push_review(review_items,
            "Steam integration remains Required because the analysis came from a Steam manifest; verify the runtime path");
    }
    assert(review_items.deep_view() =~= items0 + pe_review_items(*pe));
    profile
}

impl GamePortingAnalysis {
    fn base_profile(&self, manifest: &SteamAppManifest, selected: &WindowsExeCandidate) -> (r: GenericGameProfile)
        requires
            self.manifest == Some(*manifest),
            self.selected_exe == Some(*selected),
        ensures
            r@ == base_candidate_model(*self),
    {
        let mut profile = GenericGameProfile::new(self.app_id.as_str(), manifest.name.as_str(), selected.relative_path.as_str())
            .with_install_dir_hint(manifest.install_dir_name.as_str())
            .with_bottle_name(concat("game-", self.app_id.as_str()).as_str())
            .with_runtime_profile_version(concat3(self.version, "-", self.app_id.as_str()).as_str())
            .with_steam_cef_policy(SteamCefPolicy::CrossOverCompatible);
        if let Some(v) = &self.runtime.windows_version {
            profile = profile.with_wine_windows_version(v.as_str());
        }
        profile
    }

    fn base_review(&self) -> (r: Vec<String>)
        ensures
            r.deep_view() == base_review_items(*self),
    {
        let mut review_items: Vec<String> = Vec::new();
        let mut i: usize = 0;
        while i < self.blockers.len()
            invariant
                i <= self.blockers.len(),
                review_items.deep_view() == self.blockers.deep_view().take(i as int).map_values(|b: Seq<char>| "analysis blocker: "@ + b),
            decreases self.blockers.len() - i,
        {
            let ghost before = review_items.deep_view();
            review_items.push(concat("analysis blocker: ", self.blockers[i].as_str()));
            assert(self.blockers.deep_view().take(i + 1).map_values(|b: Seq<char>| "analysis blocker: "@ + b)
                =~= before.push("analysis blocker: "@ + self.blockers@[i as int]@));
            assert(review_items.deep_view() =~= before.push("analysis blocker: "@ + self.blockers@[i as int]@));
            i = i + 1;
        }
        assert(self.blockers.deep_view().take(i as int) =~= self.blockers.deep_view());
        if self.runtime.wine.is_some() {
            push_review(&mut review_items,
                "observed Wine engine is evidence only; pin wine_engine_path manually when reproducibility requires it");
        }
        push_review(&mut review_items, "graphics backend remains Auto until a backend matrix entry is validated by smoke testing");
        push_review(&mut review_items, "Steam UI uses the observed CrossOver-compatible CEF policy; game graphics remain independent");
        assert(review_items.deep_view() =~= base_review_items(*self));
        review_items
    }

    /// The profile candidate this analysis drafts: the manifest's name and install
    /// directory, the selected executable, the observed Windows version, and the
    /// capabilities and dependencies its imports show, with what a person should
    /// review. Without a manifest or a selected executable there is no candidate.
    pub fn to_generic_profile_candidate(&self) -> (r: Result<GameProfileCandidate>)
        ensures
            match r {
                Ok(c) => self.manifest is Some && self.selected_exe is Some && is_candidate_of(c, *self),
                Err(e) => if self.manifest is None {
                    e.text() == "cannot build a profile without a Steam app manifest"@
                } else {
                    self.selected_exe is None
                        && e.text() == "cannot build a profile without a selected Windows executable"@
                },
            },
    {
        let manifest = match &self.manifest {
            Some(m) => m,
            None => { return Err(PortCellarError::message("cannot build a profile without a Steam app manifest".to_owned())); }
        };
        let selected = match &self.selected_exe {
            Some(s) => s,
            None => { return Err(PortCellarError::message("cannot build a profile without a selected Windows executable".to_owned())); }
        };
        let profile = self.base_profile(manifest, selected);
        let mut review_items = self.base_review();
        match &selected.pe {
            Some(pe) => {
                let profile = add_import_evidence(profile, &mut review_items, pe);
                Ok(GameProfileCandidate { analysis_version: self.version, profile, review_items })
            }
            None => {
                let ghost items = review_items.deep_view();
                push_review(&mut review_items, "selected executable has no PE summary");
                assert(review_items.deep_view() =~= items + seq!["selected executable has no PE summary"@]);
                Ok(GameProfileCandidate { analysis_version: self.version, profile, review_items })
            }
        }
    }
}

/// Whether two executable candidates hold the same texts and numbers.
pub open spec fn same_candidate(a: WindowsExeCandidate, b: WindowsExeCandidate) -> bool {
    &&& a.path@ == b.path@ && a.relative_path@ == b.relative_path@ && a.file_name@ == b.file_name@
    &&& a.size == b.size && a.score == b.score && a.reasons.deep_view() == b.reasons.deep_view()
    &&& match (a.pe, b.pe) {
        (Some(p), Some(q)) => opt_text(p.machine) == opt_text(q.machine) && opt_text(p.subsystem) == opt_text(q.subsystem)
            && p.import_dlls.deep_view() == q.import_dlls.deep_view()
            && p.detected_layers.deep_view() == q.detected_layers.deep_view(),
        (None, None) => true,
        _ => false,
    }
}

fn copy_candidate(c: &WindowsExeCandidate) -> (r: WindowsExeCandidate)
    ensures same_candidate(r, *c),
{
    WindowsExeCandidate {
        path: c.path.clone(),
        relative_path: c.relative_path.clone(),
        file_name: c.file_name.clone(),
        size: c.size,
        pe: match &c.pe {
            Some(p) => Some(PeSummary {
                machine: crate::games::clone_opt(&p.machine),
                subsystem: crate::games::clone_opt(&p.subsystem),
                import_dlls: crate::games::clone_strings(&p.import_dlls),
                detected_layers: crate::games::clone_strings(&p.detected_layers),
            }),
            None => None,
        },
        score: c.score,
        reasons: crate::games::clone_strings(&c.reasons),
    }
}

/// The profile a runtime inspection for analysing `app_id` uses before its install
/// is known: a placeholder executable and Steam's CrossOver-compatible browser policy.
pub fn analysis_probe_profile(app_id: &str) -> (r: Result<GenericGameProfile>)
    ensures
        match r {
            Ok(p) => app_id@.len() > 0 && crate::text::all_digits(app_id@)
                && p@ == (ProfileModel {
                    steam_cef_policy: SteamCefPolicy::CrossOverCompatible,
                    ..crate::games::generic::new_model(app_id@, "Steam app "@ + app_id@,
                        "__portcellar_analysis_placeholder__.exe"@)
                }),
            Err(e) => !(app_id@.len() > 0 && crate::text::all_digits(app_id@))
                && e.text() == "Steam app id must be numeric, got "@ + discovery::debug_quoted(app_id@),
        },
{
    match discovery::validate_app_id(app_id) {
        Ok(()) => {}
        Err(e) => { return Err(e); }
    }
    Ok(GenericGameProfile::new(app_id, concat("Steam app ", app_id).as_str(), "__portcellar_analysis_placeholder__.exe")
        .with_steam_cef_policy(SteamCefPolicy::CrossOverCompatible))
}

/// The profile the runtime is inspected with once the install and its executable
/// are known.
pub fn resolved_analysis_profile(app_id: &str, manifest: &SteamAppManifest, selected: &WindowsExeCandidate) -> (r: GenericGameProfile)
    ensures
        r@ == (ProfileModel {
            install_dir_hint: manifest.install_dir_name@,
            bottle_name: crate::text::safe_component_spec("game-"@ + app_id@),
            steam_cef_policy: SteamCefPolicy::CrossOverCompatible,
            ..crate::games::generic::new_model(app_id@, manifest.name@, selected.relative_path@)
        }),
{
    GenericGameProfile::new(app_id, manifest.name.as_str(), selected.relative_path.as_str())
        .with_install_dir_hint(manifest.install_dir_name.as_str())
        .with_bottle_name(concat("game-", app_id).as_str())
        .with_steam_cef_policy(SteamCefPolicy::CrossOverCompatible)
}

/// The slug of an analysis: the manifest name's slug, or `unknown-game` where there
/// is no manifest or its slug is empty.
pub open spec fn analysis_slug(manifest: Option<SteamAppManifest>) -> Seq<char> {
    match manifest {
        Some(m) => if discovery::slug_of(m.name@).len() > 0 { discovery::slug_of(m.name@) } else { "unknown-game"@ },
        None => "unknown-game"@,
    }
}

/// The porting analysis of `app_id` from what was found: the manifest, the
/// executable candidates (best first), the bundled DLLs, the inspected runtime and
/// the latest crash.
pub fn assemble_porting_analysis(
    app_id: &str,
    manifest: Option<SteamAppManifest>,
    exe_candidates: Vec<WindowsExeCandidate>,
    bundled_dlls: Vec<String>,
    runtime: &WineSteamRuntime,
    latest_crash: Option<CrashSummary>,
) -> (r: GamePortingAnalysis)
    ensures
        r.version@ == PORTING_ANALYSIS_VERSION@,
        r.app_id@ == app_id@,
        r.slug@ == analysis_slug(manifest),
        r.manifest == manifest,
        r.exe_candidates == exe_candidates,
        match r.selected_exe {
            Some(s) => exe_candidates@.len() > 0 && same_candidate(s, exe_candidates@[0]),
            None => exe_candidates@.len() == 0,
        },
        r.bundled_dlls == bundled_dlls,
        is_snapshot_of(r.runtime, *runtime),
        r.latest_crash == latest_crash,
        r.recommendations.deep_view() == discovery::analysis_recommendations(r.selected_exe),
        r.blockers.deep_view() == discovery::analysis_blockers(r.manifest, exe_candidates@.len() as int,
            r.selected_exe, r.runtime),
{
    let selected_exe = match discovery::select_exe_candidate(&exe_candidates) {
        Some(c) => Some(copy_candidate(c)),
        None => None,
    };
    let runtime = RuntimeSnapshot::from_runtime(runtime);
    proof { reveal_strlit("unknown-game"); }
    let slug = match &manifest {
        Some(m) => {
            let s = discovery::slugify(m.name.as_str());
            if s.unicode_len() > 0 { s } else { "unknown-game".to_owned() }
        }
        None => "unknown-game".to_owned(),
    };
    let (recommendations, blockers) = discovery::recommendations_and_blockers(
        &manifest, &exe_candidates, selected_exe.as_ref(), &runtime);
    GamePortingAnalysis {
        version: PORTING_ANALYSIS_VERSION,
        app_id: app_id.to_owned(),
        slug,
        manifest,
        exe_candidates,
        selected_exe,
        bundled_dlls,
        runtime,
        latest_crash,
        recommendations,
        blockers,
    }
}

/// Executable candidates are listed best first: higher score first, then by
/// relative path.
impl crate::sort::ListOrder for WindowsExeCandidate {
    open spec fn precedes(a: Self, b: Self) -> bool {
        a.score > b.score || (a.score == b.score && crate::strmap::text_lt(a.relative_path@, b.relative_path@))
    }

    proof fn lemma_irreflexive(a: Self) {
        crate::strmap::lemma_text_lt_irreflexive(a.relative_path@);
    }

    proof fn lemma_transitive(a: Self, b: Self, c: Self) {
        if a.score == b.score && b.score == c.score {
            crate::strmap::lemma_text_lt_transitive(a.relative_path@, b.relative_path@, c.relative_path@);
        }
    }

    fn goes_before(&self, other: &Self) -> (r: bool) {
        self.score > other.score
            || (self.score == other.score && crate::sort::text_before(self.relative_path.as_str(), other.relative_path.as_str()))
    }
}

} // verus!
