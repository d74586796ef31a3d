//! The checks made before a game is launched: what blocks it and what to watch for.
use vstd::prelude::*;
use crate::games::{
    backend_label, dependency_label, ordered_members, GameCapability, GameProfile, GraphicsBackend,
    SteamIntegration,
};
use crate::runtime::compatibility::{
    engine_backend_matrix_for_components, engine_kind_of, find_backend, first_for_backend,
    is_discovered_verdict, lemma_find_in_matrix, wine_engine_kind_for_path, all_backends,
    backend_index,
};
use crate::runtime::dependencies::{are_dependency_plans, opt_view, wine_dependency_plans_for};
use crate::strmap::StrMap;
use crate::text::{concat, concat3, eq_ignore_ascii_case, lower, starts_with, starts_with_text};
use crate::types::{
    engine_label, CompatibilityStatus, EngineBackendCompatibility, RuntimeComponent,
    RuntimeDependencyPlan, RuntimeDependencyStatus, RuntimePreflight, WineSteamRuntime,
};

verus! {

/// `seq![m]` when `c` holds, and nothing otherwise.
pub open spec fn when(c: bool, m: Seq<char>) -> Seq<Seq<char>> {
    if c { seq![m] } else { Seq::empty() }
}

/// `backend for engine` as the messages name them.
pub open spec fn pairing(c: EngineBackendCompatibility, middle: Seq<char>) -> Seq<char> {
    backend_label(c.backend) + middle + engine_label(c.engine) + ": "@ + c.rationale@
}

/// The blocker a backend verdict raises: only an unsupported pairing blocks.
pub open spec fn compat_blockers(c: Option<EngineBackendCompatibility>) -> Seq<Seq<char>> {
    match c {
        Some(v) => when(v.status == CompatibilityStatus::Unsupported, pairing(v, " backend is unsupported by "@)),
        None => Seq::empty(),
    }
}

/// The warning a backend verdict raises: candidates and external dependencies.
pub open spec fn compat_warnings(c: Option<EngineBackendCompatibility>) -> Seq<Seq<char>> {
    match c {
        Some(v) => if v.status == CompatibilityStatus::Candidate {
            seq![pairing(v, " backend is a candidate for "@)]
        } else if v.status == CompatibilityStatus::ExternalDependency {
            seq![backend_label(v.backend) + " backend for "@ + engine_label(v.engine)
                + " requires external dependencies: "@ + v.rationale@]
        } else {
            Seq::empty()
        },
        None => Seq::empty(),
    }
}

/// The warning for one dependency plan.
pub open spec fn dependency_warning(p: RuntimeDependencyPlan) -> Seq<char> {
    let d = dependency_label(p.dependency);
    match p.status {
        RuntimeDependencyStatus::Planned => d + " has an explicit winetricks plan; it is not applied automatically"@,
        RuntimeDependencyStatus::Manual => d + " requires a game-specific installer or verified bottle recipe"@,
        RuntimeDependencyStatus::ToolMissing => d + " has a known winetricks verb, but winetricks is unavailable"@,
    }
}

/// Whether the runtime reports an orphaned Steam WebHelper process tree.
pub open spec fn has_orphaned_webhelper(issues: Seq<Seq<char>>) -> bool {
    exists|i: int| 0 <= i < issues.len() && starts_with(#[trigger] issues[i], "orphaned Steam WebHelper process tree"@)
}

/// Whether some launch argument is `-d:software`, in any ASCII case.
pub open spec fn has_software_renderer_arg(args: Seq<Seq<char>>) -> bool {
    exists|i: int| 0 <= i < args.len() && lower(#[trigger] args[i]) == lower("-d:software"@)
}

/// The blockers, in order, for a profile's declarations on an inspected runtime.
pub open spec fn preflight_blockers<P: GameProfile>(profile: &P, runtime: WineSteamRuntime, compat: Option<EngineBackendCompatibility>) -> Seq<Seq<char>> {
    let backend = profile.spec_graphics_backend();
    let integration = profile.spec_steam_integration();
    let caps = profile.spec_capabilities();
    when(runtime.wine is None, "Wine engine missing"@)
    + compat_blockers(compat)
    + when(runtime.game_executable is None, "Windows "@ + profile.spec_name() + " executable missing"@)
    + when(integration == SteamIntegration::Required && runtime.steam_exe is None, "Windows Steam missing"@)
    + when(has_orphaned_webhelper(runtime.readiness_issues.deep_view()),
        "Wine Steam has an orphaned WebHelper process tree; run `portcellar isaac steam-stop` before launching"@)
    + when(backend == GraphicsBackend::Scgl && integration != SteamIntegration::Standalone,
        "SCGL artifact staging currently requires a local non-Steam game profile"@)
    + when(backend == GraphicsBackend::Scgl && profile.spec_runtime_artifacts().len() == 0,
        "SCGL backend requires at least one runtime artifact"@)
    + when(backend == GraphicsBackend::Scgl && has_software_renderer_arg(profile.spec_launch_arguments()),
        "SCGL backend cannot be combined with -d:software"@)
    + when(caps.contains(GameCapability::AntiCheat),
        "anti-cheat capability requires a compatibility path that this runtime does not provide"@)
    + when(caps.contains(GameCapability::Direct3d12) && backend != GraphicsBackend::D3dMetal && backend != GraphicsBackend::Vkd3d,
        "Direct3D 12 requires an explicit D3DMetal or VKD3D backend"@)
}

/// The warnings, in order, for a profile's declarations on an inspected runtime.
pub open spec fn preflight_warnings<P: GameProfile>(
    profile: &P,
    runtime: WineSteamRuntime,
    compat: Option<EngineBackendCompatibility>,
    plans: Seq<RuntimeDependencyPlan>,
) -> Seq<Seq<char>> {
    let backend = profile.spec_graphics_backend();
    compat_warnings(compat)
    + when(backend == GraphicsBackend::Dxmt && runtime.dxmt_root is None,
        "DXMT backend selected without a discovered DXMT root; verify WINEDLLPATH or engine packaging"@)
    + when(profile.spec_capabilities().contains(GameCapability::OpenGl) && backend == GraphicsBackend::Dxmt,
        "OpenGL capability is declared while DXMT is selected; verify the actual render path"@)
    + plans.map_values(|p: RuntimeDependencyPlan| dependency_warning(p))
}

/// The backend verdict a preflight reports: the engine's verdict on the profile's
/// backend, adjusted for the components found, when a Wine engine was found.
pub open spec fn preflight_compat(backend: GraphicsBackend, wine: Option<String>, found: Seq<RuntimeComponent>, c: Option<EngineBackendCompatibility>) -> bool {
    match wine {
        None => c is None,
        Some(w) => c matches Some(v) && is_discovered_verdict(v, engine_kind_of(w@), backend, found),
    }
}

fn orphaned_webhelper(issues: &Vec<String>) -> (r: bool)
    ensures r == has_orphaned_webhelper(issues.deep_view()),
{
    let mut i: usize = 0;
    while i < issues.len()
        invariant
            i <= issues.len(),
            forall|k: int| 0 <= k < i ==> !starts_with(#[trigger] issues.deep_view()[k], "orphaned Steam WebHelper process tree"@),
        decreases issues.len() - i,
    {
        proof { reveal_strlit("orphaned Steam WebHelper process tree"); }
        if starts_with_text(issues[i].as_str(), "orphaned Steam WebHelper process tree") {
            assert(starts_with(issues.deep_view()[i as int], "orphaned Steam WebHelper process tree"@));
            return true;
        }
        i = i + 1;
    }
    false
}

fn software_renderer_arg(args: &Vec<String>) -> (r: bool)
    ensures r == has_software_renderer_arg(args.deep_view()),
{
    let mut i: usize = 0;
    while i < args.len()
        invariant
            i <= args.len(),
            forall|k: int| 0 <= k < i ==> lower(#[trigger] args.deep_view()[k]) != lower("-d:software"@),
        decreases args.len() - i,
    {
        if eq_ignore_ascii_case(args[i].as_str(), "-d:software") {
            assert(lower(args.deep_view()[i as int]) == lower("-d:software"@));
            return true;
        }
        i = i + 1;
    }
    false
}

fn push_when(v: &mut Vec<String>, c: bool, m: String)
    ensures final(v).deep_view() == old(v).deep_view() + when(c, m@),
{
    let ghost before = v.deep_view();
    if c {
        v.push(m);
        assert(v.deep_view() =~= before + seq![m@]);
    } else {
        assert(v.deep_view() =~= before + Seq::<Seq<char>>::empty());
    }
}

fn compat_messages(c: Option<EngineBackendCompatibility>, blockers: &mut Vec<String>, warnings: &mut Vec<String>)
    ensures
        final(blockers).deep_view() == old(blockers).deep_view() + compat_blockers(c),
        final(warnings).deep_view() == old(warnings).deep_view() + compat_warnings(c),
{
    let ghost b0 = blockers.deep_view();
    let ghost w0 = warnings.deep_view();
    match c {
        Some(v) => {
            let b = v.backend.label();
            let e = v.engine.label();
            match v.status {
                CompatibilityStatus::Verified => {
                    assert(blockers.deep_view() =~= b0 + compat_blockers(c));
                    assert(warnings.deep_view() =~= w0 + compat_warnings(c));
                }
                CompatibilityStatus::Candidate => {
                    let m = concat(concat3(b, " backend is a candidate for ", e).as_str(), concat(": ", v.rationale).as_str());
                    assert(m@ =~= pairing(v, " backend is a candidate for "@));
                    warnings.push(m);
                    assert(warnings.deep_view() =~= w0 + compat_warnings(c));
                    assert(blockers.deep_view() =~= b0 + compat_blockers(c));
                }
                CompatibilityStatus::ExternalDependency => {
                    let m = concat(concat3(b, " backend for ", e).as_str(),
                        concat(" requires external dependencies: ", v.rationale).as_str());
                    assert(m@ =~= backend_label(v.backend) + " backend for "@ + engine_label(v.engine)
                        + " requires external dependencies: "@ + v.rationale@);
                    warnings.push(m);
                    assert(warnings.deep_view() =~= w0 + compat_warnings(c));
                    assert(blockers.deep_view() =~= b0 + compat_blockers(c));
                }
                CompatibilityStatus::Unsupported => {
                    let m = concat(concat3(b, " backend is unsupported by ", e).as_str(), concat(": ", v.rationale).as_str());
                    assert(m@ =~= pairing(v, " backend is unsupported by "@));
                    blockers.push(m);
                    assert(blockers.deep_view() =~= b0 + compat_blockers(c));
                    assert(warnings.deep_view() =~= w0 + compat_warnings(c));
                }
            }
        }
        None => {
            assert(blockers.deep_view() =~= b0 + compat_blockers(c));
            assert(warnings.deep_view() =~= w0 + compat_warnings(c));
        }
    }
}

fn dependency_warning_text(p: &RuntimeDependencyPlan) -> (r: String)
    ensures r@ == dependency_warning(*p),
{
    let d = p.dependency.label();
    match p.status {
        RuntimeDependencyStatus::Planned => concat(d, " has an explicit winetricks plan; it is not applied automatically"),
        RuntimeDependencyStatus::Manual => concat(d, " requires a game-specific installer or verified bottle recipe"),
        RuntimeDependencyStatus::ToolMissing => concat(d, " has a known winetricks verb, but winetricks is unavailable"),
    }
}

#[verifier::opaque]
/// Whether `r` is the preflight of `profile` on `runtime`, given the components found
/// for its engine and the dependency plans made for it.
pub open spec fn is_preflight<P: GameProfile>(
    r: RuntimePreflight,
    profile: &P,
    runtime: WineSteamRuntime,
    found: Seq<RuntimeComponent>,
    winetricks: Option<Seq<char>>,
    envs: Seq<(Seq<char>, Seq<char>)>,
) -> bool {
    &&& r.game@ == profile.spec_name()
    &&& r.engine == match runtime.wine { Some(w) => Some(engine_kind_of(w@)), None => None }
    &&& r.backend == profile.spec_graphics_backend()
    &&& preflight_compat(profile.spec_graphics_backend(), runtime.wine, found, r.backend_compatibility)
    &&& r.capabilities@ == ordered_members(profile.spec_capabilities())
    &&& r.dependencies@ == profile.spec_dependencies()
    &&& are_dependency_plans(r.dependency_plans@, profile.spec_dependencies(), winetricks, envs)
    &&& r.blockers.deep_view() == preflight_blockers(profile, runtime, r.backend_compatibility)
    &&& r.warnings.deep_view() == preflight_warnings(profile, runtime, r.backend_compatibility, r.dependency_plans@)
}

/// The preflight of `profile` on an inspected `runtime`. `found` are the runtime
/// components discovered for the runtime's Wine engine; `winetricks` and `envs` are
/// where winetricks was found and the bottle's Wine environment.
pub fn game_runtime_preflight<P: GameProfile>(
    profile: &P,
    runtime: &WineSteamRuntime,
    found: &Vec<RuntimeComponent>,
    winetricks: Option<&str>,
    envs: &StrMap,
) -> (r: RuntimePreflight)
    ensures is_preflight(r, profile, *runtime, found@, opt_view(winetricks), envs@),
{
    let policy = profile.runtime_policy();
    let backend = policy.graphics_backend;
    let dependency_plans = wine_dependency_plans_for(profile, winetricks, envs);
    let engine = match &runtime.wine {
        Some(w) => Some(wine_engine_kind_for_path(w.as_str())),
        None => None,
    };
    let backend_compatibility = match engine {
        Some(kind) => {
            let matrix = engine_backend_matrix_for_components(kind, found);
            proof {
                lemma_find_in_matrix(matrix@, backend);
                assert(is_discovered_verdict(matrix@[backend_index(backend)], kind, all_backends()[backend_index(backend)], found@));
            }
            find_backend(&matrix, backend)
        }
        None => None,
    };

    let mut blockers: Vec<String> = Vec::new();
    let mut warnings: Vec<String> = Vec::new();
    proof {
        reveal_strlit("Wine engine missing");
        reveal_strlit("Windows Steam missing");
    }
    push_when(&mut blockers, runtime.wine.is_none(), "Wine engine missing".to_owned());
    compat_messages(backend_compatibility, &mut blockers, &mut warnings);
    push_when(&mut blockers, runtime.game_executable.is_none(), concat3("Windows ", profile.name(), " executable missing"));
    push_when(&mut blockers, policy.steam_integration == SteamIntegration::Required && runtime.steam_exe.is_none(),
        "Windows Steam missing".to_owned());
    proof {
        reveal_strlit("Wine Steam has an orphaned WebHelper process tree; run `portcellar isaac steam-stop` before launching");
        reveal_strlit("DXMT backend selected without a discovered DXMT root; verify WINEDLLPATH or engine packaging");
        reveal_strlit("SCGL artifact staging currently requires a local non-Steam game profile");
        reveal_strlit("SCGL backend requires at least one runtime artifact");
        reveal_strlit("SCGL backend cannot be combined with -d:software");
        reveal_strlit("anti-cheat capability requires a compatibility path that this runtime does not provide");
        reveal_strlit("Direct3D 12 requires an explicit D3DMetal or VKD3D backend");
        reveal_strlit("OpenGL capability is declared while DXMT is selected; verify the actual render path");
    }
    push_when(&mut blockers, orphaned_webhelper(&runtime.readiness_issues),
        "Wine Steam has an orphaned WebHelper process tree; run `portcellar isaac steam-stop` before launching".to_owned());
    push_when(&mut warnings, backend == GraphicsBackend::Dxmt && runtime.dxmt_root.is_none(),
        "DXMT backend selected without a discovered DXMT root; verify WINEDLLPATH or engine packaging".to_owned());
    let scgl = backend == GraphicsBackend::Scgl;
    push_when(&mut blockers, scgl && policy.steam_integration != SteamIntegration::Standalone,
        "SCGL artifact staging currently requires a local non-Steam game profile".to_owned());
    push_when(&mut blockers, scgl && policy.runtime_artifacts.len() == 0,
        "SCGL backend requires at least one runtime artifact".to_owned());
    let software = scgl && software_renderer_arg(&policy.launch_arguments);
    push_when(&mut blockers, software, "SCGL backend cannot be combined with -d:software".to_owned());
    push_when(&mut blockers, policy.capabilities.contains(GameCapability::AntiCheat),
        "anti-cheat capability requires a compatibility path that this runtime does not provide".to_owned());
    push_when(&mut blockers, policy.capabilities.contains(GameCapability::Direct3d12)
        && backend != GraphicsBackend::D3dMetal && backend != GraphicsBackend::Vkd3d,
        "Direct3D 12 requires an explicit D3DMetal or VKD3D backend".to_owned());
    push_when(&mut warnings, policy.capabilities.contains(GameCapability::OpenGl) && backend == GraphicsBackend::Dxmt,
        "OpenGL capability is declared while DXMT is selected; verify the actual render path".to_owned());

    let ghost w0 = warnings.deep_view();
    let mut i: usize = 0;
    while i < dependency_plans.len()
        invariant
            i <= dependency_plans.len(),
            warnings.deep_view() == w0 + dependency_plans@.take(i as int).map_values(|p: RuntimeDependencyPlan| dependency_warning(p)),
        decreases dependency_plans.len() - i,
    {
        let ghost before = warnings.deep_view();
        warnings.push(dependency_warning_text(&dependency_plans[i]));
        assert(dependency_plans@.take(i + 1).map_values(|p: RuntimeDependencyPlan| dependency_warning(p))
            =~= dependency_plans@.take(i as int).map_values(|p: RuntimeDependencyPlan| dependency_warning(p))
                .push(dependency_warning(dependency_plans@[i as int])));
        assert(warnings.deep_view() =~= before.push(dependency_warning(dependency_plans@[i as int])));
        i = i + 1;
    }
    assert(dependency_plans@.take(i as int) =~= dependency_plans@);

    let r = RuntimePreflight {
        game: profile.name().to_owned(),
        engine,
        backend,
        backend_compatibility,
        capabilities: policy.capabilities.members(),
        dependencies: policy.dependencies,
        dependency_plans,
        blockers,
        warnings,
    };
    proof {
        reveal(is_preflight);
        let caps = profile.spec_capabilities();
        assert(r.blockers.deep_view() =~= preflight_blockers(profile, *runtime, r.backend_compatibility));
        assert(r.warnings.deep_view() =~= preflight_warnings(profile, *runtime, r.backend_compatibility, r.dependency_plans@));
    }
    r
}

} // verus!
