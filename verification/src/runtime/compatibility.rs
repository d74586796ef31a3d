//! Which graphics backends each engine family can be trusted with.
use vstd::prelude::*;
use crate::games::GraphicsBackend;
use crate::paths::{components, path_components};
use crate::text::{lower, lowercase, same_text};
use crate::types::{CompatibilityStatus, EngineBackendCompatibility, EngineKind, RuntimeComponent};

verus! {

/// The status and rationale for running `backend` on an engine of kind `kind`.
pub open spec fn compatibility_verdict(kind: EngineKind, backend: GraphicsBackend) -> (CompatibilityStatus, Seq<char>) {
    match (kind, backend) {
        (EngineKind::NativeSteam, GraphicsBackend::Auto) | (EngineKind::NativeApp, GraphicsBackend::Auto) =>
            (CompatibilityStatus::Verified, "native macOS launch path"@),
        (EngineKind::Wine, GraphicsBackend::Auto) | (EngineKind::CrossOver, GraphicsBackend::Auto)
        | (EngineKind::GamePortingToolkit, GraphicsBackend::Auto) =>
            (CompatibilityStatus::Candidate, "engine default backend; verify per game profile"@),
        (EngineKind::CrossOver, GraphicsBackend::WineD3D) =>
            (CompatibilityStatus::Candidate, "CrossOver-provided WineD3D path; verify per bottle"@),
        (EngineKind::CrossOver, GraphicsBackend::D3dMetal) =>
            (CompatibilityStatus::Candidate, "CrossOver D3DMetal path; verify engine build and game profile"@),
        (EngineKind::CrossOver, GraphicsBackend::Dxvk) | (EngineKind::CrossOver, GraphicsBackend::Vkd3d) =>
            (CompatibilityStatus::ExternalDependency, "requires a packaged or bottle-local translation layer"@),
        (EngineKind::CrossOver, GraphicsBackend::Dxmt) | (EngineKind::Wine, GraphicsBackend::Dxmt) =>
            (CompatibilityStatus::ExternalDependency, "requires an external DXMT build and DLL search path"@),
        (EngineKind::Wine, GraphicsBackend::WineD3D) =>
            (CompatibilityStatus::Candidate, "Wine-provided fallback path; verify driver behavior"@),
        (EngineKind::Wine, GraphicsBackend::Dxvk) | (EngineKind::Wine, GraphicsBackend::Vkd3d) =>
            (CompatibilityStatus::ExternalDependency, "requires a bottle-local translation layer"@),
        (EngineKind::Wine, GraphicsBackend::Scgl) | (EngineKind::CrossOver, GraphicsBackend::Scgl) =>
            (CompatibilityStatus::ExternalDependency,
             "requires a profile-pinned 32-bit SCGL artifact staged beside the game"@),
        (EngineKind::GamePortingToolkit, GraphicsBackend::D3dMetal) =>
            (CompatibilityStatus::Candidate, "GPTK D3DMetal path; verify toolkit version"@),
        (EngineKind::GamePortingToolkit, GraphicsBackend::Vkd3d) =>
            (CompatibilityStatus::Candidate, "GPTK VKD3D path; verify toolkit version"@),
        _ => (CompatibilityStatus::Unsupported, "not part of the engine's supported baseline"@),
    }
}

/// Whether `e` is the verdict for `kind` and `backend`.
pub open spec fn is_verdict(e: EngineBackendCompatibility, kind: EngineKind, backend: GraphicsBackend) -> bool {
    &&& e.engine == kind
    &&& e.backend == backend
    &&& (e.status, e.rationale@) == compatibility_verdict(kind, backend)
}

/// The verdict on running `backend` with an engine of kind `kind`.
pub fn engine_backend_compatibility(kind: EngineKind, backend: GraphicsBackend) -> (r: EngineBackendCompatibility)
    ensures is_verdict(r, kind, backend),
{
    let (status, rationale): (CompatibilityStatus, &'static str) = match (kind, backend) {
        (EngineKind::NativeSteam, GraphicsBackend::Auto) | (EngineKind::NativeApp, GraphicsBackend::Auto) =>
            (CompatibilityStatus::Verified, "native macOS launch path"),
        (EngineKind::Wine, GraphicsBackend::Auto) | (EngineKind::CrossOver, GraphicsBackend::Auto)
        | (EngineKind::GamePortingToolkit, GraphicsBackend::Auto) =>
            (CompatibilityStatus::Candidate, "engine default backend; verify per game profile"),
        (EngineKind::CrossOver, GraphicsBackend::WineD3D) =>
            (CompatibilityStatus::Candidate, "CrossOver-provided WineD3D path; verify per bottle"),
        (EngineKind::CrossOver, GraphicsBackend::D3dMetal) =>
            (CompatibilityStatus::Candidate, "CrossOver D3DMetal path; verify engine build and game profile"),
        (EngineKind::CrossOver, GraphicsBackend::Dxvk) | (EngineKind::CrossOver, GraphicsBackend::Vkd3d) =>
            (CompatibilityStatus::ExternalDependency, "requires a packaged or bottle-local translation layer"),
        (EngineKind::CrossOver, GraphicsBackend::Dxmt) | (EngineKind::Wine, GraphicsBackend::Dxmt) =>
            (CompatibilityStatus::ExternalDependency, "requires an external DXMT build and DLL search path"),
        (EngineKind::Wine, GraphicsBackend::WineD3D) =>
            (CompatibilityStatus::Candidate, "Wine-provided fallback path; verify driver behavior"),
        (EngineKind::Wine, GraphicsBackend::Dxvk) | (EngineKind::Wine, GraphicsBackend::Vkd3d) =>
            (CompatibilityStatus::ExternalDependency, "requires a bottle-local translation layer"),
        (EngineKind::Wine, GraphicsBackend::Scgl) | (EngineKind::CrossOver, GraphicsBackend::Scgl) =>
            (CompatibilityStatus::ExternalDependency,
             "requires a profile-pinned 32-bit SCGL artifact staged beside the game"),
        (EngineKind::GamePortingToolkit, GraphicsBackend::D3dMetal) =>
            (CompatibilityStatus::Candidate, "GPTK D3DMetal path; verify toolkit version"),
        (EngineKind::GamePortingToolkit, GraphicsBackend::Vkd3d) =>
            (CompatibilityStatus::Candidate, "GPTK VKD3D path; verify toolkit version"),
        _ => (CompatibilityStatus::Unsupported, "not part of the engine's supported baseline"),
    };
    EngineBackendCompatibility { engine: kind, backend, status, rationale }
}

/// Every graphics backend, in declaration order.
pub open spec fn all_backends() -> Seq<GraphicsBackend> {
    seq![
        GraphicsBackend::Auto,
        GraphicsBackend::WineD3D,
        GraphicsBackend::Dxmt,
        GraphicsBackend::Dxvk,
        GraphicsBackend::D3dMetal,
        GraphicsBackend::Vkd3d,
        GraphicsBackend::Scgl,
    ]
}

fn backend_at(i: usize) -> (r: GraphicsBackend)
    requires i < 7,
    ensures r == all_backends()[i as int],
{
    if i == 0 { GraphicsBackend::Auto }
    else if i == 1 { GraphicsBackend::WineD3D }
    else if i == 2 { GraphicsBackend::Dxmt }
    else if i == 3 { GraphicsBackend::Dxvk }
    else if i == 4 { GraphicsBackend::D3dMetal }
    else if i == 5 { GraphicsBackend::Vkd3d }
    else { GraphicsBackend::Scgl }
}

/// Whether `m` lists, for every backend in order, its verdict on `kind`.
pub open spec fn is_matrix(m: Seq<EngineBackendCompatibility>, kind: EngineKind) -> bool {
    &&& m.len() == all_backends().len()
    &&& forall|i: int| 0 <= i < m.len() ==> is_verdict(#[trigger] m[i], kind, all_backends()[i])
}

/// The verdicts on every backend for an engine of kind `kind`, in backend order.
pub fn engine_backend_matrix(kind: EngineKind) -> (r: Vec<EngineBackendCompatibility>)
    ensures is_matrix(r@, kind),
{
    let mut out: Vec<EngineBackendCompatibility> = Vec::new();
    let mut i: usize = 0;
    while i < 7
        invariant
            i <= 7,
            out@.len() == i,
            forall|k: int| 0 <= k < i ==> is_verdict(#[trigger] out@[k], kind, all_backends()[k]),
        decreases 7 - i,
    {
        out.push(engine_backend_compatibility(kind, backend_at(i)));
        i = i + 1;
    }
    out
}

/// The component whose presence makes `backend` a candidate, for backends that
/// depend on one.
pub open spec fn backend_component(backend: GraphicsBackend) -> Option<RuntimeComponent> {
    match backend {
        GraphicsBackend::Dxmt => Some(RuntimeComponent::Dxmt),
        GraphicsBackend::Dxvk => Some(RuntimeComponent::Dxvk),
        GraphicsBackend::D3dMetal => Some(RuntimeComponent::D3dMetal),
        GraphicsBackend::Vkd3d => Some(RuntimeComponent::Vkd3d),
        _ => None,
    }
}

/// Whether a component that `backend` needs was discovered.
pub open spec fn backend_discovered(backend: GraphicsBackend, found: Seq<RuntimeComponent>) -> bool {
    backend_component(backend) matches Some(c) && found.contains(c)
}

/// Whether `e` is the verdict on `backend` for `kind`, adjusted for the components found.
pub open spec fn is_discovered_verdict(
    e: EngineBackendCompatibility,
    kind: EngineKind,
    backend: GraphicsBackend,
    found: Seq<RuntimeComponent>,
) -> bool {
    if backend_discovered(backend, found) {
        &&& e.engine == kind
        &&& e.backend == backend
        &&& e.status == CompatibilityStatus::Candidate
        &&& e.rationale@ == "backend component discovered in the selected engine/runtime paths"@
    } else {
        is_verdict(e, kind, backend)
    }
}

fn has_component(found: &Vec<RuntimeComponent>, c: RuntimeComponent) -> (r: bool)
    ensures r == found@.contains(c),
{
    let mut i: usize = 0;
    while i < found.len()
        invariant
            i <= found.len(),
            forall|k: int| 0 <= k < i ==> found@[k] != c,
        decreases found.len() - i,
    {
        if found[i] == c {
            return true;
        }
        i = i + 1;
    }
    false
}

fn discovered(backend: GraphicsBackend, found: &Vec<RuntimeComponent>) -> (r: bool)
    ensures r == backend_discovered(backend, found@),
{
    match backend {
        GraphicsBackend::Dxmt => has_component(found, RuntimeComponent::Dxmt),
        GraphicsBackend::Dxvk => has_component(found, RuntimeComponent::Dxvk),
        GraphicsBackend::D3dMetal => has_component(found, RuntimeComponent::D3dMetal),
        GraphicsBackend::Vkd3d => has_component(found, RuntimeComponent::Vkd3d),
        _ => false,
    }
}

/// The backend matrix for `kind`, where each backend whose component was found among
/// the engine's runtime components becomes a candidate.
pub fn engine_backend_matrix_for_components(kind: EngineKind, found: &Vec<RuntimeComponent>) -> (r: Vec<EngineBackendCompatibility>)
    ensures
        r@.len() == all_backends().len(),
        forall|i: int| 0 <= i < r@.len() ==> is_discovered_verdict(#[trigger] r@[i], kind, all_backends()[i], found@),
{
    let base = engine_backend_matrix(kind);
    let mut out: Vec<EngineBackendCompatibility> = Vec::new();
    let mut i: usize = 0;
    while i < base.len()
        invariant
            i <= base.len(),
            is_matrix(base@, kind),
            out@.len() == i,
            forall|k: int| 0 <= k < i ==> is_discovered_verdict(#[trigger] out@[k], kind, all_backends()[k], found@),
        decreases base.len() - i,
    {
        let entry = base[i];
        assert(is_verdict(base@[i as int], kind, all_backends()[i as int]));
        if discovered(entry.backend, found) {
            out.push(EngineBackendCompatibility {
                engine: entry.engine,
                backend: entry.backend,
                status: CompatibilityStatus::Candidate,
                rationale: "backend component discovered in the selected engine/runtime paths",
            });
        } else {
            out.push(entry);
        }
        i = i + 1;
    }
    out
}

/// The first entry of `entries` for `backend`.
pub open spec fn first_for_backend(entries: Seq<EngineBackendCompatibility>, backend: GraphicsBackend) -> Option<EngineBackendCompatibility>
    decreases entries.len(),
{
    if entries.len() == 0 {
        None
    } else if entries[0].backend == backend {
        Some(entries[0])
    } else {
        first_for_backend(entries.drop_first(), backend)
    }
}

/// The first entry of `entries` for `backend`, if any.
pub fn find_backend(entries: &Vec<EngineBackendCompatibility>, backend: GraphicsBackend) -> (r: Option<EngineBackendCompatibility>)
    ensures r == first_for_backend(entries@, backend),
{
    let mut i: usize = 0;
    assert(entries@.skip(0) =~= entries@);
    while i < entries.len()
        invariant
            i <= entries.len(),
            first_for_backend(entries@, backend) == first_for_backend(entries@.skip(i as int), backend),
        decreases entries.len() - i,
    {
        assert(entries@.skip(i as int)[0] == entries@[i as int]);
        assert(entries@.skip(i as int).drop_first() =~= entries@.skip(i + 1));
        if entries[i].backend == backend {
            return Some(entries[i]);
        }
        i = i + 1;
    }
    None
}

proof fn lemma_first_from(entries: Seq<EngineBackendCompatibility>, backend: GraphicsBackend, k: int, i: int)
    requires
        0 <= k <= i < entries.len(),
        entries[i].backend == backend,
        forall|j: int| k <= j < i ==> (#[trigger] entries[j]).backend != backend,
    ensures first_for_backend(entries.skip(k), backend) == Some(entries[i]),
    decreases i - k,
{
    assert(entries.skip(k)[0] == entries[k]);
    if k < i {
        assert(entries.skip(k).drop_first() =~= entries.skip(k + 1));
        lemma_first_from(entries, backend, k + 1, i);
    }
}

/// In a list that holds every backend once, in backend order, the entry found for a
/// backend is the one at that backend's place.
pub proof fn lemma_find_in_matrix(entries: Seq<EngineBackendCompatibility>, backend: GraphicsBackend)
    requires
        entries.len() == all_backends().len(),
        forall|k: int| 0 <= k < entries.len() ==> (#[trigger] entries[k]).backend == all_backends()[k],
    ensures first_for_backend(entries, backend) == Some(entries[backend_index(backend)]),
{
    let i = backend_index(backend);
    assert(all_backends()[i] == backend);
    assert forall|j: int| 0 <= j < i implies (#[trigger] entries[j]).backend != backend by {
        assert(entries[j].backend == all_backends()[j]);
    }
    lemma_first_from(entries, backend, 0, i);
    assert(entries.skip(0) =~= entries);
}

/// The place of `backend` in `all_backends`.
pub open spec fn backend_index(backend: GraphicsBackend) -> int {
    match backend {
        GraphicsBackend::Auto => 0,
        GraphicsBackend::WineD3D => 1,
        GraphicsBackend::Dxmt => 2,
        GraphicsBackend::Dxvk => 3,
        GraphicsBackend::D3dMetal => 4,
        GraphicsBackend::Vkd3d => 5,
        GraphicsBackend::Scgl => 6,
    }
}

/// Whether `components` of a path name a CrossOver engine.
pub open spec fn names_crossover(parts: Seq<Seq<char>>) -> bool {
    exists|i: int| 0 <= i < parts.len()
        && (lower(#[trigger] parts[i]) == "crossover.app"@ || lower(parts[i]) == "cxrun"@)
}

/// Whether `components` of a path name a Game Porting Toolkit engine.
pub open spec fn names_gptk(parts: Seq<Seq<char>>) -> bool {
    exists|i: int| 0 <= i < parts.len()
        && (lower(#[trigger] parts[i]) == "gameportingtoolkit"@
            || lower(parts[i]) == "gameportingtoolkit-no-hud"@
            || lower(parts[i]) == "game porting toolkit.app"@)
}

/// The engine family that the Wine binary at `path` belongs to.
pub open spec fn engine_kind_of(path: Seq<char>) -> EngineKind {
    if names_crossover(components(path)) {
        EngineKind::CrossOver
    } else if names_gptk(components(path)) {
        EngineKind::GamePortingToolkit
    } else {
        EngineKind::Wine
    }
}

/// The engine family of the Wine binary at `path`, judged by the names along the path.
pub fn wine_engine_kind_for_path(path: &str) -> (r: EngineKind)
    ensures r == engine_kind_of(path@),
{
    let parts = path_components(path);
    let mut lowered: Vec<String> = Vec::new();
    let mut i: usize = 0;
    while i < parts.len()
        invariant
            i <= parts.len(),
            lowered@.len() == i,
            forall|k: int| 0 <= k < i ==> (#[trigger] lowered@[k])@ == lower(parts@[k]@),
        decreases parts.len() - i,
    {
        lowered.push(lowercase(parts[i].as_str()));
        i = i + 1;
    }
    proof {
        reveal_strlit("crossover.app");
        reveal_strlit("cxrun");
        reveal_strlit("gameportingtoolkit");
        reveal_strlit("gameportingtoolkit-no-hud");
        reveal_strlit("game porting toolkit.app");
    }
    let mut j: usize = 0;
    while j < lowered.len()
        invariant
            j <= lowered.len(),
            lowered@.len() == parts@.len(),
            parts.deep_view() == components(path@),
            forall|k: int| 0 <= k < lowered@.len() ==> (#[trigger] lowered@[k])@ == lower(parts@[k]@),
            forall|k: int| 0 <= k < j ==> lower(#[trigger] components(path@)[k]) != "crossover.app"@
                && lower(components(path@)[k]) != "cxrun"@,
        decreases lowered.len() - j,
    {
        assert(components(path@)[j as int] == parts@[j as int]@);
        if same_text(lowered[j].as_str(), "crossover.app") || same_text(lowered[j].as_str(), "cxrun") {
            return EngineKind::CrossOver;
        }
        j = j + 1;
    }
    let mut j: usize = 0;
    while j < lowered.len()
        invariant
            j <= lowered.len(),
            lowered@.len() == parts@.len(),
            parts.deep_view() == components(path@),
            !names_crossover(components(path@)),
            forall|k: int| 0 <= k < lowered@.len() ==> (#[trigger] lowered@[k])@ == lower(parts@[k]@),
            forall|k: int| 0 <= k < j ==> lower(#[trigger] components(path@)[k]) != "gameportingtoolkit"@
                && lower(components(path@)[k]) != "gameportingtoolkit-no-hud"@
                && lower(components(path@)[k]) != "game porting toolkit.app"@,
        decreases lowered.len() - j,
    {
        assert(components(path@)[j as int] == parts@[j as int]@);
        let s = lowered[j].as_str();
        if same_text(s, "gameportingtoolkit") || same_text(s, "gameportingtoolkit-no-hud") || same_text(s, "game porting toolkit.app") {
            return EngineKind::GamePortingToolkit;
        }
        j = j + 1;
    }
    EngineKind::Wine
}

/// The backends of `m` that are not unsupported, in order.
pub open spec fn supported_backends(m: Seq<EngineBackendCompatibility>) -> Seq<GraphicsBackend>
    decreases m.len(),
{
    if m.len() == 0 {
        Seq::empty()
    } else if m.last().status != CompatibilityStatus::Unsupported {
        supported_backends(m.drop_last()).push(m.last().backend)
    } else {
        supported_backends(m.drop_last())
    }
}

/// The backends an engine of kind `kind` supports at all, in backend order.
pub fn engine_backend_candidates(kind: EngineKind) -> (r: Vec<GraphicsBackend>)
    ensures
        exists|m: Seq<EngineBackendCompatibility>| is_matrix(m, kind) && r@ == supported_backends(m),
{
    let m = engine_backend_matrix(kind);
    let mut out: Vec<GraphicsBackend> = Vec::new();
    let mut i: usize = 0;
    while i < m.len()
        invariant
            i <= m.len(),
            out@ == supported_backends(m@.take(i as int)),
        decreases m.len() - i,
    {
        assert(m@.take(i + 1).drop_last() =~= m@.take(i as int));
        if m[i].status != CompatibilityStatus::Unsupported {
            out.push(m[i].backend);
        }
        i = i + 1;
    }
    assert(m@.take(i as int) =~= m@);
    out
}

} // verus!
