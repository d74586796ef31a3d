//! The engines the doctor lists: each engine's kind, where it is, whether it can
//! run the game, and which graphics backends it offers with the runtime components
//! found for it. Where an engine is, its version and its components are probed by
//! the caller.
use vstd::prelude::*;
use crate::games::GraphicsBackend;
use crate::runtime::compatibility::{
    all_backends, engine_backend_matrix, engine_backend_matrix_for_components, is_discovered_verdict, is_matrix,
    supported_backends,
};
use crate::text::{concat, concat3};
use crate::types::{CompatibilityStatus, EngineBackendCompatibility, EngineKind, RuntimeComponent};

verus! {

/// An engine the host offers.
#[derive(Debug)]
pub struct EngineCandidate {
    pub name: String,
    pub kind: EngineKind,
    pub path: String,
    pub version: Option<String>,
    pub available: bool,
    pub detail: Option<String>,
    pub components: Vec<RuntimeComponent>,
    pub backend_candidates: Vec<GraphicsBackend>,
    pub backend_matrix: Vec<EngineBackendCompatibility>,
}

fn supported_of(m: &Vec<EngineBackendCompatibility>) -> (r: Vec<GraphicsBackend>)
    ensures r@ == supported_backends(m@),
{
    let mut out: Vec<GraphicsBackend> = Vec::new();
    let mut i: usize = 0;
    while i < m.len()
        invariant
            i <= m.len(),
            out@ == supported_backends(m@.take(i as int)),
        decreases m.len() - i,
    {
        assert(m@.take(i + 1).drop_last() =~= m@.take(i as int));
        if m[i].status != CompatibilityStatus::Unsupported {
            out.push(m[i].backend);
        }
        i = i + 1;
    }
    assert(m@.take(i as int) =~= m@);
    out
}

/// The record of an engine found at `path` (or not found), with the runtime
/// components found for it: its backend matrix judged with those components, and
/// the backends that are not unsupported, in backend order.
pub fn engine_record(
    name: String,
    kind: EngineKind,
    path: Option<String>,
    version: Option<String>,
    available: bool,
    detail: Option<String>,
    components: Vec<RuntimeComponent>,
) -> (r: EngineCandidate)
    ensures
        r.name == name,
        r.kind == kind,
        r.path@ == (match path { Some(p) => p@, None => "<not found>"@ }),
        r.version == version,
        r.available == available,
        r.detail == detail,
        r.components@ == components@,
        r.backend_matrix@.len() == all_backends().len(),
        forall|i: int| 0 <= i < r.backend_matrix@.len()
            ==> is_discovered_verdict(#[trigger] r.backend_matrix@[i], kind, all_backends()[i], components@),
        r.backend_candidates@ == supported_backends(r.backend_matrix@),
{
    let backend_matrix = engine_backend_matrix_for_components(kind, &components);
    let backend_candidates = supported_of(&backend_matrix);
    let path = match path {
        Some(p) => p,
        None => "<not found>".to_owned(),
    };
    EngineCandidate { name, kind, path, version, available, detail, components, backend_candidates, backend_matrix }
}

/// The Steam URI launcher: available where Steam runs and the game is installed.
pub fn steam_uri_engine(app_id: &str, steam_running: bool, game_found: bool) -> (r: EngineCandidate)
    ensures
        r.name@ == "Steam URI launcher"@,
        r.kind == EngineKind::NativeSteam,
        r.path@ == "steam://rungameid/"@ + app_id@,
        r.version is None,
        r.available == (steam_running && game_found),
        r.detail matches Some(d) && d@ == (if steam_running { "Steam is running"@ } else { "Steam is not running"@ }),
        r.components@.len() == 0,
        is_matrix(r.backend_matrix@, EngineKind::NativeSteam),
        r.backend_candidates@ == supported_backends(r.backend_matrix@),
{
    let backend_matrix = engine_backend_matrix(EngineKind::NativeSteam);
    let backend_candidates = supported_of(&backend_matrix);
    EngineCandidate {
        name: "Steam URI launcher".to_owned(),
        kind: EngineKind::NativeSteam,
        path: concat("steam://rungameid/", app_id),
        version: None,
        available: steam_running && game_found,
        detail: Some(if steam_running { "Steam is running".to_owned() } else { "Steam is not running".to_owned() }),
        components: Vec::new(),
        backend_candidates,
        backend_matrix,
    }
}

/// `present` or `missing`.
pub open spec fn presence(b: bool) -> Seq<char> {
    if b { "present"@ } else { "missing"@ }
}

/// The detail of the game's Wine prefix engine: the prefix, and whether Steam and
/// the game were found in it.
pub fn wine_prefix_detail(prefix: &str, steam_found: bool, game_name: &str, game_found: bool) -> (r: String)
    ensures r@ == "prefix: "@ + prefix@ + "; Steam: "@ + presence(steam_found) + "; "@ + game_name@ + ": "@
        + presence(game_found),
{
    let steam = if steam_found { "present" } else { "missing" };
    let game = if game_found { "present" } else { "missing" };
    let a = concat3("prefix: ", prefix, "; Steam: ");
    let b = concat3(a.as_str(), steam, "; ");
    let c = concat3(b.as_str(), game_name, ": ");
    concat(c.as_str(), game)
}

} // verus!
