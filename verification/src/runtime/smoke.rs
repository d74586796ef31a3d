//! Evidence of a smoke run: what was observed, on which engine, and with what verdict.
use vstd::prelude::*;
use crate::error::{PortCellarError, Result};
use crate::text::{concat, same_text};
use crate::games::{backend_label, clone_opt, GameProfile, GraphicsBackend};
use crate::paths::{parent_name_is, parent_named};
use crate::runtime::compatibility::{
    engine_backend_matrix, engine_kind_of, find_backend, first_for_backend, is_matrix, is_verdict,
    lemma_find_in_matrix, wine_engine_kind_for_path, backend_index,
};
use crate::types::{
    engine_label, launch_mode_label, status_label, EngineBackendCompatibility, EngineKind,
    GameRuntimeObservation, GameSmokeEvidence, LaunchMode, RuntimeExecutionFingerprint,
};

verus! {

/// The format tag of compatibility evidence documents.
pub const GAME_COMPATIBILITY_EVIDENCE_FORMAT_VERSION: &'static str = "game-compatibility-evidence-v2";

/// The format tag of the first compatibility evidence documents, which had no fingerprint.
pub const GAME_COMPATIBILITY_EVIDENCE_FORMAT_VERSION_V1: &'static str = "game-compatibility-evidence-v1";

/// The engine family of an observation's Wine binary, if one was found.
pub open spec fn observed_engine(wine: Option<String>) -> Option<EngineKind> {
    match wine {
        Some(w) => Some(engine_kind_of(w@)),
        None => None,
    }
}

/// The layout name for a prefix: bottles live in a `Bottles` directory.
pub open spec fn bottle_layout_of(prefix: Seq<char>) -> Seq<char> {
    if parent_name_is(prefix, "Bottles"@) { "crossover-bottle"@ } else { "wine-prefix"@ }
}

/// The launcher name for an engine family.
pub open spec fn launcher_model_of(engine: Option<EngineKind>) -> Seq<char> {
    match engine {
        Some(EngineKind::CrossOver) => "crossover-hosted-launcher"@,
        Some(_) => "wine-launcher"@,
        None => "unknown"@,
    }
}

/// How the run in `observation` was hosted.
pub fn runtime_execution_fingerprint(observation: &GameRuntimeObservation, engine: Option<EngineKind>) -> (r: RuntimeExecutionFingerprint)
    ensures
        r.windows_version == observation.windows_version,
        r.bottle_layout@ == bottle_layout_of(observation.prefix@),
        r.launcher_model@ == launcher_model_of(engine),
{
    proof {
        reveal_strlit("Bottles");
        reveal_strlit("crossover-bottle");
        reveal_strlit("wine-prefix");
    }
    let bottle_layout = if parent_named(observation.prefix.as_str(), "Bottles") {
        "crossover-bottle"
    } else {
        "wine-prefix"
    };
    let launcher_model = match engine {
        Some(EngineKind::CrossOver) => "crossover-hosted-launcher",
        Some(_) => "wine-launcher",
        None => "unknown",
    };
    RuntimeExecutionFingerprint {
        windows_version: clone_opt(&observation.windows_version),
        bottle_layout: bottle_layout.to_owned(),
        launcher_model: launcher_model.to_owned(),
    }
}

/// Whether `e` records a smoke run of `profile` made at `observed_at`.
pub open spec fn is_smoke_evidence<P: GameProfile>(
    e: GameSmokeEvidence,
    observed_at: u64,
    profile: &P,
    launch_mode: LaunchMode,
    observation: GameRuntimeObservation,
    stable_window_seconds: u64,
    passed: bool,
    failure_reason: Option<String>,
) -> bool {
    let engine = observed_engine(observation.wine);
    &&& e.observed_at_unix_seconds == observed_at
    &&& e.profile == observation
    &&& e.launch_mode == launch_mode
    &&& e.engine == engine
    &&& match engine {
        None => e.backend_compatibility is None,
        Some(k) => e.backend_compatibility matches Some(c) && is_verdict(c, k, profile.spec_graphics_backend()),
    }
    &&& e.execution_fingerprint.windows_version == observation.windows_version
    &&& e.execution_fingerprint.bottle_layout@ == bottle_layout_of(observation.prefix@)
    &&& e.execution_fingerprint.launcher_model@ == launcher_model_of(engine)
    &&& e.graphics_backend == profile.spec_graphics_backend()
    &&& e.steam_integration == profile.spec_steam_integration()
    &&& e.stable_window_seconds == stable_window_seconds
    &&& e.passed == passed
    &&& e.failure_reason == failure_reason
}

/// The smoke evidence for a run observed at `observed_at` (seconds since the Unix epoch).
pub fn game_smoke_evidence_at<P: GameProfile>(
    observed_at: u64,
    profile: &P,
    launch_mode: LaunchMode,
    observation: GameRuntimeObservation,
    stable_window_seconds: u64,
    passed: bool,
    failure_reason: Option<String>,
) -> (r: GameSmokeEvidence)
    ensures
        is_smoke_evidence(r, observed_at, profile, launch_mode, observation, stable_window_seconds,
            passed, failure_reason),
{
    let engine = match &observation.wine {
        Some(w) => Some(wine_engine_kind_for_path(w.as_str())),
        None => None,
    };
    let backend = profile.graphics_backend();
    let backend_compatibility = match engine {
        Some(kind) => {
            let matrix = engine_backend_matrix(kind);
            proof { lemma_find_in_matrix(matrix@, backend); }
            let found = find_backend(&matrix, backend);
            proof { assert(is_verdict(matrix@[backend_index(backend)], kind, backend)); }
            found
        }
        None => None,
    };
    let execution_fingerprint = runtime_execution_fingerprint(&observation, engine);
    GameSmokeEvidence {
        observed_at_unix_seconds: observed_at,
        profile: observation,
        launch_mode,
        engine,
        backend_compatibility,
        execution_fingerprint,
        graphics_backend: backend,
        steam_integration: profile.steam_integration(),
        stable_window_seconds,
        passed,
        failure_reason,
    }
}

/// The system clock's time, `std::time::SystemTime`: opaque here.
#[verifier::external_type_specification]
#[verifier::external_body]
pub struct ExSystemTime(std::time::SystemTime);

/// `SystemTime::now`: the time the clock reads at the call. Nothing is stated of it.
#[verifier::external_body]
fn system_now() -> (r: std::time::SystemTime)
{
    std::time::SystemTime::now()
}

/// `SystemTime::duration_since(UNIX_EPOCH)` of `t` in whole seconds, or none where
/// `t` is earlier than the epoch. Nothing is stated of the value.
#[verifier::external_body]
fn seconds_since_epoch(t: &std::time::SystemTime) -> (r: Option<u64>)
{
    match t.duration_since(std::time::UNIX_EPOCH) {
        Ok(elapsed) => Some(elapsed.as_secs()),
        Err(_) => None,
    }
}

/// Whole seconds since the Unix epoch by the system clock, or 0 when the clock reads
/// earlier than the epoch.
fn unix_seconds_now() -> (r: u64)
{
    match seconds_since_epoch(&system_now()) {
        Some(seconds) => seconds,
        None => 0,
    }
}

/// The smoke evidence for a run of `profile` observed now.
pub fn game_smoke_evidence<P: GameProfile>(
    profile: &P,
    launch_mode: LaunchMode,
    observation: GameRuntimeObservation,
    stable_window_seconds: u64,
    passed: bool,
    failure_reason: Option<String>,
) -> (r: GameSmokeEvidence)
    ensures
        is_smoke_evidence(r, r.observed_at_unix_seconds, profile, launch_mode, observation,
            stable_window_seconds, passed, failure_reason),
{
    let now = unix_seconds_now();
    game_smoke_evidence_at(now, profile, launch_mode, observation, stable_window_seconds, passed, failure_reason)
}

/// The structured, path-free record of a smoke run that is kept per game.
#[derive(Debug)]
pub struct GameCompatibilityEvidence {
    pub format_version: String,
    pub observed_at_unix_seconds: u64,
    pub app_id: String,
    pub profile_name: String,
    pub profile_version: String,
    pub launch_mode: String,
    pub engine: Option<String>,
    pub engine_version: Option<String>,
    pub execution_fingerprint: RuntimeExecutionFingerprint,
    pub graphics_backend: String,
    pub compatibility_status: Option<String>,
    pub passed: bool,
    pub stable_window_seconds: u64,
    pub steam_session_ready: bool,
    pub game_running: bool,
    pub failure_reason: Option<String>,
}

/// Whether `d` is the compatibility record of `e`.
pub open spec fn is_compatibility_record(d: GameCompatibilityEvidence, e: GameSmokeEvidence) -> bool {
    &&& d.format_version@ == "game-compatibility-evidence-v2"@
    &&& d.observed_at_unix_seconds == e.observed_at_unix_seconds
    &&& d.app_id == e.profile.app_id
    &&& d.profile_name == e.profile.profile_name
    &&& d.profile_version == e.profile.profile_version
    &&& d.launch_mode@ == launch_mode_label(e.launch_mode)
    &&& match e.engine {
        Some(k) => d.engine matches Some(n) && n@ == engine_label(k),
        None => d.engine is None,
    }
    &&& d.engine_version == e.profile.wine_version
    &&& d.execution_fingerprint == e.execution_fingerprint
    &&& d.graphics_backend@ == backend_label(e.graphics_backend)
    &&& match e.backend_compatibility {
        Some(c) => d.compatibility_status matches Some(n) && n@ == status_label(c.status),
        None => d.compatibility_status is None,
    }
    &&& d.passed == e.passed
    &&& d.stable_window_seconds == e.stable_window_seconds
    &&& d.steam_session_ready == e.profile.steam_session_ready
    &&& d.game_running == e.profile.game_running
    &&& d.failure_reason == e.failure_reason
}

/// The compatibility record of a smoke run.
pub fn compatibility_evidence_from_smoke(evidence: &GameSmokeEvidence) -> (r: GameCompatibilityEvidence)
    ensures is_compatibility_record(r, *evidence),
{
    proof { reveal_strlit("game-compatibility-evidence-v2"); }
    GameCompatibilityEvidence {
        format_version: GAME_COMPATIBILITY_EVIDENCE_FORMAT_VERSION.to_owned(),
        observed_at_unix_seconds: evidence.observed_at_unix_seconds,
        app_id: evidence.profile.app_id.clone(),
        profile_name: evidence.profile.profile_name.clone(),
        profile_version: evidence.profile.profile_version.clone(),
        launch_mode: evidence.launch_mode.label().to_owned(),
        engine: match evidence.engine {
            Some(k) => Some(k.label().to_owned()),
            None => None,
        },
        engine_version: clone_opt(&evidence.profile.wine_version),
        execution_fingerprint: evidence.execution_fingerprint.clone(),
        graphics_backend: evidence.graphics_backend.label().to_owned(),
        compatibility_status: match evidence.backend_compatibility {
            Some(c) => Some(c.status.label().to_owned()),
            None => None,
        },
        passed: evidence.passed,
        stable_window_seconds: evidence.stable_window_seconds,
        steam_session_ready: evidence.profile.steam_session_ready,
        game_running: evidence.profile.game_running,
        failure_reason: clone_opt(&evidence.failure_reason),
    }
}

/// Whether `version` is a compatibility evidence format this library reads.
pub open spec fn known_evidence_format(version: Seq<char>) -> bool {
    version == "game-compatibility-evidence-v1"@ || version == "game-compatibility-evidence-v2"@
}

/// Accepts the format tag of a compatibility evidence document (the first or the
/// current format) and refuses any other.
pub fn check_evidence_format(version: &str) -> (r: Result<()>)
    ensures
        r is Ok == known_evidence_format(version@),
        r matches Err(e) ==> e.text() == "unsupported compatibility evidence format: "@ + version@,
{
    proof {
        reveal_strlit("game-compatibility-evidence-v1");
        reveal_strlit("game-compatibility-evidence-v2");
    }
    if same_text(version, GAME_COMPATIBILITY_EVIDENCE_FORMAT_VERSION_V1)
        || same_text(version, GAME_COMPATIBILITY_EVIDENCE_FORMAT_VERSION)
    {
        Ok(())
    } else {
        Err(PortCellarError::message(concat("unsupported compatibility evidence format: ", version)))
    }
}

} // verus!
