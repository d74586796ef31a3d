use portcellar::games::generic::GenericGameProfile;
use portcellar::runtime::smoke::{check_evidence_format, compatibility_evidence_from_smoke, game_smoke_evidence, game_smoke_evidence_at};
use portcellar::text::safe_component;
use portcellar::types::{CompatibilityStatus, EngineKind, GameRuntimeObservation, LaunchMode};

fn observation(prefix: &str, wine: &str, wine_version: &str) -> GameRuntimeObservation {
    GameRuntimeObservation {
        app_id: "123456".to_string(),
        profile_name: "Example".to_string(),
        profile_version: "generic-v1".to_string(),
        prefix: prefix.to_string(),
        wine: Some(wine.to_string()),
        wine_version: Some(wine_version.to_string()),
        windows_version: Some("win10".to_string()),
        steam_exe: None,
        game_executable: None,
        steam_running: true,
        game_running: true,
        active_session: Some(true),
        steam_session_ready: true,
        logged_in: Some(true),
        cached_credentials: Some(true),
        login_status: Some("success".to_string()),
        connection_status: Some("cm-transport-ready".to_string()),
        cef_status: None,
    }
}

#[test]
fn evidence_records_profile_policy_and_observation() {
    let profile = GenericGameProfile::new("123456", "Example", "Game.exe");
    let observation = observation(
        "/tmp/prefix",
        "/tmp/synthetic-project/.portcellar/engines/wine-11.10/Wine Staging.app/Contents/Resources/wine/bin/wine",
        "wine-11.10",
    );

    let evidence = game_smoke_evidence(&profile, LaunchMode::WineSteam, observation, 30, true, None);
    assert!(evidence.passed);
    assert_eq!(evidence.stable_window_seconds, 30);
    assert_eq!(evidence.engine, Some(EngineKind::Wine));
    assert_eq!(
        evidence.backend_compatibility.unwrap().status,
        CompatibilityStatus::Candidate
    );
    assert_eq!(evidence.profile.profile_version, "generic-v1");
    assert_eq!(
        evidence.execution_fingerprint.windows_version.as_deref(),
        Some("win10")
    );
    assert_eq!(evidence.execution_fingerprint.bottle_layout, "wine-prefix");
    assert_eq!(evidence.execution_fingerprint.launcher_model, "wine-launcher");
}

#[test]
fn safe_component_never_creates_nested_paths() {
    assert_eq!(safe_component("game/name"), "game-name");
    assert_eq!(safe_component(""), "game");
}

#[test]
fn execution_fingerprint_identifies_a_crossover_bottle() {
    let profile = GenericGameProfile::new("123456", "Example", "Game.exe");
    let mut observation = observation(
        "/tmp/synthetic-crossover/Bottles/Example",
        "/Applications/CrossOver.app/Contents/SharedSupport/CrossOver/bin/wine",
        "CrossOver 26.2",
    );
    observation.steam_exe = None;
    observation.game_executable = None;
    observation.steam_running = false;
    observation.game_running = true;
    observation.active_session = None;
    observation.steam_session_ready = false;
    observation.logged_in = None;
    observation.cached_credentials = None;
    observation.login_status = None;
    observation.connection_status = None;
    observation.cef_status = None;

    let evidence = game_smoke_evidence(&profile, LaunchMode::WineDirect, observation, 5, true, None);

    assert_eq!(
        evidence.execution_fingerprint.windows_version.as_deref(),
        Some("win10")
    );
    assert_eq!(evidence.execution_fingerprint.bottle_layout, "crossover-bottle");
    assert_eq!(
        evidence.execution_fingerprint.launcher_model,
        "crossover-hosted-launcher"
    );
}

#[test]
fn compatibility_record_names_engine_backend_and_status() {
    let profile = GenericGameProfile::new("123456", "Example", "Game.exe");
    let observation = observation("/tmp/synthetic-prefix", "/tmp/synthetic-wine", "wine-11.10");
    let evidence = game_smoke_evidence_at(
        1_700_000_000,
        &profile,
        LaunchMode::WineSteam,
        observation,
        30,
        false,
        Some("active Steam session missing".to_string()),
    );
    assert_eq!(evidence.observed_at_unix_seconds, 1_700_000_000);
    let document = compatibility_evidence_from_smoke(&evidence);
    assert_eq!(document.format_version, "game-compatibility-evidence-v2");
    assert_eq!(document.launch_mode, "WineSteam");
    assert_eq!(document.engine.as_deref(), Some("Wine"));
    assert_eq!(document.graphics_backend, "Auto");
    assert_eq!(document.compatibility_status.as_deref(), Some("Candidate"));
    assert_eq!(document.execution_fingerprint.bottle_layout, "wine-prefix");
    assert_eq!(document.failure_reason.as_deref(), Some("active Steam session missing"));
    assert!(!document.passed);
}

#[test]
fn compatibility_evidence_rejects_unknown_format() {
    assert!(check_evidence_format("game-compatibility-evidence-v1").is_ok());
    assert!(check_evidence_format("game-compatibility-evidence-v2").is_ok());
    let error = check_evidence_format("game-compatibility-evidence-v0").unwrap_err();
    assert!(error
        .to_string()
        .contains("unsupported compatibility evidence format"));
}
