use portcellar::games::generic::GenericGameProfile;
use portcellar::games::SteamIntegration;
use portcellar::runtime::observe::{game_runtime_observation, game_runtime_ready, steam_login_action, steam_session_ready};
use portcellar::types::{WineMacDriverConfig, WineSteamRuntime};

fn runtime() -> WineSteamRuntime {
    WineSteamRuntime {
        wine: Some("/usr/local/bin/wine".to_string()),
        wine_version: Some("wine-11.10".to_string()),
        windows_version: Some("win10".to_string()),
        dxmt_root: None,
        prefix: "/tmp/prefix".to_string(),
        steam_exe: Some("/tmp/prefix/drive_c/Steam/steam.exe".to_string()),
        game_manifest: None,
        game_install_dir: Some("/tmp/prefix/drive_c/Game".to_string()),
        game_executable: Some("/tmp/prefix/drive_c/Game/Game.exe".to_string()),
        running: true,
        game_running: true,
        launch_ready_after_login: true,
        readiness_issues: Vec::new(),
        logged_in: Some(true),
        active_session: Some(true),
        cached_credentials: Some(true),
        login_status: Some("success".to_string()),
        connection_status: Some("cm-transport-ready".to_string()),
        cef_status: Some("login-window-ready".to_string()),
        mac_window_status: None,
        virtual_desktop: None,
        mac_driver: WineMacDriverConfig {
            allow_immovable_windows: None,
            retina_mode: None,
        },
    }
}

fn copy(value: &WineSteamRuntime) -> WineSteamRuntime {
    WineSteamRuntime {
        wine: value.wine.clone(),
        wine_version: value.wine_version.clone(),
        windows_version: value.windows_version.clone(),
        dxmt_root: value.dxmt_root.clone(),
        prefix: value.prefix.clone(),
        steam_exe: value.steam_exe.clone(),
        game_manifest: value.game_manifest.clone(),
        game_install_dir: value.game_install_dir.clone(),
        game_executable: value.game_executable.clone(),
        running: value.running,
        game_running: value.game_running,
        launch_ready_after_login: value.launch_ready_after_login,
        readiness_issues: value.readiness_issues.clone(),
        logged_in: value.logged_in,
        active_session: value.active_session,
        cached_credentials: value.cached_credentials,
        login_status: value.login_status.clone(),
        connection_status: value.connection_status.clone(),
        cef_status: value.cef_status.clone(),
        mac_window_status: value.mac_window_status.clone(),
        virtual_desktop: value.virtual_desktop.clone(),
        mac_driver: value.mac_driver.clone(),
    }
}

#[test]
fn steam_session_requires_a_running_client() {
    let mut value = runtime();
    value.running = false;
    assert!(!steam_session_ready(&value));
}

#[test]
fn steam_session_accepts_active_webhelper_session() {
    let mut value = runtime();
    value.login_status = None;
    value.connection_status = None;
    assert!(steam_session_ready(&value));
}

#[test]
fn steam_session_rejects_cached_credentials_without_transport() {
    let mut value = runtime();
    value.active_session = None;
    value.login_status = None;
    value.connection_status = None;
    assert!(!steam_session_ready(&value));
}

#[test]
fn steam_session_rejects_an_explicitly_inactive_webhelper_session() {
    let mut value = runtime();
    value.active_session = Some(false);
    assert!(!steam_session_ready(&value));
}

#[test]
fn steam_session_rejects_historical_success_without_live_session() {
    let mut value = runtime();
    value.active_session = None;
    assert!(!steam_session_ready(&value));
}

#[test]
fn game_readiness_observation_is_profile_aware() {
    let profile = GenericGameProfile::new("123456", "Steam Game", "Game.exe");
    let value = runtime();
    assert!(game_runtime_ready(&profile, &value));

    let mut no_session = copy(&value);
    no_session.active_session = None;
    no_session.login_status = None;
    no_session.connection_status = None;
    assert!(!game_runtime_ready(&profile, &no_session));

    let standalone = profile.with_steam_integration(SteamIntegration::Standalone);
    let mut stopped = value;
    stopped.running = false;
    stopped.active_session = None;
    assert!(game_runtime_ready(&standalone, &stopped));
}

#[test]
fn observation_preserves_profile_and_engine_evidence() {
    let profile = GenericGameProfile::new("123456", "Steam Game", "Game.exe")
        .with_runtime_profile_version("analysis-v1-123456");
    let observation = game_runtime_observation(&profile, &runtime());

    assert_eq!(observation.app_id, "123456");
    assert_eq!(observation.profile_version, "analysis-v1-123456");
    assert_eq!(observation.wine_version.as_deref(), Some("wine-11.10"));
    assert!(observation.steam_session_ready);
    assert!(observation.ready(true));
}

#[test]
fn optional_steam_game_is_ready_without_client() {
    let profile = GenericGameProfile::new("123456", "Steam Game", "Game.exe")
        .with_steam_integration(SteamIntegration::Optional);
    let mut value = runtime();
    value.running = false;
    assert!(game_runtime_ready(&profile, &value));
    value.game_running = false;
    assert!(!game_runtime_ready(&profile, &value));
    let observation = game_runtime_observation(&profile, &value);
    assert!(!observation.ready(false));
    assert!(!observation.steam_session_ready);
}

#[test]
fn login_action_asks_to_finish_sign_in_without_a_session() {
    let mut value = runtime();
    value.active_session = Some(false);
    value.cef_status = Some("login-window-ready-offscreen".to_string());
    assert_eq!(
        steam_login_action(&value),
        "complete Steam sign-in in the Wine window; cached login status is not an active session"
    );
}

#[test]
fn login_action_asks_for_credentials_when_steam_waits_for_them() {
    let mut value = runtime();
    value.active_session = None;
    value.login_status = Some("waiting-for-credentials".to_string());
    value.connection_status = Some("webui-transport-ready".to_string());
    value.cef_status = Some("login-window-ready".to_string());
    assert_eq!(
        steam_login_action(&value),
        "enter Steam credentials or approve QR login in the Wine window"
    );
}

#[test]
fn login_action_falls_back_to_inspection() {
    let mut value = runtime();
    value.active_session = None;
    value.login_status = None;
    value.connection_status = Some("no-connection".to_string());
    value.cef_status = Some("login-window-ready".to_string());
    assert_eq!(
        steam_login_action(&value),
        "run portcellar isaac doctor and inspect login, connection, and CEF status"
    );
}
