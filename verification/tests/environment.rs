use portcellar::games::generic::GenericGameProfile;
use portcellar::games::{GraphicsBackend, RuntimeDependency, SteamCefPolicy, SteamIntegration};
use portcellar::runtime::environment::{game_installer_env, game_launch_env, merge_env, prepend_dirs, LaunchEnvFacts};
use portcellar::runtime::wine::{prepend_dll_override, prepend_env_path, virtual_desktop_from_value};
use portcellar::strmap::StrMap;
use portcellar::types::{WineMacDriverConfig, WineSteamRuntime};

fn runtime(dxmt_root: Option<&str>) -> WineSteamRuntime {
    WineSteamRuntime {
        wine: Some("/opt/wine/bin/wine".to_string()),
        wine_version: None,
        windows_version: None,
        dxmt_root: dxmt_root.map(str::to_string),
        prefix: "/tmp/prefix".to_string(),
        steam_exe: None,
        game_manifest: None,
        game_install_dir: None,
        game_executable: None,
        running: false,
        game_running: false,
        launch_ready_after_login: false,
        readiness_issues: Vec::new(),
        logged_in: None,
        active_session: None,
        cached_credentials: None,
        login_status: None,
        connection_status: None,
        cef_status: None,
        mac_window_status: None,
        virtual_desktop: None,
        mac_driver: WineMacDriverConfig { allow_immovable_windows: None, retina_mode: None },
    }
}

fn map(entries: &[(&str, &str)]) -> StrMap {
    let mut m = StrMap::new();
    for (key, value) in entries {
        m.insert(key.to_string(), value.to_string());
    }
    m
}

fn no_facts(inherited: StrMap) -> LaunchEnvFacts {
    LaunchEnvFacts {
        inherited,
        graphics_dll_dirs: None,
        moltenvk_dir: None,
        faudio_dll_dirs: None,
        gstreamer_lib_dir: None,
        gstreamer_plugin_dir: None,
    }
}

fn value(m: &StrMap, key: &str) -> Option<String> {
    m.get(key).cloned()
}

#[test]
fn wine_variables_win_over_profile_variables() {
    let merged = merge_env(map(&[("A", "profile"), ("B", "kept")]), &map(&[("A", "wine"), ("C", "new")]));
    assert_eq!(value(&merged, "A").as_deref(), Some("wine"));
    assert_eq!(value(&merged, "B").as_deref(), Some("kept"));
    assert_eq!(value(&merged, "C").as_deref(), Some("new"));
    assert_eq!(merged.len(), 3);
}

#[test]
fn steam_game_gets_app_id_and_overlay_overrides() {
    let profile = GenericGameProfile::new("250900", "Example", "Game.exe")
        .with_steam_cef_policy(SteamCefPolicy::CrossOverCompatible);
    let envs = game_launch_env(&profile, &runtime(None), &map(&[("WINEPREFIX", "/tmp/prefix")]),
        &no_facts(map(&[("WINEDLLOVERRIDES", "mscoree=")])));
    assert_eq!(value(&envs, "SteamAppId").as_deref(), Some("250900"));
    assert_eq!(value(&envs, "SteamGameId").as_deref(), Some("250900"));
    assert_eq!(value(&envs, "STEAM_GAME_ID").as_deref(), Some("250900"));
    assert_eq!(value(&envs, "SteamNoOverlayUI").as_deref(), Some("1"));
    assert_eq!(
        value(&envs, "WINEDLLOVERRIDES").as_deref(),
        Some("gameoverlayrenderer,gameoverlayrenderer64=;mscoree=")
    );
    assert_eq!(value(&envs, "PORTCELLAR_STEAM_CEF_POLICY").as_deref(), Some("crossover-compatible"));
    assert_eq!(value(&envs, "WINEPREFIX").as_deref(), Some("/tmp/prefix"));
}

#[test]
fn standalone_game_gets_no_steam_variables() {
    let profile = GenericGameProfile::new("local", "Example", "Game.exe")
        .with_steam_integration(SteamIntegration::Standalone);
    let envs = game_launch_env(&profile, &runtime(None), &StrMap::new(), &no_facts(StrMap::new()));
    assert!(value(&envs, "SteamAppId").is_none());
    assert!(value(&envs, "WINEDLLOVERRIDES").is_none());
    assert!(envs.is_empty());
}

#[test]
fn dxmt_backend_uses_profile_config_and_dxmt_root() {
    let profile = GenericGameProfile::new("local", "Example", "Game.exe")
        .with_steam_integration(SteamIntegration::Standalone)
        .with_graphics_backend(GraphicsBackend::Dxmt)
        .with_dxmt_config("d3d11.preferredMaxFrameRate=60;");
    let envs = game_launch_env(&profile, &runtime(Some("/opt/dxmt")), &StrMap::new(),
        &no_facts(map(&[("WINEDLLPATH_PREPEND", "/opt/other")])));
    assert_eq!(value(&envs, "DXMT_CONFIG").as_deref(), Some("d3d11.preferredMaxFrameRate=60;"));
    assert_eq!(value(&envs, "DXMT_LOG_LEVEL").as_deref(), Some("error"));
    assert_eq!(value(&envs, "WINEDLLPATH_PREPEND").as_deref(), Some("/opt/dxmt:/opt/other"));
}

#[test]
fn dxvk_backend_prepends_runtime_dirs_and_native_overrides() {
    let profile = GenericGameProfile::new("local", "Example", "Game.exe")
        .with_steam_integration(SteamIntegration::Standalone)
        .with_graphics_backend(GraphicsBackend::Dxvk)
        .with_dependency(RuntimeDependency::MediaFoundation);
    let facts = LaunchEnvFacts {
        inherited: map(&[("WINEDLLPATH", "/inherited")]),
        graphics_dll_dirs: Some(vec!["/dxvk/x64/bin".to_string(), "/dxvk/x86/bin".to_string()]),
        moltenvk_dir: Some("/mvk/lib".to_string()),
        faudio_dll_dirs: None,
        gstreamer_lib_dir: Some("/gst/lib".to_string()),
        gstreamer_plugin_dir: Some("/gst/lib/gstreamer-1.0".to_string()),
    };
    let envs = game_launch_env(&profile, &runtime(None), &StrMap::new(), &facts);
    assert_eq!(value(&envs, "WINEDLLPATH_PREPEND").as_deref(), Some("/dxvk/x64/bin:/dxvk/x86/bin"));
    assert_eq!(value(&envs, "WINEDLLPATH").as_deref(), Some("/dxvk/x64/bin:/dxvk/x86/bin:/inherited"));
    assert_eq!(value(&envs, "WINEDLLOVERRIDES").as_deref(), Some("d3d8,d3d9,d3d10core,d3d11,dxgi=n,b"));
    assert_eq!(value(&envs, "DYLD_FALLBACK_LIBRARY_PATH").as_deref(), Some("/gst/lib:/mvk/lib"));
    assert_eq!(value(&envs, "GST_PLUGIN_PATH_1_0").as_deref(), Some("/gst/lib/gstreamer-1.0"));
}

#[test]
fn installer_env_is_profile_under_wine() {
    let profile = GenericGameProfile::new("1", "Example", "Game.exe").with_runtime_environment("WINEDEBUG", "+all");
    let envs = game_installer_env(&profile, &map(&[("WINEDEBUG", "-all")]));
    assert_eq!(value(&envs, "WINEDEBUG").as_deref(), Some("-all"));
}

#[test]
fn env_paths_are_prepended_once() {
    assert_eq!(prepend_env_path("/a", None), "/a");
    assert_eq!(prepend_env_path("/a", Some("")), "");
    assert_eq!(prepend_env_path("/a", Some("/b:/a")), "/b:/a");
    assert_eq!(prepend_env_path("/a", Some("/b")), "/a:/b");
    assert_eq!(prepend_dirs(&vec!["/x".to_string(), "/y".to_string()], String::new()), "/x:/y");
}

#[test]
fn virtual_desktop_values_are_read() {
    assert_eq!(virtual_desktop_from_value(" off "), None);
    assert_eq!(virtual_desktop_from_value("Disabled"), None);
    assert_eq!(virtual_desktop_from_value("auto").as_deref(), Some("1440x900"));
    assert_eq!(virtual_desktop_from_value("  ").as_deref(), Some("1440x900"));
    assert_eq!(virtual_desktop_from_value(" 1920x1080 ").as_deref(), Some("1920x1080"));
}

#[test]
fn prepending_twice_is_prepending_once() {
    let overlay = "gameoverlayrenderer,gameoverlayrenderer64=";
    for existing in [None, Some(""), Some("mscoree="), Some("a=;gameoverlayrenderer,gameoverlayrenderer64=")] {
        let once = prepend_dll_override(overlay, existing);
        assert_eq!(prepend_dll_override(overlay, Some(once.as_str())), once);
    }
    for existing in [None, Some(""), Some("/usr/lib"), Some("/usr/lib:/opt/dxmt")] {
        let once = prepend_env_path("/opt/dxmt", existing);
        assert_eq!(prepend_env_path("/opt/dxmt", Some(once.as_str())), once);
    }
}
