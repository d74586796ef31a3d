use portcellar::analyze::discovery::{exe_candidate, manifest_from_text};
use portcellar::analyze::local::{analyze_local_game, host_path_to_z_path, select_executable, steam_app_id_from_text};
use portcellar::analyze::pe::{scan_pe_bytes, summarize_pe_bytes, PeScan};
use portcellar::analyze::steam_client::{
    analyze_steam_client, probe_deadline, record_steam_client_probe, steam_client_probe_result,
    steam_client_start_plan, steam_log_signal_from_text, SteamCefTargetAnalysis, SteamClientAnalysisOptions,
    SteamClientProbeTick, SteamLogAnalysis,
};
use portcellar::analyze::{assemble_porting_analysis, analysis_probe_profile};
use portcellar::games::{GameProfile, SteamCefPolicy, SteamIntegration};
use portcellar::paths::relative_display;
use portcellar::runtime::launch::SteamLaunchSettings;
use portcellar::sort::sort_in_order;
use portcellar::strmap::StrMap;
use portcellar::types::{WineMacDriverConfig, WineSteamRuntime};

fn put_u16(b: &mut [u8], at: usize, v: u16) {
    b[at..at + 2].copy_from_slice(&v.to_le_bytes());
}

fn put_u32(b: &mut [u8], at: usize, v: u32) {
    b[at..at + 4].copy_from_slice(&v.to_le_bytes());
}

/// A PE32 image with one section mapping RVA 0x1000 to file offset 0x200 and an
/// import table there naming `names` (each placed 0x20 bytes apart from 0x300).
fn pe_with_imports(names: &[&str], name_rvas: Option<&[u32]>) -> Vec<u8> {
    let mut b = vec![0u8; 0x400];
    b[0..2].copy_from_slice(b"MZ");
    put_u32(&mut b, 0x3c, 0x80);
    b[0x80..0x84].copy_from_slice(b"PE\0\0");
    put_u16(&mut b, 0x84, 0x014c);
    put_u16(&mut b, 0x86, 1);
    put_u16(&mut b, 0x94, 0xE0);
    put_u16(&mut b, 0x98, 0x10b);
    put_u16(&mut b, 0x98 + 68, 2);
    put_u32(&mut b, 0x98 + 96 + 8, 0x1000);
    let section = 0x98 + 0xE0;
    put_u32(&mut b, section + 8, 0x1000);
    put_u32(&mut b, section + 12, 0x1000);
    put_u32(&mut b, section + 16, 0x200);
    put_u32(&mut b, section + 20, 0x200);
    for (i, name) in names.iter().enumerate() {
        let descriptor = 0x200 + i * 20;
        let rva = match name_rvas {
            Some(rvas) => rvas[i],
            None => 0x1100 + (i as u32) * 0x20,
        };
        put_u32(&mut b, descriptor + 12, rva);
        let at = 0x300 + i * 0x20;
        b[at..at + name.len()].copy_from_slice(name.as_bytes());
    }
    b
}

fn runtime(prefix: &str) -> WineSteamRuntime {
    WineSteamRuntime {
        wine: Some("/Applications/Wine Stable.app/Contents/Resources/wine/bin/wine".to_string()),
        wine_version: None,
        windows_version: Some("win10".to_string()),
        dxmt_root: None,
        prefix: prefix.to_string(),
        steam_exe: Some(format!("{prefix}/drive_c/Program Files (x86)/Steam/steam.exe")),
        game_manifest: None,
        game_install_dir: None,
        game_executable: None,
        running: false,
        game_running: false,
        launch_ready_after_login: true,
        readiness_issues: Vec::new(),
        logged_in: None,
        active_session: None,
        cached_credentials: None,
        login_status: None,
        connection_status: None,
        cef_status: None,
        mac_window_status: None,
        virtual_desktop: None,
        mac_driver: WineMacDriverConfig { allow_immovable_windows: None, retina_mode: None },
    }
}

#[test]
fn pe_summary_lists_imports_once_in_order() {
    let image = pe_with_imports(&["STEAM_API.dll", "d3d11.dll", "steam_api.dll"], None);
    let summary = summarize_pe_bytes(&image).unwrap();
    assert_eq!(summary.machine.as_deref(), Some("x86"));
    assert_eq!(summary.subsystem.as_deref(), Some("windows-gui"));
    assert_eq!(summary.import_dlls, vec!["d3d11.dll".to_string(), "steam_api.dll".to_string()]);
    assert_eq!(summary.detected_layers, vec!["d3d11/dxgi".to_string(), "steamworks".to_string()]);
}

#[test]
fn pe_summary_rejects_non_images_and_names_past_the_end() {
    assert!(summarize_pe_bytes(b"not a PE").is_none());
    let mut image = pe_with_imports(&["kernel32.dll"], None);
    image[0] = b'X';
    assert!(summarize_pe_bytes(&image).is_none());
    let past = pe_with_imports(&["kernel32.dll"], Some(&[0x1f00]));
    assert!(matches!(scan_pe_bytes(&past), PeScan::NamePastEnd));
    let undecodable = {
        let mut b = pe_with_imports(&["abc.dll"], None);
        b[0x300] = 0xff;
        b
    };
    let summary = summarize_pe_bytes(&undecodable).unwrap();
    assert!(summary.import_dlls.is_empty());
}

#[test]
fn steam_log_signals_follow_their_order() {
    assert_eq!(steam_log_signal_from_text("x FATAL:process_metrics_win y").as_deref(), Some("cef fatal process_metrics_win"));
    let restarts = "Restart webhelper process\nrestart webhelper process\nRESTART WEBHELPER PROCESS\n";
    assert_eq!(steam_log_signal_from_text(restarts).as_deref(), Some("webhelper restart loop"));
    assert_eq!(
        steam_log_signal_from_text("Restart webhelper process\nConnection ready").as_deref(),
        Some("transport connected")
    );
    assert_eq!(steam_log_signal_from_text("SetLoginState: Success").as_deref(), Some("login success"));
    assert_eq!(steam_log_signal_from_text("WaitingForCredentials").as_deref(), Some("login attention needed"));
    assert_eq!(steam_log_signal_from_text("nothing here"), None);
}

#[test]
fn steam_client_conclusions_are_sorted_and_probe_aware() {
    let rt = runtime("/tmp/prefix");
    let targets = vec![SteamCefTargetAnalysis {
        relative_dir: "bin/cef/cef.win64".to_string(),
        arch: "x86_64".to_string(),
        helper_exists: true,
        helper_is_wrapper: false,
        helper_size: Some(10),
        real_helper_exists: false,
        libcef_exists: true,
        libcef_size: Some(10),
        vulkan_loader_exists: true,
        d3dcompiler_exists: false,
        helper_pe: None,
    }];
    let logs = vec![SteamLogAnalysis {
        name: "cef_log.txt".to_string(),
        size: 1,
        modified_unix_seconds: Some(5),
        signal: Some("cef graphics context warning".to_string()),
    }];
    let mut options = SteamClientAnalysisOptions::default();
    assert_eq!(options.probe_seconds, 20);
    options.probe = true;
    let mut analysis = analyze_steam_client(&options, &rt, Vec::new(), targets, Vec::new(), logs);
    assert_eq!(analysis.version, "steam-client-analysis-v1");
    assert_eq!(analysis.steam_dir.as_deref(), Some("/tmp/prefix/drive_c/Program Files (x86)/Steam"));
    assert_eq!(
        analysis.findings,
        vec![
            "Steam CEF ships its own libcef and Vulkan loader stack.".to_string(),
            "Windows Steam install detected in the selected Wine prefix.".to_string(),
        ]
    );
    assert_eq!(analysis.recommendations.len(), 5);
    assert!(analysis.recommendations[3].starts_with("Patch or verify"));
    assert!(analysis.recommendations[4].starts_with("Prioritize CEF"));
    assert!(analysis.blockers.is_empty());

    let tick = SteamClientProbeTick {
        elapsed_seconds: 0,
        running: false,
        logged_in: Some(true),
        connection_status: None,
        cef_status: Some("login-window-ready-offscreen".to_string()),
        active_session: None,
        readiness_issues: Vec::new(),
    };
    let probe = steam_client_probe_result(Err("spawn failed".to_string()), vec![tick], Some(None));
    assert!(probe.ticks.is_empty());
    assert!(probe.stopped_after);
    record_steam_client_probe(&mut analysis, probe, &rt, None);
    assert_eq!(
        analysis.blockers,
        vec![
            "Active probe could not start Steam: spawn failed".to_string(),
            "Active probe did not observe running Wine Steam processes".to_string(),
        ]
    );
    assert_eq!(probe_deadline(&SteamClientAnalysisOptions { probe_seconds: 0, ..options }), 1);
}

#[test]
fn steam_client_start_plan_keeps_overlay_out() {
    let rt = runtime("/tmp/prefix");
    let mut env = StrMap::new();
    env.insert("WINEPREFIX".to_string(), "/tmp/prefix".to_string());
    let settings = SteamLaunchSettings { configured_args: Vec::new(), single_process: false, desktop_name: "d".to_string() };
    let plan = steam_client_start_plan(&rt, true, &env, Some("dxgi=n"), &settings).unwrap();
    assert_eq!(plan.envs.get("WINEDLLOVERRIDES").map(|s| s.as_str()), Some("gameoverlayrenderer,gameoverlayrenderer64=;dxgi=n"));
    assert_eq!(plan.envs.get("SteamNoOverlayUI").map(|s| s.as_str()), Some("1"));
    assert_eq!(plan.args.last().map(|s| s.as_str()), Some("-noreactlogin"));
    let mut missing = runtime("/tmp/prefix");
    missing.wine = None;
    assert_eq!(
        steam_client_start_plan(&missing, false, &env, None, &settings).unwrap_err().to_string(),
        "Wine was not found"
    );
}

#[test]
fn local_analysis_does_not_promote_steam_app_id_to_runtime_integration() {
    let root = "/tmp/portcellar-local-analysis";
    let candidate = exe_candidate(root, "/tmp/portcellar-local-analysis/Game.exe", 8, None);
    let analysis = analyze_local_game(
        root,
        Some("Example Game"),
        None,
        None,
        vec![candidate],
        Some("382900\n"),
        Vec::new(),
    )
    .unwrap();

    assert_eq!(analysis.app_id, "local-example-game");
    assert_eq!(analysis.profile.steam_integration(), SteamIntegration::Standalone);
    assert_eq!(analysis.profile.steam_cef_policy(), SteamCefPolicy::WineDefault);
    assert!(analysis.review_items.iter().any(|item| item.contains("static evidence only")));
    assert_eq!(analysis.windows_install_path, "Z:\\tmp\\portcellar-local-analysis");
}

#[test]
fn local_selection_and_paths() {
    let root = "/games/demo";
    let a = exe_candidate(root, "/games/demo/bin/Game.exe", 1, None);
    let b = exe_candidate(root, "/games/demo/Setup.exe", 1, None);
    let chosen = select_executable(&vec![a, b], Some("BIN\\game.EXE")).unwrap().unwrap();
    assert_eq!(chosen.relative_path, "bin/Game.exe");
    let missing = select_executable(&Vec::new(), Some("x.exe")).unwrap_err();
    assert_eq!(missing.to_string(), "local executable was not found below the game directory: x.exe");
    assert!(host_path_to_z_path("relative/dir").is_err());
    assert_eq!(steam_app_id_from_text(" 250900 \nrest").as_deref(), Some("250900"));
    assert_eq!(steam_app_id_from_text("abc"), None);
    assert_eq!(relative_display("/games/demo", "/games/demo/a/b.dll"), "a/b.dll");
    assert_eq!(relative_display("/games/demo", "/other/b.dll"), "//other/b.dll");
}

#[test]
fn candidates_sort_by_score_then_path() {
    let root = "/g";
    let low = exe_candidate(root, "/g/z/crash_handler.exe", 1, None);
    let mid = exe_candidate(root, "/g/b.exe", 1, None);
    let mid2 = exe_candidate(root, "/g/a.exe", 1, None);
    let sorted = sort_in_order(vec![low, mid, mid2]);
    let paths: Vec<&str> = sorted.iter().map(|c| c.relative_path.as_str()).collect();
    assert_eq!(paths, vec!["a.exe", "b.exe", "z/crash_handler.exe"]);
}

#[test]
fn manifest_text_fills_missing_fields() {
    let text = "\"AppState\"\n{\n\t\"installdir\"\t\t\"Demo Game\"\n\t\"buildid\"\t\t\"42\"\n}\n";
    let m = manifest_from_text("123", "wine-prefix", "/s/steamapps", text).unwrap();
    assert_eq!(m.install_dir, "/s/steamapps/common/Demo Game");
    assert_eq!(m.manifest_path, "/s/steamapps/appmanifest_123.acf");
    assert_eq!(m.name, "Steam app 123");
    assert_eq!(m.app_id, "123");
    assert_eq!(m.build_id.as_deref(), Some("42"));
    assert!(manifest_from_text("123", "x", "/s", "\"name\" \"x\"").is_none());
}

#[test]
fn porting_analysis_without_manifest_blocks() {
    assert!(analysis_probe_profile("12a").is_err());
    let probe = analysis_probe_profile("620").unwrap();
    assert_eq!(probe.name(), "Steam app 620");
    let analysis = assemble_porting_analysis("620", None, Vec::new(), Vec::new(), &runtime("/p"), None);
    assert_eq!(analysis.slug, "unknown-game");
    assert!(analysis.selected_exe.is_none());
    assert_eq!(
        analysis.blockers,
        vec![
            "Steam app manifest not found in Wine or native Steam libraries".to_string(),
            "No Windows .exe candidates found under the install directory".to_string(),
        ]
    );
    assert_eq!(
        analysis.to_generic_profile_candidate().unwrap_err().to_string(),
        "cannot build a profile without a Steam app manifest"
    );
}
