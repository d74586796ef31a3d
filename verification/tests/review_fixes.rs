use portcellar::runtime::profile::upsert_runtime_options;
use portcellar::analyze::assemble_porting_analysis;
use portcellar::analyze::report::{
    render_collect_experiment, render_porting_report, render_porting_reproduce, render_profile_draft,
    render_steam_client_report,
};
use portcellar::analyze::discovery::validate_app_id;
use portcellar::analyze::steam_client::{analyze_steam_client, SteamClientAnalysisOptions, SteamLogAnalysis};
use portcellar::games::generic::GenericGameProfile;
use portcellar::games::GameProfile;
use portcellar::inspect::wine::game_executable_path;
use portcellar::runtime::configure::wine_configure_plans;
use portcellar::runtime::steam_cef::{cef_helper_step, cef_patch_target, CefHelperStep, SteamWebHelperArch};
use portcellar::strmap::StrMap;
use portcellar::types::{WineMacDriverConfig, WineSteamRuntime};

#[test]
fn app_id_message_escapes_characters_rust_does_not_print() {
    let error = validate_app_id("\u{200b}").unwrap_err().to_string();
    assert_eq!(error, "Steam app id must be numeric, got \"\\u{200b}\"");
    let error = validate_app_id("é1").unwrap_err().to_string();
    assert_eq!(error, "Steam app id must be numeric, got \"é1\"");
    let error = validate_app_id("a\"\t").unwrap_err().to_string();
    assert_eq!(error, "Steam app id must be numeric, got \"a\\\"\\t\"");
    assert!(validate_app_id("250900").is_ok());
}

#[test]
fn runtime_option_replaces_earlier_value_once() {
    let profile = GenericGameProfile::new("1", "Example", "Game.exe")
        .with_runtime_option("b", "1")
        .with_runtime_option("a", "2")
        .with_runtime_option("b", "3");
    let options = profile.runtime_options();
    assert_eq!(options.len(), 2);
    assert_eq!(options.get("a").map(|v| v.as_str()), Some("2"));
    assert_eq!(options.get("b").map(|v| v.as_str()), Some("3"));
}

fn bare_runtime() -> WineSteamRuntime {
    WineSteamRuntime {
        wine: None,
        wine_version: None,
        windows_version: None,
        dxmt_root: None,
        prefix: "/tmp/prefix".to_string(),
        steam_exe: None,
        game_manifest: None,
        game_install_dir: None,
        game_executable: None,
        running: false,
        game_running: false,
        launch_ready_after_login: false,
        readiness_issues: Vec::new(),
        logged_in: None,
        active_session: None,
        cached_credentials: None,
        login_status: None,
        connection_status: None,
        cef_status: None,
        mac_window_status: None,
        virtual_desktop: None,
        mac_driver: WineMacDriverConfig { allow_immovable_windows: None, retina_mode: None },
    }
}

#[test]
fn steam_client_analysis_without_steam_keeps_nothing_found_there() {
    let logs = vec![SteamLogAnalysis {
        name: "cef_log.txt".to_string(),
        size: 1,
        modified_unix_seconds: None,
        signal: None,
    }];
    let analysis = analyze_steam_client(
        &SteamClientAnalysisOptions::default(),
        &bare_runtime(),
        Vec::new(),
        Vec::new(),
        Vec::new(),
        logs,
    );
    assert!(analysis.steam_dir.is_none());
    assert!(analysis.logs.is_empty());
}

#[test]
fn game_executable_is_profile_exe_in_install_dir() {
    let profile = GenericGameProfile::new("1", "Example", "bin/Game.exe");
    assert_eq!(game_executable_path(&profile, "/games/example"), "/games/example/bin/Game.exe");
}

#[test]
fn configure_plans_set_version_then_registry_values() {
    let envs = StrMap::new();
    let plans = wine_configure_plans("/opt/wine/bin/wine", Some("/opt/wine/bin/winecfg"), "win10", &envs).unwrap();
    assert_eq!(plans.len(), 6);
    assert_eq!(plans[0].program, "/opt/wine/bin/winecfg");
    assert_eq!(plans[0].args, vec!["/v".to_string(), "win10".to_string()]);
    assert_eq!(plans[1].program, "/opt/wine/bin/wine");
    assert_eq!(
        plans[1].args,
        ["reg", "add", "HKCU\\Software\\Wine\\Mac Driver", "/v", "AllowImmovableWindows", "/t", "REG_SZ", "/d", "N", "/f"]
            .iter()
            .map(|s| s.to_string())
            .collect::<Vec<_>>()
    );
    assert_eq!(plans[5].args[4], "MouseThreshold2");
    let error = wine_configure_plans("/opt/wine/bin/wine", None, "win10", &envs).unwrap_err().to_string();
    assert_eq!(error, "winecfg was not found next to /opt/wine/bin/wine");
}

#[test]
fn cef_targets_and_helper_steps() {
    let target = cef_patch_target("/steam/bin/cef/cef.win64", "cef.win64", b"portcellar-steamwebhelper-wrapper-v5");
    assert_eq!(target.arch, SteamWebHelperArch::X86_64);
    assert!(target.already_patched);
    assert_eq!(target.real, "/steam/bin/cef/cef.win64/steamwebhelper_real.exe");
    assert_eq!(target.target, "/steam/bin/cef/cef.win64/steamwebhelper.exe");
    assert_eq!(cef_helper_step(true, false, false), CefHelperStep::ValveHelperMissing);
    assert_eq!(cef_helper_step(false, false, true), CefHelperStep::ValveHelperMissing);
    assert_eq!(cef_helper_step(false, false, false), CefHelperStep::PreserveThenWrap);
    assert_eq!(cef_helper_step(true, true, true), CefHelperStep::Wrap);
}

#[test]
fn porting_report_lists_sections_in_order() {
    let analysis = assemble_porting_analysis("620", None, Vec::new(), Vec::new(), &bare_runtime(), None);
    let report = render_porting_report(&analysis);
    let lines: Vec<&str> = report.lines().collect();
    assert_eq!(lines[0], "# Porting Analysis Report");
    assert_eq!(lines[6], "- analysis version: `porting-analysis-v1`");
    assert_eq!(lines[7], "- app id: `620`");
    assert_eq!(lines[8], "- manifest: `not found`");
    assert!(lines.contains(&"- wine: `<not found>`"));
    assert!(lines.contains(&"- logged in: `unknown`"));
    assert!(lines.contains(&"- Steam running: `false`"));
    assert!(lines.contains(&"- none found"));
    assert!(lines.contains(&"- none found in scanned depth"));
    assert!(lines.contains(&"- Steam app manifest not found in Wine or native Steam libraries"));
    assert!(lines.contains(&"- No Windows .exe candidates found under the install directory"));
    assert!(report.ends_with('\n'));
}

#[test]
fn steam_client_report_lists_empty_sections_as_none() {
    let analysis = analyze_steam_client(
        &SteamClientAnalysisOptions::default(),
        &bare_runtime(),
        Vec::new(),
        Vec::new(),
        Vec::new(),
        Vec::new(),
    );
    let report = render_steam_client_report(&analysis);
    let lines: Vec<&str> = report.lines().collect();
    assert_eq!(lines[0], "# Steam Client Analysis Report");
    assert_eq!(lines[6], "- analysis version: `steam-client-analysis-v1`");
    assert_eq!(lines[7], "- probe enabled: `false`");
    assert_eq!(lines[8], "- probe seconds: `20`");
    assert_eq!(lines[10], "- Steam dir: `<not found>`");
    assert!(lines.contains(&"## Steam Binaries"));
    assert!(report.ends_with("## Packages\n\n"));
}

#[test]
fn profile_document_comes_back_from_its_profile() {
    use_document_round_trip();
}

fn use_document_round_trip() {
    let profile = GenericGameProfile::new("620", "Portal 2", "portal2.exe")
        .with_install_dir_hint("Portal 2")
        .with_launch_argument("-novid")
        .with_capability(portcellar::games::GameCapability::Vulkan)
        .with_capability(portcellar::games::GameCapability::Steamworks);
    let document = profile.to_profile_document();
    let again = GenericGameProfile::from_profile_document(profile.to_profile_document())
        .unwrap()
        .to_profile_document();
    assert_eq!(again.app_id, document.app_id);
    assert_eq!(again.install_dir_hint, document.install_dir_hint);
    assert_eq!(again.launch_arguments, document.launch_arguments);
    assert_eq!(again.capabilities, document.capabilities);
    assert_eq!(
        again.capabilities,
        vec![portcellar::games::GameCapability::Steamworks, portcellar::games::GameCapability::Vulkan]
    );
    assert_eq!(again.bottle_name, document.bottle_name);
}

#[test]
fn writing_options_twice_gives_the_same_file() {
    let mut values = StrMap::new();
    values.insert("Fullscreen".to_string(), "0".to_string());
    values.insert("VSync".to_string(), "1".to_string());
    let existing = "[Video]\nWidth=640\n[Options]\nFullscreen = 1\nOther=x\n[Audio]\nVolume=3\n";
    let once = upsert_runtime_options(existing, &values);
    assert_eq!(
        once,
        "[Video]\nWidth=640\n[Options]\nFullscreen=0\nOther=x\nVSync=1\n[Audio]\nVolume=3\n"
    );
    assert_eq!(upsert_runtime_options(&once, &values), once);
}

#[test]
fn writing_options_twice_gives_the_same_crlf_file() {
    let mut values = StrMap::new();
    values.insert("Fullscreen".to_string(), "0".to_string());
    let existing = "[Options]\r\nFullscreen=1\r\nOther=x\r\n";
    let once = upsert_runtime_options(existing, &values);
    assert_eq!(once, "[Options]\nFullscreen=0\nOther=x\n");
    assert_eq!(upsert_runtime_options(&once, &values), once);
}

#[test]
fn profile_draft_collect_record_and_reproduce_script() {
    let mut runtime = bare_runtime();
    let analysis = assemble_porting_analysis("620", None, Vec::new(), Vec::new(), &runtime, None);
    let draft = render_profile_draft(&analysis);
    assert!(draft.starts_with("# Generated draft. Validate manually before turning this into Rust GameProfile code.\nanalysis_version: \"porting-analysis-v1\"\napp:\n  id: \"620\"\n  name: \"unknown\"\n"));
    assert!(draft.contains("\n  detected_layers: []\n"));
    assert!(draft.ends_with("  - \"Validate save path and Steam Cloud behavior after first successful launch.\"\n"));
    assert_eq!(
        render_collect_experiment(&analysis),
        "id: \"001-collect-only\"\nmode: \"read-only\"\napp_id: \"620\"\nresult: \"collected\"\nlaunch_attempted: false\nmanifest_found: false\nexe_candidates: 0\n"
    );
    assert_eq!(
        render_porting_reproduce(&analysis),
        "#!/usr/bin/env bash\nset -euo pipefail\n\necho 'Wine engine was not detected during analysis.'\nexit 1\n"
    );
    runtime.wine = Some("/opt/wine/bin/wine".to_string());
    runtime.steam_exe = Some("/tmp/prefix/drive_c/Steam/steam.exe".to_string());
    let analysis = assemble_porting_analysis("620", None, Vec::new(), Vec::new(), &runtime, None);
    let script = render_porting_reproduce(&analysis);
    assert!(script.contains("export WINEPREFIX='/tmp/prefix'\n"));
    assert!(script.contains("export SteamAppId='620'\n"));
    assert!(script.ends_with(
        "exec '/opt/wine/bin/wine' 'C:\\Steam\\steam.exe' '-allosarches' '-cef-force-32bit' '-no-cef-sandbox' '-noverifyfiles' -silent -applaunch '620'\n"
    ));
}

#[test]
fn steam_client_record_counts_what_was_found() {
    let analysis = analyze_steam_client(
        &SteamClientAnalysisOptions::default(),
        &bare_runtime(),
        Vec::new(),
        Vec::new(),
        Vec::new(),
        Vec::new(),
    );
    let record = portcellar::analyze::report::render_steam_client_experiment(&analysis);
    assert!(record.starts_with("id: \"001-steam-client-collect\"\nanalysis_version: \"steam-client-analysis-v1\"\nprobe: false\n"));
    assert!(record.contains("\nsteam_dir_found: false\nbinary_count: 0\ncef_target_count: 0\nblocker_count: "));
}

#[test]
fn doctor_sections_list_runtime_facts_and_crash() {
    use_doctor_sections();
}

fn use_doctor_sections() {
    let mut runtime = bare_runtime();
    runtime.readiness_issues = vec!["Wine engine missing".to_string()];
    runtime.logged_in = Some(true);
    let lines = portcellar::inspect::doctor::render_wine_steam_section(&runtime, "Isaac");
    assert_eq!(lines[0], "Wine Steam");
    assert_eq!(lines[1], "  prefix: /tmp/prefix");
    assert_eq!(lines[2], "  wine: <not found>");
    assert_eq!(lines[4], "  Windows version: default");
    assert_eq!(lines[8], "  Isaac process: missing");
    assert_eq!(lines[10], "    - Wine engine missing");
    assert_eq!(lines[11], "  logged in: likely");
    assert_eq!(lines.last().unwrap(), "  Isaac executable: <not found>");
    let crash = portcellar::inspect::doctor::render_crash_section(&None, "Isaac");
    assert_eq!(crash, vec!["Latest Isaac crash".to_string(), "  no local Isaac crash reports found".to_string()]);
}

#[test]
fn engine_records_name_their_backends() {
    let steam = portcellar::inspect::engines::steam_uri_engine("250900", true, false);
    assert_eq!(steam.path, "steam://rungameid/250900");
    assert!(!steam.available);
    assert_eq!(steam.detail.as_deref(), Some("Steam is running"));
    let record = portcellar::inspect::engines::engine_record(
        "wine in PATH".to_string(),
        portcellar::types::EngineKind::Wine,
        None,
        None,
        false,
        None,
        Vec::new(),
    );
    assert_eq!(record.path, "<not found>");
    assert_eq!(record.backend_matrix.len(), 7);
    assert_eq!(
        portcellar::inspect::engines::wine_prefix_detail("/p", true, "Isaac", false),
        "prefix: /p; Steam: present; Isaac: missing"
    );
}

#[test]
fn raw_doctor_snapshot_writes_issues_as_debug_lists() {
    let mut runtime = bare_runtime();
    runtime.readiness_issues = vec!["Wine engine missing".to_string(), "say \"hi\"".to_string()];
    let analysis = assemble_porting_analysis("620", None, Vec::new(), Vec::new(), &runtime, None);
    let text = portcellar::analyze::report::render_raw_doctor_summary(&analysis);
    assert_eq!(
        text,
        format!(
            "portcellar raw doctor snapshot for porting analysis\n\napp_id=620\nwine=<not found>\nprefix=/tmp/prefix\nsteam_exe=<not found>\ndxmt_root=<not found>\nreadiness_issues={:?}\n",
            analysis.runtime.readiness_issues
        )
    );
}
