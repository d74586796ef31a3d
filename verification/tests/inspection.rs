use portcellar::inspect::crash::{crash_diagnosis, summarize_crash, value_after_colon};
use portcellar::inspect::parse::{parse_key_values, quoted_tokens, values_for_key};
use portcellar::inspect::process::{
    is_process_observer_command, lsof_output_uses_prefix, process_command_line_matches,
    process_ids_matching_in_ps, wine_steam_cleanup_process_groups_from_ps,
};
use portcellar::inspect::steam_status::{
    last_status_when_stopped, latest_log_segment, steam_cef_status_from_logs, steam_connection_status_from_logs,
    steam_logged_in_status, steam_login_state_from_text, steam_login_status_from_logs,
    steam_webhelper_session_state_from_processes_in_prefix, steam_webui_transport_ready, token_value, webhelper_pids,
};
use portcellar::inspect::wine::{
    parse_hex_u32, profile_process_exe_name, state_root_for_prefix, wine_mac_window_status, wine_reg_dword_value,
    wine_reg_quoted_value, wine_steam_readiness_issues_for, wine_steam_running_status, wine_windows_version,
    windows_steam_exe_candidates,
};
use portcellar::types::WineMacDriverConfig;

#[test]
fn quoted_tokens_unescape_and_tolerate_open_quotes() {
    assert_eq!(quoted_tokens("\"a\" \"b\\\"c\""), vec!["a".to_string(), "b\"c".to_string()]);
    assert_eq!(quoted_tokens("  \"open"), vec!["open".to_string()]);
    assert!(quoted_tokens("no quotes").is_empty());
}

#[test]
fn key_values_keep_the_last_line_for_a_key() {
    let text = "\"path\" \"/one\"\n\"path\" \"/two\"\n\"name\" \"x\"\n";
    let values = parse_key_values(text);
    assert_eq!(values.get("path").map(|s| s.as_str()), Some("/two"));
    assert_eq!(values_for_key(text, "path"), vec!["/one".to_string(), "/two".to_string()]);
}

#[test]
fn remembered_login_and_logged_in_status() {
    assert!(steam_login_state_from_text("\"users\"\n{\n\"MostRecent\" \"1\"\n}"));
    assert!(!steam_login_state_from_text("\"MostRecent\" \"0\""));
    assert_eq!(steam_logged_in_status(Some(true), Some(false), Some("logon-failure")), Some(true));
    assert_eq!(steam_logged_in_status(None, Some(true), Some("waiting-for-credentials")), Some(false));
    assert_eq!(steam_logged_in_status(Some(false), Some(true), None), Some(false));
    assert_eq!(steam_logged_in_status(None, Some(true), Some("other")), Some(true));
}

#[test]
fn login_and_connection_status_read_the_latest_session() {
    let login = "Client version: 1\nReceived logon success response\nClient version: 2\nSetLoginState: WaitingForCredentials\n";
    assert_eq!(latest_log_segment(login, "Client version:"), "Client version: 2\nSetLoginState: WaitingForCredentials\n");
    assert_eq!(steam_login_status_from_logs(login, "").as_deref(), Some("waiting-for-credentials"));
    assert_eq!(
        steam_login_status_from_logs(login, "Login: Failed to poll auth session").as_deref(),
        Some("auth-poll-transport-error")
    );
    assert_eq!(
        steam_connection_status_from_logs("Try another CM\n", "ConnectionCompleted()\n", false).as_deref(),
        Some("cm-transport-ready")
    );
    assert_eq!(
        steam_connection_status_from_logs("Connectivity test: result=Connected", "", true).as_deref(),
        Some("webui-transport-ready")
    );
    assert!(steam_webui_transport_ready(&vec!["x".to_string(), "CWebSocketConnection (steamUI): connection ready".to_string()]));
    assert_eq!(last_status_when_stopped("ready".to_string(), false), "last ready");
    assert_eq!(last_status_when_stopped("last ready".to_string(), false), "last ready");
}

#[test]
fn cef_status_and_webhelper_sessions() {
    let mac = WineMacDriverConfig { allow_immovable_windows: Some("n".to_string()), retina_mode: None };
    assert_eq!(
        steam_cef_status_from_logs("", "", "SP DesktopLoginWindow 805240832,805240832", &mac, true).as_deref(),
        Some("login-window-ready-macdrv-remapped")
    );
    assert_eq!(
        steam_cef_status_from_logs("FATAL:process_metrics_win", "", "", &mac, false).as_deref(),
        Some("last steamwebhelper fatal: process_metrics_win")
    );
    let ps = "  101 C:\\Steam\\bin\\cef\\steamwebhelper.exe -steamid=0\n 202 steamwebhelper.exe -steamid=7656\n";
    assert_eq!(webhelper_pids(ps), vec![101, 202]);
    assert_eq!(steam_webhelper_session_state_from_processes_in_prefix(ps, &vec![101]), Some(false));
    assert_eq!(steam_webhelper_session_state_from_processes_in_prefix(ps, &vec![101, 202]), Some(true));
    assert_eq!(steam_webhelper_session_state_from_processes_in_prefix(ps, &vec![]), None);
    assert_eq!(token_value("a -steamid=42 b", "-steamid=").as_deref(), Some("42"));
}

#[test]
fn crash_reports_are_summarized() {
    let text = "{\n  \"exception\" : {\"type\":\"EXC_BAD_INSTRUCTION\"},\n  \"cpuType\" : \"X86-64\",\n  \"translated\" : true\n}";
    let summary = summarize_crash("/tmp/a.ips", text);
    assert_eq!(summary.translated, Some(true));
    assert_eq!(summary.cpu_type.as_deref(), Some("X86-64"));
    assert_eq!(summary.diagnosis.as_deref(), Some("native x86_64 process hit an illegal instruction under Rosetta"));
    assert_eq!(value_after_colon("\"k\" : \"v\",,", "\"k\"").as_deref(), Some("v"));
    let symbols = vec!["CGlobalInitter::CGlobalInitter()".to_string()];
    let images = vec!["steamloader.dylib".to_string()];
    assert_eq!(crash_diagnosis(&None, &symbols, &images).as_deref(), Some("Steam loader/overlay is present in the crash path"));
}

#[test]
fn process_listings_are_filtered() {
    assert!(is_process_observer_command("  /bin/zsh -lc ps ax"));
    assert!(process_command_line_matches("C:\\Steam\\Steam.exe", &vec!["steam.exe"]));
    assert!(!process_command_line_matches("rg steam.exe", &vec!["steam.exe"]));
    let ps = "  12 C:\\Steam\\steam.exe\n  13 rg steam.exe\nbad line\n";
    assert_eq!(process_ids_matching_in_ps(ps, &vec!["steam.exe"]), vec![12]);
    let groups = "10 10 C:\\windows\\system32\\winedevice.exe\n11 10 /usr/bin/other\n";
    assert_eq!(wine_steam_cleanup_process_groups_from_ps(groups), vec![(10, 10)]);
    assert!(lsof_output_uses_prefix("p1\nn/tmp/prefix/drive_c/x\n", "/tmp/prefix"));
}

#[test]
fn registry_values_and_windows_version() {
    let user = "[Software\\\\Wine] 1700000000\n\"Version\"=\"win7\"\n[Other]\n\"Version\"=\"x\"\n";
    assert_eq!(wine_reg_quoted_value(user, "Software\\\\Wine", "Version").as_deref(), Some("win7"));
    assert_eq!(wine_windows_version(Some(user), None).as_deref(), Some("win7"));
    let system = "[Software\\\\Microsoft\\\\Windows NT\\\\CurrentVersion]\n\"CurrentMajorVersionNumber\"=dword:0000000a\n";
    assert_eq!(
        wine_reg_dword_value(system, "Software\\\\Microsoft\\\\Windows NT\\\\CurrentVersion", "CurrentMajorVersionNumber"),
        Some(10)
    );
    assert_eq!(wine_windows_version(None, Some(system)).as_deref(), Some("win10"));
    let odd = "[Software\\\\Microsoft\\\\Windows NT\\\\CurrentVersion]\n\"CurrentMajorVersionNumber\"=dword:00000007\n\"CurrentMinorVersionNumber\"=dword:2\n";
    assert_eq!(wine_windows_version(None, Some(odd)).as_deref(), Some("7.2"));
    assert_eq!(parse_hex_u32("ffffffff"), Some(u32::MAX));
    assert_eq!(parse_hex_u32("100000000"), None);
    assert_eq!(parse_hex_u32("+1A"), Some(26));
    assert_eq!(parse_hex_u32(""), None);
}

#[test]
fn runtime_findings_helpers() {
    assert!(wine_steam_running_status(false, true, Some(true)));
    assert!(!wine_steam_running_status(false, true, None));
    assert_eq!(
        wine_steam_readiness_issues_for(false, false, false, Some("steamwebhelper restart loop"), "Demo", false),
        vec![
            "Wine engine missing".to_string(),
            "Windows Demo executable missing".to_string(),
            "Steam CEF unhealthy: steamwebhelper restart loop".to_string(),
        ]
    );
    assert_eq!(profile_process_exe_name("Games\\Demo\\demo.exe"), "demo.exe");
    assert_eq!(state_root_for_prefix("/state/prefixes/game").as_deref(), Some("/state"));
    assert_eq!(state_root_for_prefix("/state/other/game"), None);
    assert_eq!(wine_mac_window_status(Some(0), Some("login-window-ready")).as_deref(), Some("cef-ready-no-macos-window"));
    assert_eq!(wine_mac_window_status(Some(2), None).as_deref(), Some("mac-window-visible"));
    assert_eq!(windows_steam_exe_candidates("/p")[0], "/p/drive_c/Steam/steam.exe");
}
