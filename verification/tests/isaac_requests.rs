use portcellar::cli::isaac::{parse_isaac_request, play_arguments, IsaacCommand};
use portcellar::types::LaunchMode;

fn texts(values: &[&str]) -> Vec<String> {
    values.iter().map(|value| value.to_string()).collect()
}

fn error_text(command: IsaacCommand, values: &[&str]) -> String {
    parse_isaac_request(command, &texts(values)).unwrap_err().to_string()
}

#[test]
fn isaac_launch_defaults_to_steam_with_standard_timeouts() {
    let request = parse_isaac_request(IsaacCommand::Launch, &texts(&[])).unwrap();
    assert_eq!(request.mode, LaunchMode::Steam);
    assert!(!request.dry_run && !request.detach && !request.wait);
    assert_eq!(request.login_timeout_seconds, 600);
    assert_eq!(request.launch_timeout_seconds, 90);
    assert_eq!(request.stable_seconds, 10);
}

#[test]
fn isaac_launch_reads_mode_and_timeouts_in_both_spellings() {
    let request = parse_isaac_request(
        IsaacCommand::Launch,
        &texts(&["--mode", "wine", "--login-timeout-seconds=30", "--stable-seconds", "5", "--wait"]),
    )
    .unwrap();
    assert_eq!(request.mode, LaunchMode::WineSteam);
    assert_eq!(request.login_timeout_seconds, 30);
    assert_eq!(request.stable_seconds, 5);
    assert!(request.wait);
    assert!(request.detach);
}

#[test]
fn isaac_launch_capture_log_detaches() {
    let request = parse_isaac_request(
        IsaacCommand::Launch,
        &texts(&["--mode=wine-direct", "--capture-wine-log"]),
    )
    .unwrap();
    assert_eq!(request.mode, LaunchMode::WineDirect);
    assert!(request.detach);
}

#[test]
fn isaac_launch_refuses_options_its_mode_cannot_use() {
    assert_eq!(
        error_text(IsaacCommand::Launch, &["--wait"]),
        "--wait is only supported with --mode wine-steam or wine-direct"
    );
    assert_eq!(
        error_text(IsaacCommand::Launch, &["--mode", "wine-direct", "--wait-login"]),
        "--wait-login is only supported with --mode wine-steam"
    );
    assert_eq!(
        error_text(IsaacCommand::Launch, &["--mode", "wine-steam", "--legacy-login"]),
        "--legacy-login is only used with --wait-login"
    );
    assert_eq!(
        error_text(IsaacCommand::Launch, &["--capture-wine-log"]),
        "--capture-wine-log is only supported with --mode wine-steam or wine-direct"
    );
}

#[test]
fn isaac_commands_name_themselves_in_unknown_options() {
    assert_eq!(error_text(IsaacCommand::Launch, &["--bogus"]), "unknown launch option: --bogus");
    assert_eq!(error_text(IsaacCommand::Run, &["--detach"]), "unknown run option: --detach");
    assert_eq!(
        error_text(IsaacCommand::SteamLogin, &["--capture-wine-log"]),
        "unknown steam-login option: --capture-wine-log"
    );
}

#[test]
fn isaac_value_options_report_missing_and_bad_values() {
    assert_eq!(
        error_text(IsaacCommand::Launch, &["--mode"]),
        "--mode requires steam, native, direct, wine-steam, or wine-direct"
    );
    assert_eq!(error_text(IsaacCommand::Launch, &["--mode", "dos"]), "unsupported launch mode: dos");
    assert_eq!(
        error_text(IsaacCommand::Run, &["--launch-timeout-seconds"]),
        "--launch-timeout-seconds requires a number"
    );
    assert_eq!(
        error_text(IsaacCommand::SteamLogin, &["--timeout-seconds=soon"]),
        "invalid timeout seconds: soon"
    );
}

#[test]
fn isaac_steam_login_wait_detaches_and_sets_login_timeout() {
    let request = parse_isaac_request(
        IsaacCommand::SteamLogin,
        &texts(&["--wait", "--timeout-seconds", "120", "--legacy-login"]),
    )
    .unwrap();
    assert!(request.wait && request.detach && request.legacy_login);
    assert_eq!(request.login_timeout_seconds, 120);
}

#[test]
fn isaac_play_puts_its_defaults_first_and_later_options_win() {
    let arguments = play_arguments(&texts(&["--stable-seconds", "60"]));
    assert_eq!(
        arguments,
        texts(&[
            "--capture-wine-log",
            "--launch-timeout-seconds",
            "300",
            "--stable-seconds",
            "45",
            "--stable-seconds",
            "60"
        ])
    );
    let request = parse_isaac_request(IsaacCommand::Run, &arguments).unwrap();
    assert!(request.capture_wine_log);
    assert_eq!(request.launch_timeout_seconds, 300);
    assert_eq!(request.stable_seconds, 60);
}
