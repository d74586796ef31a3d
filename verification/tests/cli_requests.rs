use portcellar::cli::bottle;
use portcellar::cli::evidence;
use portcellar::cli::installer;
use portcellar::cli::steam;
use portcellar::games::RuntimeDependency;
use portcellar::runtime::dependencies::unresolved_dependencies;
use portcellar::types::{RuntimeDependencyPlan, RuntimeDependencyStatus};

fn texts(values: &[&str]) -> Vec<String> {
    values.iter().map(|value| value.to_string()).collect()
}

#[test]
fn mutation_plan_rejects_confirm_flag() {
    let error = bottle::parse_request(
        &texts(&[
            "--from-profile",
            "/tmp/profile.toml",
            "--snapshot-id",
            "before-dependency",
            "--confirm",
        ]),
        "mutation-plan",
        false,
    )
    .unwrap_err();

    assert!(error
        .to_string()
        .contains("unknown game mutation-plan option"));
}

#[test]
fn mutation_blocks_non_executable_dependency_plans_before_snapshot() {
    let dependencies = vec![
        RuntimeDependencyPlan {
            dependency: RuntimeDependency::Vcrun,
            status: RuntimeDependencyStatus::ToolMissing,
            command: None,
            note: "missing".to_string(),
        },
        RuntimeDependencyPlan {
            dependency: RuntimeDependency::OpenAl,
            status: RuntimeDependencyStatus::Planned,
            command: None,
            note: "provider bug".to_string(),
        },
    ];

    assert_eq!(
        unresolved_dependencies(&dependencies),
        vec![
            "Vcrun: ToolMissing".to_string(),
            "OpenAl: PlannedWithoutCommand".to_string()
        ]
    );
}

#[test]
fn evidence_app_id_cannot_escape_catalog_root() {
    assert!(evidence::safe_component("../secret").is_err());
    assert_eq!(evidence::safe_component("250900").unwrap(), "250900");
}

#[test]
fn request_preserves_repeated_installer_args() {
    let request = installer::parse_request(
        &texts(&[
            "--from-catalog",
            "123456",
            "--profile-root",
            "/tmp/profiles",
            "--installer",
            "/tmp/setup.exe",
            "--installer-arg",
            "/quiet",
            "--installer-arg=/norestart",
            "--snapshot-id=before-install",
            "--confirm",
        ]),
        "install",
        true,
        true,
    )
    .unwrap();

    assert_eq!(request.source.from_catalog.as_deref(), Some("123456"));
    assert_eq!(request.installer, "/tmp/setup.exe");
    assert_eq!(request.snapshot_id.as_deref(), Some("before-install"));
    assert!(request.confirm);
    assert_eq!(
        request.installer_args,
        vec!["/quiet".to_string(), "/norestart".to_string()]
    );
}

#[test]
fn install_plan_rejects_confirm_flag() {
    let error = installer::parse_request(
        &texts(&[
            "--from-profile",
            "/tmp/profile.toml",
            "--installer",
            "/tmp/setup.exe",
            "--confirm",
        ]),
        "install-plan",
        false,
        false,
    )
    .unwrap_err();

    assert!(error
        .to_string()
        .contains("unknown game install-plan option"));
}

#[test]
fn parse_install_request_requires_numeric_app_id() {
    let request = steam::parse_request(&texts(&[
        "--app-id=123456",
        "--name",
        "Example Game",
        "--dry-run",
    ]))
    .unwrap();

    assert_eq!(request.app_id, "123456");
    assert_eq!(request.name, "Example Game");
    assert!(request.dry_run);
    assert!(!request.confirm);
    assert!(steam::parse_request(&texts(&["--app-id=not-a-number"])).is_err());
}

#[test]
fn mutation_request_needs_exactly_one_source_and_a_snapshot() {
    let missing_source = bottle::parse_request(&texts(&["--snapshot-id", "s1"]), "mutation", true).unwrap_err();
    assert_eq!(missing_source.to_string(), "mutation requires exactly one profile source");

    let missing_snapshot =
        bottle::parse_request(&texts(&["--from-catalog=123"]), "mutation", true).unwrap_err();
    assert_eq!(missing_snapshot.to_string(), "mutation requires --snapshot-id ID");

    let root_without_catalog = bottle::parse_request(
        &texts(&["--from-profile", "/tmp/p.toml", "--profile-root", "/tmp/r", "--snapshot-id=s"]),
        "mutation",
        true,
    )
    .unwrap_err();
    assert_eq!(root_without_catalog.to_string(), "--profile-root requires --from-catalog");

    let dangling = bottle::parse_request(&texts(&["--from-catalog"]), "mutation", true).unwrap_err();
    assert_eq!(dangling.to_string(), "--from-catalog requires an app id");

    let request = bottle::parse_request(
        &texts(&["--from-catalog=--from-catalog=42", "--snapshot-id=s2", "--confirm"]),
        "mutation",
        true,
    )
    .unwrap();
    assert_eq!(request.source.from_catalog.as_deref(), Some("42"));
    assert_eq!(request.snapshot_id, "s2");
    assert!(request.confirm);
}

#[test]
fn evidence_request_reads_root_and_app_id() {
    let (root, app_id) = evidence::parse_request(&texts(&["--root", "/tmp/e", "--app-id=250900"]), "/default").unwrap();
    assert_eq!(root, "/tmp/e");
    assert_eq!(app_id.as_deref(), Some("250900"));

    let (root, app_id) = evidence::parse_request(&texts(&[]), "/default").unwrap();
    assert_eq!(root, "/default");
    assert!(app_id.is_none());

    let error = evidence::parse_request(&texts(&["--app-id", "a/b"]), "/default").unwrap_err();
    assert_eq!(error.to_string(), "evidence app id must be a safe path component");
    let error = evidence::parse_request(&texts(&["--verbose"]), "/default").unwrap_err();
    assert_eq!(error.to_string(), "unknown game evidence option: --verbose");
}

#[test]
fn steam_request_errors_are_specific() {
    let error = steam::parse_request(&texts(&["--name"])).unwrap_err();
    assert_eq!(error.to_string(), "--name requires a value");
    let error = steam::parse_request(&texts(&["--app-id"])).unwrap_err();
    assert_eq!(error.to_string(), "game steam-install requires --app-id APPID");
    let error = steam::parse_request(&texts(&["--app-id="])).unwrap_err();
    assert_eq!(error.to_string(), "Steam app_id must contain only ASCII digits");
    let request = steam::parse_request(&texts(&["--app-id", "7", "--confirm"])).unwrap();
    assert_eq!(request.name, "Steam app");
    assert!(request.confirm);
}
