use portcellar::games::generic::GenericGameProfile;
use portcellar::games::{GameBinaryPatch, GameBinaryPatchKind, GameRuntimeArtifact, SteamIntegration};
use portcellar::runtime::stage::{
    fingerprint_bytes, fingerprint_text, hex_padded, is_pe32_i386, large_address_aware_enabled,
    needs_stage, set_large_address_aware, stage_action, stage_marker, tree_fingerprint,
    validate_relative_path, StageAction, FINGERPRINT_BASIS,
};
use portcellar::state::resolve_state_root;

fn pe_image(len: usize, pe_offset: usize) -> Vec<u8> {
    let mut image = vec![0u8; len];
    image[0..2].copy_from_slice(b"MZ");
    image[0x3c..0x40].copy_from_slice(&(pe_offset as u32).to_le_bytes());
    image[pe_offset..pe_offset + 4].copy_from_slice(b"PE\0\0");
    image[pe_offset + 4..pe_offset + 6].copy_from_slice(&[0x4c, 0x01]);
    image[pe_offset + 24..pe_offset + 26].copy_from_slice(&[0x0b, 0x01]);
    image
}

#[test]
fn pe32_header_is_checked() {
    let image = pe_image(0x80, 0x40);
    assert!(is_pe32_i386(&image, "image.exe").unwrap());
    let mut amd64 = pe_image(0x80, 0x40);
    amd64[0x44] = 0x64;
    amd64[0x45] = 0x86;
    assert!(!is_pe32_i386(&amd64, "image.exe").unwrap());
    let error = is_pe32_i386(&vec![0u8; 0x20], "tiny.exe").unwrap_err();
    assert_eq!(error.to_string(), "runtime artifact is too small to be a PE image: tiny.exe");
}

#[test]
fn unsafe_target_path_is_rejected() {
    assert!(validate_relative_path("../SCGL.dll", "target").is_err());
    assert!(validate_relative_path("Apps/SimGLRef.dll", "target").is_ok());
}

#[test]
fn large_address_aware_patch_sets_pe_characteristic() {
    let pe_offset = 0x40usize;
    let mut image = pe_image(0x100, pe_offset);

    assert!(!large_address_aware_enabled(&image, "game.exe").unwrap());
    assert!(set_large_address_aware(&mut image, "game.exe").unwrap());
    let characteristics = u16::from_le_bytes([image[pe_offset + 4 + 18], image[pe_offset + 4 + 19]]);
    assert_ne!(characteristics & 0x0020, 0);
    assert!(large_address_aware_enabled(&image, "game.exe").unwrap());
    assert!(!set_large_address_aware(&mut image, "game.exe").unwrap());
}

#[test]
fn large_address_aware_patch_rejects_other_images() {
    let mut not_pe = vec![0u8; 0x80];
    let error = set_large_address_aware(&mut not_pe, "x.exe").unwrap_err();
    assert_eq!(error.to_string(), "binary is not a PE image: x.exe");
    let mut amd64 = pe_image(0x100, 0x40);
    amd64[0x44] = 0x64;
    let error = set_large_address_aware(&mut amd64, "x.exe").unwrap_err();
    assert_eq!(error.to_string(), "LAA patch requires a PE32 i386 image: x.exe");
}

#[test]
fn state_root_override_wins_without_touching_the_filesystem() {
    let override_root = "/tmp/Port Cellar/café";
    let project_root = "/tmp/project";
    assert_eq!(
        resolve_state_root(Some(override_root), Some(project_root), None, true),
        override_root
    );
}

#[test]
fn state_root_uses_project_then_platform_home_defaults() {
    let project_root = "/tmp/Project With Spaces";
    let home = "/tmp/Home With Spaces/café";
    assert_eq!(
        resolve_state_root(None, Some(project_root), Some(home), true),
        "/tmp/Project With Spaces/.portcellar"
    );
    assert_eq!(
        resolve_state_root(None, None, Some(home), true),
        "/tmp/Home With Spaces/café/Library/Application Support/PortCellar"
    );
    assert_eq!(
        resolve_state_root(None, None, Some(home), false),
        "/tmp/Home With Spaces/café/.local/share/portcellar"
    );
}

#[test]
fn fingerprint_of_no_bytes_is_the_offset_basis() {
    assert_eq!(fingerprint_bytes(FINGERPRINT_BASIS, b""), 0xcbf29ce484222325);
    assert_eq!(fingerprint_text(fingerprint_bytes(FINGERPRINT_BASIS, b"")), "cbf29ce484222325");
}

#[test]
fn fingerprint_matches_fnv1a_reference_values() {
    assert_eq!(fingerprint_bytes(FINGERPRINT_BASIS, b"a"), 0xaf63dc4c8601ec8c);
    assert_eq!(fingerprint_bytes(FINGERPRINT_BASIS, b"foobar"), 0x85944171f73967e8);
}

#[test]
fn fingerprint_extends_in_pieces() {
    let whole = fingerprint_bytes(FINGERPRINT_BASIS, b"game/Game.exe");
    let split = fingerprint_bytes(fingerprint_bytes(FINGERPRINT_BASIS, b"game/"), b"Game.exe");
    assert_eq!(whole, split);
}

#[test]
fn hex_text_is_zero_padded_lowercase() {
    assert_eq!(hex_padded(0xab, 4), "00ab");
    assert_eq!(hex_padded(0x1234_5678_9abc_def0, 16), "123456789abcdef0");
    assert_eq!(fingerprint_text(0), "0000000000000000");
}

fn artifact(id: &str, source: &str, target: &str) -> GameRuntimeArtifact {
    GameRuntimeArtifact {
        id: id.to_string(),
        source_path: source.to_string(),
        target_path: target.to_string(),
        architecture: None,
    }
}

#[test]
fn only_standalone_games_with_artifacts_are_staged() {
    let plain = GenericGameProfile::new("local", "Example", "Game.exe")
        .with_steam_integration(SteamIntegration::Standalone);
    assert!(!needs_stage(&plain));
    let staged = plain.with_runtime_artifact(artifact("dll", "/src/a.dll", "a.dll"));
    assert!(needs_stage(&staged));
    let steam = GenericGameProfile::new("1", "Example", "Game.exe")
        .with_runtime_artifact(artifact("dll", "/src/a.dll", "a.dll"));
    assert!(!needs_stage(&steam));
}

#[test]
fn existing_stage_is_reused_or_kept_never_replaced() {
    assert_eq!(stage_action(true, false, true), StageAction::Reuse);
    assert_eq!(stage_action(true, true, true), StageAction::Refuse);
    assert_eq!(stage_action(false, false, true), StageAction::Refuse);
    assert_eq!(stage_action(false, false, false), StageAction::Build);
    assert_eq!(stage_action(false, true, false), StageAction::Build);
}

#[test]
fn tree_fingerprint_hashes_paths_then_contents_in_order() {
    assert_eq!(tree_fingerprint(&Vec::new()), FINGERPRINT_BASIS);
    let one = vec![(b"a".to_vec(), b"b".to_vec())];
    assert_eq!(fingerprint_text(tree_fingerprint(&one)), "089c4407b545986a");
    let swapped = vec![(b"b".to_vec(), b"a".to_vec())];
    assert_ne!(tree_fingerprint(&one), tree_fingerprint(&swapped));
}

#[test]
fn stage_marker_lists_identity_source_artifacts_and_patches() {
    let profile = GenericGameProfile::new("local", "Example", "Game.exe")
        .with_steam_integration(SteamIntegration::Standalone)
        .with_runtime_profile_version("3")
        .with_runtime_artifact(artifact("dll", "/src/a.dll", "bin/a.dll"))
        .with_binary_patch(GameBinaryPatch {
            target_path: "Game.exe".to_string(),
            kind: GameBinaryPatchKind::LargeAddressAware,
        });
    let marker = stage_marker(&profile, "/games/example", FINGERPRINT_BASIS, &vec![0x855b556730a34a05]);
    assert_eq!(
        marker,
        "app_id=local\nprofile_version=3\nwindows_exe=Game.exe\nsource=/games/example\n\
         source_fingerprint=cbf29ce484222325\ndll:/src/a.dll:bin/a.dll:855b556730a34a05\n\
         binary-patch:LargeAddressAware:Game.exe\n"
    );
}
