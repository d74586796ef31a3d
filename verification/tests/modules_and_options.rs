use portcellar::games::catalog::GenericGameProfileCatalog;
use portcellar::games::generic::{check_module_profile_keys, public_module_profile, GenericGameProfile, ModuleProfileKeys};
use portcellar::games::module::{
    check_module_header, check_module_path, check_module_reference, check_module_variant, slug, GameModule,
    GameModuleCatalog, GameModuleDescriptor, GameModuleProfileReference, GameModuleVariant, ModuleProfiles,
};
use portcellar::games::{GameProfile, SteamIntegration};
use portcellar::runtime::profile::{prefix_path_from_windows_path, upsert_runtime_options};
use portcellar::runtime::session::{add_new_pids, signal_groups, steam_session_backup_path};
use portcellar::runtime::steam_cef::{contains_bytes, is_current_steamwebhelper_wrapper, steamwebhelper_arch_for_cef_dir, SteamWebHelperArch};
use portcellar::runtime::wine::prepend_dll_override;
use portcellar::strmap::StrMap;
use portcellar::text::count_matches;

fn loaded(file: &str, app_id: &str, name: &str, exe: &str) -> (String, GenericGameProfile) {
    (file.to_string(), GenericGameProfile::new(app_id, name, exe))
}

#[test]
fn catalog_loads_profiles_in_app_id_order() {
    let catalog = GenericGameProfileCatalog::from_profiles(
        "/catalog",
        vec![loaded("second.toml", "2", "Second", "Second.exe"), loaded("first.toml", "1", "First", "First.exe")],
    )
    .unwrap();
    assert_eq!(catalog.entries().len(), 2);
    assert_eq!(catalog.entries()[0].app_id(), "1");
    assert_eq!(catalog.entries()[1].app_id(), "2");
    assert_eq!(catalog.profile_for_app_id("2").unwrap().name(), "Second");
}

#[test]
fn catalog_rejects_duplicate_app_ids() {
    let error = GenericGameProfileCatalog::from_profiles(
        "/catalog",
        vec![loaded("first.toml", "123", "Example", "Example.exe"), loaded("second.toml", "123", "Example", "Example.exe")],
    )
    .unwrap_err();
    assert!(error.to_string().contains("duplicate profile app_id 123"));
}

#[test]
fn strmap_insert_replaces_and_orders() {
    let mut m = StrMap::new();
    m.insert("b".to_string(), "1".to_string());
    m.insert("a".to_string(), "2".to_string());
    m.insert("b".to_string(), "3".to_string());
    assert_eq!(m.keys(), vec!["a".to_string(), "b".to_string()]);
    assert_eq!(m.get("b").map(|s| s.as_str()), Some("3"));
}

#[test]
fn options_are_upserted_into_the_options_section() {
    let mut values = StrMap::new();
    values.insert("MaxRenderScale".to_string(), "2".to_string());
    values.insert("Fullscreen".to_string(), "0".to_string());
    let existing = "[Options]\nFullscreen = 1\nSound=5\n[Other]\nx=y";
    assert_eq!(
        upsert_runtime_options(existing, &values),
        "[Options]\nFullscreen=0\nSound=5\nMaxRenderScale=2\n[Other]\nx=y\n"
    );
    assert_eq!(upsert_runtime_options("a=b", &values), "a=b\n\n[Options]\nFullscreen=0\nMaxRenderScale=2\n");
    assert_eq!(upsert_runtime_options("", &StrMap::new()), "[Options]\n");
    let once = upsert_runtime_options(existing, &values);
    assert_eq!(upsert_runtime_options(&once, &values), once);
}

#[test]
fn windows_paths_map_into_the_prefix() {
    assert_eq!(
        prefix_path_from_windows_path("/p", " \"C:\\users\\me\\Documents\\options.ini\" ").as_deref(),
        Some("/p/drive_c/users/me/Documents/options.ini")
    );
    assert_eq!(prefix_path_from_windows_path("/p", "Z:\\tmp\\x").as_deref(), Some("/tmp/x"));
    assert_eq!(prefix_path_from_windows_path("/p", "C:\\..\\x"), None);
    assert_eq!(prefix_path_from_windows_path("/p", "D:\\x"), None);
    assert_eq!(prefix_path_from_windows_path("/p", "C:"), None);
}

#[test]
fn module_identifiers_and_paths_are_checked() {
    assert!(slug("simcity-4").is_ok());
    assert_eq!(slug("Bad--id").unwrap_err().to_string(), "invalid module identifier: \"Bad--id\"");
    assert!(check_module_path("profiles/windows.toml").is_ok());
    assert!(check_module_path("../x.toml").is_err());
    assert!(check_module_path("profiles//x.toml").is_err());
    assert!(check_module_path("C:x.toml").is_err());
    assert!(check_module_path("profile.ini").is_err());
}

fn variant(id: &str, stores: StrMap) -> GameModuleVariant {
    GameModuleVariant {
        id: id.to_string(),
        name: "Windows".to_string(),
        stores,
        profiles: vec![GameModuleProfileReference { id: "scgl".to_string(), path: "profiles/a.toml".to_string() }],
    }
}

#[test]
fn module_descriptors_are_validated_step_by_step() {
    let descriptor = GameModuleDescriptor {
        format_version: "portcellar-module-v1".to_string(),
        id: "simcity-4".to_string(),
        name: "SimCity 4".to_string(),
        revision: 1,
        variants: vec![variant("windows", StrMap::new())],
    };
    assert!(check_module_header(Some("simcity-4"), &descriptor).is_ok());
    assert_eq!(
        check_module_header(Some("other"), &descriptor).unwrap_err().to_string(),
        "module id must match its directory"
    );
    let mut stores = StrMap::new();
    stores.insert("steam".to_string(), "24780x".to_string());
    assert_eq!(check_module_variant(&variant("windows", stores), &vec![]).unwrap_err().to_string(), "invalid steam store id");
    assert_eq!(
        check_module_variant(&variant("windows", StrMap::new()), &vec!["windows".to_string()]).unwrap_err().to_string(),
        "variant requires a unique id, name and profiles"
    );
    assert!(check_module_reference(&GameModuleProfileReference { id: "scgl".to_string(), path: "profiles/a.toml".to_string() }).is_ok());

    let mut steam = StrMap::new();
    steam.insert("steam".to_string(), "24780".to_string());
    let v = variant("windows", steam);
    let mut profiles = ModuleProfiles::new();
    let wrong = GenericGameProfile::new("1", "SimCity 4", "SimCity 4.exe");
    assert_eq!(
        profiles.accept_profile(&v, "scgl", wrong).unwrap_err().to_string(),
        "Steam-required profile must match variant stores.steam"
    );
    let right = GenericGameProfile::new("24780", "SimCity 4", "SimCity 4.exe");
    assert!(profiles.accept_profile(&v, "scgl", right).is_ok());
    let again = GenericGameProfile::new("24780", "SimCity 4", "SimCity 4.exe");
    assert_eq!(profiles.accept_profile(&v, "scgl", again).unwrap_err().to_string(), "duplicate profile id in variant");
    assert_eq!(profiles.get("windows", "scgl").unwrap().app_id(), "24780");

    let mut catalog = GameModuleCatalog::new();
    catalog.add_module(GameModule { descriptor, profiles }).unwrap();
    assert!(catalog.profile("simcity-4", "windows", "scgl").is_some());
    assert!(catalog.profile("simcity-4", "windows", "other").is_none());
    let duplicate = GameModuleDescriptor {
        format_version: "portcellar-module-v1".to_string(),
        id: "simcity-4".to_string(),
        name: "Again".to_string(),
        revision: 2,
        variants: Vec::new(),
    };
    assert_eq!(
        catalog.add_module(GameModule { descriptor: duplicate, profiles: ModuleProfiles::new() }).unwrap_err().to_string(),
        "duplicate module id: simcity-4"
    );
}

#[test]
fn public_module_profiles_refuse_unknown_fields_and_host_paths() {
    let parsed = || Ok(GenericGameProfile::new("1", "A", "A.exe"));
    assert_eq!(
        public_module_profile("app_id = \"1\"\nname = \"A\"\nshader_cache = true\n", parsed()).unwrap_err().to_string(),
        "unknown module profile field: shader_cache"
    );
    assert_eq!(
        public_module_profile(
            "app_id = \"1\"\n[[binary_patches]]\nkind = \"LargeAddressAware\"\noffset = 4\n",
            parsed()
        )
        .unwrap_err()
        .to_string(),
        "unknown module profile field: offset"
    );
    assert_eq!(
        public_module_profile("wine_engine_path = \"/opt/wine\"\n", parsed()).unwrap_err().to_string(),
        "public module profiles must not contain host paths or runtime artifacts"
    );
    assert!(public_module_profile("app_id = [", parsed())
        .unwrap_err()
        .to_string()
        .starts_with("invalid module profile: "));
    let profile = public_module_profile("app_id = \"1\"\n", parsed()).unwrap();
    assert_eq!(profile.steam_integration(), SteamIntegration::Required);
}

#[test]
fn module_profile_keys_are_checked_in_order() {
    let keys = ModuleProfileKeys {
        top: vec!["app_id".to_string(), "wine_engine_path".to_string()],
        artifact_records: Vec::new(),
        patch_records: vec![vec!["kind".to_string(), "offset".to_string()]],
    };
    assert_eq!(
        check_module_profile_keys(&keys, Ok(GenericGameProfile::new("1", "A", "A.exe"))).unwrap_err().to_string(),
        "unknown module profile field: offset"
    );
}

#[test]
fn steam_cef_and_session_helpers() {
    assert_eq!(steamwebhelper_arch_for_cef_dir("cef.win64"), SteamWebHelperArch::X86_64);
    assert_eq!(steamwebhelper_arch_for_cef_dir("cef.win7"), SteamWebHelperArch::X86);
    assert!(contains_bytes(b"xxabcxx", b"abc"));
    assert!(!contains_bytes(b"abc", b""));
    assert!(is_current_steamwebhelper_wrapper(b"..portcellar-steamwebhelper-wrapper-v5.."));
    assert!(!is_current_steamwebhelper_wrapper(b"portcellar-steamwebhelper-wrapper-v4"));
    assert_eq!(signal_groups(&vec![(5, 40), (6, 1), (7, 40), (8, 30), (9, 99)], 99, Some(30)), vec![40]);
    let mut pids = vec![5];
    add_new_pids(&mut pids, &vec![(6, 1), (5, 1), (6, 2)]);
    assert_eq!(pids, vec![5, 6]);
    assert_eq!(
        steam_session_backup_path("/b", "/p", "/p/drive_c/Steam", "/p/drive_c/Steam/config/loginusers.vdf"),
        "/b/Steam/config/loginusers.vdf"
    );
    assert_eq!(
        steam_session_backup_path("/b", "/p", "/p/drive_c/Steam", "/p/drive_c/users/me/AppData"),
        "/b/drive_c/users/me/AppData"
    );
    assert_eq!(prepend_dll_override("a=", Some("a=;b=n")), "a=;b=n");
    assert_eq!(prepend_dll_override("a=", Some("")), "");
    assert_eq!(prepend_dll_override("a=", None), "a=");
    assert_eq!(count_matches("aaaa", "aa"), 2);
}
