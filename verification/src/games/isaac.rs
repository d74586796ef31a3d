//! The built-in profile of the reference game, The Binding of Isaac: Rebirth.
use vstd::prelude::*;
use super::{
    clone_opt, opt_as_str, opt_text, CapabilitySet, GameBinaryPatch, GameCapability, GameProfile,
    GameRuntimeArtifact, GraphicsBackend, RuntimeDependency, SteamCefPolicy, SteamIntegration,
};
use crate::anchors::{
    ISAAC_APP_ID, ISAAC_APP_NAME, ISAAC_DXMT_CONFIG, ISAAC_RUNTIME_PROFILE_VERSION,
    ISAAC_WINDOWS_DEPOT_ID, ISAAC_WINDOWS_EXE, ISAAC_WINE_WINDOWS_VERSION,
};
use crate::runtime::wine::{env_flag_enabled, flag_enabled};
use crate::strmap::{lemma_sorted_from_adjacent, lemma_text_lt_at, StrMap};

verus! {

/// The reference game's profile. Steam Cloud follows the value of the
/// `PORTCELLAR_ISAAC_STEAM_CLOUD` setting it was made with.
#[derive(Debug, Clone)]
pub struct IsaacProfile {
    steam_cloud_setting: Option<String>,
}

/// The reference game's profile without a Steam Cloud setting.
pub closed spec fn default_isaac_profile() -> IsaacProfile {
    IsaacProfile { steam_cloud_setting: None }
}

/// The reference game's profile, made without a Steam Cloud setting (Steam Cloud off).
pub fn isaac_profile() -> (r: IsaacProfile)
    ensures
        r == default_isaac_profile(),
        r.spec_steam_cloud_setting() is None,
{
    IsaacProfile { steam_cloud_setting: None }
}

impl IsaacProfile {
    /// The Steam Cloud setting the profile was made with.
    pub closed spec fn spec_steam_cloud_setting(&self) -> Option<Seq<char>> {
        opt_text(self.steam_cloud_setting)
    }

    /// The reference game's profile with the given Steam Cloud setting (the value of
    /// `PORTCELLAR_ISAAC_STEAM_CLOUD`, if it is set).
    pub fn with_steam_cloud_setting(setting: Option<&str>) -> (r: IsaacProfile)
        ensures r.spec_steam_cloud_setting() == crate::runtime::dependencies::opt_view(setting),
    {
        IsaacProfile {
            steam_cloud_setting: match setting {
                Some(s) => Some(s.to_owned()),
                None => None,
            },
        }
    }
}

/// The `SteamCloud` option for a setting: `1` when the setting turns it on, else `0`.
pub open spec fn steam_cloud_value(setting: Option<Seq<char>>) -> Seq<char> {
    match setting {
        Some(v) => if flag_enabled(v) { "1"@ } else { "0"@ },
        None => "0"@,
    }
}

/// The `SteamCloud` option value for a Steam Cloud setting.
pub fn isaac_steam_cloud_option_value_from(value: Option<&str>) -> (r: String)
    ensures r@ == steam_cloud_value(crate::runtime::dependencies::opt_view(value)),
{
    proof {
        reveal_strlit("1");
        reveal_strlit("0");
    }
    match value {
        Some(v) => if env_flag_enabled(v) { "1".to_owned() } else { "0".to_owned() },
        None => "0".to_owned(),
    }
}

/// The reference game's option file, in key order.
pub open spec fn isaac_options(cloud: Seq<char>) -> Seq<(Seq<char>, Seq<char>)> {
    seq![
        ("ControllerHotplug"@, "0"@),
        ("EnableIntro"@, "0"@),
        ("EnableMods"@, "0"@),
        ("Fullscreen"@, "0"@),
        ("MouseControl"@, "0"@),
        ("SteamCloud"@, cloud),
        ("VSync"@, "1"@),
    ]
}

/// The reference game's capabilities.
pub open spec fn isaac_capabilities() -> Set<GameCapability> {
    set![GameCapability::Steamworks, GameCapability::OpenGl, GameCapability::VideoPlayback, GameCapability::Audio]
}

fn pair(k: &str, v: &str) -> (r: (String, String))
    ensures r.0@ == k@, r.1@ == v@,
{
    (k.to_owned(), v.to_owned())
}

impl GameProfile for IsaacProfile {
    open spec fn spec_app_id(&self) -> Seq<char> { ISAAC_APP_ID@ }
    open spec fn spec_name(&self) -> Seq<char> { ISAAC_APP_NAME@ }
    open spec fn spec_bottle_name(&self) -> Option<Seq<char>> { None }
    open spec fn spec_windows_depot_id(&self) -> Option<Seq<char>> { Some(ISAAC_WINDOWS_DEPOT_ID@) }
    open spec fn spec_windows_exe(&self) -> Seq<char> { ISAAC_WINDOWS_EXE@ }
    open spec fn spec_launch_arguments(&self) -> Seq<Seq<char>> { Seq::empty() }
    open spec fn spec_install_dir_hint(&self) -> Seq<char> { "The Binding of Isaac Rebirth"@ }
    open spec fn spec_windows_install_path_hint(&self) -> Option<Seq<char>> { None }
    open spec fn spec_runtime_profile_version(&self) -> Seq<char> { ISAAC_RUNTIME_PROFILE_VERSION@ }
    open spec fn spec_wine_engine_path_hint(&self) -> Option<Seq<char>> { None }
    open spec fn spec_wine_windows_version(&self) -> Seq<char> { ISAAC_WINE_WINDOWS_VERSION@ }
    open spec fn spec_dxmt_config(&self) -> Option<Seq<char>> { Some(ISAAC_DXMT_CONFIG@) }
    open spec fn spec_savedata_path_marker(&self) -> Option<Seq<char>> { Some("Save Data Path:"@) }
    open spec fn spec_default_documents_subdir(&self) -> Option<Seq<char>> { Some("Binding of Isaac Rebirth"@) }
    open spec fn spec_runtime_options_path_hint(&self) -> Option<Seq<char>> { None }
    open spec fn spec_runtime_options(&self) -> Seq<(Seq<char>, Seq<char>)> {
        isaac_options(steam_cloud_value(self.spec_steam_cloud_setting()))
    }
    open spec fn spec_graphics_backend(&self) -> GraphicsBackend { GraphicsBackend::Dxmt }
    open spec fn spec_steam_integration(&self) -> SteamIntegration { SteamIntegration::Required }
    open spec fn spec_steam_cef_policy(&self) -> SteamCefPolicy { SteamCefPolicy::CrossOverCompatible }
    open spec fn spec_runtime_environment(&self) -> Seq<(Seq<char>, Seq<char>)> { Seq::empty() }
    open spec fn spec_runtime_artifacts(&self) -> Seq<GameRuntimeArtifact> { Seq::empty() }
    open spec fn spec_binary_patches(&self) -> Seq<GameBinaryPatch> { Seq::empty() }
    open spec fn spec_capabilities(&self) -> Set<GameCapability> { isaac_capabilities() }
    open spec fn spec_dependencies(&self) -> Seq<RuntimeDependency> { Seq::empty() }

    fn app_id(&self) -> (r: &str) { ISAAC_APP_ID }
    fn name(&self) -> (r: &str) { ISAAC_APP_NAME }
    fn bottle_name(&self) -> (r: Option<&str>) { None }
    fn windows_depot_id(&self) -> (r: Option<&str>) { Some(ISAAC_WINDOWS_DEPOT_ID) }
    fn windows_exe(&self) -> (r: &str) { ISAAC_WINDOWS_EXE }
    fn launch_arguments(&self) -> (r: Vec<String>) {
        let v: Vec<String> = Vec::new();
        assert(v.deep_view() =~= Seq::<Seq<char>>::empty());
        v
    }
    fn install_dir_hint(&self) -> (r: &str) { "The Binding of Isaac Rebirth" }
    fn windows_install_path_hint(&self) -> (r: Option<&str>) { None }
    fn runtime_profile_version(&self) -> (r: &str) { ISAAC_RUNTIME_PROFILE_VERSION }
    fn wine_engine_path_hint(&self) -> (r: Option<&str>) { None }
    fn wine_windows_version(&self) -> (r: &str) { ISAAC_WINE_WINDOWS_VERSION }
    fn dxmt_config(&self) -> (r: Option<&str>) { Some(ISAAC_DXMT_CONFIG) }
    fn savedata_path_marker(&self) -> (r: Option<&str>) { Some("Save Data Path:") }
    fn default_documents_subdir(&self) -> (r: Option<&str>) { Some("Binding of Isaac Rebirth") }
    fn runtime_options_path_hint(&self) -> (r: Option<&str>) { None }

    fn runtime_options(&self) -> (r: StrMap) {
        let cloud = isaac_steam_cloud_option_value_from(opt_as_str(&self.steam_cloud_setting));
        let mut v: Vec<(String, String)> = Vec::new();
        v.push(pair("ControllerHotplug", "0"));
        v.push(pair("EnableIntro", "0"));
        v.push(pair("EnableMods", "0"));
        v.push(pair("Fullscreen", "0"));
        v.push(pair("MouseControl", "0"));
        v.push(("SteamCloud".to_owned(), cloud));
        v.push(pair("VSync", "1"));
        let ghost entries = v@.map_values(|e: (String, String)| (e.0@, e.1@));
        proof {
            assert(entries =~= isaac_options(steam_cloud_value(self.spec_steam_cloud_setting())));
            reveal_strlit("ControllerHotplug");
            reveal_strlit("EnableIntro");
            reveal_strlit("EnableMods");
            reveal_strlit("Fullscreen");
            reveal_strlit("MouseControl");
            reveal_strlit("SteamCloud");
            reveal_strlit("VSync");
            assert("ControllerHotplug"@.take(0) =~= "EnableIntro"@.take(0));
            lemma_text_lt_at("ControllerHotplug"@, "EnableIntro"@, 0);
            assert("EnableIntro"@.take(6) =~= "EnableMods"@.take(6));
            lemma_text_lt_at("EnableIntro"@, "EnableMods"@, 6);
            assert("EnableMods"@.take(0) =~= "Fullscreen"@.take(0));
            lemma_text_lt_at("EnableMods"@, "Fullscreen"@, 0);
            assert("Fullscreen"@.take(0) =~= "MouseControl"@.take(0));
            lemma_text_lt_at("Fullscreen"@, "MouseControl"@, 0);
            assert("MouseControl"@.take(0) =~= "SteamCloud"@.take(0));
            lemma_text_lt_at("MouseControl"@, "SteamCloud"@, 0);
            assert("SteamCloud"@.take(0) =~= "VSync"@.take(0));
            lemma_text_lt_at("SteamCloud"@, "VSync"@, 0);
            lemma_sorted_from_adjacent(entries);
        }
        StrMap::from_sorted(v)
    }

    fn graphics_backend(&self) -> (r: GraphicsBackend) { GraphicsBackend::Dxmt }
    fn steam_integration(&self) -> (r: SteamIntegration) { SteamIntegration::Required }
    fn steam_cef_policy(&self) -> (r: SteamCefPolicy) { SteamCefPolicy::CrossOverCompatible }
    fn runtime_environment(&self) -> (r: StrMap) { StrMap::new() }
    fn runtime_artifacts(&self) -> (r: Vec<GameRuntimeArtifact>) {
        let v: Vec<GameRuntimeArtifact> = Vec::new();
        assert(v@ =~= Seq::<GameRuntimeArtifact>::empty());
        v
    }
    fn binary_patches(&self) -> (r: Vec<GameBinaryPatch>) {
        let v: Vec<GameBinaryPatch> = Vec::new();
        assert(v@ =~= Seq::<GameBinaryPatch>::empty());
        v
    }
    fn capabilities(&self) -> (r: CapabilitySet) {
        let mut c = CapabilitySet::new();
        c.insert(GameCapability::Steamworks);
        c.insert(GameCapability::OpenGl);
        c.insert(GameCapability::VideoPlayback);
        c.insert(GameCapability::Audio);
        assert(c@ =~= isaac_capabilities());
        c
    }
    fn dependencies(&self) -> (r: Vec<RuntimeDependency>) {
        let v: Vec<RuntimeDependency> = Vec::new();
        assert(v@ =~= Seq::<RuntimeDependency>::empty());
        v
    }
}

} // verus!
