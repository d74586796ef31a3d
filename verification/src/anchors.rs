//! The fixed facts the runtime is anchored to: package version, the reference game,
//! and the engine baselines it was measured against.
use vstd::prelude::*;

verus! {

/// This package's version.
pub const PORTCELLAR_VERSION: &'static str = "0.1.0";
pub const ISAAC_APP_ID: &'static str = "250900";
pub const ISAAC_APP_NAME: &'static str = "The Binding of Isaac: Rebirth";
pub const ISAAC_WINDOWS_DEPOT_ID: &'static str = "250902";
pub const ISAAC_WINDOWS_EXE: &'static str = "isaac-ng.exe";
pub const ISAAC_DXMT_CONFIG: &'static str = "d3d11.preferredMaxFrameRate=60;";
/// The environment variable that turns Steam Cloud on for the reference game.
pub const ISAAC_STEAM_CLOUD_ENV: &'static str = "PORTCELLAR_ISAAC_STEAM_CLOUD";
pub const ISAAC_RUNTIME_PROFILE_VERSION: &'static str = "isaac-wine-steam-v2";
pub const ISAAC_WINE_WINDOWS_VERSION: &'static str = "win10";
pub const LOCAL_WINE_BASELINE: &'static str = "Gcenx Wine Staging 11.10";
pub const CROSSOVER_FOSS_BASELINE: &'static str = "CrossOverFOSS 23.7.1";
/// The name of the virtual desktop Steam runs in.
pub const STEAM_VIRTUAL_DESKTOP_NAME: &'static str = "portcellar-steam";
pub const STEAM_CEF_SINGLE_PROCESS_ARG: &'static str = "-cef-single-process";
pub const STEAM_CEF_POLICY_ENV: &'static str = "PORTCELLAR_STEAM_CEF_POLICY";
pub const STEAM_CEF_CROSSOVER_POLICY_VALUE: &'static str = "crossover-compatible";

/// The fixed facts in one record.
#[derive(Debug, Clone, PartialEq, Eq)]
pub struct RuntimeAnchors {
    pub package_version: &'static str,
    pub isaac_app_id: &'static str,
    pub isaac_name: &'static str,
    pub isaac_windows_depot_id: &'static str,
    pub isaac_windows_exe: &'static str,
    pub isaac_runtime_profile_version: &'static str,
    pub wine_windows_version: &'static str,
    pub default_dxmt_config: &'static str,
    pub steam_cloud_env: &'static str,
    pub local_wine_baseline: &'static str,
    pub crossover_foss_baseline: &'static str,
}

/// The runtime's anchors.
pub fn runtime_anchors() -> (r: RuntimeAnchors)
    ensures
        r.package_version == PORTCELLAR_VERSION,
        r.isaac_app_id == ISAAC_APP_ID,
        r.isaac_name == ISAAC_APP_NAME,
        r.isaac_windows_depot_id == ISAAC_WINDOWS_DEPOT_ID,
        r.isaac_windows_exe == ISAAC_WINDOWS_EXE,
        r.isaac_runtime_profile_version == ISAAC_RUNTIME_PROFILE_VERSION,
        r.wine_windows_version == ISAAC_WINE_WINDOWS_VERSION,
        r.default_dxmt_config == ISAAC_DXMT_CONFIG,
        r.steam_cloud_env == ISAAC_STEAM_CLOUD_ENV,
        r.local_wine_baseline == LOCAL_WINE_BASELINE,
        r.crossover_foss_baseline == CROSSOVER_FOSS_BASELINE,
{
    RuntimeAnchors {
        package_version: PORTCELLAR_VERSION,
        isaac_app_id: ISAAC_APP_ID,
        isaac_name: ISAAC_APP_NAME,
        isaac_windows_depot_id: ISAAC_WINDOWS_DEPOT_ID,
        isaac_windows_exe: ISAAC_WINDOWS_EXE,
        isaac_runtime_profile_version: ISAAC_RUNTIME_PROFILE_VERSION,
        wine_windows_version: ISAAC_WINE_WINDOWS_VERSION,
        default_dxmt_config: ISAAC_DXMT_CONFIG,
        steam_cloud_env: ISAAC_STEAM_CLOUD_ENV,
        local_wine_baseline: LOCAL_WINE_BASELINE,
        crossover_foss_baseline: CROSSOVER_FOSS_BASELINE,
    }
}

/// The arguments Steam needs to run its browser under Wine.
pub fn steam_wine_cef_args() -> (r: Vec<&'static str>)
    ensures r@.map_values(|s: &'static str| s@) == seq!["-allosarches"@, "-cef-force-32bit"@, "-no-cef-sandbox"@, "-noverifyfiles"@],
{
    let mut v: Vec<&'static str> = Vec::new();
    v.push("-allosarches");
    v.push("-cef-force-32bit");
    v.push("-no-cef-sandbox");
    v.push("-noverifyfiles");
    assert(v@.map_values(|s: &'static str| s@) =~= seq!["-allosarches"@, "-cef-force-32bit"@, "-no-cef-sandbox"@, "-noverifyfiles"@]);
    v
}

} // verus!
