//! Command plans that start Steam, install games and launch them under Wine.
//!
//! The plans are computed from an inspected runtime and from what the caller read
//! from the host: the discovered engine components, winetricks, the Wine environment
//! and the Steam launch settings taken from the process environment.
use vstd::prelude::*;
use crate::anchors::{steam_wine_cef_args, STEAM_CEF_SINGLE_PROCESS_ARG};
use crate::error::{PortCellarError, Result};
use crate::games::{opt_text, GameProfile, SteamIntegration};
use crate::paths::{parent_of, parent_path};
use crate::runtime::dependencies::opt_view;
use crate::runtime::preflight::{game_runtime_preflight, is_preflight};
use crate::runtime::wine::{windows_for_host, windows_in_prefix, windows_path_for_host_path, windows_path_in_prefix};
use crate::runtime::environment::{game_launch_env, launch_env_of, opt_dir, LaunchEnvFacts};
use crate::strmap::StrMap;
use crate::text::{all_digits, concat, concat3, is_digit_text, join_texts, joined_with, words, words_text};
use crate::types::{CommandPlan, RuntimeComponent, RuntimePreflight, WineSteamRuntime};

verus! {

/// The `steam://install` URI for a numeric app id.
pub fn steam_install_uri(app_id: &str) -> (r: Result<String>)
    ensures
        match r {
            Ok(u) => app_id@.len() > 0 && all_digits(app_id@) && u@ == "steam://install/"@ + app_id@,
            Err(e) => !(app_id@.len() > 0 && all_digits(app_id@))
                && e.text() == "Steam app_id must contain only ASCII digits"@,
        },
{
    if app_id.unicode_len() == 0 || !is_digit_text(app_id) {
        return Err(PortCellarError::message("Steam app_id must contain only ASCII digits".to_owned()));
    }
    Ok(concat("steam://install/", app_id))
}

/// The extra Steam arguments configured as one whitespace-separated text.
pub fn steam_arg_tokens(value: &str) -> (r: Vec<String>)
    ensures r.deep_view() == words(value@),
{
    words_text(value)
}

/// How Steam is started, as the process environment configures it.
#[derive(Debug)]
pub struct SteamLaunchSettings {
    /// Extra arguments for every Steam start.
    pub configured_args: Vec<String>,
    /// Whether Steam's browser runs as a single process.
    pub single_process: bool,
    /// The name of the virtual desktop Steam runs in, when the runtime has one.
    pub desktop_name: String,
}

/// The fixed arguments Steam needs for its browser under Wine.
pub open spec fn cef_args() -> Seq<Seq<char>> {
    seq!["-allosarches"@, "-cef-force-32bit"@, "-no-cef-sandbox"@, "-noverifyfiles"@]
}

/// The arguments that start the runtime's Steam client under Wine, followed by `extra`.
pub open spec fn steam_args_for(runtime: WineSteamRuntime, extra: Seq<Seq<char>>, settings: SteamLaunchSettings) -> Seq<Seq<char>> {
    match runtime.steam_exe {
        None => Seq::empty(),
        Some(exe) => {
            let exe_arg = match windows_in_prefix(runtime.prefix@, exe@) { Some(w) => w, None => exe@ };
            let desktop = match runtime.virtual_desktop {
                Some(d) => seq!["explorer.exe"@, "/desktop="@ + settings.desktop_name@ + ","@ + d@],
                None => Seq::empty(),
            };
            desktop + seq![exe_arg] + cef_args()
                + (if settings.single_process { seq!["-cef-single-process"@] } else { Seq::empty() })
                + settings.configured_args.deep_view() + extra
        }
    }
}

pub fn push_text(v: &mut Vec<String>, t: String)
    ensures final(v).deep_view() == old(v).deep_view().push(t@),
{
    let ghost before = v.deep_view();
    v.push(t);
    assert(v.deep_view() =~= before.push(t@));
}

pub fn append_texts(v: &mut Vec<String>, extra: &Vec<String>)
    ensures final(v).deep_view() == old(v).deep_view() + extra.deep_view(),
{
    let ghost before = v.deep_view();
    let mut i: usize = 0;
    while i < extra.len()
        invariant
            i <= extra.len(),
            v.deep_view() == before + extra.deep_view().take(i as int),
        decreases extra.len() - i,
    {
        push_text(v, extra[i].clone());
        assert(extra.deep_view().take(i + 1) =~= extra.deep_view().take(i as int).push(extra@[i as int]@));
        assert(v.deep_view() =~= before + extra.deep_view().take(i + 1));
        i = i + 1;
    }
    assert(extra.deep_view().take(i as int) =~= extra.deep_view());
}

/// The Wine arguments that start Steam, then `extra`; nothing without a Steam client.
pub fn steam_wine_args(runtime: &WineSteamRuntime, extra: &Vec<String>, settings: &SteamLaunchSettings) -> (r: Vec<String>)
    ensures r.deep_view() == steam_args_for(*runtime, extra.deep_view(), *settings),
{
    let mut args: Vec<String> = Vec::new();
    let exe = match &runtime.steam_exe {
        None => {
            assert(args.deep_view() =~= Seq::<Seq<char>>::empty());
            return args;
        }
        Some(exe) => exe,
    };
    let exe_arg = match windows_path_in_prefix(runtime.prefix.as_str(), exe.as_str()) {
        Some(w) => w,
        None => exe.clone(),
    };
    proof {
        reveal_strlit("explorer.exe");
        reveal_strlit("/desktop=");
        reveal_strlit(",");
        reveal_strlit("-cef-single-process");
    }
    if let Some(d) = &runtime.virtual_desktop {
        push_text(&mut args, "explorer.exe".to_owned());
        push_text(&mut args, concat(concat3("/desktop=", settings.desktop_name.as_str(), ",").as_str(), d.as_str()));
    }
    push_text(&mut args, exe_arg);
    let cef = steam_wine_cef_args();
    let mut i: usize = 0;
    let ghost before = args.deep_view();
    while i < cef.len()
        invariant
            i <= cef.len(),
            cef@.map_values(|s: &'static str| s@) == cef_args(),
            args.deep_view() == before + cef_args().take(i as int),
        decreases cef.len() - i,
    {
        push_text(&mut args, cef[i].to_owned());
        assert(cef_args()[i as int] == cef@[i as int]@);
        assert(cef_args().take(i + 1) =~= cef_args().take(i as int).push(cef_args()[i as int]));
        i = i + 1;
    }
    assert(cef_args().take(i as int) =~= cef_args());
    if settings.single_process {
        push_text(&mut args, STEAM_CEF_SINGLE_PROCESS_ARG.to_owned());
    }
    append_texts(&mut args, &settings.configured_args);
    append_texts(&mut args, extra);
    assert(args.deep_view() =~= steam_args_for(*runtime, extra.deep_view(), *settings));
    args
}

/// What the caller read from the host for planning a launch.
#[derive(Debug)]
pub struct LaunchHost {
    /// The runtime components discovered for the runtime's Wine engine.
    pub components: Vec<RuntimeComponent>,
    /// Where winetricks was found, if it was.
    pub winetricks: Option<String>,
    /// The Wine environment of the bottle.
    pub wine_env: StrMap,
    /// What the host shows that the game's launch environment depends on.
    pub env_facts: LaunchEnvFacts,
    /// How Steam is started.
    pub steam: SteamLaunchSettings,
}

/// The environment the plans for `profile` run with: its launch environment over the
/// bottle's Wine variables (see `launch_env_of`).
pub open spec fn plan_env<P: GameProfile>(profile: &P, runtime: WineSteamRuntime, host: LaunchHost) -> Map<Seq<char>, Seq<char>> {
    launch_env_of(*profile, opt_dir(runtime.dxmt_root), host.wine_env.map(), host.env_facts)
}

/// The error of a preflight that blocks a launch.
pub open spec fn preflight_failure(name: Seq<char>, blockers: Seq<Seq<char>>) -> Seq<char> {
    "runtime preflight failed for "@ + name + ": "@ + joined_with(blockers, "; "@)
}

/// Runs the preflight of `profile` on `runtime` and fails with its blockers, if any.
pub fn ensure_game_runtime_preflight<P: GameProfile>(profile: &P, runtime: &WineSteamRuntime, host: &LaunchHost) -> (r: Result<()>)
    ensures
        exists|p: RuntimePreflight| is_preflight(p, profile, *runtime, host.components@,
            opt_text(host.winetricks), host.wine_env@) && match r {
            Ok(()) => p.blockers@.len() == 0,
            Err(e) => p.blockers@.len() > 0 && e.text() == preflight_failure(profile.spec_name(), p.blockers.deep_view()),
        },
{
    let winetricks = crate::games::opt_as_str(&host.winetricks);
    let preflight = game_runtime_preflight(profile, runtime, &host.components, winetricks, &host.wine_env);
    if preflight.ready() {
        return Ok(());
    }
    let message = concat(concat3("runtime preflight failed for ", profile.name(), ": ").as_str(),
        join_texts(&preflight.blockers, "; ").as_str());
    Err(PortCellarError::message(message))
}

/// The Wine launch plan through Steam, judged against the preflight's blockers.
pub open spec fn wine_steam_launch_ok<P: GameProfile>(
    r: Result<CommandPlan>,
    profile: &P,
    runtime: WineSteamRuntime,
    host: LaunchHost,
    blockers: Seq<Seq<char>>,
) -> bool {
    let name = profile.spec_name();
    if profile.spec_steam_integration() == SteamIntegration::Standalone {
        r matches Err(e) && e.text() == name + " does not declare Steam integration"@
    } else if blockers.len() > 0 {
        r matches Err(e) && e.text() == preflight_failure(name, blockers)
    } else if runtime.wine is None {
        r matches Err(e) && e.text() == "Wine was not found"@
    } else if runtime.steam_exe is None {
        r matches Err(e) && e.text() == "Windows Steam was not found in the configured Wine prefix"@
    } else if runtime.game_executable is None {
        r matches Err(e) && e.text() == "Windows "@ + name + " files were not found in the configured Wine prefix"@
    } else {
        r matches Ok(c) && c.program@ == runtime.wine->0@
            && c.args.deep_view() == steam_args_for(runtime, seq!["-silent"@, "-applaunch"@, profile.spec_app_id()], host.steam)
                + profile.spec_launch_arguments()
            && c.envs.map() == plan_env(profile, runtime, host) && c.current_dir is None
    }
}

fn texts3(a: &str, b: &str, c: &str) -> (r: Vec<String>)
    ensures r.deep_view() == seq![a@, b@, c@],
{
    let mut v: Vec<String> = Vec::new();
    push_text(&mut v, a.to_owned());
    push_text(&mut v, b.to_owned());
    push_text(&mut v, c.to_owned());
    assert(v.deep_view() =~= seq![a@, b@, c@]);
    v
}

fn preflight_blockers_of<P: GameProfile>(profile: &P, runtime: &WineSteamRuntime, host: &LaunchHost) -> (r: Vec<String>)
    ensures
        exists|p: RuntimePreflight| is_preflight(p, profile, *runtime, host.components@, opt_text(host.winetricks), host.wine_env@)
            && p.blockers.deep_view() == r.deep_view(),
{
    let winetricks = crate::games::opt_as_str(&host.winetricks);
    let preflight = game_runtime_preflight(profile, runtime, &host.components, winetricks, &host.wine_env);
    preflight.blockers
}

fn preflight_error(name: &str, blockers: &Vec<String>) -> (r: PortCellarError)
    ensures r.text() == preflight_failure(name@, blockers.deep_view()),
{
    PortCellarError::message(concat(concat3("runtime preflight failed for ", name, ": ").as_str(),
        join_texts(blockers, "; ").as_str()))
}

/// The plan that launches the game through Wine Steam, after the preflight passes.
pub fn game_wine_steam_launch_plan<P: GameProfile>(profile: &P, runtime: &WineSteamRuntime, host: &LaunchHost) -> (r: Result<CommandPlan>)
    ensures
        exists|p: RuntimePreflight| is_preflight(p, profile, *runtime, host.components@, opt_text(host.winetricks), host.wine_env@)
            && wine_steam_launch_ok(r, profile, *runtime, *host, p.blockers.deep_view()),
{
    let blockers = preflight_blockers_of(profile, runtime, host);
    if profile.steam_integration() == SteamIntegration::Standalone {
        return Err(PortCellarError::message(concat(profile.name(), " does not declare Steam integration")));
    }
    if blockers.len() > 0 {
        return Err(preflight_error(profile.name(), &blockers));
    }
    let wine = match &runtime.wine {
        Some(w) => w,
        None => { return Err(PortCellarError::message("Wine was not found".to_owned())); }
    };
    if runtime.steam_exe.is_none() {
        return Err(PortCellarError::message("Windows Steam was not found in the configured Wine prefix".to_owned()));
    }
    if runtime.game_executable.is_none() {
        return Err(PortCellarError::message(concat3("Windows ", profile.name(), " files were not found in the configured Wine prefix")));
    }
    let mut args = steam_wine_args(runtime, &texts3("-silent", "-applaunch", profile.app_id()), &host.steam);
    append_texts(&mut args, &profile.launch_arguments());
    Ok(CommandPlan { program: wine.clone(), args, envs: game_launch_env(profile, runtime, &host.wine_env, &host.env_facts), current_dir: None })
}

/// The Wine launch plan that runs the game's executable directly, judged against the
/// preflight's blockers.
pub open spec fn wine_direct_launch_ok<P: GameProfile>(
    r: Result<CommandPlan>,
    profile: &P,
    runtime: WineSteamRuntime,
    host: LaunchHost,
    blockers: Seq<Seq<char>>,
) -> bool {
    let name = profile.spec_name();
    if blockers.len() > 0 {
        r matches Err(e) && e.text() == preflight_failure(name, blockers)
    } else if runtime.wine is None {
        r matches Err(e) && e.text() == "Wine was not found"@
    } else if runtime.game_executable is None {
        r matches Err(e) && e.text() == "Windows "@ + name + " files were not found in the configured Wine prefix"@
    } else if parent_of(runtime.game_executable->0@) is None {
        r matches Err(e) && e.text() == "Windows "@ + name + " executable has no parent"@
    } else {
        let exe = runtime.game_executable->0@;
        let first = match windows_for_host(runtime.prefix@, exe) { Some(w) => w, None => exe };
        r matches Ok(c) && c.program@ == runtime.wine->0@
            && c.args.deep_view() == seq![first] + profile.spec_launch_arguments()
            && c.envs.map() == plan_env(profile, runtime, host) && holds_text(c.current_dir, parent_of(exe)->0)
    }
}

/// `Option<String>` whose text is `t`.
pub open spec fn holds_text(o: Option<String>, t: Seq<char>) -> bool {
    o matches Some(s) && s@ == t
}

/// The plan that runs the game's Windows executable directly under Wine.
pub fn game_wine_direct_launch_plan<P: GameProfile>(profile: &P, runtime: &WineSteamRuntime, host: &LaunchHost) -> (r: Result<CommandPlan>)
    ensures
        exists|p: RuntimePreflight| is_preflight(p, profile, *runtime, host.components@, opt_text(host.winetricks), host.wine_env@)
            && wine_direct_launch_ok(r, profile, *runtime, *host, p.blockers.deep_view()),
{
    let blockers = preflight_blockers_of(profile, runtime, host);
    if blockers.len() > 0 {
        return Err(preflight_error(profile.name(), &blockers));
    }
    let wine = match &runtime.wine {
        Some(w) => w,
        None => { return Err(PortCellarError::message("Wine was not found".to_owned())); }
    };
    let exe = match &runtime.game_executable {
        Some(e) => e,
        None => {
            return Err(PortCellarError::message(concat3("Windows ", profile.name(), " files were not found in the configured Wine prefix")));
        }
    };
    let current_dir = match parent_path(exe.as_str()) {
        Some(d) => d,
        None => { return Err(PortCellarError::message(concat3("Windows ", profile.name(), " executable has no parent"))); }
    };
    let first = match windows_path_for_host_path(runtime.prefix.as_str(), exe.as_str()) {
        Some(w) => w,
        None => exe.clone(),
    };
    let ghost first_view = first@;
    let mut args: Vec<String> = Vec::new();
    push_text(&mut args, first);
    let launch_arguments = profile.launch_arguments();
    append_texts(&mut args, &launch_arguments);
    assert(args.deep_view() =~= seq![first_view] + profile.spec_launch_arguments());
    let r = CommandPlan { program: wine.clone(), args, envs: game_launch_env(profile, runtime, &host.wine_env, &host.env_facts), current_dir: Some(current_dir) };
    proof {
        let p = choose|p: RuntimePreflight| is_preflight(p, profile, *runtime, host.components@, opt_text(host.winetricks), host.wine_env@)
            && p.blockers.deep_view() == blockers.deep_view();
        assert(wine_direct_launch_ok(Ok(r), profile, *runtime, *host, p.blockers.deep_view()));
    }
    Ok(r)
}

/// The plan that starts the Wine Steam client to sign in, optionally with the legacy
/// login window.
pub fn wine_steam_login_plan_for_runtime<P: GameProfile>(profile: &P, runtime: &WineSteamRuntime, legacy_login: bool, host: &LaunchHost) -> (r: Result<CommandPlan>)
    ensures
        match r {
            Ok(c) => runtime.wine is Some && runtime.steam_exe is Some && c.program@ == runtime.wine->0@
                && c.args.deep_view() == steam_args_for(*runtime,
                    if legacy_login { seq!["-noreactlogin"@] } else { Seq::empty() }, host.steam)
                && c.envs.map() == plan_env(profile, *runtime, *host) && c.current_dir is None,
            Err(e) => if runtime.wine is None { e.text() == "Wine was not found"@ }
                else { runtime.steam_exe is None && e.text() == "Windows Steam was not found in the configured Wine prefix"@ },
        },
{
    let wine = match &runtime.wine {
        Some(w) => w,
        None => { return Err(PortCellarError::message("Wine was not found".to_owned())); }
    };
    if runtime.steam_exe.is_none() {
        return Err(PortCellarError::message("Windows Steam was not found in the configured Wine prefix".to_owned()));
    }
    let mut extra: Vec<String> = Vec::new();
    if legacy_login {
        push_text(&mut extra, "-noreactlogin".to_owned());
        proof { reveal_strlit("-noreactlogin"); }
    }
    assert(extra.deep_view() =~= if legacy_login { seq!["-noreactlogin"@] } else { Seq::<Seq<char>>::empty() });
    let args = steam_wine_args(runtime, &extra, &host.steam);
    Ok(CommandPlan { program: wine.clone(), args, envs: game_launch_env(profile, runtime, &host.wine_env, &host.env_facts), current_dir: None })
}

/// The plan that asks the Wine Steam client to install the profile's game.
pub fn wine_steam_install_plan<P: GameProfile>(profile: &P, runtime: &WineSteamRuntime, host: &LaunchHost) -> (r: Result<CommandPlan>)
    ensures
        match r {
            Ok(c) => profile.spec_steam_integration() != SteamIntegration::Standalone
                && runtime.wine is Some && runtime.steam_exe is Some
                && profile.spec_app_id().len() > 0 && all_digits(profile.spec_app_id())
                && c.program@ == runtime.wine->0@
                && c.args.deep_view() == steam_args_for(*runtime, seq!["steam://install/"@ + profile.spec_app_id()], host.steam)
                && c.envs.map() == plan_env(profile, *runtime, *host) && c.current_dir is None
                && crate::runtime::environment::holds_app_id(c.envs.map(), profile.spec_app_id()),
            Err(e) => if profile.spec_steam_integration() == SteamIntegration::Standalone {
                    e.text() == profile.spec_name() + " does not declare Steam integration"@
                } else if runtime.wine is None {
                    e.text() == "Wine was not found"@
                } else if runtime.steam_exe is None {
                    e.text() == "Windows Steam was not found in the configured Wine prefix"@
                } else {
                    !(profile.spec_app_id().len() > 0 && all_digits(profile.spec_app_id()))
                        && e.text() == "Steam app_id must contain only ASCII digits"@
                },
        },
{
    if profile.steam_integration() == SteamIntegration::Standalone {
        return Err(PortCellarError::message(concat(profile.name(), " does not declare Steam integration")));
    }
    let wine = match &runtime.wine {
        Some(w) => w,
        None => { return Err(PortCellarError::message("Wine was not found".to_owned())); }
    };
    if runtime.steam_exe.is_none() {
        return Err(PortCellarError::message("Windows Steam was not found in the configured Wine prefix".to_owned()));
    }
    let uri = steam_install_uri(profile.app_id())?;
    proof {
        crate::runtime::environment::lemma_launch_env_app_id(*profile, opt_dir(runtime.dxmt_root),
            host.wine_env.map(), host.env_facts);
    }
    let mut extra: Vec<String> = Vec::new();
    push_text(&mut extra, uri);
    let args = steam_wine_args(runtime, &extra, &host.steam);
    Ok(CommandPlan { program: wine.clone(), args, envs: game_launch_env(profile, runtime, &host.wine_env, &host.env_facts), current_dir: None })
}

/// A macOS install of a game found in the native Steam libraries.
#[derive(Debug)]
pub struct NativeGameInstall {
    pub app_bundle: Option<String>,
    pub executable: Option<String>,
}

/// The launch plan for `mode`. Native modes use the game found in the native Steam
/// libraries (`native`); Wine modes use the inspected runtime and the host facts.
/// What launching `profile` in `mode` gives: the Wine plans as the preflight
/// allows them, and the Steam, native and direct plans from the native install found.
pub open spec fn launch_plan_result<P: GameProfile>(
    r: Result<CommandPlan>,
    profile: &P,
    mode: crate::types::LaunchMode,
    runtime: WineSteamRuntime,
    host: LaunchHost,
    native: Option<&NativeGameInstall>,
) -> bool {
    &&& (mode == crate::types::LaunchMode::WineSteam ==> exists|p: RuntimePreflight|
            is_preflight(p, profile, runtime, host.components@, opt_text(host.winetricks), host.wine_env@)
            && wine_steam_launch_ok(r, profile, runtime, host, p.blockers.deep_view()))
    &&& (mode == crate::types::LaunchMode::WineDirect ==> exists|p: RuntimePreflight|
            is_preflight(p, profile, runtime, host.components@, opt_text(host.winetricks), host.wine_env@)
            && wine_direct_launch_ok(r, profile, runtime, host, p.blockers.deep_view()))
    &&& (mode == crate::types::LaunchMode::Steam ==> if profile.spec_steam_integration() == SteamIntegration::Standalone {
                r matches Err(e) && e.text() == profile.spec_name() + " does not declare Steam integration"@
            } else if native is None {
                r matches Err(e) && e.text() == profile.spec_name() + " is not installed in the detected Steam libraries"@
            } else {
                r matches Ok(c) && c.program@ == "/usr/bin/open"@
                    && c.args.deep_view() == seq!["steam://rungameid/"@ + profile.spec_app_id()]
                    && c.envs@.len() == 0 && c.current_dir is None
            })
    &&& (mode == crate::types::LaunchMode::Native ==> match native {
                None => r matches Err(e) && e.text() == profile.spec_name() + " is not installed in the detected Steam libraries"@,
                Some(g) => match g.app_bundle {
                    None => r matches Err(e) && e.text() == "The macOS "@ + profile.spec_name() + " .app bundle was not found"@,
                    Some(b) => r matches Ok(c) && c.program@ == "/usr/bin/open"@ && c.args.deep_view() == seq![b@]
                        && c.envs@.len() == 0 && c.current_dir is None,
                },
            })
    &&& (mode == crate::types::LaunchMode::Direct ==> match native {
                None => r matches Err(e) && e.text() == profile.spec_name() + " is not installed in the detected Steam libraries"@,
                Some(g) => match g.executable {
                    None => r matches Err(e) && e.text() == "The macOS "@ + profile.spec_name() + " executable was not found"@,
                    Some(x) => match parent_of(x@) {
                        None => r matches Err(e) && e.text() == profile.spec_name() + " executable has no parent"@,
                        Some(d) => r matches Ok(c) && c.program@ == "/usr/bin/arch"@
                            && c.args.deep_view() == seq!["-x86_64"@, x@]
                            && c.envs@ == seq![("SteamAppId"@, profile.spec_app_id())]
                            && holds_text(c.current_dir, d),
                    },
                },
            })
}

pub fn game_launch_plan<P: GameProfile>(
    profile: &P,
    mode: crate::types::LaunchMode,
    runtime: &WineSteamRuntime,
    host: &LaunchHost,
    native: Option<&NativeGameInstall>,
) -> (r: Result<CommandPlan>)
    ensures
        launch_plan_result(r, profile, mode, *runtime, *host, native),
{
    match mode {
        crate::types::LaunchMode::WineSteam => game_wine_steam_launch_plan(profile, runtime, host),
        crate::types::LaunchMode::WineDirect => game_wine_direct_launch_plan(profile, runtime, host),
        crate::types::LaunchMode::Steam => {
            if profile.steam_integration() == SteamIntegration::Standalone {
                return Err(PortCellarError::message(concat(profile.name(), " does not declare Steam integration")));
            }
            if native.is_none() {
                return Err(PortCellarError::message(concat(profile.name(), " is not installed in the detected Steam libraries")));
            }
            let mut args: Vec<String> = Vec::new();
            push_text(&mut args, concat("steam://rungameid/", profile.app_id()));
            assert(args.deep_view() =~= seq!["steam://rungameid/"@ + profile.spec_app_id()]);
            let envs = StrMap::new();
            Ok(CommandPlan { program: "/usr/bin/open".to_owned(), args, envs, current_dir: None })
        }
        crate::types::LaunchMode::Native => {
            let game = match native {
                Some(g) => g,
                None => { return Err(PortCellarError::message(concat(profile.name(), " is not installed in the detected Steam libraries"))); }
            };
            let bundle = match &game.app_bundle {
                Some(b) => b,
                None => { return Err(PortCellarError::message(concat3("The macOS ", profile.name(), " .app bundle was not found"))); }
            };
            let mut args: Vec<String> = Vec::new();
            push_text(&mut args, bundle.clone());
            assert(args.deep_view() =~= seq![bundle@]);
            Ok(CommandPlan { program: "/usr/bin/open".to_owned(), args, envs: StrMap::new(), current_dir: None })
        }
        crate::types::LaunchMode::Direct => {
            let game = match native {
                Some(g) => g,
                None => { return Err(PortCellarError::message(concat(profile.name(), " is not installed in the detected Steam libraries"))); }
            };
            let exe = match &game.executable {
                Some(x) => x,
                None => { return Err(PortCellarError::message(concat3("The macOS ", profile.name(), " executable was not found"))); }
            };
            let dir = match parent_path(exe.as_str()) {
                Some(d) => d,
                None => { return Err(PortCellarError::message(concat(profile.name(), " executable has no parent"))); }
            };
            let mut args: Vec<String> = Vec::new();
            push_text(&mut args, "-x86_64".to_owned());
            push_text(&mut args, exe.clone());
            proof { reveal_strlit("-x86_64"); reveal_strlit("SteamAppId"); }
            assert(args.deep_view() =~= seq!["-x86_64"@, exe@]);
            let mut envs = StrMap::new();
            envs.insert("SteamAppId".to_owned(), profile.app_id().to_owned());
            assert(envs@ =~= seq![("SteamAppId"@, profile.spec_app_id())]);
            Ok(CommandPlan { program: "/usr/bin/arch".to_owned(), args, envs, current_dir: Some(dir) })
        }
    }
}

/// The launch plan for the reference game.
pub fn isaac_launch_plan(mode: crate::types::LaunchMode, runtime: &WineSteamRuntime, host: &LaunchHost, native: Option<&NativeGameInstall>) -> (r: Result<CommandPlan>)
    ensures launch_plan_result(r, &crate::games::isaac::default_isaac_profile(), mode, *runtime, *host, native),
{
    game_launch_plan(&crate::games::isaac::isaac_profile(), mode, runtime, host, native)
}

/// A plan that runs a Windows installer in the game's bottle.
#[derive(Debug)]
pub struct GameInstallerPlan {
    pub installer: String,
    pub command: CommandPlan,
}

/// Whether an installer extension (in any ASCII case) is one that Wine can run.
pub open spec fn installer_extension_ok(ext: Option<Seq<char>>) -> bool {
    match ext {
        Some(e) => {
            let l = crate::text::lower(e);
            l == "exe"@ || l == "msi"@ || l == "bat"@ || l == "cmd"@
        },
        None => false,
    }
}

/// The plan that runs `installer` with `installer_args` in the stopped bottle.
/// `installer_is_file` is whether the filesystem shows a regular file there, and
/// `envs` the environment the installer runs with.
pub fn game_installer_plan_for(
    runtime: &WineSteamRuntime,
    installer: &str,
    installer_args: &Vec<String>,
    installer_is_file: bool,
    envs: &StrMap,
) -> (r: Result<GameInstallerPlan>)
    ensures
        match r {
            Ok(p) => !runtime.running && !runtime.game_running && runtime.wine is Some && installer_is_file
                && installer_extension_ok(crate::paths::extension_of(installer@))
                && p.installer@ == installer@
                && p.command.program@ == runtime.wine->0@
                && p.command.args.deep_view() == seq![installer@] + installer_args.deep_view()
                && p.command.envs@ == envs@
                && opt_text(p.command.current_dir) == parent_of(installer@),
            Err(e) => if runtime.running || runtime.game_running {
                    e.text() == "stop Wine Steam and the game before planning an installer run"@
                } else if runtime.wine is None {
                    e.text() == "Wine was not found"@
                } else if !installer_is_file {
                    e.text() == "Windows installer was not found: "@ + installer@
                } else {
                    !installer_extension_ok(crate::paths::extension_of(installer@))
                        && e.text() == "Windows installer must use .exe, .msi, .bat, or .cmd"@
                },
        },
{
    if runtime.running || runtime.game_running {
        return Err(PortCellarError::message("stop Wine Steam and the game before planning an installer run".to_owned()));
    }
    let wine = match &runtime.wine {
        Some(w) => w,
        None => { return Err(PortCellarError::message("Wine was not found".to_owned())); }
    };
    if !installer_is_file {
        return Err(PortCellarError::message(concat("Windows installer was not found: ", installer)));
    }
    let ok = match crate::paths::path_extension(installer) {
        Some(e) => {
            let l = crate::text::lowercase(e.as_str());
            let s = l.as_str();
            proof { reveal_strlit("exe"); reveal_strlit("msi"); reveal_strlit("bat"); reveal_strlit("cmd"); }
            crate::text::same_text(s, "exe") || crate::text::same_text(s, "msi")
                || crate::text::same_text(s, "bat") || crate::text::same_text(s, "cmd")
        }
        None => false,
    };
    if !ok {
        return Err(PortCellarError::message("Windows installer must use .exe, .msi, .bat, or .cmd".to_owned()));
    }
    let mut args: Vec<String> = Vec::new();
    push_text(&mut args, installer.to_owned());
    append_texts(&mut args, installer_args);
    let ghost iv = installer@;
    assert(args.deep_view() =~= seq![iv] + installer_args.deep_view());
    Ok(GameInstallerPlan {
        installer: installer.to_owned(),
        command: CommandPlan { program: wine.clone(), args, envs: envs.clone(), current_dir: parent_path(installer) },
    })
}

} // verus!
