//! Whether a Steam session and a game are ready, and what an observation records.
use vstd::prelude::*;
use crate::games::{clone_opt, GameProfile, SteamIntegration};
use crate::inspect::steam_status::opt_string;
use crate::text::{same_text, starts_with, starts_with_text};
use crate::types::{GameRuntimeObservation, WineSteamRuntime};

verus! {

/// A Steam session is ready when the client runs and its web helper reports a live session.
pub open spec fn session_ready(runtime: WineSteamRuntime) -> bool {
    runtime.running && runtime.active_session == Some(true)
}

/// Whether the Steam client runs with a live session.
pub fn steam_session_ready(runtime: &WineSteamRuntime) -> (r: bool)
    ensures r == session_ready(*runtime),
{
    runtime.running && runtime.active_session == Some(true)
}

/// A game is ready when it runs and, if its profile requires Steam, the Steam session is ready.
pub open spec fn game_ready(integration: SteamIntegration, runtime: WineSteamRuntime) -> bool {
    runtime.game_running && (integration != SteamIntegration::Required || session_ready(runtime))
}

/// Whether the game runs with what its profile needs from Steam.
pub fn game_runtime_ready<P: GameProfile>(profile: &P, runtime: &WineSteamRuntime) -> (r: bool)
    ensures r == game_ready(profile.spec_steam_integration(), *runtime),
{
    runtime.game_running
        && (profile.steam_integration() != SteamIntegration::Required || steam_session_ready(runtime))
}

/// Whether `o` records `runtime` as observed for `profile`.
pub open spec fn observes<P: GameProfile>(o: GameRuntimeObservation, profile: &P, runtime: WineSteamRuntime) -> bool {
    &&& o.app_id@ == profile.spec_app_id()
    &&& o.profile_name@ == profile.spec_name()
    &&& o.profile_version@ == profile.spec_runtime_profile_version()
    &&& o.prefix == runtime.prefix
    &&& o.wine == runtime.wine
    &&& o.wine_version == runtime.wine_version
    &&& o.windows_version == runtime.windows_version
    &&& o.steam_exe == runtime.steam_exe
    &&& o.game_executable == runtime.game_executable
    &&& o.steam_running == runtime.running
    &&& o.game_running == runtime.game_running
    &&& o.active_session == runtime.active_session
    &&& o.steam_session_ready == session_ready(runtime)
    &&& o.logged_in == runtime.logged_in
    &&& o.cached_credentials == runtime.cached_credentials
    &&& o.login_status == runtime.login_status
    &&& o.connection_status == runtime.connection_status
    &&& o.cef_status == runtime.cef_status
}

/// The observation of `runtime`, tied to `profile`.
pub fn game_runtime_observation<P: GameProfile>(profile: &P, runtime: &WineSteamRuntime) -> (r: GameRuntimeObservation)
    ensures observes(r, profile, *runtime),
{
    GameRuntimeObservation {
        app_id: profile.app_id().to_owned(),
        profile_name: profile.name().to_owned(),
        profile_version: profile.runtime_profile_version().to_owned(),
        prefix: runtime.prefix.clone(),
        wine: clone_opt(&runtime.wine),
        wine_version: clone_opt(&runtime.wine_version),
        windows_version: clone_opt(&runtime.windows_version),
        steam_exe: clone_opt(&runtime.steam_exe),
        game_executable: clone_opt(&runtime.game_executable),
        steam_running: runtime.running,
        game_running: runtime.game_running,
        active_session: runtime.active_session,
        steam_session_ready: steam_session_ready(runtime),
        logged_in: runtime.logged_in,
        cached_credentials: runtime.cached_credentials,
        login_status: clone_opt(&runtime.login_status),
        connection_status: clone_opt(&runtime.connection_status),
        cef_status: clone_opt(&runtime.cef_status),
    }
}

/// An observation is ready, with the Steam session required, exactly when the game is
/// ready for a profile that requires Steam.
pub proof fn lemma_observation_ready_matches<P: GameProfile>(o: GameRuntimeObservation, profile: &P, runtime: WineSteamRuntime)
    requires
        observes(o, profile, runtime),
        profile.spec_steam_integration() == SteamIntegration::Required,
    ensures
        (o.game_running && o.steam_session_ready) == game_ready(profile.spec_steam_integration(), runtime),
{
}

/// A game whose profile requires Steam is never ready without a running Steam client.
pub proof fn lemma_required_steam_needs_client(runtime: WineSteamRuntime)
    requires !runtime.running,
    ensures !game_ready(SteamIntegration::Required, runtime),
{
}

/// A game that does not require Steam is ready exactly when it runs.
pub proof fn lemma_optional_steam_needs_only_game(integration: SteamIntegration, runtime: WineSteamRuntime)
    requires integration != SteamIntegration::Required,
    ensures game_ready(integration, runtime) == runtime.game_running,
{
}

/// The status text shown for an absent status.
pub open spec fn status_or_unknown(s: Option<Seq<char>>) -> Seq<char> {
    match s {
        Some(t) => t,
        None => "unknown"@,
    }
}

/// What the user should do while a Steam login has not produced a session: finish
/// signing in when the login window is up without a session, enter credentials
/// when Steam waits for them with a ready transport and window, and otherwise
/// inspect the runtime.
pub open spec fn login_action(runtime: WineSteamRuntime) -> Seq<char> {
    let login = status_or_unknown(opt_string(runtime.login_status));
    let connection = status_or_unknown(opt_string(runtime.connection_status));
    let cef = status_or_unknown(opt_string(runtime.cef_status));
    let window_ready = starts_with(cef, "login-window-ready"@);
    let transport_ready = connection == "cm-transport-ready"@ || connection == "webui-transport-ready"@
        || connection == "internet-connected"@;
    if runtime.active_session == Some(false) && window_ready {
        "complete Steam sign-in in the Wine window; cached login status is not an active session"@
    } else if login == "waiting-for-credentials"@ && transport_ready && window_ready {
        "enter Steam credentials or approve QR login in the Wine window"@
    } else {
        "run portcellar isaac doctor and inspect login, connection, and CEF status"@
    }
}

fn status_text(s: &Option<String>) -> (r: &str)
    ensures r@ == status_or_unknown(opt_string(*s)),
{
    match s {
        Some(t) => t.as_str(),
        None => "unknown",
    }
}

/// What the user should do to finish a Steam login that has not become a session.
pub fn steam_login_action(runtime: &WineSteamRuntime) -> (r: &'static str)
    ensures r@ == login_action(*runtime),
{
    let login = status_text(&runtime.login_status);
    let connection = status_text(&runtime.connection_status);
    let cef = status_text(&runtime.cef_status);
    let window_ready = starts_with_text(cef, "login-window-ready");
    let transport_ready = same_text(connection, "cm-transport-ready") || same_text(connection, "webui-transport-ready")
        || same_text(connection, "internet-connected");
    if runtime.active_session == Some(false) && window_ready {
        "complete Steam sign-in in the Wine window; cached login status is not an active session"
    } else if same_text(login, "waiting-for-credentials") && transport_ready && window_ready {
        "enter Steam credentials or approve QR login in the Wine window"
    } else {
        "run portcellar isaac doctor and inspect login, connection, and CEF status"
    }
}

} // verus!
