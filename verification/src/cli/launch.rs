//! The `game launch` request: its options, where its profile comes from, and the
//! checks that a launch request and its profile must pass.
use vstd::prelude::*;
use super::numbers::{mode_named, parse_mode, parse_timeout, parsed_u64};
use super::support::{source_check, source_step, ProfileSource, SourceView};
use crate::error::{PortCellarError, Result};
use crate::games::generic::{GenericGameProfile, ProfileModel};
use crate::games::{opt_text, GameProfile, SteamIntegration};
use crate::text::{all_digits, concat, is_digit_text, same_text, starts_with, starts_with_text, strip_all_prefix, strip_all_prefix_text};
use crate::types::LaunchMode;

verus! {

/// A `game launch` request.
#[derive(Debug)]
pub struct GameLaunchRequest {
    pub source: ProfileSource,
    pub app_id: Option<String>,
    pub from_analysis: Option<String>,
    pub name: Option<String>,
    pub windows_exe: Option<String>,
    pub launch_arguments: Vec<String>,
    pub install_dir_hint: Option<String>,
    pub windows_install_path: Option<String>,
    pub wine_engine_path: Option<String>,
    pub steam_integration: SteamIntegration,
    pub mode: LaunchMode,
    pub dry_run: bool,
    pub detach: bool,
    pub wait: bool,
    pub wait_login: bool,
    pub legacy_login: bool,
    pub capture_wine_log: bool,
    pub login_timeout_seconds: u64,
    pub launch_timeout_seconds: u64,
    pub stable_seconds: u64,
}

/// What a `game launch` request reads as.
pub ghost struct LaunchArgs {
    pub source: SourceView,
    pub app_id: Option<Seq<char>>,
    pub from_analysis: Option<Seq<char>>,
    pub name: Option<Seq<char>>,
    pub windows_exe: Option<Seq<char>>,
    pub launch_arguments: Seq<Seq<char>>,
    pub install_dir_hint: Option<Seq<char>>,
    pub windows_install_path: Option<Seq<char>>,
    pub wine_engine_path: Option<Seq<char>>,
    pub steam_integration: SteamIntegration,
    pub mode: LaunchMode,
    pub dry_run: bool,
    pub detach: bool,
    pub wait: bool,
    pub wait_login: bool,
    pub legacy_login: bool,
    pub capture_wine_log: bool,
    pub login_timeout_seconds: u64,
    pub launch_timeout_seconds: u64,
    pub stable_seconds: u64,
}

impl GameLaunchRequest {
    /// The request's options as texts.
    pub open spec fn model(&self) -> LaunchArgs {
        LaunchArgs {
            source: self.source.view_source(),
            app_id: opt_text(self.app_id),
            from_analysis: opt_text(self.from_analysis),
            name: opt_text(self.name),
            windows_exe: opt_text(self.windows_exe),
            launch_arguments: self.launch_arguments.deep_view(),
            install_dir_hint: opt_text(self.install_dir_hint),
            windows_install_path: opt_text(self.windows_install_path),
            wine_engine_path: opt_text(self.wine_engine_path),
            steam_integration: self.steam_integration,
            mode: self.mode,
            dry_run: self.dry_run,
            detach: self.detach,
            wait: self.wait,
            wait_login: self.wait_login,
            legacy_login: self.legacy_login,
            capture_wine_log: self.capture_wine_log,
            login_timeout_seconds: self.login_timeout_seconds,
            launch_timeout_seconds: self.launch_timeout_seconds,
            stable_seconds: self.stable_seconds,
        }
    }
}

/// The options before any argument is read.
pub open spec fn initial_launch_args() -> LaunchArgs {
    LaunchArgs {
        source: (None, None, None),
        app_id: None,
        from_analysis: None,
        name: None,
        windows_exe: None,
        launch_arguments: Seq::empty(),
        install_dir_hint: None,
        windows_install_path: None,
        wine_engine_path: None,
        steam_integration: SteamIntegration::Required,
        mode: LaunchMode::WineSteam,
        dry_run: false,
        detach: false,
        wait: false,
        wait_login: false,
        legacy_login: false,
        capture_wine_log: false,
        login_timeout_seconds: 600,
        launch_timeout_seconds: 90,
        stable_seconds: 10,
    }
}

/// `flag` at `i`: its value (none when the arguments end) and the next index, written
/// either as `flag VALUE` or `flag=VALUE`; nothing when the argument is another one.
pub open spec fn flag_at(args: Seq<Seq<char>>, i: int, flag: Seq<char>) -> Option<(Option<Seq<char>>, int)> {
    if args[i] == flag {
        if i + 1 < args.len() { Some((Some(args[i + 1]), i + 2)) } else { Some((None, args.len() as int)) }
    } else if starts_with(args[i], flag + "="@) {
        Some((Some(strip_all_prefix(args[i], flag + "="@)), i + 1))
    } else {
        None
    }
}

/// What a switch (an option without a value) does to `s`, if `a` is one.
#[verifier::opaque]
pub open spec fn launch_switch(a: Seq<char>, s: LaunchArgs) -> Option<LaunchArgs> {
    if a == "--dry-run"@ { Some(LaunchArgs { dry_run: true, ..s }) }
    else if a == "--detach"@ { Some(LaunchArgs { detach: true, ..s }) }
    else if a == "--wait"@ { Some(LaunchArgs { wait: true, ..s }) }
    else if a == "--wait-login"@ { Some(LaunchArgs { wait_login: true, ..s }) }
    else if a == "--legacy-login"@ { Some(LaunchArgs { legacy_login: true, ..s }) }
    else if a == "--capture-wine-log"@ { Some(LaunchArgs { capture_wine_log: true, ..s }) }
    else if a == "--no-steam"@ { Some(LaunchArgs { steam_integration: SteamIntegration::Standalone, ..s }) }
    else { None }
}

/// A timeout option's number, or the error for a missing or invalid one.
pub open spec fn timeout_value(v: Option<Seq<char>>, missing: Seq<char>) -> core::result::Result<u64, Seq<char>> {
    match v {
        None => Err(missing),
        Some(t) => match parsed_u64(t) {
            None => Err("invalid timeout seconds: "@ + t),
            Some(n) => Ok(n),
        },
    }
}

/// What the timeout options and `--from-analysis` do to `s`, if the argument at `i`
/// is one of them.
#[verifier::opaque]
pub open spec fn launch_timing(args: Seq<Seq<char>>, i: int, s: LaunchArgs) -> Option<core::result::Result<(LaunchArgs, int), Seq<char>>> {
    if let Some((v, next)) = flag_at(args, i, "--login-timeout-seconds"@) {
        Some(match timeout_value(v, "--login-timeout-seconds requires a number"@) {
            Err(m) => Err(m),
            Ok(n) => Ok((LaunchArgs { login_timeout_seconds: n, ..s }, next)),
        })
    } else if let Some((v, next)) = flag_at(args, i, "--from-analysis"@) {
        Some(Ok((LaunchArgs { from_analysis: v, ..s }, next)))
    } else if let Some((v, next)) = flag_at(args, i, "--launch-timeout-seconds"@) {
        Some(match timeout_value(v, "--launch-timeout-seconds requires a number"@) {
            Err(m) => Err(m),
            Ok(n) => Ok((LaunchArgs { launch_timeout_seconds: n, ..s }, next)),
        })
    } else if let Some((v, next)) = flag_at(args, i, "--stable-seconds"@) {
        Some(match timeout_value(v, "--stable-seconds requires a number"@) {
            Err(m) => Err(m),
            Ok(n) => Ok((LaunchArgs { stable_seconds: n, ..s }, next)),
        })
    } else {
        None
    }
}

/// What the profile field options and `--mode` do to `s`, if the argument at `i` is
/// one of them.
#[verifier::opaque]
pub open spec fn launch_fields(args: Seq<Seq<char>>, i: int, s: LaunchArgs) -> Option<core::result::Result<(LaunchArgs, int), Seq<char>>> {
    if let Some((v, next)) = flag_at(args, i, "--app-id"@) {
        Some(Ok((LaunchArgs { app_id: v, ..s }, next)))
    } else if let Some((v, next)) = flag_at(args, i, "--name"@) {
        Some(Ok((LaunchArgs { name: v, ..s }, next)))
    } else if let Some((v, next)) = flag_at(args, i, "--exe"@) {
        Some(Ok((LaunchArgs { windows_exe: v, ..s }, next)))
    } else if let Some((v, next)) = flag_at(args, i, "--launch-arg"@) {
        Some(match v {
            None => Err("--launch-arg requires a value"@),
            Some(x) => Ok((LaunchArgs { launch_arguments: s.launch_arguments.push(x), ..s }, next)),
        })
    } else if let Some((v, next)) = flag_at(args, i, "--install-dir"@) {
        Some(Ok((LaunchArgs { install_dir_hint: v, ..s }, next)))
    } else if let Some((v, next)) = flag_at(args, i, "--windows-path"@) {
        Some(Ok((LaunchArgs { windows_install_path: v, ..s }, next)))
    } else if let Some((v, next)) = flag_at(args, i, "--wine-engine"@) {
        Some(match v {
            None => Err("--wine-engine requires a path"@),
            Some(x) => Ok((LaunchArgs { wine_engine_path: Some(x), ..s }, next)),
        })
    } else if let Some((v, next)) = flag_at(args, i, "--mode"@) {
        Some(match v {
            None => Err("--mode requires a launch mode"@),
            Some(x) => match mode_named(x) {
                None => Err("unsupported launch mode: "@ + x),
                Some(m) => Ok((LaunchArgs { mode: m, ..s }, next)),
            },
        })
    } else {
        None
    }
}

/// What the argument at `i` (with its value, if it takes one) does to `s`: the new
/// options and the index of the next argument, or an error.
pub open spec fn launch_step(args: Seq<Seq<char>>, i: int, s: LaunchArgs) -> core::result::Result<(LaunchArgs, int), Seq<char>> {
    match source_step(s.source, args, i) {
        Some(Err(m)) => Err(m),
        Some(Ok((src, next))) => Ok((LaunchArgs { source: src, ..s }, next)),
        None => match launch_switch(args[i], s) {
            Some(s2) => Ok((s2, i + 1)),
            None => match launch_timing(args, i, s) {
                Some(r) => r,
                None => match launch_fields(args, i, s) {
                    Some(r) => r,
                    None => Err("unknown game launch option: "@ + args[i]),
                },
            },
        },
    }
}

/// The request that the arguments from `i` on make, given `s` read before them.
pub open spec fn launch_parse(args: Seq<Seq<char>>, i: int, s: LaunchArgs) -> core::result::Result<LaunchArgs, Seq<char>>
    decreases args.len() - i,
{
    if i < 0 || i >= args.len() {
        Ok(s)
    } else {
        match launch_step(args, i, s) {
            Err(m) => Err(m),
            Ok((s2, next)) => if i < next <= args.len() { launch_parse(args, next, s2) } else { Err(Seq::empty()) },
        }
    }
}

pub(crate) fn flag_value(args: &Vec<String>, i: usize, flag: &str) -> (r: Option<(Option<String>, usize)>)
    requires i < args.len(),
    ensures
        match r {
            None => flag_at(args.deep_view(), i as int, flag@) is None,
            Some((v, next)) => flag_at(args.deep_view(), i as int, flag@) == Some((opt_text(v), next as int)),
        },
{
    let a = args[i].as_str();
    assert(a@ == args.deep_view()[i as int]);
    if same_text(a, flag) {
        if i + 1 < args.len() {
            return Some((Some(args[i + 1].clone()), i + 2));
        }
        return Some((None, args.len()));
    }
    let prefix = concat(flag, "=");
    proof { reveal_strlit("="); }
    if starts_with_text(a, prefix.as_str()) {
        return Some((Some(strip_all_prefix_text(a, prefix.as_str())), i + 1));
    }
    None
}

fn apply_switch(q: &mut GameLaunchRequest, a: &str) -> (r: bool)
    ensures
        match launch_switch(a@, old(q).model()) {
            Some(s2) => r && final(q).model() == s2,
            None => !r && final(q).model() == old(q).model(),
        },
{
    proof {
        reveal(launch_switch);
        reveal_strlit("--dry-run");
        reveal_strlit("--detach");
        reveal_strlit("--wait");
        reveal_strlit("--wait-login");
        reveal_strlit("--legacy-login");
        reveal_strlit("--capture-wine-log");
        reveal_strlit("--no-steam");
    }
    if same_text(a, "--dry-run") { q.dry_run = true; return true; }
    if same_text(a, "--detach") { q.detach = true; return true; }
    if same_text(a, "--wait") { q.wait = true; return true; }
    if same_text(a, "--wait-login") { q.wait_login = true; return true; }
    if same_text(a, "--legacy-login") { q.legacy_login = true; return true; }
    if same_text(a, "--capture-wine-log") { q.capture_wine_log = true; return true; }
    if same_text(a, "--no-steam") { q.steam_integration = SteamIntegration::Standalone; return true; }
    false
}

pub(crate) fn timeout_of(v: Option<String>, missing: &str) -> (r: Result<u64>)
    ensures
        match timeout_value(opt_text(v), missing@) {
            Ok(n) => r matches Ok(m) && m == n,
            Err(t) => r matches Err(e) && e.text() == t,
        },
{
    match v {
        None => Err(PortCellarError::message(missing.to_owned())),
        Some(t) => parse_timeout(t.as_str()),
    }
}

fn apply_timing(q: &mut GameLaunchRequest, args: &Vec<String>, index: usize) -> (r: Option<Result<usize>>)
    requires index < args.len(),
    ensures
        match launch_timing(args.deep_view(), index as int, old(q).model()) {
            None => r is None && final(q).model() == old(q).model(),
            Some(Err(m)) => r matches Some(Err(e)) && e.text() == m,
            Some(Ok((s2, next))) => r matches Some(Ok(n)) && n == next && final(q).model() == s2,
        },
{
    proof { reveal(launch_timing); }
    if let Some((v, next)) = flag_value(args, index, "--login-timeout-seconds") {
        return Some(match timeout_of(v, "--login-timeout-seconds requires a number") {
            Err(e) => Err(e),
            Ok(n) => { q.login_timeout_seconds = n; Ok(next) }
        });
    }
    if let Some((v, next)) = flag_value(args, index, "--from-analysis") {
        q.from_analysis = v;
        return Some(Ok(next));
    }
    if let Some((v, next)) = flag_value(args, index, "--launch-timeout-seconds") {
        return Some(match timeout_of(v, "--launch-timeout-seconds requires a number") {
            Err(e) => Err(e),
            Ok(n) => { q.launch_timeout_seconds = n; Ok(next) }
        });
    }
    if let Some((v, next)) = flag_value(args, index, "--stable-seconds") {
        return Some(match timeout_of(v, "--stable-seconds requires a number") {
            Err(e) => Err(e),
            Ok(n) => { q.stable_seconds = n; Ok(next) }
        });
    }
    None
}

fn apply_fields(q: &mut GameLaunchRequest, args: &Vec<String>, index: usize) -> (r: Option<Result<usize>>)
    requires index < args.len(),
    ensures
        match launch_fields(args.deep_view(), index as int, old(q).model()) {
            None => r is None && final(q).model() == old(q).model(),
            Some(Err(m)) => r matches Some(Err(e)) && e.text() == m,
            Some(Ok((s2, next))) => r matches Some(Ok(n)) && n == next && final(q).model() == s2,
        },
{
    proof { reveal(launch_fields); }
    if let Some((v, next)) = flag_value(args, index, "--app-id") {
        q.app_id = v;
        return Some(Ok(next));
    }
    if let Some((v, next)) = flag_value(args, index, "--name") {
        q.name = v;
        return Some(Ok(next));
    }
    if let Some((v, next)) = flag_value(args, index, "--exe") {
        q.windows_exe = v;
        return Some(Ok(next));
    }
    if let Some((v, next)) = flag_value(args, index, "--launch-arg") {
        return Some(match v {
            None => Err(PortCellarError::message("--launch-arg requires a value".to_owned())),
            Some(x) => {
                let ghost before = q.launch_arguments.deep_view();
                let ghost xv = x@;
                q.launch_arguments.push(x);
                assert(q.launch_arguments.deep_view() =~= before.push(xv));
                Ok(next)
            }
        });
    }
    if let Some((v, next)) = flag_value(args, index, "--install-dir") {
        q.install_dir_hint = v;
        return Some(Ok(next));
    }
    if let Some((v, next)) = flag_value(args, index, "--windows-path") {
        q.windows_install_path = v;
        return Some(Ok(next));
    }
    if let Some((v, next)) = flag_value(args, index, "--wine-engine") {
        return Some(match v {
            None => Err(PortCellarError::message("--wine-engine requires a path".to_owned())),
            Some(x) => { q.wine_engine_path = Some(x); Ok(next) }
        });
    }
    if let Some((v, next)) = flag_value(args, index, "--mode") {
        return Some(match v {
            None => Err(PortCellarError::message("--mode requires a launch mode".to_owned())),
            Some(x) => match parse_mode(x.as_str()) {
                Err(e) => Err(e),
                Ok(m) => { q.mode = m; Ok(next) }
            },
        });
    }
    None
}

proof fn lemma_launch_step_advances(args: Seq<Seq<char>>, i: int, s: LaunchArgs)
    requires 0 <= i < args.len(),
    ensures launch_step(args, i, s) matches Ok((s2, next)) ==> i < next <= args.len(),
{
    reveal(launch_switch);
    reveal(launch_timing);
    reveal(launch_fields);
}

fn apply_launch_option(q: &mut GameLaunchRequest, args: &Vec<String>, index: usize) -> (r: Result<usize>)
    requires index < args.len(),
    ensures
        match launch_step(args.deep_view(), index as int, old(q).model()) {
            Ok((s2, next)) => r matches Ok(n) && n == next && final(q).model() == s2,
            Err(m) => r matches Err(e) && e.text() == m,
        },
{
    let ghost s = q.model();
    let mut i = index;
    match q.source.parse_arg(args, &mut i) {
        Err(e) => { return Err(e); }
        Ok(true) => {
            assert(q.model() == LaunchArgs { source: q.source.view_source(), ..s });
            return Ok(i + 1);
        }
        Ok(false) => {}
    }
    assert(q.model() == s);
    let a = args[index].as_str();
    assert(a@ == args.deep_view()[index as int]);
    if apply_switch(q, a) {
        return Ok(index + 1);
    }
    if let Some(r) = apply_timing(q, args, index) {
        return r;
    }
    if let Some(r) = apply_fields(q, args, index) {
        return r;
    }
    Err(PortCellarError::message(concat("unknown game launch option: ", a)))
}

/// Reads a `game launch` request.
pub fn parse_game_launch_request(args: &Vec<String>) -> (r: Result<GameLaunchRequest>)
    ensures
        match r {
            Ok(q) => launch_parse(args.deep_view(), 0, initial_launch_args()) == Ok::<LaunchArgs, Seq<char>>(q.model()),
            Err(e) => launch_parse(args.deep_view(), 0, initial_launch_args()) == Err::<LaunchArgs, Seq<char>>(e.text()),
        },
{
    let mut q = GameLaunchRequest {
        source: ProfileSource::new(),
        app_id: None,
        from_analysis: None,
        name: None,
        windows_exe: None,
        launch_arguments: Vec::new(),
        install_dir_hint: None,
        windows_install_path: None,
        wine_engine_path: None,
        steam_integration: SteamIntegration::Required,
        mode: LaunchMode::WineSteam,
        dry_run: false,
        detach: false,
        wait: false,
        wait_login: false,
        legacy_login: false,
        capture_wine_log: false,
        login_timeout_seconds: 600,
        launch_timeout_seconds: 90,
        stable_seconds: 10,
    };
    assert(q.launch_arguments.deep_view() =~= Seq::<Seq<char>>::empty());
    assert(q.model() == initial_launch_args());
    let ghost goal = launch_parse(args.deep_view(), 0, initial_launch_args());
    let mut index: usize = 0;
    while index < args.len()
        invariant
            index <= args.len(),
            goal == launch_parse(args.deep_view(), 0, initial_launch_args()),
            goal == launch_parse(args.deep_view(), index as int, q.model()),
        decreases args.len() - index,
    {
        proof { lemma_launch_step_advances(args.deep_view(), index as int, q.model()); }
        index = apply_launch_option(&mut q, args, index)?;
    }
    Ok(q)
}

/// Where a launch request takes its profile from.
#[derive(Debug)]
pub enum LaunchProfileSource {
    /// Build a profile candidate from the analysis of this Steam app id.
    Analysis(String),
    /// Load the profile file given with `--from-profile`.
    ProfileFile,
    /// Load the profile given with `--from-catalog` from the catalog.
    Catalog,
    /// The profile built from the request's own fields.
    Manual(GenericGameProfile),
}

/// Whether the request sets any profile field by hand.
pub open spec fn has_manual_fields(m: LaunchArgs) -> bool {
    m.app_id is Some || m.name is Some || m.windows_exe is Some || m.launch_arguments.len() > 0
        || m.install_dir_hint is Some || m.windows_install_path is Some || m.wine_engine_path is Some
}

/// How many profile sources the request names.
pub open spec fn source_count(m: LaunchArgs) -> int {
    (if m.from_analysis is Some { 1int } else { 0int })
        + (if m.source.1 is Some { 1int } else { 0int })
        + (if m.source.0 is Some { 1int } else { 0int })
}

/// The app id of a hand-built profile.
pub open spec fn manual_app_id(m: LaunchArgs) -> Seq<char> {
    match m.app_id { Some(a) => a, None => "local"@ }
}

/// The name of a hand-built profile.
pub open spec fn manual_name(m: LaunchArgs) -> Seq<char> {
    match m.name {
        Some(n) => n,
        None => if m.steam_integration == SteamIntegration::Standalone {
            "Standalone Windows app"@
        } else {
            "Steam app "@ + manual_app_id(m)
        },
    }
}

/// The profile a request builds from its own fields.
pub open spec fn manual_model(m: LaunchArgs) -> ProfileModel {
    let base = crate::games::generic::new_model(manual_app_id(m), manual_name(m), m.windows_exe->0);
    ProfileModel {
        steam_integration: m.steam_integration,
        install_dir_hint: match m.install_dir_hint { Some(h) => h, None => base.install_dir_hint },
        windows_install_path: match m.windows_install_path { Some(p) => Some(p), None => base.windows_install_path },
        wine_engine_path: match m.wine_engine_path { Some(p) => Some(p), None => base.wine_engine_path },
        launch_arguments: m.launch_arguments,
        ..base
    }
}

/// The verdict on where a launch request's profile comes from.
pub open spec fn launch_source_check(m: LaunchArgs) -> core::result::Result<(), Seq<char>> {
    if source_count(m) > 1 {
        Err("--from-catalog, --from-profile, and --from-analysis cannot be combined"@)
    } else if source_check(m.source, "game launch"@, false) is Err {
        source_check(m.source, "game launch"@, false)
    } else if m.from_analysis is Some {
        if m.steam_integration == SteamIntegration::Standalone {
            Err("--from-analysis uses a Steam manifest and cannot be combined with --no-steam"@)
        } else if has_manual_fields(m) {
            Err("--from-analysis cannot be combined with manual profile fields"@)
        } else { Ok(()) }
    } else if m.source.1 is Some {
        if m.steam_integration == SteamIntegration::Standalone {
            Err("--from-profile cannot be combined with --no-steam; set steam_integration in the profile document"@)
        } else if has_manual_fields(m) {
            Err("--from-profile cannot be combined with manual profile fields"@)
        } else { Ok(()) }
    } else if m.source.0 is Some {
        if m.steam_integration == SteamIntegration::Standalone {
            Err("--from-catalog cannot be combined with --no-steam; set steam_integration in the profile document"@)
        } else if has_manual_fields(m) {
            Err("--from-catalog cannot be combined with manual profile fields"@)
        } else { Ok(()) }
    } else if m.steam_integration != SteamIntegration::Standalone
        && !(manual_app_id(m).len() > 0 && all_digits(manual_app_id(m))) {
        Err("Steam game launch requires a numeric app id"@)
    } else if m.windows_exe is None {
        Err("game launch requires --exe GAME.EXE"@)
    } else {
        Ok(())
    }
}

fn any_manual_fields(q: &GameLaunchRequest) -> (r: bool)
    ensures r == has_manual_fields(q.model()),
{
    q.app_id.is_some() || q.name.is_some() || q.windows_exe.is_some() || q.launch_arguments.len() > 0
        || q.install_dir_hint.is_some() || q.windows_install_path.is_some() || q.wine_engine_path.is_some()
}

/// Decides where the request's profile comes from, and builds it when the request
/// describes it by hand.
pub fn game_launch_profile_source(q: &GameLaunchRequest) -> (r: Result<LaunchProfileSource>)
    ensures
        match r {
            Ok(src) => launch_source_check(q.model()) is Ok && match src {
                LaunchProfileSource::Analysis(a) => q.model().from_analysis == Some(a@),
                LaunchProfileSource::ProfileFile => q.model().from_analysis is None && q.model().source.1 is Some,
                LaunchProfileSource::Catalog => q.model().from_analysis is None && q.model().source.1 is None
                    && q.model().source.0 is Some,
                LaunchProfileSource::Manual(p) => q.model().from_analysis is None && q.model().source.1 is None
                    && q.model().source.0 is None && p@ == manual_model(q.model()),
            },
            Err(e) => launch_source_check(q.model()) == Err::<(), Seq<char>>(e.text()),
        },
{
    let count = (if q.from_analysis.is_some() { 1u8 } else { 0u8 })
        + (if q.source.from_profile.is_some() { 1u8 } else { 0u8 })
        + (if q.source.from_catalog.is_some() { 1u8 } else { 0u8 });
    if count > 1 {
        return Err(PortCellarError::message("--from-catalog, --from-profile, and --from-analysis cannot be combined".to_owned()));
    }
    proof { reveal_strlit("game launch"); }
    q.source.validate("game launch", false)?;
    let standalone = q.steam_integration == SteamIntegration::Standalone;
    if let Some(a) = &q.from_analysis {
        if standalone {
            return Err(PortCellarError::message("--from-analysis uses a Steam manifest and cannot be combined with --no-steam".to_owned()));
        }
        if any_manual_fields(q) {
            return Err(PortCellarError::message("--from-analysis cannot be combined with manual profile fields".to_owned()));
        }
        return Ok(LaunchProfileSource::Analysis(a.clone()));
    }
    if q.source.from_profile.is_some() {
        if standalone {
            return Err(PortCellarError::message(
                "--from-profile cannot be combined with --no-steam; set steam_integration in the profile document".to_owned()));
        }
        if any_manual_fields(q) {
            return Err(PortCellarError::message("--from-profile cannot be combined with manual profile fields".to_owned()));
        }
        return Ok(LaunchProfileSource::ProfileFile);
    }
    if q.source.from_catalog.is_some() {
        if standalone {
            return Err(PortCellarError::message(
                "--from-catalog cannot be combined with --no-steam; set steam_integration in the profile document".to_owned()));
        }
        if any_manual_fields(q) {
            return Err(PortCellarError::message("--from-catalog cannot be combined with manual profile fields".to_owned()));
        }
        return Ok(LaunchProfileSource::Catalog);
    }
    proof { reveal_strlit("local"); }
    let app_id = match &q.app_id {
        Some(a) => a.clone(),
        None => "local".to_owned(),
    };
    if !standalone && !(app_id.as_str().unicode_len() > 0 && is_digit_text(app_id.as_str())) {
        return Err(PortCellarError::message("Steam game launch requires a numeric app id".to_owned()));
    }
    let exe = match &q.windows_exe {
        Some(x) => x,
        None => { return Err(PortCellarError::message("game launch requires --exe GAME.EXE".to_owned())); }
    };
    let name = match &q.name {
        Some(n) => n.clone(),
        None => if standalone {
            proof { reveal_strlit("Standalone Windows app"); }
            "Standalone Windows app".to_owned()
        } else {
            concat("Steam app ", app_id.as_str())
        },
    };
    let mut profile = GenericGameProfile::new(app_id.as_str(), name.as_str(), exe.as_str());
    profile = profile.with_steam_integration(q.steam_integration);
    if let Some(h) = &q.install_dir_hint {
        profile = profile.with_install_dir_hint(h.as_str());
    }
    if let Some(p) = &q.windows_install_path {
        profile = profile.with_windows_install_path(p.as_str());
    }
    if let Some(p) = &q.wine_engine_path {
        profile = profile.with_wine_engine_path(p.as_str());
    }
    let ghost base = profile@;
    assert(base.launch_arguments =~= Seq::<Seq<char>>::empty());
    assert(q.launch_arguments.deep_view().take(0) =~= Seq::<Seq<char>>::empty());
    assert(profile@ == (ProfileModel { launch_arguments: q.launch_arguments.deep_view().take(0), ..base }));
    let mut i: usize = 0;
    while i < q.launch_arguments.len()
        invariant
            i <= q.launch_arguments.len(),
            profile@ == (ProfileModel { launch_arguments: q.launch_arguments.deep_view().take(i as int), ..base }),
            base.launch_arguments == Seq::<Seq<char>>::empty(),
        decreases q.launch_arguments.len() - i,
    {
        profile = profile.with_launch_argument(q.launch_arguments[i].as_str());
        assert(q.launch_arguments.deep_view().take(i + 1) =~= q.launch_arguments.deep_view().take(i as int).push(q.launch_arguments@[i as int]@));
        i = i + 1;
    }
    assert(q.launch_arguments.deep_view().take(i as int) =~= q.launch_arguments.deep_view());
    Ok(LaunchProfileSource::Manual(profile))
}

/// Whether a launch mode runs under Wine.
pub open spec fn wine_mode(mode: LaunchMode) -> bool {
    mode == LaunchMode::WineSteam || mode == LaunchMode::WineDirect
}

/// The verdict on launching `profile` the way the request asks.
pub open spec fn launch_request_check(m: LaunchArgs, integration: SteamIntegration, install_path: Option<Seq<char>>) -> core::result::Result<(), Seq<char>> {
    if integration == SteamIntegration::Standalone && install_path is None {
        Err("no-steam requires --windows-path C:\\Games\\Example"@)
    } else if integration == SteamIntegration::Standalone && m.mode != LaunchMode::WineDirect {
        Err("no-steam currently supports only --mode wine-direct"@)
    } else if (m.wait || m.capture_wine_log) && !wine_mode(m.mode) {
        Err("--wait and --capture-wine-log require a Wine launch mode"@)
    } else if m.wait_login && integration != SteamIntegration::Required {
        Err("--wait-login requires a profile with Required Steam integration"@)
    } else if m.wait_login && !wine_mode(m.mode) {
        Err("--wait-login requires a Wine launch mode"@)
    } else {
        Ok(())
    }
}

/// Checks that `profile` can be launched the way the request asks.
pub fn check_game_launch<P: GameProfile>(q: &GameLaunchRequest, profile: &P) -> (r: Result<()>)
    ensures
        match r {
            Ok(()) => launch_request_check(q.model(), profile.spec_steam_integration(), profile.spec_windows_install_path_hint()) is Ok,
            Err(e) => launch_request_check(q.model(), profile.spec_steam_integration(), profile.spec_windows_install_path_hint())
                == Err::<(), Seq<char>>(e.text()),
        },
{
    let integration = profile.steam_integration();
    let wine = q.mode == LaunchMode::WineSteam || q.mode == LaunchMode::WineDirect;
    if integration == SteamIntegration::Standalone && profile.windows_install_path_hint().is_none() {
        return Err(PortCellarError::message("no-steam requires --windows-path C:\\Games\\Example".to_owned()));
    }
    if integration == SteamIntegration::Standalone && q.mode != LaunchMode::WineDirect {
        return Err(PortCellarError::message("no-steam currently supports only --mode wine-direct".to_owned()));
    }
    if (q.wait || q.capture_wine_log) && !wine {
        return Err(PortCellarError::message("--wait and --capture-wine-log require a Wine launch mode".to_owned()));
    }
    if q.wait_login && integration != SteamIntegration::Required {
        return Err(PortCellarError::message("--wait-login requires a profile with Required Steam integration".to_owned()));
    }
    if q.wait_login && !wine {
        return Err(PortCellarError::message("--wait-login requires a Wine launch mode".to_owned()));
    }
    Ok(())
}

} // verus!
