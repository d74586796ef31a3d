//! The requests of the reference game's commands: `isaac launch`, `isaac run` (and
//! `isaac play`, which is `run` with defaults in front) and `isaac steam-login`.
use vstd::prelude::*;
use super::launch::{flag_at, flag_value, timeout_of, timeout_value};
use super::numbers::{mode_named, parse_mode};
use crate::error::{PortCellarError, Result};
use crate::text::{concat3, same_text};
use crate::types::LaunchMode;

verus! {

/// The reference game's commands that launch or log in.
#[derive(Debug, Clone, Copy, PartialEq, Eq, Structural)]
pub enum IsaacCommand {
    Launch,
    Run,
    SteamLogin,
}

/// What one of these commands was asked to do.
#[derive(Debug, Clone, Copy)]
pub struct IsaacLaunchRequest {
    pub mode: LaunchMode,
    pub dry_run: bool,
    pub detach: bool,
    pub wait: bool,
    pub wait_login: bool,
    pub legacy_login: bool,
    pub capture_wine_log: bool,
    pub login_timeout_seconds: u64,
    pub launch_timeout_seconds: u64,
    pub stable_seconds: u64,
}

/// The request before any argument is read: Steam mode, ten minutes to log in,
/// ninety seconds to launch, ten seconds to stay up.
pub open spec fn initial_isaac_request() -> IsaacLaunchRequest {
    IsaacLaunchRequest {
        mode: LaunchMode::Steam,
        dry_run: false,
        detach: false,
        wait: false,
        wait_login: false,
        legacy_login: false,
        capture_wine_log: false,
        login_timeout_seconds: 600,
        launch_timeout_seconds: 90,
        stable_seconds: 10,
    }
}

/// The name a command's errors give it.
pub open spec fn command_label(c: IsaacCommand) -> Seq<char> {
    match c {
        IsaacCommand::Launch => "launch"@,
        IsaacCommand::Run => "run"@,
        IsaacCommand::SteamLogin => "steam-login"@,
    }
}

/// What a switch does to `s`, if `a` is one that command `c` takes: every command
/// takes `--dry-run` and `--legacy-login`; `launch` and `run` take
/// `--capture-wine-log`; `launch` and `steam-login` take `--detach` and `--wait`;
/// only `launch` takes `--wait-login`.
#[verifier::opaque]
pub open spec fn isaac_switch(c: IsaacCommand, a: Seq<char>, s: IsaacLaunchRequest) -> Option<IsaacLaunchRequest> {
    if a == "--dry-run"@ { Some(IsaacLaunchRequest { dry_run: true, ..s }) }
    else if a == "--legacy-login"@ { Some(IsaacLaunchRequest { legacy_login: true, ..s }) }
    else if a == "--capture-wine-log"@ && c != IsaacCommand::SteamLogin { Some(IsaacLaunchRequest { capture_wine_log: true, ..s }) }
    else if a == "--detach"@ && c != IsaacCommand::Run { Some(IsaacLaunchRequest { detach: true, ..s }) }
    else if a == "--wait"@ && c != IsaacCommand::Run { Some(IsaacLaunchRequest { wait: true, ..s }) }
    else if a == "--wait-login"@ && c == IsaacCommand::Launch { Some(IsaacLaunchRequest { wait_login: true, ..s }) }
    else { None }
}

/// What an option with a value does to `s`, if the argument at `i` is one that
/// command `c` takes: `steam-login` takes `--timeout-seconds`; the others take the
/// login, launch and stability timeouts; `launch` also takes `--mode`.
#[verifier::opaque]
pub open spec fn isaac_value_option(c: IsaacCommand, args: Seq<Seq<char>>, i: int, s: IsaacLaunchRequest) -> Option<core::result::Result<(IsaacLaunchRequest, int), Seq<char>>> {
    if c == IsaacCommand::SteamLogin {
        if let Some((v, next)) = flag_at(args, i, "--timeout-seconds"@) {
            Some(match timeout_value(v, "--timeout-seconds requires a number"@) {
                Err(m) => Err(m),
                Ok(n) => Ok((IsaacLaunchRequest { login_timeout_seconds: n, ..s }, next)),
            })
        } else {
            None
        }
    } else if let Some((v, next)) = flag_at(args, i, "--login-timeout-seconds"@) {
        Some(match timeout_value(v, "--login-timeout-seconds requires a number"@) {
            Err(m) => Err(m),
            Ok(n) => Ok((IsaacLaunchRequest { login_timeout_seconds: n, ..s }, next)),
        })
    } else if let Some((v, next)) = flag_at(args, i, "--launch-timeout-seconds"@) {
        Some(match timeout_value(v, "--launch-timeout-seconds requires a number"@) {
            Err(m) => Err(m),
            Ok(n) => Ok((IsaacLaunchRequest { launch_timeout_seconds: n, ..s }, next)),
        })
    } else if let Some((v, next)) = flag_at(args, i, "--stable-seconds"@) {
        Some(match timeout_value(v, "--stable-seconds requires a number"@) {
            Err(m) => Err(m),
            Ok(n) => Ok((IsaacLaunchRequest { stable_seconds: n, ..s }, next)),
        })
    } else if c == IsaacCommand::Launch && flag_at(args, i, "--mode"@) is Some {
        let (v, next) = flag_at(args, i, "--mode"@)->0;
        Some(match v {
            None => Err("--mode requires steam, native, direct, wine-steam, or wine-direct"@),
            Some(x) => match mode_named(x) {
                None => Err("unsupported launch mode: "@ + x),
                Some(m) => Ok((IsaacLaunchRequest { mode: m, ..s }, next)),
            },
        })
    } else {
        None
    }
}

/// What the argument at `i` (with its value, if it takes one) does to `s`.
pub open spec fn isaac_step(c: IsaacCommand, args: Seq<Seq<char>>, i: int, s: IsaacLaunchRequest) -> core::result::Result<(IsaacLaunchRequest, int), Seq<char>> {
    match isaac_switch(c, args[i], s) {
        Some(s2) => Ok((s2, i + 1)),
        None => match isaac_value_option(c, args, i, s) {
            Some(r) => r,
            None => Err("unknown "@ + command_label(c) + " option: "@ + args[i]),
        },
    }
}

/// The request that the arguments from `i` on make, given `s` read before them.
pub open spec fn isaac_parse(c: IsaacCommand, args: Seq<Seq<char>>, i: int, s: IsaacLaunchRequest) -> core::result::Result<IsaacLaunchRequest, Seq<char>>
    decreases args.len() - i,
{
    if i < 0 || i >= args.len() {
        Ok(s)
    } else {
        match isaac_step(c, args, i, s) {
            Err(m) => Err(m),
            Ok((s2, next)) => if i < next <= args.len() { isaac_parse(c, args, next, s2) } else { Err(Seq::empty()) },
        }
    }
}

/// Whether `m` runs the game under Wine.
pub open spec fn wine_mode(m: LaunchMode) -> bool {
    m == LaunchMode::WineSteam || m == LaunchMode::WineDirect
}

/// The checks a parsed request must pass, and what they settle: `launch` refuses
/// options that its mode cannot use, and waiting or capturing the Wine log detaches
/// the launch; `steam-login` detaches when it waits.
pub open spec fn isaac_check(c: IsaacCommand, s: IsaacLaunchRequest) -> core::result::Result<IsaacLaunchRequest, Seq<char>> {
    match c {
        IsaacCommand::Launch => {
            if s.wait && !wine_mode(s.mode) {
                Err("--wait is only supported with --mode wine-steam or wine-direct"@)
            } else if s.wait_login && s.mode != LaunchMode::WineSteam {
                Err("--wait-login is only supported with --mode wine-steam"@)
            } else if s.legacy_login && !s.wait_login {
                Err("--legacy-login is only used with --wait-login"@)
            } else if s.capture_wine_log && !wine_mode(s.mode) {
                Err("--capture-wine-log is only supported with --mode wine-steam or wine-direct"@)
            } else {
                Ok(IsaacLaunchRequest { detach: s.detach || s.wait || s.capture_wine_log, ..s })
            }
        },
        IsaacCommand::Run => Ok(s),
        IsaacCommand::SteamLogin => Ok(IsaacLaunchRequest { detach: s.detach || s.wait, ..s }),
    }
}

/// The request that command `c` makes of `args`, or its error.
pub open spec fn isaac_request(c: IsaacCommand, args: Seq<Seq<char>>) -> core::result::Result<IsaacLaunchRequest, Seq<char>> {
    match isaac_parse(c, args, 0, initial_isaac_request()) {
        Err(m) => Err(m),
        Ok(s) => isaac_check(c, s),
    }
}

fn command_name(c: IsaacCommand) -> (r: &'static str)
    ensures r@ == command_label(c),
{
    match c {
        IsaacCommand::Launch => "launch",
        IsaacCommand::Run => "run",
        IsaacCommand::SteamLogin => "steam-login",
    }
}

fn apply_switch(c: IsaacCommand, q: &mut IsaacLaunchRequest, a: &str) -> (r: bool)
    ensures
        match isaac_switch(c, a@, *old(q)) {
            Some(s2) => r && *final(q) == s2,
            None => !r && *final(q) == *old(q),
        },
{
    proof {
        reveal(isaac_switch);
        reveal_strlit("--dry-run");
        reveal_strlit("--legacy-login");
        reveal_strlit("--capture-wine-log");
        reveal_strlit("--detach");
        reveal_strlit("--wait");
        reveal_strlit("--wait-login");
    }
    if same_text(a, "--dry-run") { q.dry_run = true; return true; }
    if same_text(a, "--legacy-login") { q.legacy_login = true; return true; }
    if same_text(a, "--capture-wine-log") && c != IsaacCommand::SteamLogin { q.capture_wine_log = true; return true; }
    if same_text(a, "--detach") && c != IsaacCommand::Run { q.detach = true; return true; }
    if same_text(a, "--wait") && c != IsaacCommand::Run { q.wait = true; return true; }
    if same_text(a, "--wait-login") && c == IsaacCommand::Launch { q.wait_login = true; return true; }
    false
}

fn apply_value_option(c: IsaacCommand, q: &mut IsaacLaunchRequest, args: &Vec<String>, index: usize) -> (r: Option<Result<usize>>)
    requires index < args.len(),
    ensures
        match isaac_value_option(c, args.deep_view(), index as int, *old(q)) {
            None => r is None && *final(q) == *old(q),
            Some(Err(m)) => r matches Some(Err(e)) && e.text() == m,
            Some(Ok((s2, next))) => r matches Some(Ok(n)) && n == next && *final(q) == s2,
        },
{
    proof { reveal(isaac_value_option); }
    if c == IsaacCommand::SteamLogin {
        if let Some((v, next)) = flag_value(args, index, "--timeout-seconds") {
            return Some(match timeout_of(v, "--timeout-seconds requires a number") {
                Err(e) => Err(e),
                Ok(n) => { q.login_timeout_seconds = n; Ok(next) }
            });
        }
        return None;
    }
    if let Some((v, next)) = flag_value(args, index, "--login-timeout-seconds") {
        return Some(match timeout_of(v, "--login-timeout-seconds requires a number") {
            Err(e) => Err(e),
            Ok(n) => { q.login_timeout_seconds = n; Ok(next) }
        });
    }
    if let Some((v, next)) = flag_value(args, index, "--launch-timeout-seconds") {
        return Some(match timeout_of(v, "--launch-timeout-seconds requires a number") {
            Err(e) => Err(e),
            Ok(n) => { q.launch_timeout_seconds = n; Ok(next) }
        });
    }
    if let Some((v, next)) = flag_value(args, index, "--stable-seconds") {
        return Some(match timeout_of(v, "--stable-seconds requires a number") {
            Err(e) => Err(e),
            Ok(n) => { q.stable_seconds = n; Ok(next) }
        });
    }
    if c == IsaacCommand::Launch {
        if let Some((v, next)) = flag_value(args, index, "--mode") {
            return Some(match v {
                None => Err(PortCellarError::message(
                    "--mode requires steam, native, direct, wine-steam, or wine-direct".to_owned())),
                Some(x) => match parse_mode(x.as_str()) {
                    Err(e) => Err(e),
                    Ok(m) => { q.mode = m; Ok(next) }
                },
            });
        }
    }
    None
}

proof fn lemma_isaac_step_advances(c: IsaacCommand, args: Seq<Seq<char>>, i: int, s: IsaacLaunchRequest)
    requires 0 <= i < args.len(),
    ensures isaac_step(c, args, i, s) matches Ok((s2, next)) ==> i < next <= args.len(),
{
    reveal(isaac_switch);
    reveal(isaac_value_option);
}

fn apply_option(c: IsaacCommand, q: &mut IsaacLaunchRequest, args: &Vec<String>, index: usize) -> (r: Result<usize>)
    requires index < args.len(),
    ensures
        match isaac_step(c, args.deep_view(), index as int, *old(q)) {
            Ok((s2, next)) => r matches Ok(n) && n == next && *final(q) == s2,
            Err(m) => r matches Err(e) && e.text() == m,
        },
{
    let a = args[index].as_str();
    assert(a@ == args.deep_view()[index as int]);
    if apply_switch(c, q, a) {
        return Ok(index + 1);
    }
    if let Some(r) = apply_value_option(c, q, args, index) {
        return r;
    }
    let head = concat3("unknown ", command_name(c), " option: ");
    let text = crate::text::concat(head.as_str(), a);
    assert(text@ =~= "unknown "@ + command_label(c) + " option: "@ + args.deep_view()[index as int]);
    Err(PortCellarError::message(text))
}

fn check_request(c: IsaacCommand, s: IsaacLaunchRequest) -> (r: Result<IsaacLaunchRequest>)
    ensures
        match isaac_check(c, s) {
            Ok(t) => r matches Ok(u) && u == t,
            Err(m) => r matches Err(e) && e.text() == m,
        },
{
    match c {
        IsaacCommand::Launch => {
            let wine = s.mode == LaunchMode::WineSteam || s.mode == LaunchMode::WineDirect;
            if s.wait && !wine {
                return Err(PortCellarError::message("--wait is only supported with --mode wine-steam or wine-direct".to_owned()));
            }
            if s.wait_login && s.mode != LaunchMode::WineSteam {
                return Err(PortCellarError::message("--wait-login is only supported with --mode wine-steam".to_owned()));
            }
            if s.legacy_login && !s.wait_login {
                return Err(PortCellarError::message("--legacy-login is only used with --wait-login".to_owned()));
            }
            if s.capture_wine_log && !wine {
                return Err(PortCellarError::message(
                    "--capture-wine-log is only supported with --mode wine-steam or wine-direct".to_owned()));
            }
            Ok(IsaacLaunchRequest { detach: s.detach || s.wait || s.capture_wine_log, ..s })
        },
        IsaacCommand::Run => Ok(s),
        IsaacCommand::SteamLogin => Ok(IsaacLaunchRequest { detach: s.detach || s.wait, ..s }),
    }
}

/// Reads and checks the request of command `c`.
pub fn parse_isaac_request(c: IsaacCommand, args: &Vec<String>) -> (r: Result<IsaacLaunchRequest>)
    ensures
        match isaac_request(c, args.deep_view()) {
            Ok(t) => r matches Ok(u) && u == t,
            Err(m) => r matches Err(e) && e.text() == m,
        },
{
    let mut q = IsaacLaunchRequest {
        mode: LaunchMode::Steam,
        dry_run: false,
        detach: false,
        wait: false,
        wait_login: false,
        legacy_login: false,
        capture_wine_log: false,
        login_timeout_seconds: 600,
        launch_timeout_seconds: 90,
        stable_seconds: 10,
    };
    let ghost goal = isaac_parse(c, args.deep_view(), 0, initial_isaac_request());
    let mut index: usize = 0;
    while index < args.len()
        invariant
            index <= args.len(),
            goal == isaac_parse(c, args.deep_view(), 0, initial_isaac_request()),
            goal == isaac_parse(c, args.deep_view(), index as int, q),
        decreases args.len() - index,
    {
        proof { lemma_isaac_step_advances(c, args.deep_view(), index as int, q); }
        index = apply_option(c, &mut q, args, index)?;
    }
    check_request(c, q)
}

/// The defaults `isaac play` puts in front of its arguments before it runs as
/// `isaac run`: a captured Wine log, five minutes to launch, 45 seconds to stay up.
pub open spec fn play_defaults() -> Seq<Seq<char>> {
    seq!["--capture-wine-log"@, "--launch-timeout-seconds"@, "300"@, "--stable-seconds"@, "45"@]
}

/// The arguments `isaac play` runs `isaac run` with.
pub fn play_arguments(args: &Vec<String>) -> (r: Vec<String>)
    ensures r.deep_view() == play_defaults() + args.deep_view(),
{
    let mut out: Vec<String> = Vec::new();
    crate::runtime::launch::push_text(&mut out, "--capture-wine-log".to_owned());
    crate::runtime::launch::push_text(&mut out, "--launch-timeout-seconds".to_owned());
    crate::runtime::launch::push_text(&mut out, "300".to_owned());
    crate::runtime::launch::push_text(&mut out, "--stable-seconds".to_owned());
    crate::runtime::launch::push_text(&mut out, "45".to_owned());
    assert(out.deep_view() =~= play_defaults());
    crate::runtime::launch::append_texts(&mut out, args);
    out
}

} // verus!
