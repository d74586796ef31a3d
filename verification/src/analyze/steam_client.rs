//! Analysis of the Windows Steam client installed in a Wine prefix: its binaries,
//! browser (CEF) targets, packages and logs, and what an active probe saw.
//!
//! Walking the Steam directory, reading logs and running the probe happen at the
//! edge; here are the records, the signals read from a log's text, and the
//! findings, recommendations and blockers drawn from them.
use vstd::prelude::*;
use crate::analyze::discovery::{flag_texts, flagged};
use crate::analyze::{PeSummary, RuntimeSnapshot};
use crate::error::{PortCellarError, Result};
use crate::games::clone_strings;
use crate::paths::{parent_of, parent_path};
use crate::runtime::launch::{steam_args_for, steam_wine_args, SteamLaunchSettings};
use crate::runtime::wine::{prepend_dll_override, prepended_override};
use crate::strmap::StrMap;
use crate::text::{concat, contains, contains_text, count_matches, lower, lowercase, match_count};
use crate::types::{CommandPlan, WineSteamRuntime};
use crate::sort::text_before;
use crate::strmap::{lemma_text_lt_irreflexive, lemma_text_lt_transitive, text_lt};

verus! {

/// The version tag of a Steam client analysis.
pub const STEAM_CLIENT_ANALYSIS_VERSION: &'static str = "steam-client-analysis-v1";

/// How a Steam client analysis runs.
#[derive(Debug, Clone, Copy)]
pub struct SteamClientAnalysisOptions {
    /// Whether to start Steam and watch it.
    pub probe: bool,
    /// How long the probe watches, in seconds.
    pub probe_seconds: u64,
    /// Whether to stop Steam after the probe.
    pub stop_after: bool,
    /// Whether Steam starts with its older login window.
    pub legacy_login: bool,
}

impl Default for SteamClientAnalysisOptions {
    fn default() -> (r: Self)
        ensures
            !r.probe && r.probe_seconds == 20 && !r.stop_after && !r.legacy_login,
    {
        SteamClientAnalysisOptions { probe: false, probe_seconds: 20, stop_after: false, legacy_login: false }
    }
}

/// Where a Steam client analysis was written.
#[derive(Debug, Clone)]
pub struct SteamClientAnalysisArtifacts {
    pub root: String,
    pub report_path: String,
    pub raw_process_before_path: String,
    pub raw_process_after_path: String,
    pub raw_probe_log_path: String,
    pub experiment_path: String,
}

/// A Steam client binary that exists, with its size and PE headers.
#[derive(Debug, Clone)]
pub struct SteamClientBinary {
    pub label: String,
    pub path: String,
    pub relative_path: String,
    pub size: u64,
    pub pe: Option<PeSummary>,
}

/// One of Steam's browser (CEF) directories and what it holds.
#[derive(Debug, Clone)]
pub struct SteamCefTargetAnalysis {
    pub relative_dir: String,
    pub arch: String,
    pub helper_exists: bool,
    pub helper_is_wrapper: bool,
    pub helper_size: Option<u64>,
    pub real_helper_exists: bool,
    pub libcef_exists: bool,
    pub libcef_size: Option<u64>,
    pub vulkan_loader_exists: bool,
    pub d3dcompiler_exists: bool,
    pub helper_pe: Option<PeSummary>,
}

/// A Steam package file.
#[derive(Debug, Clone)]
pub struct SteamPackageAnalysis {
    pub name: String,
    pub size: u64,
}

/// A Steam log file and the signal its tail shows.
#[derive(Debug, Clone)]
pub struct SteamLogAnalysis {
    pub name: String,
    pub size: u64,
    pub modified_unix_seconds: Option<u64>,
    pub signal: Option<String>,
}

/// What an active probe of the Steam client did and saw.
#[derive(Debug, Clone)]
pub struct SteamClientProbe {
    pub started_pid: Option<u32>,
    pub start_error: Option<String>,
    pub ticks: Vec<SteamClientProbeTick>,
    pub stopped_after: bool,
    pub stop_exit_code: Option<i32>,
}

/// The state of Steam at one second of a probe.
#[derive(Debug, Clone)]
pub struct SteamClientProbeTick {
    pub elapsed_seconds: u64,
    pub running: bool,
    pub logged_in: Option<bool>,
    pub connection_status: Option<String>,
    pub cef_status: Option<String>,
    pub active_session: Option<bool>,
    pub readiness_issues: Vec<String>,
}

/// The analysis of the Windows Steam client of a Wine prefix.
#[derive(Debug)]
pub struct SteamClientAnalysis {
    pub version: &'static str,
    pub options: SteamClientAnalysisOptions,
    pub steam_dir: Option<String>,
    pub runtime: RuntimeSnapshot,
    pub binaries: Vec<SteamClientBinary>,
    pub cef_targets: Vec<SteamCefTargetAnalysis>,
    pub packages: Vec<SteamPackageAnalysis>,
    pub logs: Vec<SteamLogAnalysis>,
    pub probe: Option<SteamClientProbe>,
    pub findings: Vec<String>,
    pub recommendations: Vec<String>,
    pub blockers: Vec<String>,
}

// ---------------------------------------------------------------- log signals

/// The signal that the text of a Steam log shows, checked in this order: a fatal
/// CEF process error, a webhelper restart loop (three restarts or more), a CEF
/// graphics context warning, a connected transport, a login success, a login that
/// needs attention. Matching ignores ASCII case.
pub open spec fn log_signal(text: Seq<char>) -> Option<Seq<char>> {
    let l = lower(text);
    if contains(l, "fatal:process_metrics_win"@) {
        Some("cef fatal process_metrics_win"@)
    } else if match_count(l, "restart webhelper process"@) >= 3 {
        Some("webhelper restart loop"@)
    } else if contains(l, "eglcreatecontext"@) {
        Some("cef graphics context warning"@)
    } else if contains(l, "connection status: connected"@) || contains(l, "connectioncompleted()"@)
        || contains(l, "connection ready"@) {
        Some("transport connected"@)
    } else if contains(l, "received logon success response"@) || contains(l, "setloginstate: success"@) {
        Some("login success"@)
    } else if contains(l, "failed to poll auth session"@) || contains(l, "waitingforcredentials"@) {
        Some("login attention needed"@)
    } else {
        None
    }
}

/// The signal that the text of a Steam log shows, if any.
pub fn steam_log_signal_from_text(text: &str) -> (r: Option<String>)
    ensures
        match r {
            Some(s) => log_signal(text@) == Some(s@),
            None => log_signal(text@) is None,
        },
{
    let l = lowercase(text);
    let l = l.as_str();
    proof { reveal_strlit("restart webhelper process"); }
    if contains_text(l, "fatal:process_metrics_win") {
        Some("cef fatal process_metrics_win".to_owned())
    } else if count_matches(l, "restart webhelper process") >= 3 {
        Some("webhelper restart loop".to_owned())
    } else if contains_text(l, "eglcreatecontext") {
        Some("cef graphics context warning".to_owned())
    } else if contains_text(l, "connection status: connected") || contains_text(l, "connectioncompleted()")
        || contains_text(l, "connection ready") {
        Some("transport connected".to_owned())
    } else if contains_text(l, "received logon success response") || contains_text(l, "setloginstate: success") {
        Some("login success".to_owned())
    } else if contains_text(l, "failed to poll auth session") || contains_text(l, "waitingforcredentials") {
        Some("login attention needed".to_owned())
    } else {
        None
    }
}

// ---------------------------------------------------------------- evidence

/// Whether some CEF target has the current webhelper wrapper.
pub open spec fn any_wrapper(targets: Seq<SteamCefTargetAnalysis>) -> bool {
    exists|i: int| 0 <= i < targets.len() && #[trigger] targets[i].helper_is_wrapper
}

/// Whether some CEF target ships both libcef and a Vulkan loader.
pub open spec fn any_own_cef_stack(targets: Seq<SteamCefTargetAnalysis>) -> bool {
    exists|i: int| 0 <= i < targets.len() && #[trigger] targets[i].libcef_exists && targets[i].vulkan_loader_exists
}

/// Whether some CEF target has a webhelper that is not the current wrapper.
pub open spec fn any_unwrapped_helper(targets: Seq<SteamCefTargetAnalysis>) -> bool {
    exists|i: int| 0 <= i < targets.len() && #[trigger] targets[i].helper_exists && !targets[i].helper_is_wrapper
}

/// Whether some log shows the signal `signal`.
pub open spec fn any_log_signal(logs: Seq<SteamLogAnalysis>, signal: Seq<char>) -> bool {
    exists|i: int| 0 <= i < logs.len() && (#[trigger] logs[i].signal matches Some(s) && s@ == signal)
}

/// Whether some tick saw Steam running.
pub open spec fn any_running(ticks: Seq<SteamClientProbeTick>) -> bool {
    exists|i: int| 0 <= i < ticks.len() && #[trigger] ticks[i].running
}

/// Whether some tick saw a CEF state that holds `login-window-ready`.
pub open spec fn any_login_window(ticks: Seq<SteamClientProbeTick>) -> bool {
    exists|i: int| 0 <= i < ticks.len()
        && (#[trigger] ticks[i].cef_status matches Some(s) && contains(s@, "login-window-ready"@))
}

/// Whether some tick saw Steam logged in.
pub open spec fn any_logged_in(ticks: Seq<SteamClientProbeTick>) -> bool {
    exists|i: int| 0 <= i < ticks.len() && #[trigger] ticks[i].logged_in == Some(true)
}

/// Whether some tick saw an active webhelper session.
pub open spec fn any_active_session(ticks: Seq<SteamClientProbeTick>) -> bool {
    exists|i: int| 0 <= i < ticks.len() && #[trigger] ticks[i].active_session == Some(true)
}

fn has_wrapper(targets: &Vec<SteamCefTargetAnalysis>) -> (r: bool)
    ensures r == any_wrapper(targets@),
{
    let mut i: usize = 0;
    while i < targets.len()
        invariant i <= targets.len(), forall|k: int| 0 <= k < i ==> !(#[trigger] targets@[k].helper_is_wrapper),
        decreases targets.len() - i,
    {
        if targets[i].helper_is_wrapper { return true; }
        i = i + 1;
    }
    false
}

fn has_own_cef_stack(targets: &Vec<SteamCefTargetAnalysis>) -> (r: bool)
    ensures r == any_own_cef_stack(targets@),
{
    let mut i: usize = 0;
    while i < targets.len()
        invariant
            i <= targets.len(),
            forall|k: int| 0 <= k < i ==> !(#[trigger] targets@[k].libcef_exists && targets@[k].vulkan_loader_exists),
        decreases targets.len() - i,
    {
        if targets[i].libcef_exists && targets[i].vulkan_loader_exists { return true; }
        i = i + 1;
    }
    false
}

fn has_unwrapped_helper(targets: &Vec<SteamCefTargetAnalysis>) -> (r: bool)
    ensures r == any_unwrapped_helper(targets@),
{
    let mut i: usize = 0;
    while i < targets.len()
        invariant
            i <= targets.len(),
            forall|k: int| 0 <= k < i ==> !(#[trigger] targets@[k].helper_exists && !targets@[k].helper_is_wrapper),
        decreases targets.len() - i,
    {
        if targets[i].helper_exists && !targets[i].helper_is_wrapper { return true; }
        i = i + 1;
    }
    false
}

fn has_log_signal(logs: &Vec<SteamLogAnalysis>, signal: &str) -> (r: bool)
    ensures r == any_log_signal(logs@, signal@),
{
    let mut i: usize = 0;
    while i < logs.len()
        invariant
            i <= logs.len(),
            forall|k: int| 0 <= k < i ==> !(#[trigger] logs@[k].signal matches Some(s) && s@ == signal@),
        decreases logs.len() - i,
    {
        if let Some(s) = &logs[i].signal {
            if crate::text::same_text(s.as_str(), signal) { return true; }
        }
        i = i + 1;
    }
    false
}

fn saw_running(ticks: &Vec<SteamClientProbeTick>) -> (r: bool)
    ensures r == any_running(ticks@),
{
    let mut i: usize = 0;
    while i < ticks.len()
        invariant i <= ticks.len(), forall|k: int| 0 <= k < i ==> !(#[trigger] ticks@[k].running),
        decreases ticks.len() - i,
    {
        if ticks[i].running { return true; }
        i = i + 1;
    }
    false
}

fn saw_login_window(ticks: &Vec<SteamClientProbeTick>) -> (r: bool)
    ensures r == any_login_window(ticks@),
{
    let mut i: usize = 0;
    while i < ticks.len()
        invariant
            i <= ticks.len(),
            forall|k: int| 0 <= k < i
                ==> !(#[trigger] ticks@[k].cef_status matches Some(s) && contains(s@, "login-window-ready"@)),
        decreases ticks.len() - i,
    {
        if let Some(s) = &ticks[i].cef_status {
            if contains_text(s.as_str(), "login-window-ready") { return true; }
        }
        i = i + 1;
    }
    false
}

fn saw_logged_in(ticks: &Vec<SteamClientProbeTick>) -> (r: bool)
    ensures r == any_logged_in(ticks@),
{
    let mut i: usize = 0;
    while i < ticks.len()
        invariant i <= ticks.len(), forall|k: int| 0 <= k < i ==> #[trigger] ticks@[k].logged_in != Some(true),
        decreases ticks.len() - i,
    {
        if ticks[i].logged_in == Some(true) { return true; }
        i = i + 1;
    }
    false
}

fn saw_active_session(ticks: &Vec<SteamClientProbeTick>) -> (r: bool)
    ensures r == any_active_session(ticks@),
{
    let mut i: usize = 0;
    while i < ticks.len()
        invariant i <= ticks.len(), forall|k: int| 0 <= k < i ==> #[trigger] ticks@[k].active_session != Some(true),
        decreases ticks.len() - i,
    {
        if ticks[i].active_session == Some(true) { return true; }
        i = i + 1;
    }
    false
}

// ---------------------------------------------------------------- conclusions

/// The findings of an analysis, each once, in text order.
pub open spec fn findings_of(a: SteamClientAnalysis) -> Seq<Seq<char>> {
    flagged(seq![
        (a.probe matches Some(p) && any_logged_in(p.ticks@) && !any_active_session(p.ticks@),
            "Active probe did not observe a nonzero SteamID webhelper session; login readiness is inferred from cache/logs."@),
        (a.probe matches Some(p) && any_running(p.ticks@), "Active probe observed Wine Steam processes running."@),
        (a.probe matches Some(p) && any_login_window(p.ticks@), "Active probe reached a Steam CEF login/window-ready state."@),
        (any_wrapper(a.cef_targets@), "Current steamwebhelper wrapper is installed for at least one CEF target."@),
        (any_log_signal(a.logs@, "webhelper restart loop"@),
            "Recent Steam UI logs still contain steamwebhelper restart-loop evidence."@),
        (any_own_cef_stack(a.cef_targets@), "Steam CEF ships its own libcef and Vulkan loader stack."@),
        (any_log_signal(a.logs@, "transport connected"@), "Steam logs show a previously connected WebUI/client transport."@),
        (a.steam_dir is Some, "Windows Steam install detected in the selected Wine prefix."@),
    ])
}

/// The recommendations of an analysis, each once, in text order.
pub open spec fn recommendations_of(a: SteamClientAnalysis) -> Seq<Seq<char>> {
    flagged(seq![
        (true, "Continue disabling Steam overlay for baseline game probes until Steam CEF is stable."@),
        (true, "Gate game launch on live Steam transport/session checks, not cached credentials alone."@),
        (true, "Keep Steam client compatibility separate from per-game profiles; CEF and overlay failures can mask game issues."@),
        (any_unwrapped_helper(a.cef_targets@), "Patch or verify steamwebhelper wrapper before active Wine Steam login probes."@),
        (any_log_signal(a.logs@, "cef graphics context warning"@),
            "Prioritize CEF graphics-context workarounds before changing game render backends."@),
        (any_log_signal(a.logs@, "login attention needed"@),
            "Treat login/auth transport as a Steam-client layer issue, not a game profile issue."@),
    ])
}

/// The blockers of an analysis, in the order they are checked.
pub open spec fn blockers_of(a: SteamClientAnalysis) -> Seq<Seq<char>> {
    flagged(seq![
        (a.runtime.wine is None, "Wine engine missing"@),
        (a.runtime.steam_exe is None, "Windows Steam executable missing in selected prefix"@),
        (a.steam_dir is None, "Steam directory could not be derived from steam.exe"@),
    ]) + (if a.options.probe && a.probe is Some {
        let p = a.probe->0;
        (match p.start_error { Some(e) => seq!["Active probe could not start Steam: "@ + e@], None => Seq::empty() })
            + (if !any_running(p.ticks@) { seq!["Active probe did not observe running Wine Steam processes"@] } else { Seq::empty() })
    } else {
        Seq::empty()
    })
}

fn steam_client_findings(a: &SteamClientAnalysis) -> (r: Vec<String>)
    ensures r.deep_view() == findings_of(*a),
{
    let (running, window, session_gap) = match &a.probe {
        Some(p) => (saw_running(&p.ticks), saw_login_window(&p.ticks),
            saw_logged_in(&p.ticks) && !saw_active_session(&p.ticks)),
        None => (false, false, false),
    };
    let mut flags: Vec<(bool, &str)> = Vec::new();
    flags.push((session_gap,
        "Active probe did not observe a nonzero SteamID webhelper session; login readiness is inferred from cache/logs."));
    flags.push((running, "Active probe observed Wine Steam processes running."));
    flags.push((window, "Active probe reached a Steam CEF login/window-ready state."));
    flags.push((has_wrapper(&a.cef_targets), "Current steamwebhelper wrapper is installed for at least one CEF target."));
    flags.push((has_log_signal(&a.logs, "webhelper restart loop"),
        "Recent Steam UI logs still contain steamwebhelper restart-loop evidence."));
    flags.push((has_own_cef_stack(&a.cef_targets), "Steam CEF ships its own libcef and Vulkan loader stack."));
    flags.push((has_log_signal(&a.logs, "transport connected"), "Steam logs show a previously connected WebUI/client transport."));
    flags.push((a.steam_dir.is_some(), "Windows Steam install detected in the selected Wine prefix."));
    assert(flags@.map_values(|f: (bool, &str)| (f.0, f.1@)) =~= seq![
        (a.probe matches Some(p) && any_logged_in(p.ticks@) && !any_active_session(p.ticks@),
            "Active probe did not observe a nonzero SteamID webhelper session; login readiness is inferred from cache/logs."@),
        (a.probe matches Some(p) && any_running(p.ticks@), "Active probe observed Wine Steam processes running."@),
        (a.probe matches Some(p) && any_login_window(p.ticks@), "Active probe reached a Steam CEF login/window-ready state."@),
        (any_wrapper(a.cef_targets@), "Current steamwebhelper wrapper is installed for at least one CEF target."@),
        (any_log_signal(a.logs@, "webhelper restart loop"@),
            "Recent Steam UI logs still contain steamwebhelper restart-loop evidence."@),
        (any_own_cef_stack(a.cef_targets@), "Steam CEF ships its own libcef and Vulkan loader stack."@),
        (any_log_signal(a.logs@, "transport connected"@), "Steam logs show a previously connected WebUI/client transport."@),
        (a.steam_dir is Some, "Windows Steam install detected in the selected Wine prefix."@),
    ]);
    flag_texts(&flags)
}

fn steam_client_recommendations(a: &SteamClientAnalysis) -> (r: Vec<String>)
    ensures r.deep_view() == recommendations_of(*a),
{
    let mut flags: Vec<(bool, &str)> = Vec::new();
    flags.push((true, "Continue disabling Steam overlay for baseline game probes until Steam CEF is stable."));
    flags.push((true, "Gate game launch on live Steam transport/session checks, not cached credentials alone."));
    flags.push((true,
        "Keep Steam client compatibility separate from per-game profiles; CEF and overlay failures can mask game issues."));
    flags.push((has_unwrapped_helper(&a.cef_targets),
        "Patch or verify steamwebhelper wrapper before active Wine Steam login probes."));
    flags.push((has_log_signal(&a.logs, "cef graphics context warning"),
        "Prioritize CEF graphics-context workarounds before changing game render backends."));
    flags.push((has_log_signal(&a.logs, "login attention needed"),
        "Treat login/auth transport as a Steam-client layer issue, not a game profile issue."));
    assert(flags@.map_values(|f: (bool, &str)| (f.0, f.1@)) =~= seq![
        (true, "Continue disabling Steam overlay for baseline game probes until Steam CEF is stable."@),
        (true, "Gate game launch on live Steam transport/session checks, not cached credentials alone."@),
        (true, "Keep Steam client compatibility separate from per-game profiles; CEF and overlay failures can mask game issues."@),
        (any_unwrapped_helper(a.cef_targets@), "Patch or verify steamwebhelper wrapper before active Wine Steam login probes."@),
        (any_log_signal(a.logs@, "cef graphics context warning"@),
            "Prioritize CEF graphics-context workarounds before changing game render backends."@),
        (any_log_signal(a.logs@, "login attention needed"@),
            "Treat login/auth transport as a Steam-client layer issue, not a game profile issue."@),
    ]);
    flag_texts(&flags)
}

fn steam_client_blockers(a: &SteamClientAnalysis) -> (r: Vec<String>)
    ensures r.deep_view() == blockers_of(*a),
{
    let mut flags: Vec<(bool, &str)> = Vec::new();
    flags.push((a.runtime.wine.is_none(), "Wine engine missing"));
    flags.push((a.runtime.steam_exe.is_none(), "Windows Steam executable missing in selected prefix"));
    flags.push((a.steam_dir.is_none(), "Steam directory could not be derived from steam.exe"));
    assert(flags@.map_values(|f: (bool, &str)| (f.0, f.1@)) =~= seq![
        (a.runtime.wine is None, "Wine engine missing"@),
        (a.runtime.steam_exe is None, "Windows Steam executable missing in selected prefix"@),
        (a.steam_dir is None, "Steam directory could not be derived from steam.exe"@),
    ]);
    let mut blockers = flag_texts(&flags);
    let ghost base = blockers.deep_view();
    if a.options.probe {
        if let Some(p) = &a.probe {
            if let Some(e) = &p.start_error {
                blockers.push(concat("Active probe could not start Steam: ", e.as_str()));
            }
            let ghost mid = blockers.deep_view();
            if !saw_running(&p.ticks) {
                blockers.push("Active probe did not observe running Wine Steam processes".to_owned());
                assert(blockers.deep_view() =~= mid.push("Active probe did not observe running Wine Steam processes"@));
            }
        }
    }
    assert(blockers.deep_view() =~= blockers_of(*a));
    blockers
}

impl SteamClientAnalysis {
    /// Whether the findings, recommendations and blockers are those its evidence gives.
    pub open spec fn concluded(&self) -> bool {
        &&& self.findings.deep_view() == findings_of(*self)
        &&& self.recommendations.deep_view() == recommendations_of(*self)
        &&& self.blockers.deep_view() == blockers_of(*self)
    }

    /// Draws the findings, recommendations and blockers from the evidence.
    pub fn conclude(&mut self)
        ensures
            final(self).concluded(),
            final(self).steam_dir == old(self).steam_dir,
            final(self).runtime == old(self).runtime,
            final(self).options == old(self).options,
            final(self).binaries == old(self).binaries,
            final(self).cef_targets == old(self).cef_targets,
            final(self).packages == old(self).packages,
            final(self).logs == old(self).logs,
            final(self).probe == old(self).probe,
            final(self).version == old(self).version,
    {
        let findings = steam_client_findings(self);
        let recommendations = steam_client_recommendations(self);
        let blockers = steam_client_blockers(self);
        self.findings = findings;
        self.recommendations = recommendations;
        self.blockers = blockers;
    }
}

/// The Steam directory of a runtime: the directory holding its `steam.exe`.
pub fn steam_client_dir(runtime: &WineSteamRuntime) -> (r: Option<String>)
    ensures
        match runtime.steam_exe {
            Some(exe) => match r {
                Some(d) => parent_of(exe@) == Some(d@),
                None => parent_of(exe@) is None,
            },
            None => r is None,
        },
{
    match &runtime.steam_exe {
        Some(exe) => parent_path(exe.as_str()),
        None => None,
    }
}

/// The analysis of the Steam client of `runtime` from what was found in its Steam
/// directory, with its findings, recommendations and blockers drawn. Where no Steam
/// directory can be derived, nothing found there is kept.
pub fn analyze_steam_client(
    options: &SteamClientAnalysisOptions,
    runtime: &WineSteamRuntime,
    binaries: Vec<SteamClientBinary>,
    cef_targets: Vec<SteamCefTargetAnalysis>,
    packages: Vec<SteamPackageAnalysis>,
    logs: Vec<SteamLogAnalysis>,
) -> (r: SteamClientAnalysis)
    ensures
        r.version@ == STEAM_CLIENT_ANALYSIS_VERSION@,
        r.options == *options,
        match runtime.steam_exe {
            Some(exe) => match r.steam_dir {
                Some(d) => parent_of(exe@) == Some(d@),
                None => parent_of(exe@) is None,
            },
            None => r.steam_dir is None,
        },
        crate::analyze::is_snapshot_of(r.runtime, *runtime),
        r.steam_dir is Some ==> r.binaries == binaries && r.cef_targets == cef_targets
            && r.packages == packages && r.logs == logs,
        r.steam_dir is None ==> r.binaries@.len() == 0 && r.cef_targets@.len() == 0
            && r.packages@.len() == 0 && r.logs@.len() == 0,
        r.probe is None,
        r.concluded(),
{
    let steam_dir = steam_client_dir(runtime);
    let found = steam_dir.is_some();
    let mut analysis = SteamClientAnalysis {
        version: STEAM_CLIENT_ANALYSIS_VERSION,
        options: *options,
        steam_dir,
        runtime: RuntimeSnapshot::from_runtime(runtime),
        binaries: if found { binaries } else { Vec::new() },
        cef_targets: if found { cef_targets } else { Vec::new() },
        packages: if found { packages } else { Vec::new() },
        logs: if found { logs } else { Vec::new() },
        probe: None,
        findings: Vec::new(),
        recommendations: Vec::new(),
        blockers: Vec::new(),
    };
    analysis.conclude();
    analysis
}

/// Records an active probe: the runtime and logs seen after it (logs only where
/// they could be read), then the findings, recommendations and blockers again.
pub fn record_steam_client_probe(
    analysis: &mut SteamClientAnalysis,
    probe: SteamClientProbe,
    runtime: &WineSteamRuntime,
    logs: Option<Vec<SteamLogAnalysis>>,
)
    ensures
        final(analysis).probe == Some(probe),
        crate::analyze::is_snapshot_of(final(analysis).runtime, *runtime),
        match runtime.steam_exe {
            Some(exe) => match final(analysis).steam_dir {
                Some(d) => parent_of(exe@) == Some(d@),
                None => parent_of(exe@) is None,
            },
            None => final(analysis).steam_dir is None,
        },
        final(analysis).logs == match logs {
            Some(l) => if final(analysis).steam_dir is Some { l } else { old(analysis).logs },
            None => old(analysis).logs,
        },
        final(analysis).options == old(analysis).options,
        final(analysis).binaries == old(analysis).binaries,
        final(analysis).cef_targets == old(analysis).cef_targets,
        final(analysis).packages == old(analysis).packages,
        final(analysis).concluded(),
{
    analysis.probe = Some(probe);
    analysis.runtime = RuntimeSnapshot::from_runtime(runtime);
    analysis.steam_dir = steam_client_dir(runtime);
    if analysis.steam_dir.is_some() {
        if let Some(l) = logs {
            analysis.logs = l;
        }
    }
    analysis.conclude();
}

// ---------------------------------------------------------------- the probe

/// The last second a probe looks at: the configured seconds, at least one.
pub fn probe_deadline(options: &SteamClientAnalysisOptions) -> (r: u64)
    ensures r == if options.probe_seconds < 1 { 1 } else { options.probe_seconds },
{
    if options.probe_seconds < 1 { 1 } else { options.probe_seconds }
}

/// The state of Steam that `runtime` shows at second `elapsed_seconds` of a probe.
pub fn steam_client_probe_tick(elapsed_seconds: u64, runtime: &WineSteamRuntime) -> (r: SteamClientProbeTick)
    ensures
        r.elapsed_seconds == elapsed_seconds,
        r.running == runtime.running,
        r.logged_in == runtime.logged_in,
        r.connection_status == runtime.connection_status,
        r.cef_status == runtime.cef_status,
        r.active_session == runtime.active_session,
        r.readiness_issues.deep_view() == runtime.readiness_issues.deep_view(),
{
    SteamClientProbeTick {
        elapsed_seconds,
        running: runtime.running,
        logged_in: runtime.logged_in,
        connection_status: crate::games::clone_opt(&runtime.connection_status),
        cef_status: crate::games::clone_opt(&runtime.cef_status),
        active_session: runtime.active_session,
        readiness_issues: clone_strings(&runtime.readiness_issues),
    }
}

/// The record of a probe: the started process or why it did not start, the ticks
/// watched, and, where stopping was asked for (`stop` is `Some`), the stop command's
/// exit code if it ran. Ticks are kept only for a probe that started.
pub fn steam_client_probe_result(
    start: core::result::Result<u32, String>,
    ticks: Vec<SteamClientProbeTick>,
    stop: Option<Option<i32>>,
) -> (r: SteamClientProbe)
    ensures
        match start {
            Ok(pid) => r.started_pid == Some(pid) && r.start_error is None && r.ticks == ticks,
            Err(e) => r.started_pid is None && r.start_error == Some(e) && r.ticks@.len() == 0,
        },
        r.stopped_after == stop is Some,
        r.stop_exit_code == match stop { Some(c) => c, None => None },
{
    let (started_pid, start_error, ticks) = match start {
        Ok(pid) => (Some(pid), None, ticks),
        Err(e) => (None, Some(e), Vec::new()),
    };
    let (stopped_after, stop_exit_code) = match stop {
        Some(c) => (true, c),
        None => (false, None),
    };
    SteamClientProbe { started_pid, start_error, ticks, stopped_after, stop_exit_code }
}

/// The overrides that keep Steam's overlay out of the client a probe starts.
pub const STEAM_OVERLAY_DLL_OVERRIDE: &'static str = "gameoverlayrenderer,gameoverlayrenderer64=";

/// The command that starts the Steam client for a probe: Steam under Wine, with the
/// legacy login window if asked, the bottle's Wine environment, the overlay off, and
/// the overlay DLLs overridden in front of the `WINEDLLOVERRIDES` already set.
pub fn steam_client_start_plan(
    runtime: &WineSteamRuntime,
    legacy_login: bool,
    wine_env: &StrMap,
    existing_overrides: Option<&str>,
    settings: &SteamLaunchSettings,
) -> (r: Result<CommandPlan>)
    ensures
        match r {
            Ok(p) => runtime.wine matches Some(w) && runtime.steam_exe is Some
                && p.program@ == w@
                && p.args.deep_view() == steam_args_for(*runtime,
                    if legacy_login { seq!["-noreactlogin"@] } else { Seq::empty() }, *settings)
                && p.envs.map() == wine_env.map()
                    .insert("SteamNoOverlayUI"@, "1"@)
                    .insert("DISABLE_VK_LAYER_VALVE_steam_overlay_1"@, "1"@)
                    .insert("WINEDLLOVERRIDES"@, prepended_override(STEAM_OVERLAY_DLL_OVERRIDE@,
                        match existing_overrides { Some(e) => Some(e@), None => None }))
                && p.current_dir is None,
            Err(e) => if runtime.wine is None {
                e.text() == "Wine was not found"@
            } else {
                runtime.steam_exe is None
                    && e.text() == "Windows Steam was not found in the configured Wine prefix"@
            },
        },
{
    let wine = match &runtime.wine {
        Some(w) => w,
        None => { return Err(PortCellarError::message("Wine was not found".to_owned())); }
    };
    if runtime.steam_exe.is_none() {
        return Err(PortCellarError::message("Windows Steam was not found in the configured Wine prefix".to_owned()));
    }
    let mut extra: Vec<String> = Vec::new();
    if legacy_login {
        extra.push("-noreactlogin".to_owned());
    }
    assert(extra.deep_view() =~= if legacy_login { seq!["-noreactlogin"@] } else { Seq::<Seq<char>>::empty() });
    let mut envs = wine_env.clone();
    envs.insert("SteamNoOverlayUI".to_owned(), "1".to_owned());
    envs.insert("DISABLE_VK_LAYER_VALVE_steam_overlay_1".to_owned(), "1".to_owned());
    envs.insert("WINEDLLOVERRIDES".to_owned(), prepend_dll_override(STEAM_OVERLAY_DLL_OVERRIDE, existing_overrides));
    Ok(CommandPlan { program: wine.clone(), args: steam_wine_args(runtime, &extra, settings), envs, current_dir: None })
}

/// CEF targets are listed by relative directory.
impl crate::sort::ListOrder for SteamCefTargetAnalysis {
    open spec fn precedes(a: Self, b: Self) -> bool {
        text_lt(a.relative_dir@, b.relative_dir@)
    }

    proof fn lemma_irreflexive(a: Self) {
        lemma_text_lt_irreflexive(a.relative_dir@);
    }

    proof fn lemma_transitive(a: Self, b: Self, c: Self) {
        lemma_text_lt_transitive(a.relative_dir@, b.relative_dir@, c.relative_dir@);
    }

    fn goes_before(&self, other: &Self) -> (r: bool) {
        text_before(self.relative_dir.as_str(), other.relative_dir.as_str())
    }
}

/// Packages are listed by name.
impl crate::sort::ListOrder for SteamPackageAnalysis {
    open spec fn precedes(a: Self, b: Self) -> bool {
        text_lt(a.name@, b.name@)
    }

    proof fn lemma_irreflexive(a: Self) {
        lemma_text_lt_irreflexive(a.name@);
    }

    proof fn lemma_transitive(a: Self, b: Self, c: Self) {
        lemma_text_lt_transitive(a.name@, b.name@, c.name@);
    }

    fn goes_before(&self, other: &Self) -> (r: bool) {
        text_before(self.name.as_str(), other.name.as_str())
    }
}

/// Whether modification time `a` is later than `b`, where an unknown time is
/// earliest.
pub open spec fn later_time(a: Option<u64>, b: Option<u64>) -> bool {
    match (a, b) {
        (Some(x), Some(y)) => x > y,
        (Some(_), None) => true,
        _ => false,
    }
}

/// Logs are listed newest first, then by name.
impl crate::sort::ListOrder for SteamLogAnalysis {
    open spec fn precedes(a: Self, b: Self) -> bool {
        later_time(a.modified_unix_seconds, b.modified_unix_seconds)
            || (a.modified_unix_seconds == b.modified_unix_seconds && text_lt(a.name@, b.name@))
    }

    proof fn lemma_irreflexive(a: Self) {
        lemma_text_lt_irreflexive(a.name@);
    }

    proof fn lemma_transitive(a: Self, b: Self, c: Self) {
        if a.modified_unix_seconds == b.modified_unix_seconds && b.modified_unix_seconds == c.modified_unix_seconds {
            lemma_text_lt_transitive(a.name@, b.name@, c.name@);
        }
    }

    fn goes_before(&self, other: &Self) -> (r: bool) {
        let later = match (self.modified_unix_seconds, other.modified_unix_seconds) {
            (Some(x), Some(y)) => x > y,
            (Some(_), None) => true,
            _ => false,
        };
        later || (self.modified_unix_seconds == other.modified_unix_seconds
            && text_before(self.name.as_str(), other.name.as_str()))
    }
}

} // verus!
