//! The Markdown reports of a porting analysis and of a Steam client analysis.
use vstd::prelude::*;
use super::{GamePortingAnalysis, LocalGameAnalysis, PeSummary, RuntimeSnapshot, SteamAppManifest, WindowsExeCandidate};
use crate::games::{GameProfile, SteamIntegration};
use super::steam_client::{
    SteamCefTargetAnalysis, SteamClientAnalysis, SteamClientBinary, SteamClientProbe, SteamClientProbeTick,
    SteamLogAnalysis, SteamPackageAnalysis,
};
use crate::runtime::launch::{append_texts, push_text};
use crate::text::{concat, concat3, decimal, decimal_text, join_texts, joined_with};

verus! {

/// The text of an optional value, or `fallback` where there is none.
pub open spec fn or_else_text(o: Option<String>, fallback: Seq<char>) -> Seq<char> {
    match o {
        Some(s) => s@,
        None => fallback,
    }
}

/// How Rust prints a `bool`.
pub open spec fn bool_text(b: bool) -> Seq<char> {
    if b { "true"@ } else { "false"@ }
}

/// How Rust prints a signed integer.
pub open spec fn signed_decimal(n: int) -> Seq<char> {
    if n < 0 { "-"@ + decimal((-n) as nat) } else { decimal(n as nat) }
}

/// A list joined with `, `, or `none` when it is empty.
pub open spec fn list_or_none(v: Seq<Seq<char>>) -> Seq<char> {
    if v.len() == 0 { "none"@ } else { joined_with(v, ", "@) }
}

/// `before` + item + `after` for each item, in order.
pub open spec fn bullets(before: Seq<char>, items: Seq<Seq<char>>, after: Seq<char>) -> Seq<Seq<char>> {
    items.map_values(|t: Seq<char>| before + t + after)
}

/// `line` where `when` holds, else nothing.
pub open spec fn line_if(when: bool, line: Seq<char>) -> Seq<Seq<char>> {
    if when { seq![line] } else { Seq::empty() }
}

/// The identity lines of the manifest, or the note that none was found.
pub open spec fn manifest_lines(m: Option<SteamAppManifest>) -> Seq<Seq<char>> {
    match m {
        Some(m) => seq![
            "- name: `"@ + m.name@ + "`"@,
            "- source: `"@ + m.source@ + "`"@,
            "- build id: `"@ + or_else_text(m.build_id, "unknown"@) + "`"@,
            "- manifest: `"@ + m.manifest_path@ + "`"@,
            "- install dir: `"@ + m.install_dir@ + "`"@,
        ],
        None => seq!["- manifest: `not found`"@],
    }
}

/// The runtime snapshot section, up to the heading of the candidates.
pub open spec fn runtime_lines(r: RuntimeSnapshot) -> Seq<Seq<char>> {
    seq![
        ""@,
        "## Runtime Snapshot"@,
        ""@,
        "- wine: `"@ + or_else_text(r.wine, "<not found>"@) + "`"@,
        "- wine version: `"@ + or_else_text(r.wine_version, "unknown"@) + "`"@,
        "- Windows version: `"@ + or_else_text(r.windows_version, "unknown"@) + "`"@,
        "- prefix: `"@ + r.prefix@ + "`"@,
        "- Steam exe: `"@ + or_else_text(r.steam_exe, "<not found>"@) + "`"@,
        "- DXMT root: `"@ + or_else_text(r.dxmt_root, "<not found>"@) + "`"@,
        "- Steam running: `"@ + bool_text(r.steam_running) + "`"@,
        "- logged in: `"@ + (match r.logged_in { Some(b) => bool_text(b), None => "unknown"@ }) + "`"@,
        "- connection: `"@ + or_else_text(r.connection_status, "unknown"@) + "`"@,
        "- CEF: `"@ + or_else_text(r.cef_status, "unknown"@) + "`"@,
        ""@,
        "## Executable Candidates"@,
        ""@,
    ]
}

/// The lines of a PE summary under its candidate.
pub open spec fn pe_lines(pe: PeSummary) -> Seq<Seq<char>> {
    seq![
        "  - machine: `"@ + or_else_text(pe.machine, "unknown"@) + "` subsystem: `"@
            + or_else_text(pe.subsystem, "unknown"@) + "`"@,
        "  - layers: `"@ + list_or_none(pe.detected_layers.deep_view()) + "`"@,
        "  - imports: `"@ + list_or_none(pe.import_dlls.deep_view()) + "`"@,
    ]
}

/// The lines of one candidate: path, score and size, then its PE summary.
pub open spec fn candidate_lines(c: WindowsExeCandidate) -> Seq<Seq<char>> {
    seq!["- `"@ + c.relative_path@ + "` score="@ + signed_decimal(c.score as int) + " size="@ + decimal(c.size as nat)]
        + match c.pe {
            Some(pe) => pe_lines(pe),
            None => Seq::empty(),
        }
}

/// The lines of the candidates, in order.
pub open spec fn candidates_lines(cs: Seq<WindowsExeCandidate>) -> Seq<Seq<char>>
    decreases cs.len(),
{
    if cs.len() == 0 { Seq::empty() } else { candidates_lines(cs.drop_last()) + candidate_lines(cs.last()) }
}

/// The title, the privacy note and the identity of the analysed app.
pub open spec fn report_head(a: GamePortingAnalysis) -> Seq<Seq<char>> {
    seq![
        "# Porting Analysis Report"@,
        ""@,
        "This report is private and may contain local filesystem paths. Keep it under `.portcellar/`."@,
        ""@,
        "## Identity"@,
        ""@,
        "- analysis version: `"@ + a.version@ + "`"@,
        "- app id: `"@ + a.app_id@ + "`"@,
    ]
}

/// The lines of the report of `a`.
pub open spec fn porting_report_lines(a: GamePortingAnalysis) -> Seq<Seq<char>> {
    report_head(a)
        + manifest_lines(a.manifest)
        + runtime_lines(a.runtime)
        + line_if(a.exe_candidates@.len() == 0, "- none found"@)
        + candidates_lines(a.exe_candidates@)
        + seq![""@, "## Bundled DLLs"@, ""@]
        + line_if(a.bundled_dlls@.len() == 0, "- none found in scanned depth"@)
        + bullets("- `"@, a.bundled_dlls.deep_view(), "`"@)
        + seq![""@, "## Recommendations"@, ""@]
        + bullets("- "@, a.recommendations.deep_view(), ""@)
        + seq![""@, "## Blockers"@, ""@]
        + line_if(a.blockers@.len() == 0, "- none detected by collect-only analysis"@)
        + bullets("- "@, a.blockers.deep_view(), ""@)
}

/// The Markdown report of `a`: its lines, each ended by a newline.
pub open spec fn porting_report_text(a: GamePortingAnalysis) -> Seq<char> {
    joined_with(porting_report_lines(a), "\n"@) + "\n"@
}

fn or_else(o: &Option<String>, fallback: &str) -> (r: String)
    ensures r@ == or_else_text(*o, fallback@),
{
    match o {
        Some(s) => s.clone(),
        None => fallback.to_owned(),
    }
}

fn bool_string(b: bool) -> (r: String)
    ensures r@ == bool_text(b),
{
    if b { "true".to_owned() } else { "false".to_owned() }
}

fn signed_text(n: i32) -> (r: String)
    ensures r@ == signed_decimal(n as int),
{
    if n < 0 {
        let m: i64 = -(n as i64);
        concat("-", decimal_text(m as u64).as_str())
    } else {
        decimal_text(n as u64)
    }
}

fn list_text(v: &Vec<String>) -> (r: String)
    ensures r@ == list_or_none(v.deep_view()),
{
    if v.len() == 0 { "none".to_owned() } else { join_texts(v, ", ") }
}

fn quoted_line(head: &str, value: &str) -> (r: String)
    ensures r@ == head@ + value@ + "`"@,
{
    concat3(head, value, "`")
}

fn bullet_lines(before: &str, items: &Vec<String>, after: &str) -> (r: Vec<String>)
    ensures r.deep_view() == bullets(before@, items.deep_view(), after@),
{
    let mut out: Vec<String> = Vec::new();
    let mut i: usize = 0;
    while i < items.len()
        invariant
            i <= items.len(),
            out.deep_view() =~= bullets(before@, items.deep_view().take(i as int), after@),
        decreases items.len() - i,
    {
        let line = concat3(before, items[i].as_str(), after);
        push_text(&mut out, line);
        assert(items.deep_view().take(i as int + 1) =~= items.deep_view().take(i as int).push(items.deep_view()[i as int]));
        i = i + 1;
    }
    assert(items.deep_view().take(i as int) =~= items.deep_view());
    out
}

fn manifest_section(m: &Option<SteamAppManifest>) -> (r: Vec<String>)
    ensures r.deep_view() == manifest_lines(*m),
{
    let mut out: Vec<String> = Vec::new();
    match m {
        Some(m) => {
            push_text(&mut out, quoted_line("- name: `", m.name.as_str()));
            push_text(&mut out, quoted_line("- source: `", m.source.as_str()));
            push_text(&mut out, quoted_line("- build id: `", or_else(&m.build_id, "unknown").as_str()));
            push_text(&mut out, quoted_line("- manifest: `", m.manifest_path.as_str()));
            push_text(&mut out, quoted_line("- install dir: `", m.install_dir.as_str()));
        },
        None => {
            push_text(&mut out, "- manifest: `not found`".to_owned());
        },
    }
    assert(out.deep_view() =~= manifest_lines(*m));
    out
}

fn runtime_section(r: &RuntimeSnapshot) -> (out: Vec<String>)
    ensures out.deep_view() == runtime_lines(*r),
{
    let mut out: Vec<String> = Vec::new();
    push_text(&mut out, String::new());
    push_text(&mut out, "## Runtime Snapshot".to_owned());
    push_text(&mut out, String::new());
    push_text(&mut out, quoted_line("- wine: `", or_else(&r.wine, "<not found>").as_str()));
    push_text(&mut out, quoted_line("- wine version: `", or_else(&r.wine_version, "unknown").as_str()));
    push_text(&mut out, quoted_line("- Windows version: `", or_else(&r.windows_version, "unknown").as_str()));
    push_text(&mut out, quoted_line("- prefix: `", r.prefix.as_str()));
    push_text(&mut out, quoted_line("- Steam exe: `", or_else(&r.steam_exe, "<not found>").as_str()));
    push_text(&mut out, quoted_line("- DXMT root: `", or_else(&r.dxmt_root, "<not found>").as_str()));
    push_text(&mut out, quoted_line("- Steam running: `", bool_string(r.steam_running).as_str()));
    let logged = match r.logged_in { Some(b) => bool_string(b), None => "unknown".to_owned() };
    push_text(&mut out, quoted_line("- logged in: `", logged.as_str()));
    push_text(&mut out, quoted_line("- connection: `", or_else(&r.connection_status, "unknown").as_str()));
    push_text(&mut out, quoted_line("- CEF: `", or_else(&r.cef_status, "unknown").as_str()));
    push_text(&mut out, String::new());
    push_text(&mut out, "## Executable Candidates".to_owned());
    push_text(&mut out, String::new());
    proof { reveal_strlit(""); }
    assert(""@ =~= Seq::<char>::empty());
    let ghost rl = runtime_lines(*r);
    assert(out.deep_view().len() == rl.len());
    assert(out.deep_view()[0] == rl[0]);
    assert(out.deep_view()[3] == rl[3]);
    assert(out.deep_view()[9] == rl[9]);
    assert(out.deep_view()[10] == rl[10]);
    assert(out.deep_view()[13] == rl[13]);
    assert(out.deep_view() =~= runtime_lines(*r));
    out
}

fn candidate_section(c: &WindowsExeCandidate) -> (out: Vec<String>)
    ensures out.deep_view() == candidate_lines(*c),
{
    let mut out: Vec<String> = Vec::new();
    let head = concat3("- `", c.relative_path.as_str(), "` score=");
    let line = concat3(head.as_str(), signed_text(c.score).as_str(), " size=");
    push_text(&mut out, concat(line.as_str(), decimal_text(c.size).as_str()));
    match &c.pe {
        Some(pe) => {
            let m = concat3("  - machine: `", or_else(&pe.machine, "unknown").as_str(), "` subsystem: `");
            push_text(&mut out, concat3(m.as_str(), or_else(&pe.subsystem, "unknown").as_str(), "`"));
            push_text(&mut out, quoted_line("  - layers: `", list_text(&pe.detected_layers).as_str()));
            push_text(&mut out, quoted_line("  - imports: `", list_text(&pe.import_dlls).as_str()));
        },
        None => {},
    }
    assert(out.deep_view() =~= candidate_lines(*c));
    out
}

/// The Markdown report of a porting analysis.
#[verifier::spinoff_prover]
#[verifier::rlimit(50)]
pub fn render_porting_report(a: &GamePortingAnalysis) -> (r: String)
    ensures r@ == porting_report_text(*a),
{
    let mut out: Vec<String> = Vec::new();
    push_text(&mut out, "# Porting Analysis Report".to_owned());
    push_text(&mut out, String::new());
    push_text(&mut out, "This report is private and may contain local filesystem paths. Keep it under `.portcellar/`.".to_owned());
    push_text(&mut out, String::new());
    push_text(&mut out, "## Identity".to_owned());
    push_text(&mut out, String::new());
    push_text(&mut out, quoted_line("- analysis version: `", a.version));
    push_text(&mut out, quoted_line("- app id: `", a.app_id.as_str()));
    proof { reveal_strlit(""); }
    assert(""@ =~= Seq::<char>::empty());
    assert(out.deep_view() =~= report_head(*a));
    append_texts(&mut out, &manifest_section(&a.manifest));
    append_texts(&mut out, &runtime_section(&a.runtime));
    if a.exe_candidates.len() == 0 {
        push_text(&mut out, "- none found".to_owned());
    }
    assert(out.deep_view() =~= report_head(*a) + manifest_lines(a.manifest) + runtime_lines(a.runtime)
        + line_if(a.exe_candidates@.len() == 0, "- none found"@));
    let ghost before_candidates = out.deep_view();
    let mut i: usize = 0;
    assert(a.exe_candidates@.take(0) =~= Seq::<WindowsExeCandidate>::empty());
    while i < a.exe_candidates.len()
        invariant
            i <= a.exe_candidates.len(),
            out.deep_view() =~= before_candidates + candidates_lines(a.exe_candidates@.take(i as int)),
        decreases a.exe_candidates.len() - i,
    {
        append_texts(&mut out, &candidate_section(&a.exe_candidates[i]));
        assert(a.exe_candidates@.take(i as int + 1).drop_last() =~= a.exe_candidates@.take(i as int));
        i = i + 1;
    }
    assert(a.exe_candidates@.take(i as int) =~= a.exe_candidates@);
    let ghost g1 = out.deep_view();
    push_text(&mut out, String::new());
    push_text(&mut out, "## Bundled DLLs".to_owned());
    push_text(&mut out, String::new());
    if a.bundled_dlls.len() == 0 {
        push_text(&mut out, "- none found in scanned depth".to_owned());
    }
    append_texts(&mut out, &bullet_lines("- `", &a.bundled_dlls, "`"));
    assert(out.deep_view() =~= g1 + seq![""@, "## Bundled DLLs"@, ""@]
        + line_if(a.bundled_dlls@.len() == 0, "- none found in scanned depth"@)
        + bullets("- `"@, a.bundled_dlls.deep_view(), "`"@));
    let ghost g2 = out.deep_view();
    push_text(&mut out, String::new());
    push_text(&mut out, "## Recommendations".to_owned());
    push_text(&mut out, String::new());
    append_texts(&mut out, &bullet_lines("- ", &a.recommendations, ""));
    assert(out.deep_view() =~= g2 + seq![""@, "## Recommendations"@, ""@]
        + bullets("- "@, a.recommendations.deep_view(), ""@));
    let ghost g3 = out.deep_view();
    push_text(&mut out, String::new());
    push_text(&mut out, "## Blockers".to_owned());
    push_text(&mut out, String::new());
    if a.blockers.len() == 0 {
        push_text(&mut out, "- none detected by collect-only analysis".to_owned());
    }
    append_texts(&mut out, &bullet_lines("- ", &a.blockers, ""));
    assert(out.deep_view() =~= g3 + seq![""@, "## Blockers"@, ""@]
        + line_if(a.blockers@.len() == 0, "- none detected by collect-only analysis"@)
        + bullets("- "@, a.blockers.deep_view(), ""@));
    assert(out.deep_view() =~= porting_report_lines(*a));
    let text = join_texts(&out, "\n");
    concat(text.as_str(), "\n")
}


// ---------------------------------------------------------------- the Steam client report

/// The lines `f` gives for each item, in order.
pub open spec fn flat<T>(items: Seq<T>, f: spec_fn(T) -> Seq<Seq<char>>) -> Seq<Seq<char>>
    decreases items.len(),
{
    if items.len() == 0 { Seq::empty() } else { flat(items.drop_last(), f) + f(items.last()) }
}

/// The first `n` items, or all of them where there are fewer.
pub open spec fn first_n<T>(items: Seq<T>, n: int) -> Seq<T> {
    if items.len() <= n { items } else { items.take(n) }
}

/// How Rust prints an optional `bool`, with `unknown` for none.
pub open spec fn opt_bool_text(o: Option<bool>) -> Seq<char> {
    match o {
        Some(b) => bool_text(b),
        None => "unknown"@,
    }
}

/// How Rust prints an optional number, with `fallback` for none.
pub open spec fn opt_number_text(o: Option<int>, fallback: Seq<char>) -> Seq<char> {
    match o {
        Some(n) => signed_decimal(n),
        None => fallback,
    }
}

/// A list, or `- none` when it is empty.
pub open spec fn bullet_list(items: Seq<Seq<char>>) -> Seq<Seq<char>> {
    line_if(items.len() == 0, "- none"@) + bullets("- "@, items, ""@)
}

/// The lines of a Steam binary.
pub open spec fn binary_lines(b: SteamClientBinary) -> Seq<Seq<char>> {
    seq!["- `"@ + b.label@ + "` `"@ + b.relative_path@ + "` size="@ + decimal(b.size as nat)]
        + match b.pe {
            Some(pe) => seq![
                "  - machine: `"@ + or_else_text(pe.machine, "unknown"@) + "` subsystem: `"@
                    + or_else_text(pe.subsystem, "unknown"@) + "` layers: `"@
                    + list_or_none(pe.detected_layers.deep_view()) + "`"@,
                "  - imports: `"@ + list_or_none(pe.import_dlls.deep_view()) + "`"@,
            ],
            None => Seq::empty(),
        }
}

/// The lines of a CEF target.
pub open spec fn cef_target_lines(t: SteamCefTargetAnalysis) -> Seq<Seq<char>> {
    seq!["- `"@ + t.relative_dir@ + "` arch="@ + t.arch@ + " helper="@ + bool_text(t.helper_exists)
        + " wrapper="@ + bool_text(t.helper_is_wrapper) + " real="@ + bool_text(t.real_helper_exists)
        + " libcef="@ + bool_text(t.libcef_exists) + " vulkan="@ + bool_text(t.vulkan_loader_exists)
        + " d3dcompiler="@ + bool_text(t.d3dcompiler_exists)]
        + match t.helper_pe {
            Some(pe) => seq!["  - helper machine: `"@ + or_else_text(pe.machine, "unknown"@) + "` imports: `"@
                + list_or_none(pe.import_dlls.deep_view()) + "`"@],
            None => Seq::empty(),
        }
}

/// The line of a log.
pub open spec fn log_lines(l: SteamLogAnalysis) -> Seq<Seq<char>> {
    seq!["- `"@ + l.name@ + "` size="@ + decimal(l.size as nat) + " modified="@
        + opt_number_text(match l.modified_unix_seconds { Some(n) => Some(n as int), None => None }, "unknown"@)
        + " signal=`"@ + or_else_text(l.signal, "none"@) + "`"@]
}

/// The line of a package.
pub open spec fn package_lines(p: SteamPackageAnalysis) -> Seq<Seq<char>> {
    seq!["- `"@ + p.name@ + "` size="@ + decimal(p.size as nat)]
}

/// The line of a probe tick.
pub open spec fn tick_lines(t: SteamClientProbeTick) -> Seq<Seq<char>> {
    seq!["- t="@ + decimal(t.elapsed_seconds as nat) + "s running="@ + bool_text(t.running) + " logged_in="@
        + opt_bool_text(t.logged_in) + " active_session="@ + opt_bool_text(t.active_session) + " connection=`"@
        + or_else_text(t.connection_status, "unknown"@) + "` cef=`"@ + or_else_text(t.cef_status, "unknown"@)
        + "` issues=`"@
        + (if t.readiness_issues@.len() == 0 { "none"@ } else { joined_with(t.readiness_issues.deep_view(), "; "@) })
        + "`"@]
}

/// The section of an active probe.
pub open spec fn probe_lines(p: SteamClientProbe) -> Seq<Seq<char>> {
    seq![
        ""@,
        "## Active Probe"@,
        ""@,
        "- started pid: `"@ + opt_number_text(match p.started_pid { Some(n) => Some(n as int), None => None }, "none"@) + "`"@,
        "- start error: `"@ + or_else_text(p.start_error, "none"@) + "`"@,
        "- stopped after: `"@ + bool_text(p.stopped_after) + "`"@,
        "- stop exit code: `"@ + opt_number_text(match p.stop_exit_code { Some(n) => Some(n as int), None => None }, "unknown"@) + "`"@,
    ] + flat(p.ticks@, |t: SteamClientProbeTick| tick_lines(t))
}

/// The summary section of a Steam client report, up to the findings heading.
pub open spec fn client_summary_lines(a: SteamClientAnalysis) -> Seq<Seq<char>> {
    seq![
        "# Steam Client Analysis Report"@,
        ""@,
        "This private report may contain local paths and Steam runtime state. Keep it under `.portcellar/`."@,
        ""@,
        "## Summary"@,
        ""@,
        "- analysis version: `"@ + a.version@ + "`"@,
        "- probe enabled: `"@ + bool_text(a.options.probe) + "`"@,
        "- probe seconds: `"@ + decimal(a.options.probe_seconds as nat) + "`"@,
        "- stop after: `"@ + bool_text(a.options.stop_after) + "`"@,
        "- Steam dir: `"@ + or_else_text(a.steam_dir, "<not found>"@) + "`"@,
        "- wine: `"@ + or_else_text(a.runtime.wine, "<not found>"@) + "`"@,
        "- wine version: `"@ + or_else_text(a.runtime.wine_version, "unknown"@) + "`"@,
        "- prefix: `"@ + a.runtime.prefix@ + "`"@,
        "- running after analysis: `"@ + bool_text(a.runtime.steam_running) + "`"@,
        "- logged in after analysis: `"@ + opt_bool_text(a.runtime.logged_in) + "`"@,
        "- connection after analysis: `"@ + or_else_text(a.runtime.connection_status, "unknown"@) + "`"@,
        "- CEF after analysis: `"@ + or_else_text(a.runtime.cef_status, "unknown"@) + "`"@,
        ""@,
        "## Findings"@,
        ""@,
    ]
}

/// The lines of the Steam client report of `a`: at most 30 logs and 40 packages.
pub open spec fn steam_client_report_lines(a: SteamClientAnalysis) -> Seq<Seq<char>> {
    client_summary_lines(a)
        + bullet_list(a.findings.deep_view())
        + seq![""@, "## Recommendations"@, ""@] + bullet_list(a.recommendations.deep_view())
        + seq![""@, "## Blockers"@, ""@] + bullet_list(a.blockers.deep_view())
        + seq![""@, "## Steam Binaries"@, ""@] + flat(a.binaries@, |b: SteamClientBinary| binary_lines(b))
        + seq![""@, "## CEF Targets"@, ""@] + flat(a.cef_targets@, |t: SteamCefTargetAnalysis| cef_target_lines(t))
        + seq![""@, "## Recent Logs"@, ""@] + flat(first_n(a.logs@, 30), |l: SteamLogAnalysis| log_lines(l))
        + seq![""@, "## Packages"@, ""@] + flat(first_n(a.packages@, 40), |p: SteamPackageAnalysis| package_lines(p))
        + match a.probe {
            Some(p) => probe_lines(p),
            None => Seq::empty(),
        }
}

/// The Markdown report of a Steam client analysis.
pub open spec fn steam_client_report_text(a: SteamClientAnalysis) -> Seq<char> {
    joined_with(steam_client_report_lines(a), "\n"@) + "\n"@
}

fn opt_bool_string(o: Option<bool>) -> (r: String)
    ensures r@ == opt_bool_text(o),
{
    match o {
        Some(b) => bool_string(b),
        None => "unknown".to_owned(),
    }
}

fn u64_or(o: Option<u64>, fallback: &str) -> (r: String)
    ensures r@ == opt_number_text(match o { Some(n) => Some(n as int), None => None }, fallback@),
{
    match o {
        Some(n) => decimal_text(n),
        None => fallback.to_owned(),
    }
}

fn pid_or(o: Option<u32>, fallback: &str) -> (r: String)
    ensures r@ == opt_number_text(match o { Some(n) => Some(n as int), None => None }, fallback@),
{
    match o {
        Some(n) => decimal_text(n as u64),
        None => fallback.to_owned(),
    }
}

fn code_or(o: Option<i32>, fallback: &str) -> (r: String)
    ensures r@ == opt_number_text(match o { Some(n) => Some(n as int), None => None }, fallback@),
{
    match o {
        Some(n) => signed_text(n),
        None => fallback.to_owned(),
    }
}

fn bullet_list_lines(items: &Vec<String>) -> (r: Vec<String>)
    ensures r.deep_view() == bullet_list(items.deep_view()),
{
    let mut out: Vec<String> = Vec::new();
    if items.len() == 0 {
        push_text(&mut out, "- none".to_owned());
    }
    append_texts(&mut out, &bullet_lines("- ", items, ""));
    assert(out.deep_view() =~= bullet_list(items.deep_view()));
    out
}

/// Appends three lines: an empty line, `heading`, an empty line.
fn push_heading(out: &mut Vec<String>, heading: &str)
    ensures final(out).deep_view() == old(out).deep_view() + seq![""@, heading@, ""@],
{
    proof { reveal_strlit(""); }
    let ghost before = out.deep_view();
    push_text(out, String::new());
    push_text(out, heading.to_owned());
    push_text(out, String::new());
    assert(""@ =~= Seq::<char>::empty());
    assert(out.deep_view() =~= before + seq![""@, heading@, ""@]);
}

fn binary_section(b: &SteamClientBinary) -> (out: Vec<String>)
    ensures out.deep_view() == binary_lines(*b),
{
    let mut out: Vec<String> = Vec::new();
    let head = concat3("- `", b.label.as_str(), "` `");
    let line = concat3(head.as_str(), b.relative_path.as_str(), "` size=");
    push_text(&mut out, concat(line.as_str(), decimal_text(b.size).as_str()));
    match &b.pe {
        Some(pe) => {
            let m = concat3("  - machine: `", or_else(&pe.machine, "unknown").as_str(), "` subsystem: `");
            let m2 = concat3(m.as_str(), or_else(&pe.subsystem, "unknown").as_str(), "` layers: `");
            push_text(&mut out, concat3(m2.as_str(), list_text(&pe.detected_layers).as_str(), "`"));
            push_text(&mut out, quoted_line("  - imports: `", list_text(&pe.import_dlls).as_str()));
        },
        None => {},
    }
    assert(out.deep_view() =~= binary_lines(*b));
    out
}

fn cef_target_section(t: &SteamCefTargetAnalysis) -> (out: Vec<String>)
    ensures out.deep_view() == cef_target_lines(*t),
{
    let mut out: Vec<String> = Vec::new();
    let l1 = concat3("- `", t.relative_dir.as_str(), "` arch=");
    let l2 = concat3(l1.as_str(), t.arch.as_str(), " helper=");
    let l3 = concat3(l2.as_str(), bool_string(t.helper_exists).as_str(), " wrapper=");
    let l4 = concat3(l3.as_str(), bool_string(t.helper_is_wrapper).as_str(), " real=");
    let l5 = concat3(l4.as_str(), bool_string(t.real_helper_exists).as_str(), " libcef=");
    let l6 = concat3(l5.as_str(), bool_string(t.libcef_exists).as_str(), " vulkan=");
    let l7 = concat3(l6.as_str(), bool_string(t.vulkan_loader_exists).as_str(), " d3dcompiler=");
    push_text(&mut out, concat(l7.as_str(), bool_string(t.d3dcompiler_exists).as_str()));
    match &t.helper_pe {
        Some(pe) => {
            let m = concat3("  - helper machine: `", or_else(&pe.machine, "unknown").as_str(), "` imports: `");
            push_text(&mut out, concat3(m.as_str(), list_text(&pe.import_dlls).as_str(), "`"));
        },
        None => {},
    }
    assert(out.deep_view() =~= cef_target_lines(*t));
    out
}

fn log_line(l: &SteamLogAnalysis) -> (r: String)
    ensures seq![r@] == log_lines(*l),
{
    let a = concat3("- `", l.name.as_str(), "` size=");
    let b = concat3(a.as_str(), decimal_text(l.size).as_str(), " modified=");
    let c = concat3(b.as_str(), u64_or(l.modified_unix_seconds, "unknown").as_str(), " signal=`");
    let r = concat3(c.as_str(), or_else(&l.signal, "none").as_str(), "`");
    assert(seq![r@] =~= log_lines(*l));
    r
}

fn package_line(p: &SteamPackageAnalysis) -> (r: String)
    ensures seq![r@] == package_lines(*p),
{
    let a = concat3("- `", p.name.as_str(), "` size=");
    let r = concat(a.as_str(), decimal_text(p.size).as_str());
    assert(seq![r@] =~= package_lines(*p));
    r
}

fn tick_line(t: &SteamClientProbeTick) -> (r: String)
    ensures seq![r@] == tick_lines(*t),
{
    let a = concat3("- t=", decimal_text(t.elapsed_seconds).as_str(), "s running=");
    let b = concat3(a.as_str(), bool_string(t.running).as_str(), " logged_in=");
    let c = concat3(b.as_str(), opt_bool_string(t.logged_in).as_str(), " active_session=");
    let d = concat3(c.as_str(), opt_bool_string(t.active_session).as_str(), " connection=`");
    let e = concat3(d.as_str(), or_else(&t.connection_status, "unknown").as_str(), "` cef=`");
    let f = concat3(e.as_str(), or_else(&t.cef_status, "unknown").as_str(), "` issues=`");
    let issues = if t.readiness_issues.len() == 0 { "none".to_owned() } else { join_texts(&t.readiness_issues, "; ") };
    let r = concat3(f.as_str(), issues.as_str(), "`");
    assert(seq![r@] =~= tick_lines(*t));
    r
}

fn probe_section(p: &SteamClientProbe) -> (out: Vec<String>)
    ensures out.deep_view() == probe_lines(*p),
{
    let mut out: Vec<String> = Vec::new();
    push_heading(&mut out, "## Active Probe");
    push_text(&mut out, quoted_line("- started pid: `", pid_or(p.started_pid, "none").as_str()));
    push_text(&mut out, quoted_line("- start error: `", or_else(&p.start_error, "none").as_str()));
    push_text(&mut out, quoted_line("- stopped after: `", bool_string(p.stopped_after).as_str()));
    push_text(&mut out, quoted_line("- stop exit code: `", code_or(p.stop_exit_code, "unknown").as_str()));
    let ghost head = out.deep_view();
    let mut i: usize = 0;
    while i < p.ticks.len()
        invariant
            i <= p.ticks.len(),
            out.deep_view() =~= head + flat(p.ticks@.take(i as int), |t: SteamClientProbeTick| tick_lines(t)),
        decreases p.ticks.len() - i,
    {
        let line = tick_line(&p.ticks[i]);
        push_text(&mut out, line);
        assert(p.ticks@.take(i as int + 1).drop_last() =~= p.ticks@.take(i as int));
        i = i + 1;
    }
    assert(p.ticks@.take(i as int) =~= p.ticks@);
    assert(out.deep_view() =~= probe_lines(*p));
    out
}

fn client_summary(a: &SteamClientAnalysis) -> (out: Vec<String>)
    ensures out.deep_view() == client_summary_lines(*a),
{
    let mut out: Vec<String> = Vec::new();
    push_text(&mut out, "# Steam Client Analysis Report".to_owned());
    push_heading(&mut out, "This private report may contain local paths and Steam runtime state. Keep it under `.portcellar/`.");
    push_text(&mut out, "## Summary".to_owned());
    push_text(&mut out, String::new());
    push_text(&mut out, quoted_line("- analysis version: `", a.version));
    push_text(&mut out, quoted_line("- probe enabled: `", bool_string(a.options.probe).as_str()));
    push_text(&mut out, quoted_line("- probe seconds: `", decimal_text(a.options.probe_seconds).as_str()));
    push_text(&mut out, quoted_line("- stop after: `", bool_string(a.options.stop_after).as_str()));
    push_text(&mut out, quoted_line("- Steam dir: `", or_else(&a.steam_dir, "<not found>").as_str()));
    push_text(&mut out, quoted_line("- wine: `", or_else(&a.runtime.wine, "<not found>").as_str()));
    push_text(&mut out, quoted_line("- wine version: `", or_else(&a.runtime.wine_version, "unknown").as_str()));
    push_text(&mut out, quoted_line("- prefix: `", a.runtime.prefix.as_str()));
    push_text(&mut out, quoted_line("- running after analysis: `", bool_string(a.runtime.steam_running).as_str()));
    push_text(&mut out, quoted_line("- logged in after analysis: `", opt_bool_string(a.runtime.logged_in).as_str()));
    push_text(&mut out, quoted_line("- connection after analysis: `", or_else(&a.runtime.connection_status, "unknown").as_str()));
    push_text(&mut out, quoted_line("- CEF after analysis: `", or_else(&a.runtime.cef_status, "unknown").as_str()));
    push_heading(&mut out, "## Findings");
    proof { reveal_strlit(""); }
    assert(""@ =~= Seq::<char>::empty());
    assert(out.deep_view() =~= client_summary_lines(*a));
    out
}

/// The Markdown report of a Steam client analysis.
#[verifier::spinoff_prover]
#[verifier::rlimit(50)]
pub fn render_steam_client_report(a: &SteamClientAnalysis) -> (r: String)
    ensures r@ == steam_client_report_text(*a),
{
    let mut out = client_summary(a);
    append_texts(&mut out, &bullet_list_lines(&a.findings));
    push_heading(&mut out, "## Recommendations");
    append_texts(&mut out, &bullet_list_lines(&a.recommendations));
    push_heading(&mut out, "## Blockers");
    append_texts(&mut out, &bullet_list_lines(&a.blockers));
    push_heading(&mut out, "## Steam Binaries");
    let ghost g1 = out.deep_view();
    let mut i: usize = 0;
    while i < a.binaries.len()
        invariant
            i <= a.binaries.len(),
            out.deep_view() =~= g1 + flat(a.binaries@.take(i as int), |b: SteamClientBinary| binary_lines(b)),
        decreases a.binaries.len() - i,
    {
        append_texts(&mut out, &binary_section(&a.binaries[i]));
        assert(a.binaries@.take(i as int + 1).drop_last() =~= a.binaries@.take(i as int));
        i = i + 1;
    }
    assert(a.binaries@.take(i as int) =~= a.binaries@);
    push_heading(&mut out, "## CEF Targets");
    let ghost g2 = out.deep_view();
    let mut i: usize = 0;
    while i < a.cef_targets.len()
        invariant
            i <= a.cef_targets.len(),
            out.deep_view() =~= g2 + flat(a.cef_targets@.take(i as int), |t: SteamCefTargetAnalysis| cef_target_lines(t)),
        decreases a.cef_targets.len() - i,
    {
        append_texts(&mut out, &cef_target_section(&a.cef_targets[i]));
        assert(a.cef_targets@.take(i as int + 1).drop_last() =~= a.cef_targets@.take(i as int));
        i = i + 1;
    }
    assert(a.cef_targets@.take(i as int) =~= a.cef_targets@);
    push_heading(&mut out, "## Recent Logs");
    let ghost g3 = out.deep_view();
    let log_count: usize = if a.logs.len() < 30 { a.logs.len() } else { 30 };
    let mut i: usize = 0;
    while i < log_count
        invariant
            i <= log_count,
            log_count <= a.logs.len(),
            log_count == (if a.logs@.len() < 30 { a.logs@.len() } else { 30 }),
            out.deep_view() =~= g3 + flat(a.logs@.take(i as int), |l: SteamLogAnalysis| log_lines(l)),
        decreases log_count - i,
    {
        push_text(&mut out, log_line(&a.logs[i]));
        assert(a.logs@.take(i as int + 1).drop_last() =~= a.logs@.take(i as int));
        i = i + 1;
    }
    assert(a.logs@.take(i as int) =~= first_n(a.logs@, 30));
    push_heading(&mut out, "## Packages");
    let ghost g4 = out.deep_view();
    let package_count: usize = if a.packages.len() < 40 { a.packages.len() } else { 40 };
    let mut i: usize = 0;
    while i < package_count
        invariant
            i <= package_count,
            package_count <= a.packages.len(),
            package_count == (if a.packages@.len() < 40 { a.packages@.len() } else { 40 }),
            out.deep_view() =~= g4 + flat(a.packages@.take(i as int), |p: SteamPackageAnalysis| package_lines(p)),
        decreases package_count - i,
    {
        push_text(&mut out, package_line(&a.packages[i]));
        assert(a.packages@.take(i as int + 1).drop_last() =~= a.packages@.take(i as int));
        i = i + 1;
    }
    assert(a.packages@.take(i as int) =~= first_n(a.packages@, 40));
    match &a.probe {
        Some(p) => { append_texts(&mut out, &probe_section(p)); },
        None => {},
    }
    assert(out.deep_view() =~= steam_client_report_lines(*a));
    let text = join_texts(&out, "\n");
    concat(text.as_str(), "\n")
}


// ---------------------------------------------------------------- the profile draft

/// A character inside a YAML double-quoted string: backslash and quote escaped.
pub open spec fn yaml_char(c: char) -> Seq<char> {
    if c == '\\' { seq!['\\', '\\'] } else if c == '"' { seq!['\\', '"'] } else { seq![c] }
}

/// The body of a YAML double-quoted string.
pub open spec fn yaml_body(s: Seq<char>) -> Seq<char>
    decreases s.len(),
{
    if s.len() == 0 { s } else { yaml_body(s.drop_last()) + yaml_char(s.last()) }
}

/// `s` as a YAML double-quoted string.
pub open spec fn yaml_quoted(s: Seq<char>) -> Seq<char> {
    seq!['"'] + yaml_body(s) + seq!['"']
}

/// The text of an optional value, or `unknown`.
pub open spec fn text_or_unknown(o: Option<Seq<char>>) -> Seq<char> {
    match o {
        Some(t) => t,
        None => "unknown"@,
    }
}

/// The PE summary of the selected candidate, if there is one.
pub open spec fn selected_pe(a: GamePortingAnalysis) -> Option<PeSummary> {
    match a.selected_exe {
        Some(c) => c.pe,
        None => None,
    }
}

/// The layers of the selected candidate, quoted and joined with `, `.
pub open spec fn draft_layers(a: GamePortingAnalysis) -> Seq<char> {
    match selected_pe(a) {
        Some(pe) => joined_with(pe.detected_layers.deep_view().map_values(|l: Seq<char>| yaml_quoted(l)), ", "@),
        None => Seq::empty(),
    }
}

/// The identity and runtime part of a profile draft.
pub open spec fn draft_head(a: GamePortingAnalysis) -> Seq<Seq<char>> {
    seq![
        "# Generated draft. Validate manually before turning this into Rust GameProfile code."@,
        "analysis_version: "@ + yaml_quoted(a.version@),
        "app:"@,
        "  id: "@ + yaml_quoted(a.app_id@),
        "  name: "@ + yaml_quoted(match a.manifest { Some(m) => m.name@, None => "unknown"@ }),
        "  install_dir_hint: "@ + yaml_quoted(match a.manifest { Some(m) => m.install_dir_name@, None => "unknown"@ }),
        "  windows_exe: "@ + yaml_quoted(match a.selected_exe { Some(c) => c.relative_path@, None => "unknown"@ }),
        "  arch: "@ + yaml_quoted(match selected_pe(a) { Some(pe) => or_else_text(pe.machine, "unknown"@), None => "unknown"@ }),
        "runtime:"@,
        "  recommended_mode: \"wine-steam\""@,
        "  wine_version: "@ + yaml_quoted(or_else_text(a.runtime.wine_version, "unknown"@)),
        "  windows_version: "@ + yaml_quoted(or_else_text(a.runtime.windows_version, "unknown"@)),
        "  detected_layers: ["@ + draft_layers(a) + "]"@,
        "steam:"@,
        "  requires_client: true"@,
        "  overlay_recommended_off: true"@,
        "evidence:"@,
        "  successful_experiment: null"@,
        "  collect_experiment: \"experiments/001-collect-only.yml\""@,
        "recommendations:"@,
    ]
}

/// Items as YAML list entries.
pub open spec fn yaml_items(items: Seq<Seq<char>>) -> Seq<Seq<char>> {
    items.map_values(|t: Seq<char>| "  - "@ + yaml_quoted(t))
}

/// The lines of the profile draft of `a`.
pub open spec fn profile_draft_lines(a: GamePortingAnalysis) -> Seq<Seq<char>> {
    draft_head(a)
        + yaml_items(a.recommendations.deep_view())
        + (if a.blockers@.len() == 0 { seq!["blockers: []"@] } else { seq!["blockers:"@] + yaml_items(a.blockers.deep_view()) })
        + seq![
            "next_steps:"@,
            "  - \"Run a timed wine-steam probe and capture Wine/graphics logs.\""@,
            "  - \"Validate save path and Steam Cloud behavior after first successful launch.\""@,
        ]
}

/// The YAML profile draft of `a`.
pub open spec fn profile_draft_text(a: GamePortingAnalysis) -> Seq<char> {
    joined_with(profile_draft_lines(a), "\n"@) + "\n"@
}

fn yaml_text(value: &str) -> (r: String)
    ensures r@ == yaml_quoted(value@),
{
    let v = crate::text::chars_of(value);
    let mut out = String::new();
    crate::text::push_char(&mut out, '"');
    let mut i: usize = 0;
    while i < v.len()
        invariant
            v@ == value@,
            i <= v.len(),
            out@ == seq!['"'] + yaml_body(value@.take(i as int)),
        decreases v.len() - i,
    {
        let c = v[i];
        assert(value@.take(i + 1).drop_last() =~= value@.take(i as int));
        let ghost before = out@;
        if c == '\\' {
            crate::text::push_char(&mut out, '\\');
            crate::text::push_char(&mut out, '\\');
        } else if c == '"' {
            crate::text::push_char(&mut out, '\\');
            crate::text::push_char(&mut out, '"');
        } else {
            crate::text::push_char(&mut out, c);
        }
        assert(out@ =~= before + yaml_char(c));
        i = i + 1;
    }
    assert(value@.take(v.len() as int) =~= value@);
    crate::text::push_char(&mut out, '"');
    out
}

fn yaml_item_lines(items: &Vec<String>) -> (r: Vec<String>)
    ensures r.deep_view() == yaml_items(items.deep_view()),
{
    let mut out: Vec<String> = Vec::new();
    let mut i: usize = 0;
    while i < items.len()
        invariant
            i <= items.len(),
            out.deep_view() =~= yaml_items(items.deep_view().take(i as int)),
        decreases items.len() - i,
    {
        push_text(&mut out, concat("  - ", yaml_text(items[i].as_str()).as_str()));
        assert(items.deep_view().take(i as int + 1) =~= items.deep_view().take(i as int).push(items.deep_view()[i as int]));
        i = i + 1;
    }
    assert(items.deep_view().take(i as int) =~= items.deep_view());
    out
}

fn layer_list(pe: &Option<PeSummary>) -> (r: String)
    ensures r@ == (match *pe {
        Some(p) => joined_with(p.detected_layers.deep_view().map_values(|l: Seq<char>| yaml_quoted(l)), ", "@),
        None => Seq::<char>::empty(),
    }),
{
    match pe {
        None => String::new(),
        Some(p) => {
            let mut quoted: Vec<String> = Vec::new();
            let mut i: usize = 0;
            while i < p.detected_layers.len()
                invariant
                    i <= p.detected_layers.len(),
                    quoted.deep_view() =~= p.detected_layers.deep_view().take(i as int).map_values(|l: Seq<char>| yaml_quoted(l)),
                decreases p.detected_layers.len() - i,
            {
                push_text(&mut quoted, yaml_text(p.detected_layers[i].as_str()));
                assert(p.detected_layers.deep_view().take(i as int + 1)
                    =~= p.detected_layers.deep_view().take(i as int).push(p.detected_layers.deep_view()[i as int]));
                i = i + 1;
            }
            assert(p.detected_layers.deep_view().take(i as int) =~= p.detected_layers.deep_view());
            join_texts(&quoted, ", ")
        },
    }
}

fn draft_head_lines(a: &GamePortingAnalysis) -> (out: Vec<String>)
    ensures out.deep_view() == draft_head(*a),
{
    let pe: Option<PeSummary> = match &a.selected_exe {
        Some(c) => match &c.pe {
            Some(p) => Some(PeSummary {
                machine: crate::games::clone_opt(&p.machine),
                subsystem: crate::games::clone_opt(&p.subsystem),
                import_dlls: crate::games::clone_strings(&p.import_dlls),
                detected_layers: crate::games::clone_strings(&p.detected_layers),
            }),
            None => None,
        },
        None => None,
    };
    let name = match &a.manifest { Some(m) => m.name.clone(), None => "unknown".to_owned() };
    let hint = match &a.manifest { Some(m) => m.install_dir_name.clone(), None => "unknown".to_owned() };
    let exe = match &a.selected_exe { Some(c) => c.relative_path.clone(), None => "unknown".to_owned() };
    let arch = match &pe { Some(p) => or_else(&p.machine, "unknown"), None => "unknown".to_owned() };
    let mut out: Vec<String> = Vec::new();
    push_text(&mut out, "# Generated draft. Validate manually before turning this into Rust GameProfile code.".to_owned());
    push_text(&mut out, concat("analysis_version: ", yaml_text(a.version).as_str()));
    push_text(&mut out, "app:".to_owned());
    push_text(&mut out, concat("  id: ", yaml_text(a.app_id.as_str()).as_str()));
    push_text(&mut out, concat("  name: ", yaml_text(name.as_str()).as_str()));
    push_text(&mut out, concat("  install_dir_hint: ", yaml_text(hint.as_str()).as_str()));
    push_text(&mut out, concat("  windows_exe: ", yaml_text(exe.as_str()).as_str()));
    push_text(&mut out, concat("  arch: ", yaml_text(arch.as_str()).as_str()));
    push_text(&mut out, "runtime:".to_owned());
    push_text(&mut out, "  recommended_mode: \"wine-steam\"".to_owned());
    push_text(&mut out, concat("  wine_version: ", yaml_text(or_else(&a.runtime.wine_version, "unknown").as_str()).as_str()));
    push_text(&mut out, concat("  windows_version: ", yaml_text(or_else(&a.runtime.windows_version, "unknown").as_str()).as_str()));
    push_text(&mut out, concat3("  detected_layers: [", layer_list(&pe).as_str(), "]"));
    push_text(&mut out, "steam:".to_owned());
    push_text(&mut out, "  requires_client: true".to_owned());
    push_text(&mut out, "  overlay_recommended_off: true".to_owned());
    push_text(&mut out, "evidence:".to_owned());
    push_text(&mut out, "  successful_experiment: null".to_owned());
    push_text(&mut out, "  collect_experiment: \"experiments/001-collect-only.yml\"".to_owned());
    push_text(&mut out, "recommendations:".to_owned());
    assert(out.deep_view() =~= draft_head(*a));
    out
}

/// The YAML profile draft of a porting analysis.
#[verifier::spinoff_prover]
pub fn render_profile_draft(a: &GamePortingAnalysis) -> (r: String)
    ensures r@ == profile_draft_text(*a),
{
    let mut out = draft_head_lines(a);
    append_texts(&mut out, &yaml_item_lines(&a.recommendations));
    let ghost g = out.deep_view();
    if a.blockers.len() == 0 {
        push_text(&mut out, "blockers: []".to_owned());
    } else {
        push_text(&mut out, "blockers:".to_owned());
        append_texts(&mut out, &yaml_item_lines(&a.blockers));
    }
    push_text(&mut out, "next_steps:".to_owned());
    push_text(&mut out, "  - \"Run a timed wine-steam probe and capture Wine/graphics logs.\"".to_owned());
    push_text(&mut out, "  - \"Validate save path and Steam Cloud behavior after first successful launch.\"".to_owned());
    assert(out.deep_view() =~= profile_draft_lines(*a));
    let text = join_texts(&out, "\n");
    concat(text.as_str(), "\n")
}


// ---------------------------------------------------------------- the collect experiment and the reproduce script

/// The record of a read-only collection: the app id, whether a manifest was found
/// and how many executable candidates were.
pub open spec fn collect_experiment_text(a: GamePortingAnalysis) -> Seq<char> {
    joined_with(seq![
        "id: \"001-collect-only\""@,
        "mode: \"read-only\""@,
        "app_id: "@ + yaml_quoted(a.app_id@),
        "result: \"collected\""@,
        "launch_attempted: false"@,
        "manifest_found: "@ + bool_text(a.manifest is Some),
        "exe_candidates: "@ + decimal(a.exe_candidates@.len()),
    ], "\n"@) + "\n"@
}

/// The record of a read-only collection of a porting analysis.
pub fn render_collect_experiment(a: &GamePortingAnalysis) -> (r: String)
    ensures r@ == collect_experiment_text(*a),
{
    let mut out: Vec<String> = Vec::new();
    push_text(&mut out, "id: \"001-collect-only\"".to_owned());
    push_text(&mut out, "mode: \"read-only\"".to_owned());
    push_text(&mut out, concat("app_id: ", yaml_text(a.app_id.as_str()).as_str()));
    push_text(&mut out, "result: \"collected\"".to_owned());
    push_text(&mut out, "launch_attempted: false".to_owned());
    push_text(&mut out, concat("manifest_found: ", bool_string(a.manifest.is_some()).as_str()));
    push_text(&mut out, concat("exe_candidates: ", decimal_text(a.exe_candidates.len() as u64).as_str()));
    assert(out.deep_view() =~= seq![
        "id: \"001-collect-only\""@,
        "mode: \"read-only\""@,
        "app_id: "@ + yaml_quoted(a.app_id@),
        "result: \"collected\""@,
        "launch_attempted: false"@,
        "manifest_found: "@ + bool_text(a.manifest is Some),
        "exe_candidates: "@ + decimal(a.exe_candidates@.len()),
    ]);
    let text = join_texts(&out, "\n");
    concat(text.as_str(), "\n")
}

/// A character inside a single-quoted shell word: a quote closes the word, is
/// written escaped and opens it again.
pub open spec fn shell_char(c: char) -> Seq<char> {
    if c == '\'' { seq!['\'', '\\', '\'', '\''] } else { seq![c] }
}

/// The body of a single-quoted shell word.
pub open spec fn shell_body(s: Seq<char>) -> Seq<char>
    decreases s.len(),
{
    if s.len() == 0 { s } else { shell_body(s.drop_last()) + shell_char(s.last()) }
}

/// `s` as one single-quoted shell word.
pub open spec fn shell_quoted(s: Seq<char>) -> Seq<char> {
    seq!['\''] + shell_body(s) + seq!['\'']
}

/// The script's first lines.
pub open spec fn script_header() -> Seq<char> {
    "#!/usr/bin/env bash\nset -euo pipefail\n\n"@
}

/// The quoted browser arguments Steam needs under Wine, each after a space.
pub open spec fn quoted_cef_args() -> Seq<char> {
    " "@ + shell_quoted("-allosarches"@) + " "@ + shell_quoted("-cef-force-32bit"@) + " "@
        + shell_quoted("-no-cef-sandbox"@) + " "@ + shell_quoted("-noverifyfiles"@)
}

/// The script that reproduces the analysed launch through Windows Steam: the
/// prefix, quiet logging, DXMT where it was found, the app id under Steam's names,
/// the overlay off, then Steam with its browser arguments launching the app; where
/// Wine or Steam was missing, a script that says so and fails.
pub open spec fn porting_reproduce_text(a: GamePortingAnalysis) -> Seq<char> {
    let r = a.runtime;
    match r.wine {
        None => script_header() + "echo 'Wine engine was not detected during analysis.'\nexit 1\n"@,
        Some(wine) => match r.steam_exe {
            None => script_header() + "echo 'Windows Steam was not detected during analysis.'\nexit 1\n"@,
            Some(steam) => {
                let steam_arg = match crate::runtime::wine::windows_in_prefix(r.prefix@, steam@) {
                    Some(w) => w,
                    None => steam@,
                };
                let app = shell_quoted(a.app_id@);
                script_header()
                    + "export WINEPREFIX="@ + shell_quoted(r.prefix@) + "\n"@
                    + "export WINEDEBUG=${PORTCELLAR_WINEDEBUG:--all}\n"@
                    + "export MVK_CONFIG_LOG_LEVEL=0\n"@
                    + (match r.dxmt_root {
                        Some(d) => "export WINEDLLPATH_PREPEND="@ + shell_quoted(d@) + "\n"@
                            + "export DXMT_LOG_LEVEL=${DXMT_LOG_LEVEL:-error}\n"@,
                        None => Seq::empty(),
                    })
                    + "export SteamAppId="@ + app + "\n"@
                    + "export SteamGameId="@ + app + "\n"@
                    + "export STEAM_GAME_ID="@ + app + "\n"@
                    + "export SteamNoOverlayUI=1\n"@
                    + "export DISABLE_VK_LAYER_VALVE_steam_overlay_1=1\n"@
                    + "export WINEDLLOVERRIDES='gameoverlayrenderer,gameoverlayrenderer64='\n\n"@
                    + "exec "@ + shell_quoted(wine@) + " "@ + shell_quoted(steam_arg)
                    + quoted_cef_args()
                    + " -silent -applaunch "@ + app + "\n"@
            },
        },
    }
}

fn shell_text(value: &str) -> (r: String)
    ensures r@ == shell_quoted(value@),
{
    let v = crate::text::chars_of(value);
    let mut out = String::new();
    crate::text::push_char(&mut out, '\'');
    let mut i: usize = 0;
    while i < v.len()
        invariant
            v@ == value@,
            i <= v.len(),
            out@ == seq!['\''] + shell_body(value@.take(i as int)),
        decreases v.len() - i,
    {
        let c = v[i];
        assert(value@.take(i + 1).drop_last() =~= value@.take(i as int));
        let ghost before = out@;
        if c == '\'' {
            crate::text::push_char(&mut out, '\'');
            crate::text::push_char(&mut out, '\\');
            crate::text::push_char(&mut out, '\'');
            crate::text::push_char(&mut out, '\'');
        } else {
            crate::text::push_char(&mut out, c);
        }
        assert(out@ =~= before + shell_char(c));
        i = i + 1;
    }
    assert(value@.take(v.len() as int) =~= value@);
    crate::text::push_char(&mut out, '\'');
    out
}

fn append_line(out: &mut String, head: &str, value: &str)
    ensures final(out)@ == old(out)@ + head@ + value@ + "\n"@,
{
    proof { reveal_strlit("\n"); }
    let line = concat3(head, value, "\n");
    out.append(line.as_str());
}

/// The script that reproduces an analysed launch through Windows Steam.
#[verifier::spinoff_prover]
#[verifier::rlimit(50)]
pub fn render_porting_reproduce(a: &GamePortingAnalysis) -> (r: String)
    ensures r@ == porting_reproduce_text(*a),
{
    let header = "#!/usr/bin/env bash\nset -euo pipefail\n\n";
    let wine = match &a.runtime.wine {
        None => { return concat(header, "echo 'Wine engine was not detected during analysis.'\nexit 1\n"); },
        Some(w) => w,
    };
    let steam = match &a.runtime.steam_exe {
        None => { return concat(header, "echo 'Windows Steam was not detected during analysis.'\nexit 1\n"); },
        Some(s) => s,
    };
    let prefix = a.runtime.prefix.as_str();
    let steam_arg = match crate::runtime::wine::windows_path_in_prefix(prefix, steam.as_str()) {
        Some(w) => w,
        None => steam.clone(),
    };
    let app = shell_text(a.app_id.as_str());
    let mut out = header.to_owned();
    append_line(&mut out, "export WINEPREFIX=", shell_text(prefix).as_str());
    out.append("export WINEDEBUG=${PORTCELLAR_WINEDEBUG:--all}\n");
    out.append("export MVK_CONFIG_LOG_LEVEL=0\n");
    let ghost before_dxmt = out@;
    match &a.runtime.dxmt_root {
        Some(d) => {
            append_line(&mut out, "export WINEDLLPATH_PREPEND=", shell_text(d.as_str()).as_str());
            out.append("export DXMT_LOG_LEVEL=${DXMT_LOG_LEVEL:-error}\n");
        },
        None => {},
    }
    append_line(&mut out, "export SteamAppId=", app.as_str());
    append_line(&mut out, "export SteamGameId=", app.as_str());
    append_line(&mut out, "export STEAM_GAME_ID=", app.as_str());
    out.append("export SteamNoOverlayUI=1\n");
    out.append("export DISABLE_VK_LAYER_VALVE_steam_overlay_1=1\n");
    out.append("export WINEDLLOVERRIDES='gameoverlayrenderer,gameoverlayrenderer64='\n\n");
    out.append("exec ");
    out.append(shell_text(wine.as_str()).as_str());
    out.append(" ");
    out.append(shell_text(steam_arg.as_str()).as_str());
    let cef = crate::anchors::steam_wine_cef_args();
    let ghost before_cef = out@;
    let ghost mapped = cef@.map_values(|s: &'static str| s@);
    assert(mapped == seq!["-allosarches"@, "-cef-force-32bit"@, "-no-cef-sandbox"@, "-noverifyfiles"@]);
    assert(mapped.len() == 4);
    assert(cef@.len() == 4);
    assert(cef@[0]@ == "-allosarches"@ && cef@[1]@ == "-cef-force-32bit"@
        && cef@[2]@ == "-no-cef-sandbox"@ && cef@[3]@ == "-noverifyfiles"@) by {
        assert(mapped[0] == cef@[0]@);
        assert(mapped[1] == cef@[1]@);
        assert(mapped[2] == cef@[2]@);
        assert(mapped[3] == cef@[3]@);
    }
    out.append(" ");
    out.append(shell_text(cef[0]).as_str());
    out.append(" ");
    out.append(shell_text(cef[1]).as_str());
    out.append(" ");
    out.append(shell_text(cef[2]).as_str());
    out.append(" ");
    out.append(shell_text(cef[3]).as_str());
    assert(out@ =~= before_cef + quoted_cef_args());
    append_line(&mut out, " -silent -applaunch ", app.as_str());
    assert(out@ =~= porting_reproduce_text(*a));
    out
}


// ---------------------------------------------------------------- local analyses and the Steam client record

/// The lines of the selected executable of a local analysis.
pub open spec fn local_selected_lines(c: Option<WindowsExeCandidate>) -> Seq<Seq<char>> {
    match c {
        None => seq!["- none"@],
        Some(c) => seq!["- `"@ + c.relative_path@ + "` score="@ + signed_decimal(c.score as int) + " size="@ + decimal(c.size as nat)]
            + match c.pe {
                Some(pe) => seq![
                    "- machine: `"@ + or_else_text(pe.machine, "unknown"@) + "`"@,
                    "- subsystem: `"@ + or_else_text(pe.subsystem, "unknown"@) + "`"@,
                    "- layers: `"@ + joined_with(pe.detected_layers.deep_view(), ", "@) + "`"@,
                    "- imports: `"@ + joined_with(pe.import_dlls.deep_view(), ", "@) + "`"@,
                ],
                None => Seq::empty(),
            },
    }
}

/// The line of a candidate of a local analysis: path, score and reasons.
pub open spec fn local_candidate_line(c: WindowsExeCandidate) -> Seq<char> {
    "- `"@ + c.relative_path@ + "` score="@ + signed_decimal(c.score as int) + " reasons="@
        + joined_with(c.reasons.deep_view(), ", "@)
}

/// The lines of the report of a local analysis.
pub open spec fn local_report_lines(a: LocalGameAnalysis) -> Seq<Seq<char>> {
    seq![
        "# Local Game Analysis"@,
        ""@,
        "This report is private and may contain local filesystem paths."@,
        ""@,
        "- analysis version: `"@ + a.version@ + "`"@,
        "- name: `"@ + a.name@ + "`"@,
        "- app id: `"@ + a.app_id@ + "`"@,
        "- root: `"@ + a.root@ + "`"@,
        "- Wine path: `"@ + a.windows_install_path@ + "`"@,
        ""@,
        "## Selected executable"@,
        ""@,
    ]
        + local_selected_lines(a.selected_exe)
        + seq![""@, "## Candidates"@, ""@]
        + a.exe_candidates@.map_values(|c: WindowsExeCandidate| local_candidate_line(c))
        + seq![""@, "## Profile review"@, ""@]
        + bullets("- "@, a.review_items.deep_view(), ""@)
        + seq![""@, "Bundled DLLs scanned: "@ + decimal(a.bundled_dlls@.len())]
}

/// The Markdown report of a local analysis.
pub open spec fn local_report_text(a: LocalGameAnalysis) -> Seq<char> {
    joined_with(local_report_lines(a), "\n"@) + "\n"@
}

fn local_selected_section(c: &Option<WindowsExeCandidate>) -> (out: Vec<String>)
    ensures out.deep_view() == local_selected_lines(*c),
{
    let mut out: Vec<String> = Vec::new();
    match c {
        None => { push_text(&mut out, "- none".to_owned()); },
        Some(c) => {
            let head = concat3("- `", c.relative_path.as_str(), "` score=");
            let line = concat3(head.as_str(), signed_text(c.score).as_str(), " size=");
            push_text(&mut out, concat(line.as_str(), decimal_text(c.size).as_str()));
            match &c.pe {
                Some(pe) => {
                    push_text(&mut out, quoted_line("- machine: `", or_else(&pe.machine, "unknown").as_str()));
                    push_text(&mut out, quoted_line("- subsystem: `", or_else(&pe.subsystem, "unknown").as_str()));
                    push_text(&mut out, quoted_line("- layers: `", join_texts(&pe.detected_layers, ", ").as_str()));
                    push_text(&mut out, quoted_line("- imports: `", join_texts(&pe.import_dlls, ", ").as_str()));
                },
                None => {},
            }
        },
    }
    assert(out.deep_view() =~= local_selected_lines(*c));
    out
}

/// The Markdown report of a local analysis.
#[verifier::spinoff_prover]
#[verifier::rlimit(50)]
pub fn render_local_report(a: &LocalGameAnalysis) -> (r: String)
    ensures r@ == local_report_text(*a),
{
    let mut out: Vec<String> = Vec::new();
    push_text(&mut out, "# Local Game Analysis".to_owned());
    push_heading(&mut out, "This report is private and may contain local filesystem paths.");
    push_text(&mut out, quoted_line("- analysis version: `", a.version));
    push_text(&mut out, quoted_line("- name: `", a.name.as_str()));
    push_text(&mut out, quoted_line("- app id: `", a.app_id.as_str()));
    push_text(&mut out, quoted_line("- root: `", a.root.as_str()));
    push_text(&mut out, quoted_line("- Wine path: `", a.windows_install_path.as_str()));
    push_heading(&mut out, "## Selected executable");
    proof { reveal_strlit(""); }
    assert(""@ =~= Seq::<char>::empty());
    append_texts(&mut out, &local_selected_section(&a.selected_exe));
    push_heading(&mut out, "## Candidates");
    let ghost g1 = out.deep_view();
    let mut i: usize = 0;
    while i < a.exe_candidates.len()
        invariant
            i <= a.exe_candidates.len(),
            out.deep_view() =~= g1 + a.exe_candidates@.take(i as int).map_values(|c: WindowsExeCandidate| local_candidate_line(c)),
        decreases a.exe_candidates.len() - i,
    {
        let c = &a.exe_candidates[i];
        let head = concat3("- `", c.relative_path.as_str(), "` score=");
        let line = concat3(head.as_str(), signed_text(c.score).as_str(), " reasons=");
        push_text(&mut out, concat(line.as_str(), join_texts(&c.reasons, ", ").as_str()));
        assert(a.exe_candidates@.take(i as int + 1) =~= a.exe_candidates@.take(i as int).push(a.exe_candidates@[i as int]));
        i = i + 1;
    }
    assert(a.exe_candidates@.take(i as int) =~= a.exe_candidates@);
    push_heading(&mut out, "## Profile review");
    append_texts(&mut out, &bullet_lines("- ", &a.review_items, ""));
    push_text(&mut out, String::new());
    push_text(&mut out, concat("Bundled DLLs scanned: ", decimal_text(a.bundled_dlls.len() as u64).as_str()));
    assert(out.deep_view() =~= local_report_lines(*a));
    let text = join_texts(&out, "\n");
    concat(text.as_str(), "\n")
}

/// The script that relaunches a local analysis's profile from the repository:
/// `game launch` of the written profile in `wine-direct` mode, waiting for the Steam
/// login first where the profile requires Steam.
pub open spec fn local_reproduce_text(a: LocalGameAnalysis, artifact_name: Seq<char>) -> Seq<char> {
    "#!/usr/bin/env bash\nset -euo pipefail\n\nrepo_root=\"$(cd -- \"$(dirname \"$0\")/../../..\" && pwd)\"\ncd \"$repo_root\"\nexec cargo run --quiet -- game launch --from-profile \"$repo_root/.portcellar/analysis/"@
        + artifact_name + "/profile.toml\" --mode wine-direct"@
        + (if a.profile.spec_steam_integration() == SteamIntegration::Required { " --wait-login"@ } else { ""@ })
        + " --wait\n"@
}

/// The script that relaunches a local analysis's profile.
pub fn render_local_reproduce(a: &LocalGameAnalysis, artifact_name: &str) -> (r: String)
    ensures r@ == local_reproduce_text(*a, artifact_name@),
{
    let wait_login = if a.profile.steam_integration() == SteamIntegration::Required { " --wait-login" } else { "" };
    let head = concat3(
        "#!/usr/bin/env bash\nset -euo pipefail\n\nrepo_root=\"$(cd -- \"$(dirname \"$0\")/../../..\" && pwd)\"\ncd \"$repo_root\"\nexec cargo run --quiet -- game launch --from-profile \"$repo_root/.portcellar/analysis/",
        artifact_name,
        "/profile.toml\" --mode wine-direct",
    );
    concat3(head.as_str(), wait_login, " --wait\n")
}

/// The record of a Steam client analysis.
pub open spec fn steam_client_experiment_text(a: SteamClientAnalysis) -> Seq<char> {
    joined_with(seq![
        "id: "@ + (if a.options.probe { "\"001-steam-client-probe\""@ } else { "\"001-steam-client-collect\""@ }),
        "analysis_version: "@ + crate::analyze::discovery::debug_quoted(a.version@),
        "probe: "@ + bool_text(a.options.probe),
        "probe_seconds: "@ + decimal(a.options.probe_seconds as nat),
        "stop_after: "@ + bool_text(a.options.stop_after),
        "steam_dir_found: "@ + bool_text(a.steam_dir is Some),
        "binary_count: "@ + decimal(a.binaries@.len()),
        "cef_target_count: "@ + decimal(a.cef_targets@.len()),
        "blocker_count: "@ + decimal(a.blockers@.len()),
    ], "\n"@) + "\n"@
}

/// The record of a Steam client analysis.
pub fn render_steam_client_experiment(a: &SteamClientAnalysis) -> (r: String)
    ensures r@ == steam_client_experiment_text(*a),
{
    let id = if a.options.probe { "\"001-steam-client-probe\"" } else { "\"001-steam-client-collect\"" };
    let mut out: Vec<String> = Vec::new();
    push_text(&mut out, concat("id: ", id));
    push_text(&mut out, concat("analysis_version: ", crate::analyze::discovery::debug_text(a.version).as_str()));
    push_text(&mut out, concat("probe: ", bool_string(a.options.probe).as_str()));
    push_text(&mut out, concat("probe_seconds: ", decimal_text(a.options.probe_seconds).as_str()));
    push_text(&mut out, concat("stop_after: ", bool_string(a.options.stop_after).as_str()));
    push_text(&mut out, concat("steam_dir_found: ", bool_string(a.steam_dir.is_some()).as_str()));
    push_text(&mut out, concat("binary_count: ", decimal_text(a.binaries.len() as u64).as_str()));
    push_text(&mut out, concat("cef_target_count: ", decimal_text(a.cef_targets.len() as u64).as_str()));
    push_text(&mut out, concat("blocker_count: ", decimal_text(a.blockers.len() as u64).as_str()));
    assert(out.deep_view() =~= seq![
        "id: "@ + (if a.options.probe { "\"001-steam-client-probe\""@ } else { "\"001-steam-client-collect\""@ }),
        "analysis_version: "@ + crate::analyze::discovery::debug_quoted(a.version@),
        "probe: "@ + bool_text(a.options.probe),
        "probe_seconds: "@ + decimal(a.options.probe_seconds as nat),
        "stop_after: "@ + bool_text(a.options.stop_after),
        "steam_dir_found: "@ + bool_text(a.steam_dir is Some),
        "binary_count: "@ + decimal(a.binaries@.len()),
        "cef_target_count: "@ + decimal(a.cef_targets@.len()),
        "blocker_count: "@ + decimal(a.blockers@.len()),
    ]);
    let text = join_texts(&out, "\n");
    concat(text.as_str(), "\n")
}


// ---------------------------------------------------------------- the raw doctor snapshot

/// `{:?}` of a list of texts: each quoted and escaped, joined with `, ` in brackets.
pub open spec fn debug_list(items: Seq<Seq<char>>) -> Seq<char> {
    "["@ + joined_with(items.map_values(|t: Seq<char>| crate::analyze::discovery::debug_quoted(t)), ", "@) + "]"@
}

/// `{:?}` of an optional text: `Some(..)` around the quoted text, or `None`.
pub open spec fn debug_option(o: Option<String>) -> Seq<char> {
    match o {
        Some(t) => "Some("@ + crate::analyze::discovery::debug_quoted(t@) + ")"@,
        None => "None"@,
    }
}

/// The raw doctor snapshot kept with a porting analysis.
pub open spec fn raw_doctor_lines(a: GamePortingAnalysis) -> Seq<Seq<char>> {
    seq![
        "portcellar raw doctor snapshot for porting analysis"@,
        ""@,
        "app_id="@ + a.app_id@,
        "wine="@ + or_else_text(a.runtime.wine, "<not found>"@),
        "prefix="@ + a.runtime.prefix@,
        "steam_exe="@ + or_else_text(a.runtime.steam_exe, "<not found>"@),
        "dxmt_root="@ + or_else_text(a.runtime.dxmt_root, "<not found>"@),
        "readiness_issues="@ + debug_list(a.runtime.readiness_issues.deep_view()),
    ] + match a.latest_crash {
        Some(c) => seq![
            "latest_crash="@ + c.path@,
            "crash_exception="@ + debug_option(c.exception),
            "crash_diagnosis="@ + debug_option(c.diagnosis),
        ],
        None => Seq::empty(),
    }
}

/// The text of the raw doctor snapshot.
pub open spec fn raw_doctor_text(a: GamePortingAnalysis) -> Seq<char> {
    joined_with(raw_doctor_lines(a), "\n"@) + "\n"@
}

fn debug_list_text(items: &Vec<String>) -> (r: String)
    ensures r@ == debug_list(items.deep_view()),
{
    let mut quoted: Vec<String> = Vec::new();
    let mut i: usize = 0;
    while i < items.len()
        invariant
            i <= items.len(),
            quoted.deep_view() =~= items.deep_view().take(i as int).map_values(|t: Seq<char>| crate::analyze::discovery::debug_quoted(t)),
        decreases items.len() - i,
    {
        push_text(&mut quoted, crate::analyze::discovery::debug_text(items[i].as_str()));
        assert(items.deep_view().take(i as int + 1) =~= items.deep_view().take(i as int).push(items.deep_view()[i as int]));
        i = i + 1;
    }
    assert(items.deep_view().take(i as int) =~= items.deep_view());
    concat3("[", join_texts(&quoted, ", ").as_str(), "]")
}

fn debug_option_text(o: &Option<String>) -> (r: String)
    ensures r@ == debug_option(*o),
{
    match o {
        Some(t) => concat3("Some(", crate::analyze::discovery::debug_text(t.as_str()).as_str(), ")"),
        None => "None".to_owned(),
    }
}

/// The raw doctor snapshot kept with a porting analysis.
pub fn render_raw_doctor_summary(a: &GamePortingAnalysis) -> (r: String)
    ensures r@ == raw_doctor_text(*a),
{
    let mut out: Vec<String> = Vec::new();
    push_text(&mut out, "portcellar raw doctor snapshot for porting analysis".to_owned());
    push_text(&mut out, String::new());
    push_text(&mut out, concat("app_id=", a.app_id.as_str()));
    push_text(&mut out, concat("wine=", or_else(&a.runtime.wine, "<not found>").as_str()));
    push_text(&mut out, concat("prefix=", a.runtime.prefix.as_str()));
    push_text(&mut out, concat("steam_exe=", or_else(&a.runtime.steam_exe, "<not found>").as_str()));
    push_text(&mut out, concat("dxmt_root=", or_else(&a.runtime.dxmt_root, "<not found>").as_str()));
    push_text(&mut out, concat("readiness_issues=", debug_list_text(&a.runtime.readiness_issues).as_str()));
    match &a.latest_crash {
        Some(c) => {
            push_text(&mut out, concat("latest_crash=", c.path.as_str()));
            push_text(&mut out, concat("crash_exception=", debug_option_text(&c.exception).as_str()));
            push_text(&mut out, concat("crash_diagnosis=", debug_option_text(&c.diagnosis).as_str()));
        },
        None => {},
    }
    proof { reveal_strlit(""); }
    assert(""@ =~= Seq::<char>::empty());
    assert(out.deep_view() =~= raw_doctor_lines(*a));
    let text = join_texts(&out, "\n");
    concat(text.as_str(), "\n")
}

} // verus!
