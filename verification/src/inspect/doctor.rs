//! The text of the doctor's report on a game's Wine Steam runtime and its latest
//! crash.
use vstd::prelude::*;
use crate::analyze::report::{bool_text, or_else_text};
use crate::inspect::crash::CrashSummary;
use crate::runtime::launch::push_text;
use crate::text::{concat, concat3, join_texts, joined_with};
use crate::types::WineSteamRuntime;

verus! {

/// How the doctor marks a check: `ok` or `missing`.
pub open spec fn pass_fail_text(b: bool) -> Seq<char> {
    if b { "ok"@ } else { "missing"@ }
}

/// An optional answer in words: `yes` or `no`, else `unknown`.
pub open spec fn answer_text(o: Option<bool>, yes: Seq<char>, no: Seq<char>) -> Seq<char> {
    match o {
        Some(b) => if b { yes } else { no },
        None => "unknown"@,
    }
}

/// A labelled line of the doctor's report.
pub open spec fn row(label: Seq<char>, value: Seq<char>) -> Seq<char> {
    "  "@ + label + ": "@ + value
}

/// The Wine Steam section of the doctor's report on the game named `game`: the
/// runtime's facts, its readiness issues, then the session, the macOS driver and
/// the game's files.
pub open spec fn wine_steam_section(w: WineSteamRuntime, game: Seq<char>) -> Seq<Seq<char>> {
    seq![
        "Wine Steam"@,
        row("prefix"@, w.prefix@),
        row("wine"@, or_else_text(w.wine, "<not found>"@)),
        row("wine version"@, or_else_text(w.wine_version, "unknown"@)),
        row("Windows version"@, or_else_text(w.windows_version, "default"@)),
        row("DXMT root"@, or_else_text(w.dxmt_root, "<not found>"@)),
        row("Steam exe"@, or_else_text(w.steam_exe, "<not found>"@)),
        row("running"@, pass_fail_text(w.running)),
        row(game + " process"@, pass_fail_text(w.game_running)),
        row("launch ready after login"@, pass_fail_text(w.launch_ready_after_login)),
    ]
        + w.readiness_issues.deep_view().map_values(|i: Seq<char>| "    - "@ + i)
        + seq![
            row("logged in"@, answer_text(w.logged_in, "likely"@, "no"@)),
            row("active session"@, answer_text(w.active_session, "yes"@, "no"@)),
            row("cached credentials"@, answer_text(w.cached_credentials, "present"@, "missing"@)),
            row("login status"@, or_else_text(w.login_status, "unknown"@)),
            row("connection status"@, or_else_text(w.connection_status, "unknown"@)),
            row("CEF status"@, or_else_text(w.cef_status, "unknown"@)),
            row("macOS window status"@, or_else_text(w.mac_window_status, "unknown"@)),
            row("virtual desktop"@, or_else_text(w.virtual_desktop, "disabled"@)),
            row("macdrv AllowImmovableWindows"@, or_else_text(w.mac_driver.allow_immovable_windows, "default"@)),
            row("macdrv RetinaMode"@, or_else_text(w.mac_driver.retina_mode, "default"@)),
            row(game + " manifest"@, or_else_text(w.game_manifest, "<not found>"@)),
            row(game + " install dir"@, or_else_text(w.game_install_dir, "<not found>"@)),
            row(game + " executable"@, or_else_text(w.game_executable, "<not found>"@)),
        ]
}

/// The latest-crash section of the doctor's report on the game named `game`.
pub open spec fn crash_section(c: Option<CrashSummary>, game: Seq<char>) -> Seq<Seq<char>> {
    seq!["Latest "@ + game + " crash"@] + match c {
        None => seq!["  no local "@ + game + " crash reports found"@],
        Some(c) => seq![
            row("report"@, c.path@),
            row("translated"@, match c.translated { Some(b) => bool_text(b), None => "unknown"@ }),
            row("cpu"@, or_else_text(c.cpu_type, "unknown"@)),
            row("exception"@, or_else_text(c.exception, "<not found>"@)),
            row("termination"@, or_else_text(c.termination, "<not found>"@)),
        ]
            + (if c.suspect_symbols@.len() > 0 {
                seq![row("suspect symbols"@, joined_with(c.suspect_symbols.deep_view(), ", "@))]
            } else { Seq::empty() })
            + (if c.suspect_images@.len() > 0 {
                seq![row("suspect images"@, joined_with(c.suspect_images.deep_view(), ", "@))]
            } else { Seq::empty() })
            + match c.diagnosis {
                Some(d) => seq![row("diagnosis"@, d@)],
                None => Seq::empty(),
            },
    }
}

fn text_or(o: &Option<String>, fallback: &str) -> (r: String)
    ensures r@ == or_else_text(*o, fallback@),
{
    match o {
        Some(s) => s.clone(),
        None => fallback.to_owned(),
    }
}

fn pass_fail_string(b: bool) -> (r: String)
    ensures r@ == pass_fail_text(b),
{
    if b { "ok".to_owned() } else { "missing".to_owned() }
}

fn answer(o: Option<bool>, yes: &str, no: &str) -> (r: String)
    ensures r@ == answer_text(o, yes@, no@),
{
    match o {
        Some(b) => if b { yes.to_owned() } else { no.to_owned() },
        None => "unknown".to_owned(),
    }
}

fn push_row(out: &mut Vec<String>, label: &str, value: &str)
    ensures final(out).deep_view() == old(out).deep_view().push(row(label@, value@)),
{
    let head = concat3("  ", label, ": ");
    push_text(out, concat(head.as_str(), value));
}

/// The Wine Steam section of the doctor's report on the game named `game`.
#[verifier::spinoff_prover]
#[verifier::rlimit(50)]
pub fn render_wine_steam_section(w: &WineSteamRuntime, game: &str) -> (r: Vec<String>)
    ensures r.deep_view() == wine_steam_section(*w, game@),
{
    let mut out: Vec<String> = Vec::new();
    push_text(&mut out, "Wine Steam".to_owned());
    push_row(&mut out, "prefix", w.prefix.as_str());
    push_row(&mut out, "wine", text_or(&w.wine, "<not found>").as_str());
    push_row(&mut out, "wine version", text_or(&w.wine_version, "unknown").as_str());
    push_row(&mut out, "Windows version", text_or(&w.windows_version, "default").as_str());
    push_row(&mut out, "DXMT root", text_or(&w.dxmt_root, "<not found>").as_str());
    push_row(&mut out, "Steam exe", text_or(&w.steam_exe, "<not found>").as_str());
    push_row(&mut out, "running", pass_fail_string(w.running).as_str());
    push_row(&mut out, concat(game, " process").as_str(), pass_fail_string(w.game_running).as_str());
    push_row(&mut out, "launch ready after login", pass_fail_string(w.launch_ready_after_login).as_str());
    let ghost head = out.deep_view();
    let mut i: usize = 0;
    while i < w.readiness_issues.len()
        invariant
            i <= w.readiness_issues.len(),
            out.deep_view() =~= head + w.readiness_issues.deep_view().take(i as int).map_values(|s: Seq<char>| "    - "@ + s),
        decreases w.readiness_issues.len() - i,
    {
        push_text(&mut out, concat("    - ", w.readiness_issues[i].as_str()));
        assert(w.readiness_issues.deep_view().take(i as int + 1)
            =~= w.readiness_issues.deep_view().take(i as int).push(w.readiness_issues.deep_view()[i as int]));
        i = i + 1;
    }
    assert(w.readiness_issues.deep_view().take(i as int) =~= w.readiness_issues.deep_view());
    push_row(&mut out, "logged in", answer(w.logged_in, "likely", "no").as_str());
    push_row(&mut out, "active session", answer(w.active_session, "yes", "no").as_str());
    push_row(&mut out, "cached credentials", answer(w.cached_credentials, "present", "missing").as_str());
    push_row(&mut out, "login status", text_or(&w.login_status, "unknown").as_str());
    push_row(&mut out, "connection status", text_or(&w.connection_status, "unknown").as_str());
    push_row(&mut out, "CEF status", text_or(&w.cef_status, "unknown").as_str());
    push_row(&mut out, "macOS window status", text_or(&w.mac_window_status, "unknown").as_str());
    push_row(&mut out, "virtual desktop", text_or(&w.virtual_desktop, "disabled").as_str());
    push_row(&mut out, "macdrv AllowImmovableWindows", text_or(&w.mac_driver.allow_immovable_windows, "default").as_str());
    push_row(&mut out, "macdrv RetinaMode", text_or(&w.mac_driver.retina_mode, "default").as_str());
    push_row(&mut out, concat(game, " manifest").as_str(), text_or(&w.game_manifest, "<not found>").as_str());
    push_row(&mut out, concat(game, " install dir").as_str(), text_or(&w.game_install_dir, "<not found>").as_str());
    push_row(&mut out, concat(game, " executable").as_str(), text_or(&w.game_executable, "<not found>").as_str());
    assert(out.deep_view() =~= wine_steam_section(*w, game@));
    out
}

/// The latest-crash section of the doctor's report on the game named `game`.
pub fn render_crash_section(c: &Option<CrashSummary>, game: &str) -> (r: Vec<String>)
    ensures r.deep_view() == crash_section(*c, game@),
{
    let mut out: Vec<String> = Vec::new();
    push_text(&mut out, concat3("Latest ", game, " crash"));
    match c {
        None => {
            push_text(&mut out, concat3("  no local ", game, " crash reports found"));
        },
        Some(c) => {
            push_row(&mut out, "report", c.path.as_str());
            let translated = match c.translated {
                Some(b) => if b { "true".to_owned() } else { "false".to_owned() },
                None => "unknown".to_owned(),
            };
            push_row(&mut out, "translated", translated.as_str());
            push_row(&mut out, "cpu", text_or(&c.cpu_type, "unknown").as_str());
            push_row(&mut out, "exception", text_or(&c.exception, "<not found>").as_str());
            push_row(&mut out, "termination", text_or(&c.termination, "<not found>").as_str());
            if c.suspect_symbols.len() > 0 {
                push_row(&mut out, "suspect symbols", join_texts(&c.suspect_symbols, ", ").as_str());
            }
            if c.suspect_images.len() > 0 {
                push_row(&mut out, "suspect images", join_texts(&c.suspect_images, ", ").as_str());
            }
            match &c.diagnosis {
                Some(d) => { push_row(&mut out, "diagnosis", d.as_str()); },
                None => {},
            }
        },
    }
    assert(out.deep_view() =~= crash_section(*c, game@));
    out
}

} // verus!
