//! The state of the Windows Steam client as its files and logs show it: remembered
//! logins, the login and connection status of the latest session, the browser
//! (CEF) status, and the webhelper processes' Steam IDs.
//!
//! Each log is read by the caller (an unreadable log reads as empty text); only the
//! part after the last `Client version:` line, the latest session, counts.
use vstd::prelude::*;
use crate::cli::numbers::{parse_u32_text, parsed_u32};
use crate::inspect::parse::{key_values, parse_key_values};
use crate::strmap::StrMap;
use crate::text::{
    chars_of, contains, occurs_at, contains_text, count_matches, eq_ignore_ascii_case, find_text, first_occurrence,
    from_last, from_last_text, lines, lines_text, lower, lowercase, match_count, same_text, split_once_ws,
    split_once_ws_text, starts_with, starts_with_text, string_of, trim, trimmed, words, words_text,
};
use crate::types::WineMacDriverConfig;

verus! {

/// The marker that starts a Steam session in its logs.
pub const SESSION_MARKER: &'static str = "Client version:";

/// Whether `key` is stored as `"1"`.
pub open spec fn flag_set(values: Map<Seq<char>, Seq<char>>, key: Seq<char>) -> bool {
    values.dom().contains(key) && values[key] == "1"@
}

/// Whether `key` is stored as `"1"` in a key-value map.
pub fn quoted_bool(values: &StrMap, key: &str) -> (r: bool)
    ensures r == flag_set(values.map(), key@),
{
    proof { reveal_strlit("1"); }
    match values.get(key) {
        Some(v) => same_text(v.as_str(), "1"),
        None => false,
    }
}

/// Whether Steam remembers a login in `loginusers.vdf`: a remembered password, an
/// automatic login, or a most recent user.
pub open spec fn remembers_login(text: Seq<char>) -> bool {
    let v = key_values(lines(text));
    flag_set(v, "RememberPassword"@) || flag_set(v, "AllowAutoLogin"@) || flag_set(v, "MostRecent"@)
}

/// Whether the text of `loginusers.vdf` remembers a login.
pub fn steam_login_state_from_text(text: &str) -> (r: bool)
    ensures r == remembers_login(text@),
{
    let values = parse_key_values(text);
    quoted_bool(&values, "RememberPassword") || quoted_bool(&values, "AllowAutoLogin")
        || quoted_bool(&values, "MostRecent")
}

/// Whether Steam is logged in: an active session says so; otherwise the login log's
/// status decides where it is known, and else the session or cached credentials.
pub open spec fn logged_in_status(active_session: Option<bool>, cached_credentials: Option<bool>, login_status: Option<Seq<char>>) -> Option<bool> {
    if active_session == Some(true) {
        Some(true)
    } else if login_status == Some("success"@) {
        Some(true)
    } else if login_status == Some("auth-poll-transport-error"@) || login_status == Some("logon-failure"@)
        || login_status == Some("waiting-for-credentials"@) {
        Some(false)
    } else if active_session is Some {
        active_session
    } else {
        cached_credentials
    }
}

/// Whether Steam is logged in, from the session, the credentials and the login status.
pub fn steam_logged_in_status(active_session: Option<bool>, cached_credentials: Option<bool>, login_status: Option<&str>) -> (r: Option<bool>)
    ensures r == logged_in_status(active_session, cached_credentials, match login_status { Some(s) => Some(s@), None => None }),
{
    if active_session == Some(true) {
        return Some(true);
    }
    proof {
        reveal_strlit("success");
        reveal_strlit("auth-poll-transport-error");
        reveal_strlit("logon-failure");
        reveal_strlit("waiting-for-credentials");
    }
    match login_status {
        Some(s) => {
            if same_text(s, "success") {
                return Some(true);
            }
            if same_text(s, "auth-poll-transport-error") || same_text(s, "logon-failure")
                || same_text(s, "waiting-for-credentials") {
                return Some(false);
            }
        }
        None => {}
    }
    if active_session.is_some() { active_session } else { cached_credentials }
}

/// The part of a log from its latest session on.
pub fn latest_log_segment(text: &str, marker: &str) -> (r: String)
    ensures r@ == from_last(text@, marker@),
{
    from_last_text(text, marker)
}

/// The login status one line of the login log shows.
pub open spec fn login_line_status(line: Seq<char>) -> Option<Seq<char>> {
    if contains(line, "Received logon success response"@) || contains(line, "SetLoginState: Success"@)
        || contains(line, "Resolve login request: OK - Success"@) {
        Some("success"@)
    } else if contains(line, "Received logon failure response"@) {
        Some("logon-failure"@)
    } else if contains(line, "SetLoginState: WaitingForCredentials"@) {
        Some("waiting-for-credentials"@)
    } else {
        None
    }
}

/// The status of the last line of `ls` that shows one, under `line_status`.
pub open spec fn last_status(ls: Seq<Seq<char>>, line_status: spec_fn(Seq<char>) -> Option<Seq<char>>) -> Option<Seq<char>>
    decreases ls.len(),
{
    if ls.len() == 0 {
        None
    } else {
        match line_status(ls.last()) {
            Some(s) => Some(s),
            None => last_status(ls.drop_last(), line_status),
        }
    }
}

/// The login status of the latest session: the last status line of the login log,
/// overridden by an auth-poll transport error in the webhelper log unless the login
/// succeeded.
pub open spec fn login_status_of(login_log: Seq<char>, webhelper_js: Seq<char>) -> Option<Seq<char>> {
    let status = last_status(lines(from_last(login_log, "Client version:"@)), |l: Seq<char>| login_line_status(l));
    if status != Some("success"@)
        && contains(from_last(webhelper_js, "Client version:"@), "Login: Failed to poll auth session"@) {
        Some("auth-poll-transport-error"@)
    } else {
        status
    }
}

fn login_line(line: &str) -> (r: Option<String>)
    ensures opt_string(r) == login_line_status(line@),
{
    if contains_text(line, "Received logon success response") || contains_text(line, "SetLoginState: Success")
        || contains_text(line, "Resolve login request: OK - Success") {
        Some("success".to_owned())
    } else if contains_text(line, "Received logon failure response") {
        Some("logon-failure".to_owned())
    } else if contains_text(line, "SetLoginState: WaitingForCredentials") {
        Some("waiting-for-credentials".to_owned())
    } else {
        None
    }
}

/// A text option's view.
pub open spec fn opt_string(o: Option<String>) -> Option<Seq<char>> {
    match o {
        Some(s) => Some(s@),
        None => None,
    }
}

/// The login status of the latest session in the login log (`steamui_login.txt`)
/// and the webhelper log (`webhelper_js.txt`).
pub fn steam_login_status_from_logs(login_log: &str, webhelper_js: &str) -> (r: Option<String>)
    ensures opt_string(r) == login_status_of(login_log@, webhelper_js@),
{
    let segment = latest_log_segment(login_log, SESSION_MARKER);
    let ls = lines_text(segment.as_str());
    let ghost f = |l: Seq<char>| login_line_status(l);
    let mut status: Option<String> = None;
    let mut i: usize = 0;
    proof { reveal_strlit("Client version:"); }
    while i < ls.len()
        invariant
            i <= ls.len(),
            f == (|l: Seq<char>| login_line_status(l)),
            opt_string(status) == last_status(ls.deep_view().take(i as int), f),
        decreases ls.len() - i,
    {
        assert(ls.deep_view().take(i + 1).drop_last() =~= ls.deep_view().take(i as int));
        match login_line(ls[i].as_str()) {
            Some(s) => { status = Some(s); }
            None => {}
        }
        i = i + 1;
    }
    assert(ls.deep_view().take(i as int) =~= ls.deep_view());
    let js = latest_log_segment(webhelper_js, SESSION_MARKER);
    proof { reveal_strlit("success"); }
    let succeeded = match &status {
        Some(s) => same_text(s.as_str(), "success"),
        None => false,
    };
    if !succeeded && contains_text(js.as_str(), "Login: Failed to poll auth session") {
        status = Some("auth-poll-transport-error".to_owned());
    }
    status
}

/// The connection status one line of the connection or console log shows.
pub open spec fn connection_line_status(line: Seq<char>) -> Option<Seq<char>> {
    if contains(line, "LogonFailure No Connection"@) || contains(line, "SteamServerConnectFailure_t No Connection"@) {
        Some("no-connection"@)
    } else if contains(line, "Try another CM"@) {
        Some("try-another-cm"@)
    } else if contains(line, "ConnectionDisconnected"@) {
        Some("disconnected"@)
    } else if contains(line, "ConnectionCompleted()"@) || contains(line, "Client thinks it can connect via"@)
        || contains(line, "[Connected,"@) {
        Some("cm-transport-ready"@)
    } else if contains(line, "Connectivity test: result=Connected"@) {
        Some("internet-connected"@)
    } else {
        None
    }
}

/// The connection status of the latest sessions of the connection log and then the
/// console log: the last status line; where there is none, or only an internet
/// connectivity result, a ready WebUI transport counts.
pub open spec fn connection_status_of(connection_log: Seq<char>, console_log: Seq<char>, webui_ready: bool) -> Option<Seq<char>> {
    let f = |l: Seq<char>| connection_line_status(l);
    let status = last_status(
        lines(from_last(connection_log, "Client version:"@)) + lines(from_last(console_log, "Client version:"@)), f);
    if (status is None || status == Some("internet-connected"@)) && webui_ready {
        Some("webui-transport-ready"@)
    } else {
        status
    }
}

fn connection_line(line: &str) -> (r: Option<String>)
    ensures opt_string(r) == connection_line_status(line@),
{
    if contains_text(line, "LogonFailure No Connection") || contains_text(line, "SteamServerConnectFailure_t No Connection") {
        Some("no-connection".to_owned())
    } else if contains_text(line, "Try another CM") {
        Some("try-another-cm".to_owned())
    } else if contains_text(line, "ConnectionDisconnected") {
        Some("disconnected".to_owned())
    } else if contains_text(line, "ConnectionCompleted()") || contains_text(line, "Client thinks it can connect via")
        || contains_text(line, "[Connected,") {
        Some("cm-transport-ready".to_owned())
    } else if contains_text(line, "Connectivity test: result=Connected") {
        Some("internet-connected".to_owned())
    } else {
        None
    }
}

proof fn lemma_last_status_append(a: Seq<Seq<char>>, b: Seq<Seq<char>>, f: spec_fn(Seq<char>) -> Option<Seq<char>>)
    ensures
        last_status(a + b, f) == match last_status(b, f) {
            Some(s) => Some(s),
            None => last_status(a, f),
        },
    decreases b.len(),
{
    if b.len() == 0 {
        assert(a + b =~= a);
    } else {
        assert((a + b).drop_last() =~= a + b.drop_last());
        assert((a + b).last() == b.last());
        lemma_last_status_append(a, b.drop_last(), f);
    }
}

/// The connection status from the connection log (`connection_log.txt`), the
/// console log (`console_log.txt`), and whether the WebUI transport is ready.
pub fn steam_connection_status_from_logs(connection_log: &str, console_log: &str, webui_ready: bool) -> (r: Option<String>)
    ensures opt_string(r) == connection_status_of(connection_log@, console_log@, webui_ready),
{
    let ghost f = |l: Seq<char>| connection_line_status(l);
    proof { reveal_strlit("Client version:"); }
    let a = lines_text(latest_log_segment(connection_log, SESSION_MARKER).as_str());
    let b = lines_text(latest_log_segment(console_log, SESSION_MARKER).as_str());
    let mut status: Option<String> = None;
    let mut i: usize = 0;
    while i < a.len()
        invariant
            i <= a.len(),
            f == (|l: Seq<char>| connection_line_status(l)),
            opt_string(status) == last_status(a.deep_view().take(i as int), f),
        decreases a.len() - i,
    {
        assert(a.deep_view().take(i + 1).drop_last() =~= a.deep_view().take(i as int));
        match connection_line(a[i].as_str()) {
            Some(s) => { status = Some(s); }
            None => {}
        }
        i = i + 1;
    }
    assert(a.deep_view().take(i as int) =~= a.deep_view());
    let mut j: usize = 0;
    while j < b.len()
        invariant
            j <= b.len(),
            f == (|l: Seq<char>| connection_line_status(l)),
            opt_string(status) == last_status(a.deep_view() + b.deep_view().take(j as int), f),
        decreases b.len() - j,
    {
        assert((a.deep_view() + b.deep_view().take(j + 1)).drop_last() =~= a.deep_view() + b.deep_view().take(j as int));
        assert((a.deep_view() + b.deep_view().take(j + 1)).last() == b.deep_view()[j as int]);
        match connection_line(b[j].as_str()) {
            Some(s) => { status = Some(s); }
            None => {}
        }
        j = j + 1;
    }
    assert(b.deep_view().take(j as int) =~= b.deep_view());
    proof { reveal_strlit("internet-connected"); }
    let weak = match &status {
        None => true,
        Some(s) => same_text(s.as_str(), "internet-connected"),
    };
    if weak && webui_ready {
        status = Some("webui-transport-ready".to_owned());
    }
    status
}

/// Whether the latest session of a transport log shows a connected WebUI transport.
pub open spec fn shows_webui_transport(text: Seq<char>) -> bool {
    let s = from_last(text, "Client version:"@);
    contains(s, "WebUITransportStore: Connection status: connected"@)
        || contains(s, "CWebSocketConnection (steamUI): connection ready"@)
        || contains(s, "CWebSocketConnection (clientdll): connection ready"@)
        || contains(s, "WebUITransport: Websocket connection from: https://steamloopback.host"@)
}

/// Whether one of the transport logs (`webhelper_js.txt`, `transport_client.txt`,
/// `transport_steamui.txt`) shows a connected WebUI transport in its latest session.
pub fn steam_webui_transport_ready(logs: &Vec<String>) -> (r: bool)
    ensures r == exists|i: int| 0 <= i < logs@.len() && shows_webui_transport(#[trigger] logs@[i]@),
{
    proof { reveal_strlit("Client version:"); }
    let mut i: usize = 0;
    while i < logs.len()
        invariant
            i <= logs.len(),
            forall|k: int| 0 <= k < i ==> !shows_webui_transport(#[trigger] logs@[k]@),
        decreases logs.len() - i,
    {
        let s = latest_log_segment(logs[i].as_str(), SESSION_MARKER);
        let s = s.as_str();
        if contains_text(s, "WebUITransportStore: Connection status: connected")
            || contains_text(s, "CWebSocketConnection (steamUI): connection ready")
            || contains_text(s, "CWebSocketConnection (clientdll): connection ready")
            || contains_text(s, "WebUITransport: Websocket connection from: https://steamloopback.host") {
            assert(shows_webui_transport(logs@[i as int]@));
            return true;
        }
        i = i + 1;
    }
    false
}

/// The first whitespace-separated word after the first occurrence of `prefix`.
pub open spec fn token_after(line: Seq<char>, prefix: Seq<char>) -> Option<Seq<char>> {
    match first_occurrence(line, prefix) {
        Some(i) => {
            let w = words(line.skip(i + prefix.len()));
            if w.len() > 0 { Some(w[0]) } else { None }
        }
        None => None,
    }
}

/// The word that follows `prefix` in `line`.
pub fn token_value(line: &str, prefix: &str) -> (r: Option<String>)
    ensures opt_string(r) == token_after(line@, prefix@),
{
    let start = match find_text(line, prefix) {
        Some(i) => i,
        None => { return None; }
    };
    let v = chars_of(line);
    let n = chars_of(prefix);
    assert(occurs_at(line@, prefix@, start as int));
    assert(start + n.len() <= v.len());
    let rest = string_of(&v, start + n.len(), v.len());
    let w = words_text(rest.as_str());
    if w.len() > 0 { Some(w[0].clone()) } else { None }
}

/// The process id of a `ps` line naming a Steam webhelper: the first field of the
/// trimmed line, as a number.
pub open spec fn webhelper_pid(line: Seq<char>) -> Option<u32> {
    if !contains(lower(line), "steamwebhelper.exe"@) {
        None
    } else {
        match split_once_ws(trim(line)) {
            Some((pid, _)) => parsed_u32(pid),
            None => None,
        }
    }
}

fn webhelper_pid_of(line: &str) -> (r: Option<u32>)
    ensures r == webhelper_pid(line@),
{
    if !contains_text(lowercase(line).as_str(), "steamwebhelper.exe") {
        return None;
    }
    match split_once_ws_text(trimmed(line).as_str()) {
        Some((pid, _)) => parse_u32_text(pid.as_str()),
        None => None,
    }
}

/// The process ids of the Steam webhelpers in a `ps ax` listing, in order.
pub open spec fn webhelper_pids_in(ls: Seq<Seq<char>>) -> Seq<u32>
    decreases ls.len(),
{
    if ls.len() == 0 {
        Seq::empty()
    } else {
        let rest = webhelper_pids_in(ls.drop_last());
        match webhelper_pid(ls.last()) {
            Some(p) => rest.push(p),
            None => rest,
        }
    }
}

/// The process ids of the Steam webhelpers in a `ps ax` listing; the caller finds
/// which of them use the Wine prefix.
pub fn webhelper_pids(output: &str) -> (r: Vec<u32>)
    ensures r@ == webhelper_pids_in(lines(output@)),
{
    let ls = lines_text(output);
    let mut out: Vec<u32> = Vec::new();
    let mut i: usize = 0;
    while i < ls.len()
        invariant
            i <= ls.len(),
            ls.deep_view() == lines(output@),
            out@ == webhelper_pids_in(ls.deep_view().take(i as int)),
        decreases ls.len() - i,
    {
        assert(ls.deep_view().take(i + 1).drop_last() =~= ls.deep_view().take(i as int));
        match webhelper_pid_of(ls[i].as_str()) {
            Some(p) => { out.push(p); }
            None => {}
        }
        i = i + 1;
    }
    assert(ls.deep_view().take(i as int) =~= ls.deep_view());
    out
}

/// What the webhelper lines of a listing, from the first on, say of the session: a
/// webhelper in the prefix with a nonzero `-steamid=` means an active session; one
/// with a zero ID means a logged-out helper.
pub open spec fn session_from(ls: Seq<Seq<char>>, in_prefix: Seq<u32>, saw_logged_out: bool) -> Option<bool>
    decreases ls.len(),
{
    if ls.len() == 0 {
        if saw_logged_out { Some(false) } else { None }
    } else {
        let line = ls[0];
        let rest = ls.drop_first();
        match webhelper_pid(line) {
            Some(pid) => if in_prefix.contains(pid) {
                match token_after(line, "-steamid="@) {
                    Some(v) => if v != "0"@ { Some(true) } else { session_from(rest, in_prefix, true) },
                    None => session_from(rest, in_prefix, saw_logged_out),
                }
            } else {
                session_from(rest, in_prefix, saw_logged_out)
            },
            None => session_from(rest, in_prefix, saw_logged_out),
        }
    }
}

fn pid_listed(pids: &Vec<u32>, pid: u32) -> (r: bool)
    ensures r == pids@.contains(pid),
{
    let mut i: usize = 0;
    while i < pids.len()
        invariant i <= pids.len(), forall|k: int| 0 <= k < i ==> pids@[k] != pid,
        decreases pids.len() - i,
    {
        if pids[i] == pid {
            assert(pids@[i as int] == pid);
            return true;
        }
        i = i + 1;
    }
    false
}

/// Whether a Steam webhelper of the prefix runs with a Steam ID: `Some(true)` for a
/// nonzero ID, `Some(false)` where only zero IDs were seen, nothing where no
/// webhelper of the prefix shows one. `in_prefix` holds the process ids that use the
/// prefix.
pub fn steam_webhelper_session_state_from_processes_in_prefix(output: &str, in_prefix: &Vec<u32>) -> (r: Option<bool>)
    ensures r == session_from(lines(output@), in_prefix@, false),
{
    let ls = lines_text(output);
    let mut saw = false;
    let mut i: usize = 0;
    proof { reveal_strlit("0"); reveal_strlit("-steamid="); }
    assert(ls.deep_view().skip(0) =~= ls.deep_view());
    while i < ls.len()
        invariant
            i <= ls.len(),
            ls.deep_view() == lines(output@),
            session_from(lines(output@), in_prefix@, false) == session_from(ls.deep_view().skip(i as int), in_prefix@, saw),
        decreases ls.len() - i,
    {
        let line = ls[i].as_str();
        assert(ls.deep_view().skip(i as int)[0] == line@);
        assert(ls.deep_view().skip(i as int).drop_first() =~= ls.deep_view().skip(i + 1));
        match webhelper_pid_of(line) {
            Some(pid) => {
                if pid_listed(in_prefix, pid) {
                    match token_value(line, "-steamid=") {
                        Some(v) => {
                            if !same_text(v.as_str(), "0") {
                                return Some(true);
                            }
                            saw = true;
                        }
                        None => {}
                    }
                }
            }
            None => {}
        }
        i = i + 1;
    }
    assert(ls.deep_view().skip(i as int) =~= Seq::<Seq<char>>::empty());
    if saw { Some(false) } else { None }
}

/// The browser (CEF) status that the latest sessions of the CEF log
/// (`cef_log.txt`), the HTML log (`steamui_html.txt`) and the webhelper log
/// (`webhelper.txt`) show. Fatal errors and restart loops are marked `last` when
/// Steam no longer runs; a login window placed at the off-screen position is ready
/// either way, remapped where the Mac driver does not allow immovable windows.
pub open spec fn cef_status_of(cef_log: Seq<char>, html_log: Seq<char>, webhelper_log: Seq<char>, allow_immovable: Option<Seq<char>>, running: bool) -> Option<Seq<char>> {
    let cef = from_last(cef_log, "Client version:"@);
    let html = from_last(html_log, "Client version:"@);
    let web = from_last(webhelper_log, "Client version:"@);
    if contains(cef, "FATAL:process_metrics_win"@) {
        Some(if running { "steamwebhelper fatal: process_metrics_win"@ } else { "last steamwebhelper fatal: process_metrics_win"@ })
    } else if match_count(html, "Restart webhelper process"@) >= 3 {
        Some(if running { "steamwebhelper restart loop"@ } else { "last steamwebhelper restart loop"@ })
    } else if contains(web, "SP DesktopLoginWindow"@) && contains(web, "805240832,805240832"@) {
        if allow_immovable matches Some(v) && lower(v) == lower("N"@) {
            Some("login-window-ready-macdrv-remapped"@)
        } else {
            Some("login-window-ready-offscreen"@)
        }
    } else if contains(html, "BrowserReady"@) || contains(web, "SP DesktopLoginWindow"@) {
        Some("login-window-ready"@)
    } else if contains(web, "Startup - webhelper launched"@) {
        Some("steamwebhelper running"@)
    } else if contains(cef, "eglCreateContext"@) {
        Some("steamwebhelper graphics context warnings"@)
    } else {
        None
    }
}

/// The browser (CEF) status of Steam from its logs and the Mac driver settings.
pub fn steam_cef_status_from_logs(
    cef_log: &str,
    html_log: &str,
    webhelper_log: &str,
    mac_driver: &WineMacDriverConfig,
    steam_running: bool,
) -> (r: Option<String>)
    ensures
        opt_string(r) == cef_status_of(cef_log@, html_log@, webhelper_log@,
            opt_string(mac_driver.allow_immovable_windows), steam_running),
{
    proof { reveal_strlit("Client version:"); reveal_strlit("Restart webhelper process"); }
    let cef = latest_log_segment(cef_log, SESSION_MARKER);
    let html = latest_log_segment(html_log, SESSION_MARKER);
    let web = latest_log_segment(webhelper_log, SESSION_MARKER);
    let (cef, html, web) = (cef.as_str(), html.as_str(), web.as_str());
    if contains_text(cef, "FATAL:process_metrics_win") {
        return Some(if steam_running {
            "steamwebhelper fatal: process_metrics_win".to_owned()
        } else {
            "last steamwebhelper fatal: process_metrics_win".to_owned()
        });
    }
    if count_matches(html, "Restart webhelper process") >= 3 {
        return Some(if steam_running {
            "steamwebhelper restart loop".to_owned()
        } else {
            "last steamwebhelper restart loop".to_owned()
        });
    }
    if contains_text(web, "SP DesktopLoginWindow") && contains_text(web, "805240832,805240832") {
        let remapped = match &mac_driver.allow_immovable_windows {
            Some(v) => eq_ignore_ascii_case(v.as_str(), "N"),
            None => false,
        };
        if remapped {
            return Some("login-window-ready-macdrv-remapped".to_owned());
        }
        return Some("login-window-ready-offscreen".to_owned());
    }
    if contains_text(html, "BrowserReady") || contains_text(web, "SP DesktopLoginWindow") {
        return Some("login-window-ready".to_owned());
    }
    if contains_text(web, "Startup - webhelper launched") {
        return Some("steamwebhelper running".to_owned());
    }
    if contains_text(cef, "eglCreateContext") {
        return Some("steamwebhelper graphics context warnings".to_owned());
    }
    None
}

/// A status as it reads once Steam has stopped: marked `last` unless it already is.
pub open spec fn status_when_stopped(status: Seq<char>, running: bool) -> Seq<char> {
    if running || starts_with(status, "last "@) { status } else { "last "@ + status }
}

/// Marks a status `last` when Steam no longer runs.
pub fn last_status_when_stopped(status: String, running: bool) -> (r: String)
    ensures r@ == status_when_stopped(status@, running),
{
    if running || starts_with_text(status.as_str(), "last ") {
        status
    } else {
        crate::text::concat("last ", status.as_str())
    }
}


// ---------------------------------------------------------------- laws

/// Whether a login-log line shows any login status marker.
pub open spec fn shows_login_marker(line: Seq<char>) -> bool {
    contains(line, "Received logon success response"@) || contains(line, "SetLoginState: Success"@)
        || contains(line, "Resolve login request: OK - Success"@) || contains(line, "Received logon failure response"@)
        || contains(line, "SetLoginState: WaitingForCredentials"@)
}

proof fn lemma_last_status_at(ls: Seq<Seq<char>>, f: spec_fn(Seq<char>) -> Option<Seq<char>>, k: int)
    requires
        0 <= k < ls.len(),
        f(ls[k]) is Some,
        forall|j: int| k < j < ls.len() ==> f(#[trigger] ls[j]) is None,
    ensures last_status(ls, f) == f(ls[k]),
    decreases ls.len(),
{
    if k < ls.len() - 1 {
        assert(f(ls.last()) is None) by { assert(ls[ls.len() - 1] == ls.last()); }
        assert forall|j: int| k < j < ls.drop_last().len() implies f(#[trigger] ls.drop_last()[j]) is None by {
            assert(ls.drop_last()[j] == ls[j]);
        }
        lemma_last_status_at(ls.drop_last(), f, k);
        assert(ls.drop_last()[k] == ls[k]);
    } else {
        assert(ls.last() == ls[k]);
    }
}

/// A failed logon is seen: where the last line of the latest login-log session that
/// shows a login marker reports a logon failure (and no success), and the webhelper
/// log's latest session has no auth-poll failure, the login status is
/// `logon-failure`, and Steam is then not counted as logged in, whatever credentials
/// are cached, unless a session is active.
pub proof fn lemma_logon_failure_seen(login_log: Seq<char>, webhelper_js: Seq<char>, k: int, cached: Option<bool>)
    requires
        0 <= k < lines(from_last(login_log, "Client version:"@)).len(),
        ({
            let line = lines(from_last(login_log, "Client version:"@))[k];
            &&& contains(line, "Received logon failure response"@)
            &&& !contains(line, "Received logon success response"@)
            &&& !contains(line, "SetLoginState: Success"@)
            &&& !contains(line, "Resolve login request: OK - Success"@)
        }),
        forall|j: int| k < j < lines(from_last(login_log, "Client version:"@)).len()
            ==> !shows_login_marker(#[trigger] lines(from_last(login_log, "Client version:"@))[j]),
        !contains(from_last(webhelper_js, "Client version:"@), "Login: Failed to poll auth session"@),
    ensures
        login_status_of(login_log, webhelper_js) == Some("logon-failure"@),
        logged_in_status(None, cached, login_status_of(login_log, webhelper_js)) == Some(false),
        logged_in_status(Some(false), cached, login_status_of(login_log, webhelper_js)) == Some(false),
{
    let ls = lines(from_last(login_log, "Client version:"@));
    let f = |l: Seq<char>| login_line_status(l);
    assert forall|j: int| k < j < ls.len() implies f(#[trigger] ls[j]) is None by {
        assert(!shows_login_marker(ls[j]));
    }
    lemma_last_status_at(ls, f, k);
    reveal_strlit("logon-failure");
    reveal_strlit("success");
    assert("logon-failure"@ != "success"@) by { assert("logon-failure"@[0] != "success"@[0]); }
}


/// A successful logon is seen: where the last line of the latest login-log session
/// that shows a login marker reports a success, the login status is `success`,
/// whatever the webhelper log says, and Steam is counted as logged in.
pub proof fn lemma_logon_success_seen(login_log: Seq<char>, webhelper_js: Seq<char>, k: int, active: Option<bool>, cached: Option<bool>)
    requires
        0 <= k < lines(from_last(login_log, "Client version:"@)).len(),
        ({
            let line = lines(from_last(login_log, "Client version:"@))[k];
            contains(line, "Received logon success response"@) || contains(line, "SetLoginState: Success"@)
                || contains(line, "Resolve login request: OK - Success"@)
        }),
        forall|j: int| k < j < lines(from_last(login_log, "Client version:"@)).len()
            ==> !shows_login_marker(#[trigger] lines(from_last(login_log, "Client version:"@))[j]),
    ensures
        login_status_of(login_log, webhelper_js) == Some("success"@),
        logged_in_status(active, cached, login_status_of(login_log, webhelper_js)) == Some(true),
{
    let ls = lines(from_last(login_log, "Client version:"@));
    let f = |l: Seq<char>| login_line_status(l);
    assert forall|j: int| k < j < ls.len() implies f(#[trigger] ls[j]) is None by {
        assert(!shows_login_marker(ls[j]));
    }
    lemma_last_status_at(ls, f, k);
}

} // verus!
