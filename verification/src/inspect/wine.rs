//! The Wine prefix and its Windows Steam client: where things are, what the
//! registry says, and the runtime record assembled from what was found.
use vstd::prelude::*;
use crate::games::{opt_str, opt_text, GameProfile, SteamIntegration};
use crate::inspect::parse::{quoted, quoted_tokens};
use crate::inspect::steam_status::{
    logged_in_status, opt_string, status_when_stopped, steam_logged_in_status, last_status_when_stopped,
};
use crate::paths::{components, is_absolute, join, parent_of, parent_path, path_components, path_join};
use crate::runtime::compatibility::{compatibility_verdict, engine_backend_compatibility, engine_kind_of, wine_engine_kind_for_path};
use crate::runtime::profile::{prefix_path_from_windows_path, prefix_path_of};
use crate::text::{
    chars_of, concat, concat3, decimal, decimal_text, lines, lines_text, same_text, starts_with, starts_with_text,
    string_of, trim, trimmed,
};
use crate::types::{CompatibilityStatus, WineMacDriverConfig, WineSteamRuntime};

verus! {

/// Whether Steam runs: its process, or a webhelper with an active session.
pub open spec fn running_status(steam_process: bool, webhelper: bool, active_session: Option<bool>) -> bool {
    steam_process || (webhelper && active_session == Some(true))
}

/// Whether Steam runs in the prefix.
pub fn wine_steam_running_status(steam_process_running: bool, steam_webhelper_running: bool, active_session: Option<bool>) -> (r: bool)
    ensures r == running_status(steam_process_running, steam_webhelper_running, active_session),
{
    steam_process_running || (steam_webhelper_running && active_session == Some(true))
}

/// What keeps a game from launching through Wine's Steam: a missing engine, a
/// missing Steam client where Steam is required, a missing executable, an unhealthy
/// browser.
pub open spec fn readiness_issues_for(
    has_wine: bool,
    has_steam: bool,
    has_executable: bool,
    cef_status: Option<Seq<char>>,
    game_name: Seq<char>,
    steam_required: bool,
) -> Seq<Seq<char>> {
    (if !has_wine { seq!["Wine engine missing"@] } else { Seq::empty() })
        + (if steam_required && !has_steam { seq!["Windows Steam missing"@] } else { Seq::empty() })
        + (if !has_executable { seq!["Windows "@ + game_name + " executable missing"@] } else { Seq::empty() })
        + match cef_status {
            Some(s) => if s == "steamwebhelper fatal: process_metrics_win"@ || s == "steamwebhelper restart loop"@ {
                seq!["Steam CEF unhealthy: "@ + s]
            } else {
                Seq::empty()
            },
            None => Seq::empty(),
        }
}

/// What keeps a game from launching through Wine's Steam.
pub fn wine_steam_readiness_issues_for(
    has_wine: bool,
    has_steam: bool,
    has_executable: bool,
    cef_status: Option<&str>,
    game_name: &str,
    steam_required: bool,
) -> (r: Vec<String>)
    ensures r.deep_view() == readiness_issues_for(has_wine, has_steam, has_executable, opt_str(cef_status), game_name@, steam_required),
{
    let mut issues: Vec<String> = Vec::new();
    if !has_wine {
        crate::runtime::launch::push_text(&mut issues, "Wine engine missing".to_owned());
    }
    if steam_required && !has_steam {
        crate::runtime::launch::push_text(&mut issues, "Windows Steam missing".to_owned());
    }
    if !has_executable {
        crate::runtime::launch::push_text(&mut issues, concat3("Windows ", game_name, " executable missing"));
    }
    proof { reveal_strlit("steamwebhelper fatal: process_metrics_win"); reveal_strlit("steamwebhelper restart loop"); }
    if let Some(s) = cef_status {
        if same_text(s, "steamwebhelper fatal: process_metrics_win") || same_text(s, "steamwebhelper restart loop") {
            crate::runtime::launch::push_text(&mut issues, concat("Steam CEF unhealthy: ", s));
        }
    }
    assert(issues.deep_view() =~= readiness_issues_for(has_wine, has_steam, has_executable, opt_str(cef_status), game_name@, steam_required));
    issues
}

/// The prefix directory a profile's bottle name picks under `prefixes`: only a name
/// that is one plain path component.
pub open spec fn bottle_path_of(bottle_name: Option<Seq<char>>, prefixes: Seq<char>) -> Option<Seq<char>> {
    match bottle_name {
        Some(n) => if !is_absolute(n) && !starts_with(n, "./"@) && components(n).len() == 1
            && components(n)[0] != ".."@ {
            Some(path_join(prefixes, n))
        } else {
            None
        },
        None => None,
    }
}

/// The prefix directory a profile's bottle name picks under `prefixes`.
pub fn profile_bottle_path<P: GameProfile>(profile: &P, prefixes: &str) -> (r: Option<String>)
    ensures opt_string(r) == bottle_path_of(profile.spec_bottle_name(), prefixes@),
{
    let name = match profile.bottle_name() {
        Some(n) => n,
        None => { return None; }
    };
    let v = chars_of(name);
    let c = path_components(name);
    proof { reveal_strlit("./"); reveal_strlit(".."); }
    if (v.len() > 0 && v[0] == '/') || starts_with_text(name, "./") || c.len() != 1 || same_text(c[0].as_str(), "..") {
        return None;
    }
    Some(join(prefixes, name))
}

/// The file name a game's process runs under: the executable path's last piece,
/// after its last `\` or `/`.
pub open spec fn process_exe_name(executable: Seq<char>) -> Seq<char>
    decreases executable.len(),
{
    if executable.len() == 0 {
        executable
    } else if executable.last() == '\\' || executable.last() == '/' {
        Seq::empty()
    } else {
        process_exe_name(executable.drop_last()).push(executable.last())
    }
}

/// The file name a game's process runs under.
pub fn profile_process_exe_name(executable: &str) -> (r: String)
    ensures r@ == process_exe_name(executable@),
{
    let v = chars_of(executable);
    let mut i = v.len();
    assert(v@.take(v.len() as int) =~= v@);
    assert(process_exe_name(v@.take(v.len() as int)) + v@.subrange(v.len() as int, v.len() as int) =~= process_exe_name(executable@));
    while i > 0 && v[i - 1] != '\\' && v[i - 1] != '/'
        invariant
            i <= v.len(),
            v@ == executable@,
            process_exe_name(executable@) == process_exe_name(v@.take(i as int)) + v@.subrange(i as int, v.len() as int),
        decreases i,
    {
        assert(v@.take(i as int).drop_last() =~= v@.take(i - 1));
        assert(v@.subrange(i - 1, v.len() as int) =~= seq![v@[i - 1]] + v@.subrange(i as int, v.len() as int));
        i = i - 1;
    }
    proof {
        if i > 0 {
            assert(v@.take(i as int).last() == v@[i - 1]);
        }
        assert(v@.take(0) =~= Seq::<char>::empty());
    }
    string_of(&v, i, v.len())
}

/// Where Windows Steam may be installed in a prefix, in the order they are tried.
pub open spec fn steam_exe_candidates(prefix: Seq<char>) -> Seq<Seq<char>> {
    seq![
        path_join(prefix, "drive_c/Steam/steam.exe"@),
        path_join(prefix, "drive_c/Steam/Steam.exe"@),
        path_join(prefix, "drive_c/Program Files (x86)/Steam/steam.exe"@),
        path_join(prefix, "drive_c/Program Files (x86)/Steam/Steam.exe"@),
        path_join(prefix, "drive_c/Program Files/Steam/steam.exe"@),
        path_join(prefix, "drive_c/Program Files/Steam/Steam.exe"@),
    ]
}

/// Where Windows Steam may be installed in a prefix.
pub fn windows_steam_exe_candidates(prefix: &str) -> (r: Vec<String>)
    ensures r.deep_view() == steam_exe_candidates(prefix@),
{
    let mut v: Vec<String> = Vec::new();
    crate::runtime::launch::push_text(&mut v, join(prefix, "drive_c/Steam/steam.exe"));
    crate::runtime::launch::push_text(&mut v, join(prefix, "drive_c/Steam/Steam.exe"));
    crate::runtime::launch::push_text(&mut v, join(prefix, "drive_c/Program Files (x86)/Steam/steam.exe"));
    crate::runtime::launch::push_text(&mut v, join(prefix, "drive_c/Program Files (x86)/Steam/Steam.exe"));
    crate::runtime::launch::push_text(&mut v, join(prefix, "drive_c/Program Files/Steam/steam.exe"));
    crate::runtime::launch::push_text(&mut v, join(prefix, "drive_c/Program Files/Steam/Steam.exe"));
    assert(v.deep_view() =~= steam_exe_candidates(prefix@));
    v
}

/// The state root a prefix belongs to: the parent of the `prefixes` directory that
/// holds it.
pub open spec fn state_root_of_prefix(prefix: Seq<char>) -> Option<Seq<char>> {
    match parent_of(prefix) {
        Some(prefixes) => {
            let c = components(prefixes);
            if c.len() > 0 && c.last() == "prefixes"@ { parent_of(prefixes) } else { None }
        },
        None => None,
    }
}

/// The state root a prefix belongs to.
pub fn state_root_for_prefix(prefix: &str) -> (r: Option<String>)
    ensures opt_string(r) == state_root_of_prefix(prefix@),
{
    let prefixes = match parent_path(prefix) {
        Some(p) => p,
        None => { return None; }
    };
    let c = path_components(prefixes.as_str());
    proof { reveal_strlit("prefixes"); }
    if c.len() > 0 && same_text(c[c.len() - 1].as_str(), "prefixes") {
        parent_path(prefixes.as_str())
    } else {
        None
    }
}

/// What the macOS windows of Wine show: none visible while the browser's login
/// window is ready, none at all, or some visible; nothing where they were not counted.
pub open spec fn mac_window_status_of(window_count: Option<u32>, cef_status: Option<Seq<char>>) -> Option<Seq<char>> {
    match window_count {
        Some(0) => if cef_status matches Some(s) && starts_with(s, "login-window-ready"@) {
            Some("cef-ready-no-macos-window"@)
        } else {
            Some("no-macos-window"@)
        },
        Some(_) => Some("mac-window-visible"@),
        None => None,
    }
}

/// What the macOS windows of Wine show.
pub fn wine_mac_window_status(window_count: Option<u32>, cef_status: Option<&str>) -> (r: Option<String>)
    ensures opt_string(r) == mac_window_status_of(window_count, opt_str(cef_status)),
{
    match window_count {
        Some(0) => {
            let ready = match cef_status {
                Some(s) => starts_with_text(s, "login-window-ready"),
                None => false,
            };
            if ready { Some("cef-ready-no-macos-window".to_owned()) } else { Some("no-macos-window".to_owned()) }
        }
        Some(_) => Some("mac-window-visible".to_owned()),
        None => None,
    }
}

// ---------------------------------------------------------------- the registry

/// Whether a registry line opens section `header` (`[section]`, maybe followed by a
/// space and a timestamp).
pub open spec fn opens_section(line: Seq<char>, header: Seq<char>) -> bool {
    line == header || (starts_with(line, header) && line.len() > header.len() && line[header.len() as int] == ' ')
}

fn opens(line: &str, header: &str) -> (r: bool)
    ensures r == opens_section(line@, header@),
{
    if same_text(line, header) {
        return true;
    }
    if !starts_with_text(line, header) {
        return false;
    }
    let v = chars_of(line);
    let h = chars_of(header);
    v.len() > h.len() && v[h.len()] == ' '
}

/// The value of `"name"="value"` in section `section` of a registry file, scanning
/// the trimmed lines from `i` on, inside the section when `inside`.
pub open spec fn reg_value_from(ls: Seq<Seq<char>>, section: Seq<char>, name: Seq<char>, i: int, inside: bool) -> Option<Seq<char>>
    decreases ls.len() - i,
{
    if i < 0 || i >= ls.len() {
        None
    } else {
        let line = trim(ls[i]);
        if starts_with(line, "["@) {
            reg_value_from(ls, section, name, i + 1, opens_section(line, "["@ + section + "]"@))
        } else if inside && quoted(line).len() >= 2 && quoted(line)[0] == name {
            Some(quoted(line)[1])
        } else {
            reg_value_from(ls, section, name, i + 1, inside)
        }
    }
}

/// The quoted value `name` in section `section` of a registry file's text.
pub fn wine_reg_quoted_value(text: &str, section: &str, name: &str) -> (r: Option<String>)
    ensures opt_string(r) == reg_value_from(lines(text@), section@, name@, 0, false),
{
    let header = concat3("[", section, "]");
    let ls = lines_text(text);
    let mut inside = false;
    let mut i: usize = 0;
    proof { reveal_strlit("["); reveal_strlit("]"); }
    while i < ls.len()
        invariant
            i <= ls.len(),
            ls.deep_view() == lines(text@),
            header@ == "["@ + section@ + "]"@,
            reg_value_from(lines(text@), section@, name@, 0, false) == reg_value_from(lines(text@), section@, name@, i as int, inside),
        decreases ls.len() - i,
    {
        let line = trimmed(ls[i].as_str());
        if starts_with_text(line.as_str(), "[") {
            inside = opens(line.as_str(), header.as_str());
        } else if inside {
            let tokens = quoted_tokens(line.as_str());
            if tokens.len() >= 2 && same_text(tokens[0].as_str(), name) {
                return Some(tokens[1].clone());
            }
        }
        i = i + 1;
    }
    None
}

/// The value of a hexadecimal digit.
pub open spec fn hex_value(c: char) -> Option<int> {
    if '0' <= c && c <= '9' { Some(c as int - '0' as int) }
    else if 'a' <= c && c <= 'f' { Some(c as int - 'a' as int + 10) }
    else if 'A' <= c && c <= 'F' { Some(c as int - 'A' as int + 10) }
    else { None }
}

/// The value of hexadecimal digits, if they all are digits.
pub open spec fn hex_digits_value(s: Seq<char>) -> Option<int>
    decreases s.len(),
{
    if s.len() == 0 {
        Some(0)
    } else {
        match (hex_digits_value(s.drop_last()), hex_value(s.last())) {
            (Some(a), Some(d)) => Some(a * 16 + d),
            _ => None,
        }
    }
}

/// `u32::from_str_radix(s, 16)`: an optional `+` and at least one hexadecimal
/// digit, with a value that fits.
pub open spec fn parsed_hex_u32(s: Seq<char>) -> Option<u32> {
    let d = if s.len() > 0 && s[0] == '+' { s.drop_first() } else { s };
    match hex_digits_value(d) {
        Some(v) => if d.len() > 0 && v <= u32::MAX { Some(v as u32) } else { None },
        None => None,
    }
}

proof fn lemma_hex_nonneg_monotone(s: Seq<char>)
    ensures hex_digits_value(s) matches Some(v) ==> v >= 0,
        forall|i: int| 0 <= i <= s.len() && hex_digits_value(s) is Some ==>
            hex_digits_value(#[trigger] s.take(i)) is Some && hex_digits_value(s.take(i))->0 <= hex_digits_value(s)->0,
    decreases s.len(),
{
    if s.len() > 0 {
        lemma_hex_nonneg_monotone(s.drop_last());
        assert forall|i: int| 0 <= i <= s.len() && hex_digits_value(s) is Some implies
            hex_digits_value(#[trigger] s.take(i)) is Some && hex_digits_value(s.take(i))->0 <= hex_digits_value(s)->0 by {
            if i < s.len() {
                assert(s.take(i) =~= s.drop_last().take(i));
            } else {
                assert(s.take(i) =~= s);
            }
        }
    } else {
        assert forall|i: int| 0 <= i <= s.len() && hex_digits_value(s) is Some implies
            hex_digits_value(#[trigger] s.take(i)) is Some && hex_digits_value(s.take(i))->0 <= hex_digits_value(s)->0 by {
            assert(s.take(i) =~= s);
        }
    }
}

/// `u32::from_str_radix(value, 16)`.
pub fn parse_hex_u32(value: &str) -> (r: Option<u32>)
    ensures r == parsed_hex_u32(value@),
{
    let v = chars_of(value);
    let start: usize = if v.len() > 0 && v[0] == '+' { 1 } else { 0 };
    let ghost d = if value@.len() > 0 && value@[0] == '+' { value@.drop_first() } else { value@ };
    assert(d =~= v@.skip(start as int));
    if start >= v.len() {
        proof { if hex_digits_value(d) is Some { assert(d.len() == 0); } }
        return None;
    }
    let mut acc: u64 = 0;
    let mut i: usize = start;
    assert(d.take(0) =~= Seq::<char>::empty());
    while i < v.len()
        invariant
            v@ == value@,
            start <= i <= v.len(),
            start < v.len(),
            d == v@.skip(start as int),
            d == (if value@.len() > 0 && value@[0] == '+' { value@.drop_first() } else { value@ }),
            hex_digits_value(d.take(i - start)) == Some(acc as int),
            acc <= u32::MAX,
        decreases v.len() - i,
    {
        let c = v[i];
        assert(d.take(i + 1 - start).drop_last() =~= d.take(i - start));
        assert(d[i - start] == c);
        assert(d.take(i + 1 - start).last() == c);
        let digit: u64 = if '0' <= c && c <= '9' {
            (c as u32 - '0' as u32) as u64
        } else if 'a' <= c && c <= 'f' {
            (c as u32 - 'a' as u32 + 10) as u64
        } else if 'A' <= c && c <= 'F' {
            (c as u32 - 'A' as u32 + 10) as u64
        } else {
            proof {
                assert(hex_digits_value(d.take(i + 1 - start)) is None);
                lemma_hex_nonneg_monotone(d);
                if hex_digits_value(d) is Some {
                    assert(hex_digits_value(d.take(i + 1 - start)) is Some);
                }
            }
            return None;
        };
        assert(hex_value(c) == Some(digit as int));
        assert(hex_digits_value(d.take(i + 1 - start)) == Some(acc * 16 + digit));
        let next = acc * 16 + digit;
        if next > 0xffff_ffff {
            proof {
                lemma_hex_nonneg_monotone(d);
                if hex_digits_value(d) is Some {
                    assert(hex_digits_value(d.take(i + 1 - start))->0 <= hex_digits_value(d)->0);
                }
            }
            return None;
        }
        acc = next;
        i = i + 1;
    }
    assert(d.take(i - start) =~= d);
    Some(acc as u32)
}

/// The DWORD `name` in section `section` of a registry file, scanning the trimmed
/// lines from `i` on, inside the section when `inside`: the hexadecimal value of the
/// first `"name"=dword:` line there.
pub open spec fn reg_dword_from(ls: Seq<Seq<char>>, section: Seq<char>, name: Seq<char>, i: int, inside: bool) -> Option<u32>
    decreases ls.len() - i,
{
    if i < 0 || i >= ls.len() {
        None
    } else {
        let line = trim(ls[i]);
        let key = "\""@ + name + "\"=dword:"@;
        if starts_with(line, "["@) {
            reg_dword_from(ls, section, name, i + 1, opens_section(line, "["@ + section + "]"@))
        } else if inside && starts_with(line, key) {
            parsed_hex_u32(line.skip(key.len() as int))
        } else {
            reg_dword_from(ls, section, name, i + 1, inside)
        }
    }
}

/// The DWORD `name` in section `section` of a registry file's text.
pub fn wine_reg_dword_value(text: &str, section: &str, name: &str) -> (r: Option<u32>)
    ensures r == reg_dword_from(lines(text@), section@, name@, 0, false),
{
    let header = concat3("[", section, "]");
    let key = concat3("\"", name, "\"=dword:");
    let ls = lines_text(text);
    let mut inside = false;
    let mut i: usize = 0;
    proof { reveal_strlit("["); reveal_strlit("]"); reveal_strlit("\""); reveal_strlit("\"=dword:"); }
    while i < ls.len()
        invariant
            i <= ls.len(),
            ls.deep_view() == lines(text@),
            header@ == "["@ + section@ + "]"@,
            key@ == "\""@ + name@ + "\"=dword:"@,
            reg_dword_from(lines(text@), section@, name@, 0, false) == reg_dword_from(lines(text@), section@, name@, i as int, inside),
        decreases ls.len() - i,
    {
        let line = trimmed(ls[i].as_str());
        if starts_with_text(line.as_str(), "[") {
            inside = opens(line.as_str(), header.as_str());
        } else if inside && starts_with_text(line.as_str(), key.as_str()) {
            let lv = chars_of(line.as_str());
            let kv = chars_of(key.as_str());
            let rest = string_of(&lv, kv.len(), lv.len());
            assert(rest@ =~= line@.skip(key@.len() as int));
            return parse_hex_u32(rest.as_str());
        }
        i = i + 1;
    }
    None
}

/// The Windows version a prefix reports: Wine's own `Version` setting in `user.reg`,
/// or the name of the version numbers in `system.reg`.
pub open spec fn windows_version_of(user_reg: Option<Seq<char>>, system_reg: Option<Seq<char>>) -> Option<Seq<char>> {
    let set = match user_reg { Some(t) => reg_value_from(lines(t), "Software\\\\Wine"@, "Version"@, 0, false), None => None };
    let nt = "Software\\\\Microsoft\\\\Windows NT\\\\CurrentVersion"@;
    match set {
        Some(v) => Some(v),
        None => match system_reg {
            None => None,
            Some(t) => match reg_dword_from(lines(t), nt, "CurrentMajorVersionNumber"@, 0, false) {
                None => None,
                Some(major) => {
                    let minor = match reg_dword_from(lines(t), nt, "CurrentMinorVersionNumber"@, 0, false) {
                        Some(m) => m,
                        None => 0,
                    };
                    Some(if major == 10 && minor == 0 { "win10"@ }
                        else if major == 6 && minor == 3 { "win81"@ }
                        else if major == 6 && minor == 2 { "win8"@ }
                        else if major == 6 && minor == 1 { "win7"@ }
                        else if major == 6 && minor == 0 { "vista"@ }
                        else if major == 5 && minor == 1 { "winxp"@ }
                        else { decimal(major as nat) + "."@ + decimal(minor as nat) })
                },
            },
        },
    }
}

/// The Windows version a prefix reports, from the texts of its `user.reg` and
/// `system.reg` where they could be read.
pub fn wine_windows_version(user_reg: Option<&str>, system_reg: Option<&str>) -> (r: Option<String>)
    ensures opt_string(r) == windows_version_of(opt_str(user_reg), opt_str(system_reg)),
{
    let set = match user_reg {
        Some(t) => wine_reg_quoted_value(t, "Software\\\\Wine", "Version"),
        None => None,
    };
    if let Some(v) = set {
        return Some(v);
    }
    let t = match system_reg {
        Some(t) => t,
        None => { return None; }
    };
    let nt = "Software\\\\Microsoft\\\\Windows NT\\\\CurrentVersion";
    let major = match wine_reg_dword_value(t, nt, "CurrentMajorVersionNumber") {
        Some(m) => m,
        None => { return None; }
    };
    let minor = match wine_reg_dword_value(t, nt, "CurrentMinorVersionNumber") {
        Some(m) => m,
        None => 0,
    };
    Some(if major == 10 && minor == 0 { "win10".to_owned() }
        else if major == 6 && minor == 3 { "win81".to_owned() }
        else if major == 6 && minor == 2 { "win8".to_owned() }
        else if major == 6 && minor == 1 { "win7".to_owned() }
        else if major == 6 && minor == 0 { "vista".to_owned() }
        else if major == 5 && minor == 1 { "winxp".to_owned() }
        else { concat3(decimal_text(major as u64).as_str(), ".", decimal_text(minor as u64).as_str()) })
}

/// The Mac driver settings in a prefix's `user.reg` text.
pub fn wine_mac_driver_config(user_reg: Option<&str>) -> (r: WineMacDriverConfig)
    ensures
        opt_string(r.allow_immovable_windows) == match user_reg {
            Some(t) => reg_value_from(lines(t@), "Software\\\\Wine\\\\Mac Driver"@, "AllowImmovableWindows"@, 0, false),
            None => None,
        },
        opt_string(r.retina_mode) == match user_reg {
            Some(t) => reg_value_from(lines(t@), "Software\\\\Wine\\\\Mac Driver"@, "RetinaMode"@, 0, false),
            None => None,
        },
{
    match user_reg {
        Some(t) => WineMacDriverConfig {
            allow_immovable_windows: wine_reg_quoted_value(t, "Software\\\\Wine\\\\Mac Driver", "AllowImmovableWindows"),
            retina_mode: wine_reg_quoted_value(t, "Software\\\\Wine\\\\Mac Driver", "RetinaMode"),
        },
        None => WineMacDriverConfig { allow_immovable_windows: None, retina_mode: None },
    }
}

// ---------------------------------------------------------------- engines

/// The first candidate engine that can run the profile's graphics backend at all.
pub open spec fn usable_engine_from(candidates: Seq<Seq<char>>, backend: crate::games::GraphicsBackend, i: int) -> Option<Seq<char>>
    decreases candidates.len() - i,
{
    if i < 0 || i >= candidates.len() {
        None
    } else if compatibility_verdict(engine_kind_of(candidates[i]), backend).0 != CompatibilityStatus::Unsupported {
        Some(candidates[i])
    } else {
        usable_engine_from(candidates, backend, i + 1)
    }
}

/// The engine for a profile among the existing candidates, in order.
pub fn select_wine_engine_for<P: GameProfile>(profile: &P, existing: &Vec<String>) -> (r: Option<String>)
    ensures opt_string(r) == usable_engine_from(existing.deep_view(), profile.spec_graphics_backend(), 0),
{
    let backend = profile.graphics_backend();
    let mut i: usize = 0;
    while i < existing.len()
        invariant
            i <= existing.len(),
            backend == profile.spec_graphics_backend(),
            usable_engine_from(existing.deep_view(), backend, 0) == usable_engine_from(existing.deep_view(), backend, i as int),
        decreases existing.len() - i,
    {
        let kind = wine_engine_kind_for_path(existing[i].as_str());
        let verdict = engine_backend_compatibility(kind, backend);
        if verdict.status != CompatibilityStatus::Unsupported {
            return Some(existing[i].clone());
        }
        i = i + 1;
    }
    None
}

// ---------------------------------------------------------------- the runtime record

/// Where a game is installed in the prefix: for a standalone game, its staged root
/// or its Windows install path; otherwise the install found in Steam's library, or
/// its Windows install path.
pub open spec fn install_dir_of<P: GameProfile>(profile: P, prefix: Seq<char>, staged_root: Option<Seq<char>>, steam_found: Option<Seq<char>>) -> Option<Seq<char>> {
    let from_hint = match profile.spec_windows_install_path_hint() {
        Some(h) => prefix_path_of(prefix, h),
        None => None,
    };
    let found = if profile.spec_steam_integration() == SteamIntegration::Standalone { staged_root } else { steam_found };
    match found {
        Some(d) => Some(d),
        None => from_hint,
    }
}

/// Where a game is installed in the prefix.
pub fn game_install_dir_for<P: GameProfile>(profile: &P, prefix: &str, staged_root: Option<&str>, steam_found: Option<&str>) -> (r: Option<String>)
    ensures opt_string(r) == install_dir_of(*profile, prefix@, opt_str(staged_root), opt_str(steam_found)),
{
    let found = if profile.steam_integration() == SteamIntegration::Standalone { staged_root } else { steam_found };
    match found {
        Some(d) => Some(d.to_owned()),
        None => match profile.windows_install_path_hint() {
            Some(h) => prefix_path_from_windows_path(prefix, h),
            None => None,
        },
    }
}

/// What was found about a prefix, its Steam client and a game.
#[derive(Debug)]
pub struct WineSteamFindings {
    pub prefix: String,
    pub wine: Option<String>,
    pub wine_version: Option<String>,
    pub windows_version: Option<String>,
    pub dxmt_root: Option<String>,
    pub steam_exe: Option<String>,
    pub game_manifest: Option<String>,
    pub game_install_dir: Option<String>,
    /// Whether the profile's executable exists in the game's install directory
    /// (see `game_executable_path`).
    pub game_executable_found: bool,
    pub steam_process_running: bool,
    pub steam_webhelper_running: bool,
    pub game_running: bool,
    pub active_session: Option<bool>,
    pub cached_credentials: Option<bool>,
    /// The login status of the latest session, as the logs show it.
    pub login_status: Option<String>,
    /// The connection status of the latest session, as the logs show it.
    pub connection_status: Option<String>,
    pub cef_status: Option<String>,
    /// The number of visible Wine windows on macOS, where they were counted.
    pub mac_window_count: Option<u32>,
    pub virtual_desktop: Option<String>,
    pub mac_driver: WineMacDriverConfig,
}

/// The game executable of a runtime: the profile's executable in the install
/// directory, where the directory is known and the file was found there.
pub open spec fn game_executable_of<P: GameProfile>(profile: P, f: WineSteamFindings) -> Option<Seq<char>> {
    match f.game_install_dir {
        Some(d) => if f.game_executable_found { Some(path_join(d@, profile.spec_windows_exe())) } else { None },
        None => None,
    }
}

/// Where the profile's executable is in the install directory `install_dir`.
pub fn game_executable_path<P: GameProfile>(profile: &P, install_dir: &str) -> (r: String)
    ensures r@ == path_join(install_dir@, profile.spec_windows_exe()),
{
    join(install_dir, profile.windows_exe())
}

/// The issue of a webhelper left running without Steam.
pub open spec fn orphan_issue() -> Seq<char> {
    "orphaned Steam WebHelper process tree detected; run `portcellar isaac steam-stop`"@
}

/// The readiness issues of a runtime with what was found.
pub open spec fn findings_issues<P: GameProfile>(profile: P, f: WineSteamFindings) -> Seq<Seq<char>> {
    readiness_issues_for(f.wine is Some, f.steam_exe is Some, game_executable_of(profile, f) is Some, opt_string(f.cef_status),
        profile.spec_name(), profile.spec_steam_integration() != SteamIntegration::Standalone)
        + (if f.steam_webhelper_running && !f.steam_process_running { seq![orphan_issue()] } else { Seq::empty() })
}

fn mark_stopped(status: Option<String>, running: bool) -> (r: Option<String>)
    ensures
        match status {
            Some(s) => r matches Some(t) && t@ == status_when_stopped(s@, running),
            None => r is None,
        },
{
    match status {
        Some(s) => Some(last_status_when_stopped(s, running)),
        None => None,
    }
}

/// The runtime record of a game's prefix from what was found: whether Steam runs,
/// whether it is logged in, the statuses (marked `last` once Steam has stopped),
/// what the macOS windows show, and what keeps the game from launching.
pub fn wine_steam_runtime_from<P: GameProfile>(profile: &P, f: WineSteamFindings) -> (r: WineSteamRuntime)
    ensures
        r.prefix == f.prefix && r.wine == f.wine && r.wine_version == f.wine_version
            && r.windows_version == f.windows_version && r.dxmt_root == f.dxmt_root && r.steam_exe == f.steam_exe
            && r.game_manifest == f.game_manifest && r.game_install_dir == f.game_install_dir
            && r.game_running == f.game_running
            && r.active_session == f.active_session && r.cached_credentials == f.cached_credentials
            && r.cef_status == f.cef_status && r.virtual_desktop == f.virtual_desktop && r.mac_driver == f.mac_driver,
        opt_string(r.game_executable) == game_executable_of(*profile, f),
        r.running == running_status(f.steam_process_running, f.steam_webhelper_running, f.active_session),
        r.logged_in == logged_in_status(f.active_session, f.cached_credentials, opt_string(f.login_status)),
        match f.login_status {
            Some(s) => r.login_status matches Some(t) && t@ == status_when_stopped(s@, r.running),
            None => r.login_status is None,
        },
        match f.connection_status {
            Some(s) => r.connection_status matches Some(t) && t@ == status_when_stopped(s@, r.running),
            None => r.connection_status is None,
        },
        opt_string(r.mac_window_status) == mac_window_status_of(if r.running { f.mac_window_count } else { None },
            opt_string(f.cef_status)),
        r.readiness_issues.deep_view() == findings_issues(*profile, f),
        r.launch_ready_after_login == (findings_issues(*profile, f).len() == 0),
{
    let running = wine_steam_running_status(f.steam_process_running, f.steam_webhelper_running, f.active_session);
    let logged_in = steam_logged_in_status(f.active_session, f.cached_credentials,
        match &f.login_status { Some(s) => Some(s.as_str()), None => None });
    let cef = match &f.cef_status { Some(s) => Some(s.as_str()), None => None };
    let mac_window_status = wine_mac_window_status(if running { f.mac_window_count } else { None }, cef);
    let game_executable = match &f.game_install_dir {
        Some(d) => if f.game_executable_found { Some(game_executable_path(profile, d.as_str())) } else { None },
        None => None,
    };
    let mut readiness_issues = wine_steam_readiness_issues_for(f.wine.is_some(), f.steam_exe.is_some(),
        game_executable.is_some(), cef, profile.name(),
        profile.steam_integration() != SteamIntegration::Standalone);
    if f.steam_webhelper_running && !f.steam_process_running {
        crate::runtime::launch::push_text(&mut readiness_issues,
            "orphaned Steam WebHelper process tree detected; run `portcellar isaac steam-stop`".to_owned());
    }
    assert(readiness_issues.deep_view() =~= findings_issues(*profile, f));
    let launch_ready_after_login = readiness_issues.len() == 0;
    let login_status = mark_stopped(f.login_status, running);
    let connection_status = mark_stopped(f.connection_status, running);
    WineSteamRuntime {
        wine: f.wine,
        wine_version: f.wine_version,
        windows_version: f.windows_version,
        dxmt_root: f.dxmt_root,
        prefix: f.prefix,
        steam_exe: f.steam_exe,
        game_manifest: f.game_manifest,
        game_install_dir: f.game_install_dir,
        game_executable,
        running,
        game_running: f.game_running,
        launch_ready_after_login,
        readiness_issues,
        logged_in,
        active_session: f.active_session,
        cached_credentials: f.cached_credentials,
        login_status,
        connection_status,
        cef_status: f.cef_status,
        mac_window_status,
        virtual_desktop: f.virtual_desktop,
        mac_driver: f.mac_driver,
    }
}

} // verus!
