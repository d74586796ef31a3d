//! Judging what an install holds: app ids, executable candidates, graphics layers,
//! and the recommendations and blockers an analysis reports.
use vstd::prelude::*;
use super::{PeSummary, RuntimeSnapshot, SteamAppManifest, WindowsExeCandidate};
use crate::inspect::parse::{key_values, parse_key_values};
use crate::paths::{join, path_join};
use crate::error::{PortCellarError, Result};
use crate::text::{
    all_digits, concat, concat3, contains, contains_text, is_ascii_alnum, is_digit_text, lines, lower,
    lower_char, lowercase, push_char, same_text, trim_char, trim_char_text,
};

verus! {

/// What `char::escape_debug` yields for `c`.
pub uninterp spec fn char_escape_debug(c: char) -> Seq<char>;

/// `char::escape_debug` of `c`: the character itself where std treats it as
/// printable, else its `\u{..}` escape. For characters outside ASCII this is what
/// `{:?}` of a text writes for them (single and double quotes, which the two escape
/// differently, are ASCII). Nothing more is stated of std's tables of printable and
/// grapheme-extending characters.
#[verifier::external_body]
fn escaped_char(c: char) -> (r: String)
    ensures r@ == char_escape_debug(c),
{
    c.escape_debug().to_string()
}

/// `{:?}` of one character inside a quoted string: for ASCII, the escapes Rust writes
/// for NUL, tab, CR, LF, backslash, double quote and the other control characters,
/// else the character itself; outside ASCII, what `char::escape_debug` writes
/// (the character, or `\u{..}` where std does not print it as it is).
pub open spec fn debug_char(c: char) -> Seq<char> {
    if (c as u32) >= 0x80 { char_escape_debug(c) }
    else if c == '\0' { seq!['\\', '0'] }
    else if c == '\t' { seq!['\\', 't'] }
    else if c == '\r' { seq!['\\', 'r'] }
    else if c == '\n' { seq!['\\', 'n'] }
    else if c == '\\' { seq!['\\', '\\'] }
    else if c == '"' { seq!['\\', '"'] }
    else if (c as u32) < 0x20 || (c as u32) == 0x7f {
        seq!['\\', 'u', '{'] + hex_digits(c as u32) + seq!['}']
    } else {
        seq![c]
    }
}

/// The lowercase hexadecimal digits of `n` (below 256), without leading zeros.
pub open spec fn hex_digits(n: u32) -> Seq<char> {
    if n < 16 { seq![hex_digit(n)] } else { seq![hex_digit(n / 16), hex_digit(n % 16)] }
}

/// One lowercase hexadecimal digit.
pub open spec fn hex_digit(n: u32) -> char {
    if n < 10 { (('0' as u32) + n) as char } else { (('a' as u32) + n - 10) as char }
}

/// The body of `{:?}` of a text, without its quotes.
pub open spec fn debug_body(s: Seq<char>) -> Seq<char>
    decreases s.len(),
{
    if s.len() == 0 { s } else { debug_body(s.drop_last()) + debug_char(s.last()) }
}

/// `{:?}` of a text: in double quotes, each character as `debug_char` writes it.
pub open spec fn debug_quoted(s: Seq<char>) -> Seq<char> {
    seq!['"'] + debug_body(s) + seq!['"']
}

fn hex_digit_char(n: u32) -> (r: char)
    requires n < 16,
    ensures r == hex_digit(n),
{
    match n {
        0 => '0', 1 => '1', 2 => '2', 3 => '3', 4 => '4', 5 => '5', 6 => '6', 7 => '7',
        8 => '8', 9 => '9', 10 => 'a', 11 => 'b', 12 => 'c', 13 => 'd', 14 => 'e', _ => 'f',
    }
}

/// `{:?}` of `value`.
pub fn debug_text(value: &str) -> (r: String)
    ensures r@ == debug_quoted(value@),
{
    let v = crate::text::chars_of(value);
    let mut out = String::new();
    push_char(&mut out, '"');
    let mut i: usize = 0;
    while i < v.len()
        invariant
            v@ == value@,
            i <= v.len(),
            out@ == seq!['"'] + debug_body(value@.take(i as int)),
        decreases v.len() - i,
    {
        let c = v[i];
        assert(value@.take(i + 1).drop_last() =~= value@.take(i as int));
        let ghost before = out@;
        if c == '\0' { push_char(&mut out, '\\'); push_char(&mut out, '0'); }
        else if c == '\t' { push_char(&mut out, '\\'); push_char(&mut out, 't'); }
        else if c == '\r' { push_char(&mut out, '\\'); push_char(&mut out, 'r'); }
        else if c == '\n' { push_char(&mut out, '\\'); push_char(&mut out, 'n'); }
        else if c == '\\' { push_char(&mut out, '\\'); push_char(&mut out, '\\'); }
        else if c == '"' { push_char(&mut out, '\\'); push_char(&mut out, '"'); }
        else if (c as u32) < 0x20 || (c as u32) == 0x7f {
            let n = c as u32;
            push_char(&mut out, '\\');
            push_char(&mut out, 'u');
            push_char(&mut out, '{');
            if n < 16 {
                push_char(&mut out, hex_digit_char(n));
            } else {
                push_char(&mut out, hex_digit_char(n / 16));
                push_char(&mut out, hex_digit_char(n % 16));
            }
            push_char(&mut out, '}');
        } else if (c as u32) < 0x80 {
            push_char(&mut out, c);
        } else {
            let e = escaped_char(c);
            out.append(e.as_str());
        }
        assert(out@ =~= before + debug_char(c));
        i = i + 1;
    }
    assert(value@.take(v.len() as int) =~= value@);
    push_char(&mut out, '"');
    out
}

/// Checks that a Steam app id is a non-empty string of ASCII digits.
pub fn validate_app_id(app_id: &str) -> (r: Result<()>)
    ensures
        r is Ok == (app_id@.len() > 0 && all_digits(app_id@)),
        r matches Err(e) ==> e.text() == "Steam app id must be numeric, got "@ + debug_quoted(app_id@),
{
    if app_id.unicode_len() > 0 && is_digit_text(app_id) {
        Ok(())
    } else {
        Err(PortCellarError::message(concat("Steam app id must be numeric, got ", debug_text(app_id).as_str())))
    }
}

/// The best executable candidate: the first, as candidates are kept best first.
pub fn select_exe_candidate(candidates: &Vec<WindowsExeCandidate>) -> (r: Option<&WindowsExeCandidate>)
    ensures
        match r {
            Some(c) => candidates@.len() > 0 && *c == candidates@[0],
            None => candidates@.len() == 0,
        },
{
    if candidates.len() == 0 { None } else { Some(&candidates[0]) }
}

/// Whether some text of `v` contains `needle`.
pub open spec fn any_contains(v: Seq<Seq<char>>, needle: Seq<char>) -> bool {
    exists|i: int| 0 <= i < v.len() && contains(#[trigger] v[i], needle)
}

/// Whether some text of `v` is `item`.
pub open spec fn has_item(v: Seq<Seq<char>>, item: Seq<char>) -> bool {
    exists|i: int| 0 <= i < v.len() && #[trigger] v[i] == item
}

/// Whether some text of `v` contains `needle`.
pub fn any_text_contains(v: &Vec<String>, needle: &str) -> (r: bool)
    ensures r == any_contains(v.deep_view(), needle@),
{
    let mut i: usize = 0;
    while i < v.len()
        invariant
            i <= v.len(),
            forall|k: int| 0 <= k < i ==> !contains(#[trigger] v.deep_view()[k], needle@),
        decreases v.len() - i,
    {
        if contains_text(v[i].as_str(), needle) {
            assert(contains(v.deep_view()[i as int], needle@));
            return true;
        }
        i = i + 1;
    }
    false
}

/// Whether some text of `v` is `item`.
pub fn has_text(v: &Vec<String>, item: &str) -> (r: bool)
    ensures r == has_item(v.deep_view(), item@),
{
    let mut i: usize = 0;
    while i < v.len()
        invariant
            i <= v.len(),
            forall|k: int| 0 <= k < i ==> #[trigger] v.deep_view()[k] != item@,
        decreases v.len() - i,
    {
        if same_text(v[i].as_str(), item) {
            assert(v.deep_view()[i as int] == item@);
            return true;
        }
        i = i + 1;
    }
    false
}

/// The named layers with their presence, in name order.
pub open spec fn layer_flags(dlls: Seq<Seq<char>>) -> Seq<(bool, Seq<char>)> {
    let has = |n: Seq<char>| any_contains(dlls, n);
    seq![
        (has("mscoree"@), ".net-runtime"@),
        (has("easyanticheat"@) || has("battleye"@), "anti-cheat-risk"@),
        (has("xaudio"@) || has("dsound"@) || has("mmdevapi"@) || has("winmm"@) || has("openal"@), "audio"@),
        (has("xinput"@) || has("dinput"@), "controller/input"@),
        (has("d3d11"@) || has("dxgi"@), "d3d11/dxgi"@),
        (has("d3d12"@), "d3d12"@),
        (has("d3d9"@), "d3d9"@),
        (has("mfplat"@) || has("mfreadwrite"@) || has("wmvcore"@) || has("quartz"@) || has("bink"@)
            || has("theora"@) || has("avcodec"@), "media-codec"@),
        (has("opengl32"@), "opengl"@),
        (has("steam_api"@), "steamworks"@),
        (has("vcruntime"@) || has("msvcp"@), "vc-runtime"@),
        (has("vulkan-1"@), "vulkan"@),
    ]
}

/// The texts whose flag is set, in order.
pub open spec fn flagged(flags: Seq<(bool, Seq<char>)>) -> Seq<Seq<char>>
    decreases flags.len(),
{
    if flags.len() == 0 {
        Seq::empty()
    } else if flags.last().0 {
        flagged(flags.drop_last()).push(flags.last().1)
    } else {
        flagged(flags.drop_last())
    }
}

/// The graphics, input, audio, media and runtime layers that a list of imported DLL
/// names shows, each once, in name order.
pub open spec fn layers_of(dlls: Seq<Seq<char>>) -> Seq<Seq<char>> {
    flagged(layer_flags(dlls))
}

pub(crate) fn flag_texts(flags: &Vec<(bool, &str)>) -> (r: Vec<String>)
    ensures r.deep_view() == flagged(flags@.map_values(|f: (bool, &str)| (f.0, f.1@))),
{
    let ghost fv = flags@.map_values(|f: (bool, &str)| (f.0, f.1@));
    let mut out: Vec<String> = Vec::new();
    let mut i: usize = 0;
    while i < flags.len()
        invariant
            i <= flags.len(),
            fv == flags@.map_values(|f: (bool, &str)| (f.0, f.1@)),
            out.deep_view() == flagged(fv.take(i as int)),
        decreases flags.len() - i,
    {
        assert(fv.take(i + 1).drop_last() =~= fv.take(i as int));
        assert(fv.take(i + 1).last() == fv[i as int]);
        if flags[i].0 {
            let ghost before = out.deep_view();
            out.push(flags[i].1.to_owned());
            assert(out.deep_view() =~= before.push(fv[i as int].1));
        }
        i = i + 1;
    }
    assert(fv.take(i as int) =~= fv);
    out
}

/// The layers that the imported DLL names `import_dlls` show, in name order.
#[verifier::rlimit(40)]
#[verifier::spinoff_prover]
pub fn detected_layers(import_dlls: &Vec<String>) -> (r: Vec<String>)
    ensures r.deep_view() == layers_of(import_dlls.deep_view()),
{
    let has = |n: &str| -> (b: bool)
        ensures b == any_contains(import_dlls.deep_view(), n@),
    { any_text_contains(import_dlls, n) };
    let mut flags: Vec<(bool, &str)> = Vec::new();
    flags.push((has("mscoree"), ".net-runtime"));
    flags.push((has("easyanticheat") || has("battleye"), "anti-cheat-risk"));
    flags.push((has("xaudio") || has("dsound") || has("mmdevapi") || has("winmm") || has("openal"), "audio"));
    flags.push((has("xinput") || has("dinput"), "controller/input"));
    flags.push((has("d3d11") || has("dxgi"), "d3d11/dxgi"));
    flags.push((has("d3d12"), "d3d12"));
    flags.push((has("d3d9"), "d3d9"));
    flags.push((has("mfplat") || has("mfreadwrite") || has("wmvcore") || has("quartz") || has("bink")
        || has("theora") || has("avcodec"), "media-codec"));
    flags.push((has("opengl32"), "opengl"));
    flags.push((has("steam_api"), "steamworks"));
    flags.push((has("vcruntime") || has("msvcp"), "vc-runtime"));
    flags.push((has("vulkan-1"), "vulkan"));
    assert(flags@.map_values(|f: (bool, &str)| (f.0, f.1@)) =~= layer_flags(import_dlls.deep_view()));
    flag_texts(&flags)
}

/// The score of an executable candidate and the reasons for it: a valid PE image
/// counts for it, launcher and helper or installer names against it, and Steamworks
/// or graphics imports for it.
pub open spec fn candidate_score(file_name: Seq<char>, pe: Option<PeSummary>) -> (int, Seq<Seq<char>>) {
    let l = lower(file_name);
    let helper = contains(l, "crash"@) || contains(l, "redist"@) || contains(l, "setup"@)
        || contains(l, "unins"@) || contains(l, "vcredist"@) || contains(l, "dotnet"@);
    let s0: (int, Seq<Seq<char>>) = if pe is Some { (20, seq!["valid PE"@]) } else { (0, Seq::empty()) };
    let s1 = if contains(l, "launcher"@) { (s0.0 - 10, s0.1.push("launcher-like name"@)) } else { s0 };
    let s2 = if helper { (s1.0 - 30, s1.1.push("helper/installer-like name"@)) } else { s1 };
    match pe {
        None => s2,
        Some(p) => {
            let layers = p.detected_layers.deep_view();
            let s3 = if has_item(layers, "steamworks"@) { (s2.0 + 10, s2.1.push("imports Steamworks"@)) } else { s2 };
            let graphics = has_item(layers, "d3d11/dxgi"@) || has_item(layers, "d3d12"@) || has_item(layers, "d3d9"@)
                || has_item(layers, "opengl"@) || has_item(layers, "vulkan"@);
            if graphics { (s3.0 + 8, s3.1.push("imports graphics layer"@)) } else { s3 }
        },
    }
}

/// The score of an executable candidate named `file_name` and the reasons for it.
pub fn score_exe_candidate(file_name: &str, pe: Option<&PeSummary>) -> (r: (i32, Vec<String>))
    ensures
        r.0 == candidate_score(file_name@, match pe { Some(p) => Some(*p), None => None }).0,
        r.1.deep_view() == candidate_score(file_name@, match pe { Some(p) => Some(*p), None => None }).1,
{
    let l = lowercase(file_name);
    let ls = l.as_str();
    let mut score: i32 = 0;
    let mut reasons: Vec<String> = Vec::new();
    let ghost pv = match pe { Some(p) => Some(*p), None => None::<PeSummary> };
    proof {
        reveal_strlit("valid PE");
        reveal_strlit("launcher-like name");
        reveal_strlit("helper/installer-like name");
        reveal_strlit("imports Steamworks");
        reveal_strlit("imports graphics layer");
    }
    if pe.is_some() {
        score = score + 20;
        reasons.push("valid PE".to_owned());
    }
    assert(reasons.deep_view() =~= (if pv is Some { seq!["valid PE"@] } else { Seq::<Seq<char>>::empty() }));
    if contains_text(ls, "launcher") {
        score = score - 10;
        let ghost before = reasons.deep_view();
        reasons.push("launcher-like name".to_owned());
        assert(reasons.deep_view() =~= before.push("launcher-like name"@));
    }
    if contains_text(ls, "crash") || contains_text(ls, "redist") || contains_text(ls, "setup")
        || contains_text(ls, "unins") || contains_text(ls, "vcredist") || contains_text(ls, "dotnet") {
        score = score - 30;
        let ghost before = reasons.deep_view();
        reasons.push("helper/installer-like name".to_owned());
        assert(reasons.deep_view() =~= before.push("helper/installer-like name"@));
    }
    if let Some(p) = pe {
        if has_text(&p.detected_layers, "steamworks") {
            score = score + 10;
            let ghost before = reasons.deep_view();
            reasons.push("imports Steamworks".to_owned());
            assert(reasons.deep_view() =~= before.push("imports Steamworks"@));
        }
        let layers = &p.detected_layers;
        if has_text(layers, "d3d11/dxgi") || has_text(layers, "d3d12") || has_text(layers, "d3d9")
            || has_text(layers, "opengl") || has_text(layers, "vulkan") {
            score = score + 8;
            let ghost before = reasons.deep_view();
            reasons.push("imports graphics layer".to_owned());
            assert(reasons.deep_view() =~= before.push("imports graphics layer"@));
        }
    }
    (score, reasons)
}

/// Whether the selected candidate's PE summary shows `layer`.
pub open spec fn selected_shows(selected: Option<WindowsExeCandidate>, layer: Seq<char>) -> bool {
    selected matches Some(c) && c.pe matches Some(p) && has_item(p.detected_layers.deep_view(), layer)
}

/// The recommendations, in text order, for what the selected candidate imports.
pub open spec fn analysis_recommendations(selected: Option<WindowsExeCandidate>) -> Seq<Seq<char>> {
    let shows = |l: Seq<char>| selected_shows(selected, l);
    let found = flagged(seq![
        (shows("opengl"@), "Check Wine OpenGL/macOS driver behavior first; DXMT may not be in this game's hot path."@),
        (shows("media-codec"@), "Check intro/video playback early; Media Foundation or DirectShow often needs per-game workarounds."@),
        (shows("steamworks"@), "Disable Steam overlay until the baseline launch is stable."@),
        (shows("steamworks"@), "Prefer wine-steam first so Steamworks calls see a live Windows Steam client."@),
        (shows("d3d11/dxgi"@), "Try DXMT on Apple Silicon and start with a conservative FPS cap."@),
        (shows("d3d9"@), "Try DXVK or WineD3D for D3D9-era rendering."@),
        (shows("d3d12"@), "Try GPTK/D3DMetal or vkd3d-proton; DXMT alone does not cover D3D12."@),
    ]);
    if found.len() == 0 {
        seq!["Run a short wine-steam probe next and inspect Wine, crash, and graphics logs."@]
    } else {
        found
    }
}

/// The blockers an analysis reports, in order.
pub open spec fn analysis_blockers(
    manifest: Option<SteamAppManifest>,
    candidate_count: int,
    selected: Option<WindowsExeCandidate>,
    runtime: RuntimeSnapshot,
) -> Seq<Seq<char>> {
    flagged(seq![
        (runtime.wine is None, "Wine engine missing"@),
        (runtime.steam_exe is None, "Windows Steam missing in the selected prefix"@),
        (manifest is None, "Steam app manifest not found in Wine or native Steam libraries"@),
        (candidate_count == 0, "No Windows .exe candidates found under the install directory"@),
    ]) + runtime.readiness_issues.deep_view()
        + flagged(seq![(selected_shows(selected, "anti-cheat-risk"@),
            "Anti-cheat import detected; Wine compatibility may require unsupported kernel/driver behavior."@)])
}

fn shows(selected: Option<&WindowsExeCandidate>, layer: &str) -> (r: bool)
    ensures r == selected_shows(match selected { Some(c) => Some(*c), None => None }, layer@),
{
    match selected {
        Some(c) => match &c.pe {
            Some(p) => has_text(&p.detected_layers, layer),
            None => false,
        },
        None => false,
    }
}

fn push_flagged(out: &mut Vec<String>, flag: bool, text: &str)
    ensures final(out).deep_view() == old(out).deep_view() + flagged(seq![(flag, text@)]),
{
    let ghost before = out.deep_view();
    proof {
        assert(seq![(flag, text@)].drop_last() =~= Seq::<(bool, Seq<char>)>::empty());
        assert(flagged(Seq::<(bool, Seq<char>)>::empty()) == Seq::<Seq<char>>::empty());
    }
    if flag {
        out.push(text.to_owned());
        assert(out.deep_view() =~= before + seq![text@]);
    } else {
        assert(out.deep_view() =~= before + Seq::<Seq<char>>::empty());
    }
}

proof fn lemma_flagged_append(a: Seq<(bool, Seq<char>)>, b: Seq<(bool, Seq<char>)>)
    ensures flagged(a + b) == flagged(a) + flagged(b),
    decreases b.len(),
{
    if b.len() == 0 {
        assert(a + b =~= a);
        assert(flagged(a) + flagged(b) =~= flagged(a));
    } else {
        lemma_flagged_append(a, b.drop_last());
        assert((a + b).drop_last() =~= a + b.drop_last());
        assert((a + b).last() == b.last());
        if b.last().0 {
            assert(flagged(a) + flagged(b) =~= (flagged(a) + flagged(b.drop_last())).push(b.last().1));
        }
    }
}

/// The recommendations and blockers of an analysis of an install.
#[verifier::spinoff_prover]
#[verifier::rlimit(40)]
pub fn recommendations_and_blockers(
    manifest: &Option<SteamAppManifest>,
    candidates: &Vec<WindowsExeCandidate>,
    selected: Option<&WindowsExeCandidate>,
    runtime: &RuntimeSnapshot,
) -> (r: (Vec<String>, Vec<String>))
    ensures
        r.0.deep_view() == analysis_recommendations(match selected { Some(c) => Some(*c), None => None }),
        r.1.deep_view() == analysis_blockers(*manifest, candidates@.len() as int,
            match selected { Some(c) => Some(*c), None => None }, *runtime),
{
    let ghost sel = match selected { Some(c) => Some(*c), None => None::<WindowsExeCandidate> };
    let mut blockers: Vec<String> = Vec::new();
    push_flagged(&mut blockers, runtime.wine.is_none(), "Wine engine missing");
    push_flagged(&mut blockers, runtime.steam_exe.is_none(), "Windows Steam missing in the selected prefix");
    push_flagged(&mut blockers, manifest.is_none(), "Steam app manifest not found in Wine or native Steam libraries");
    push_flagged(&mut blockers, candidates.len() == 0, "No Windows .exe candidates found under the install directory");
    proof {
        let f = seq![
            (runtime.wine is None, "Wine engine missing"@),
            (runtime.steam_exe is None, "Windows Steam missing in the selected prefix"@),
            (manifest is None, "Steam app manifest not found in Wine or native Steam libraries"@),
            (candidates@.len() == 0, "No Windows .exe candidates found under the install directory"@),
        ];
        lemma_flagged_append(f.take(1), f.skip(1).take(1));
        assert(f.take(1) + f.skip(1).take(1) =~= f.take(2));
        lemma_flagged_append(f.take(2), f.skip(2).take(1));
        assert(f.take(2) + f.skip(2).take(1) =~= f.take(3));
        lemma_flagged_append(f.take(3), f.skip(3).take(1));
        assert(f.take(3) + f.skip(3).take(1) =~= f);
        assert(f.take(1) =~= seq![f[0]]);
        assert(f.skip(1).take(1) =~= seq![f[1]]);
        assert(f.skip(2).take(1) =~= seq![f[2]]);
        assert(f.skip(3).take(1) =~= seq![f[3]]);
        assert(blockers.deep_view() =~= flagged(f));
    }
    crate::runtime::launch::append_texts(&mut blockers, &runtime.readiness_issues);
    push_flagged(&mut blockers, shows(selected, "anti-cheat-risk"),
        "Anti-cheat import detected; Wine compatibility may require unsupported kernel/driver behavior.");

    let mut recommendations: Vec<String> = Vec::new();
    let steamworks = shows(selected, "steamworks");
    push_flagged(&mut recommendations, shows(selected, "opengl"),
        "Check Wine OpenGL/macOS driver behavior first; DXMT may not be in this game's hot path.");
    push_flagged(&mut recommendations, shows(selected, "media-codec"),
        "Check intro/video playback early; Media Foundation or DirectShow often needs per-game workarounds.");
    push_flagged(&mut recommendations, steamworks, "Disable Steam overlay until the baseline launch is stable.");
    push_flagged(&mut recommendations, steamworks,
        "Prefer wine-steam first so Steamworks calls see a live Windows Steam client.");
    push_flagged(&mut recommendations, shows(selected, "d3d11/dxgi"),
        "Try DXMT on Apple Silicon and start with a conservative FPS cap.");
    push_flagged(&mut recommendations, shows(selected, "d3d9"), "Try DXVK or WineD3D for D3D9-era rendering.");
    push_flagged(&mut recommendations, shows(selected, "d3d12"),
        "Try GPTK/D3DMetal or vkd3d-proton; DXMT alone does not cover D3D12.");
    proof {
        let shows_s = |l: Seq<char>| selected_shows(sel, l);
        let f = seq![
            (shows_s("opengl"@), "Check Wine OpenGL/macOS driver behavior first; DXMT may not be in this game's hot path."@),
            (shows_s("media-codec"@), "Check intro/video playback early; Media Foundation or DirectShow often needs per-game workarounds."@),
            (shows_s("steamworks"@), "Disable Steam overlay until the baseline launch is stable."@),
            (shows_s("steamworks"@), "Prefer wine-steam first so Steamworks calls see a live Windows Steam client."@),
            (shows_s("d3d11/dxgi"@), "Try DXMT on Apple Silicon and start with a conservative FPS cap."@),
            (shows_s("d3d9"@), "Try DXVK or WineD3D for D3D9-era rendering."@),
            (shows_s("d3d12"@), "Try GPTK/D3DMetal or vkd3d-proton; DXMT alone does not cover D3D12."@),
        ];
        lemma_flagged_append(f.take(1), seq![f[1]]);
        assert(f.take(1) + seq![f[1]] =~= f.take(2));
        lemma_flagged_append(f.take(2), seq![f[2]]);
        assert(f.take(2) + seq![f[2]] =~= f.take(3));
        lemma_flagged_append(f.take(3), seq![f[3]]);
        assert(f.take(3) + seq![f[3]] =~= f.take(4));
        lemma_flagged_append(f.take(4), seq![f[4]]);
        assert(f.take(4) + seq![f[4]] =~= f.take(5));
        lemma_flagged_append(f.take(5), seq![f[5]]);
        assert(f.take(5) + seq![f[5]] =~= f.take(6));
        lemma_flagged_append(f.take(6), seq![f[6]]);
        assert(f.take(6) + seq![f[6]] =~= f.take(7));
        assert(f.take(1) =~= seq![f[0]]);
        assert(f.take(7) =~= f);
        assert(recommendations.deep_view() =~= flagged(f));
    }
    if recommendations.len() == 0 {
        recommendations.push("Run a short wine-steam probe next and inspect Wine, crash, and graphics logs.".to_owned());
        assert(recommendations.deep_view() =~= seq!["Run a short wine-steam probe next and inspect Wine, crash, and graphics logs."@]);
    }
    (recommendations, blockers)
}

/// A lowercase slug of `value`: ASCII letters and digits kept (lowercased), each run
/// of other characters turned into one `-`, the whole stopped at 48 characters, and
/// `-` trimmed from both ends.
pub open spec fn slug_raw(s: Seq<char>) -> (Seq<char>, bool)
    decreases s.len(),
{
    if s.len() == 0 {
        (Seq::empty(), false)
    } else {
        let (prev, dash) = slug_raw(s.drop_last());
        let c = s.last();
        if prev.len() >= 48 {
            (prev, dash)
        } else if is_ascii_alnum(c) {
            (prev.push(lower_char(c)), false)
        } else if !dash {
            (prev.push('-'), true)
        } else {
            (prev, dash)
        }
    }
}

/// The slug of `value`.
pub open spec fn slug_of(value: Seq<char>) -> Seq<char> {
    trim_char(slug_raw(value).0, '-')
}

/// The slug of `value`, for directory and profile names.
pub fn slugify(value: &str) -> (r: String)
    ensures r@ == slug_of(value@),
{
    let v = crate::text::chars_of(value);
    let mut slug = String::new();
    let mut previous_dash = false;
    let mut count: usize = 0;
    let mut i: usize = 0;
    while i < v.len()
        invariant
            v@ == value@,
            i <= v.len(),
            (slug@, previous_dash) == slug_raw(value@.take(i as int)),
            count == slug@.len(),
            count <= 48,
        decreases v.len() - i,
    {
        assert(value@.take(i + 1).drop_last() =~= value@.take(i as int));
        if count >= 48 {
            i = i + 1;
            continue;
        }
        let c = v[i];
        if crate::text::char_is_ascii_alnum(c) {
            push_char(&mut slug, crate::text::char_lower(c));
            previous_dash = false;
            count = count + 1;
        } else if !previous_dash {
            push_char(&mut slug, '-');
            previous_dash = true;
            count = count + 1;
        }
        i = i + 1;
    }
    assert(value@.take(i as int) =~= value@);
    trim_char_text(slug.as_str(), '-')
}

/// The file name of `path` (`Path::file_name`), or nothing where it has none.
pub open spec fn file_name_of(path: Seq<char>) -> Seq<char> {
    let c = crate::paths::components(path);
    if c.len() == 0 || c.last() == seq!['.', '.'] { Seq::empty() } else { c.last() }
}

/// The file name of `path`, or an empty text where it has none.
pub fn file_name_text(path: &str) -> (r: String)
    ensures r@ == file_name_of(path@),
{
    let c = crate::paths::path_components(path);
    if c.len() == 0 {
        return String::new();
    }
    let last = &c[c.len() - 1];
    let v = crate::text::chars_of(last.as_str());
    if v.len() == 2 && v[0] == '.' && v[1] == '.' {
        assert(last@ =~= seq!['.', '.']);
        return String::new();
    }
    proof {
        if last@ == seq!['.', '.'] {
            assert(v@.len() == 2 && v@[0] == '.' && v@[1] == '.');
        }
    }
    last.clone()
}

/// The executable candidate found at `path` under `install_dir`, of `size` bytes,
/// with the PE summary of its bytes where they are a PE image.
pub fn exe_candidate(install_dir: &str, path: &str, size: u64, pe: Option<PeSummary>) -> (r: WindowsExeCandidate)
    ensures
        r.path@ == path@,
        r.relative_path@ == crate::paths::relative_display_of(install_dir@, path@),
        r.file_name@ == file_name_of(path@),
        r.size == size,
        r.pe == pe,
        r.score == candidate_score(file_name_of(path@), pe).0,
        r.reasons.deep_view() == candidate_score(file_name_of(path@), pe).1,
{
    let file_name = file_name_text(path);
    let (score, reasons) = score_exe_candidate(file_name.as_str(), pe.as_ref());
    WindowsExeCandidate {
        path: path.to_owned(),
        relative_path: crate::paths::relative_display(install_dir, path),
        file_name,
        size,
        pe,
        score,
        reasons,
    }
}

/// The manifest that the text of `appmanifest_<app_id>.acf` in `steamapps` gives:
/// its install directory (required), app id, name and build id, with the app id
/// and `Steam app <app_id>` standing in for a missing id and name.
pub fn manifest_from_text(app_id: &str, source: &str, steamapps: &str, text: &str) -> (r: Option<SteamAppManifest>)
    ensures
        match r {
            Some(m) => {
                let v = key_values(lines(text@));
                &&& v.dom().contains("installdir"@)
                &&& m.source@ == source@
                &&& m.install_dir_name@ == v["installdir"@]
                &&& m.app_id@ == (if v.dom().contains("appid"@) { v["appid"@] } else { app_id@ })
                &&& m.name@ == (if v.dom().contains("name"@) { v["name"@] } else { "Steam app "@ + app_id@ })
                &&& crate::games::opt_text(m.build_id) == (if v.dom().contains("buildid"@) { Some(v["buildid"@]) } else { None })
                &&& m.manifest_path@ == path_join(steamapps@, "appmanifest_"@ + app_id@ + ".acf"@)
                &&& m.install_dir@ == path_join(path_join(steamapps@, "common"@), v["installdir"@])
            },
            None => !key_values(lines(text@)).dom().contains("installdir"@),
        },
{
    let values = parse_key_values(text);
    let install_dir_name = match values.get("installdir") {
        Some(d) => d.clone(),
        None => { return None; }
    };
    let app = match values.get("appid") {
        Some(a) => a.clone(),
        None => app_id.to_owned(),
    };
    let name = match values.get("name") {
        Some(n) => n.clone(),
        None => concat("Steam app ", app_id),
    };
    let build_id = match values.get("buildid") {
        Some(b) => Some(b.clone()),
        None => None,
    };
    let manifest_path = join(steamapps, concat3("appmanifest_", app_id, ".acf").as_str());
    let install_dir = join(join(steamapps, "common").as_str(), install_dir_name.as_str());
    Some(SteamAppManifest {
        source: source.to_owned(),
        app_id: app,
        name,
        build_id,
        install_dir_name,
        manifest_path,
        install_dir,
    })
}


// ---------------------------------------------------------------- laws

/// Whether two file names agree on every helper or installer word.
pub open spec fn same_helper_words(a: Seq<char>, b: Seq<char>) -> bool {
    &&& contains(lower(a), "crash"@) == contains(lower(b), "crash"@)
    &&& contains(lower(a), "redist"@) == contains(lower(b), "redist"@)
    &&& contains(lower(a), "setup"@) == contains(lower(b), "setup"@)
    &&& contains(lower(a), "unins"@) == contains(lower(b), "unins"@)
    &&& contains(lower(a), "vcredist"@) == contains(lower(b), "vcredist"@)
    &&& contains(lower(a), "dotnet"@) == contains(lower(b), "dotnet"@)
}

/// A launcher-like name costs a candidate exactly ten points: a candidate whose
/// lowercased name holds `launcher` scores ten less than the same image under a name
/// that does not (and agrees on the helper words), and only it is given the reason
/// `launcher-like name`.
pub proof fn lemma_launcher_costs_ten(launcher: Seq<char>, other: Seq<char>, pe: Option<PeSummary>)
    requires
        contains(lower(launcher), "launcher"@),
        !contains(lower(other), "launcher"@),
        same_helper_words(launcher, other),
    ensures
        candidate_score(launcher, pe).0 == candidate_score(other, pe).0 - 10,
        candidate_score(launcher, pe).1.contains("launcher-like name"@),
        !candidate_score(other, pe).1.contains("launcher-like name"@),
{
    reveal_strlit("launcher-like name");
    reveal_strlit("valid PE");
    reveal_strlit("helper/installer-like name");
    reveal_strlit("imports Steamworks");
    reveal_strlit("imports graphics layer");
    let name = "launcher-like name"@;
    let l = lower(launcher);
    let s0: (int, Seq<Seq<char>>) = if pe is Some { (20, seq!["valid PE"@]) } else { (0, Seq::empty()) };
    let s1 = (s0.0 - 10, s0.1.push(name));
    assert(s1.1[s1.1.len() - 1] == name);
    let r = candidate_score(launcher, pe).1;
    assert(r.len() >= s1.1.len());
    assert(r.subrange(0, s1.1.len() as int) =~= s1.1);
    assert(r[s1.1.len() - 1] == name);
    let q = candidate_score(other, pe).1;
    assert forall|i: int| 0 <= i < q.len() implies q[i] != name by {
        assert(name[0] == 'l');
        assert("valid PE"@[0] == 'v');
        assert("helper/installer-like name"@[0] == 'h');
        assert("imports Steamworks"@[0] == 'i');
        assert("imports graphics layer"@[0] == 'i');
    }
}


proof fn lemma_flagged_holds(flags: Seq<(bool, Seq<char>)>, i: int)
    requires 0 <= i < flags.len(), flags[i].0,
    ensures flagged(flags).contains(flags[i].1),
    decreases flags.len(),
{
    if i == flags.len() - 1 {
        let r = flagged(flags.drop_last()).push(flags.last().1);
        assert(r[r.len() - 1] == flags[i].1);
    } else {
        assert(flags.drop_last()[i] == flags[i]);
        lemma_flagged_holds(flags.drop_last(), i);
        let w = choose|w: int| 0 <= w < flagged(flags.drop_last()).len() && flagged(flags.drop_last())[w] == flags[i].1;
        if flags.last().0 {
            assert(flagged(flags)[w] == flags[i].1);
        }
    }
}

/// The layers of a list of imported DLLs name what the DLLs show: a `steam_api` DLL
/// shows Steamworks, `vulkan-1` Vulkan, `d3d12` Direct3D 12, `d3d11` or `dxgi`
/// Direct3D 11, `d3d9` Direct3D 9, `opengl32` OpenGL, `mscoree` the .NET runtime,
/// `xinput` or `dinput` controller input, and an EasyAntiCheat or BattlEye DLL an
/// anti-cheat risk.
pub proof fn lemma_layers_name_imports(dlls: Seq<Seq<char>>)
    ensures
        any_contains(dlls, "steam_api"@) ==> layers_of(dlls).contains("steamworks"@),
        any_contains(dlls, "vulkan-1"@) ==> layers_of(dlls).contains("vulkan"@),
        any_contains(dlls, "d3d12"@) ==> layers_of(dlls).contains("d3d12"@),
        any_contains(dlls, "d3d11"@) || any_contains(dlls, "dxgi"@) ==> layers_of(dlls).contains("d3d11/dxgi"@),
        any_contains(dlls, "d3d9"@) ==> layers_of(dlls).contains("d3d9"@),
        any_contains(dlls, "opengl32"@) ==> layers_of(dlls).contains("opengl"@),
        any_contains(dlls, "mscoree"@) ==> layers_of(dlls).contains(".net-runtime"@),
        any_contains(dlls, "xinput"@) || any_contains(dlls, "dinput"@) ==> layers_of(dlls).contains("controller/input"@),
        any_contains(dlls, "easyanticheat"@) || any_contains(dlls, "battleye"@) ==> layers_of(dlls).contains("anti-cheat-risk"@),
{
    let f = layer_flags(dlls);
    if f[9].0 { lemma_flagged_holds(f, 9); }
    if f[11].0 { lemma_flagged_holds(f, 11); }
    if f[5].0 { lemma_flagged_holds(f, 5); }
    if f[4].0 { lemma_flagged_holds(f, 4); }
    if f[6].0 { lemma_flagged_holds(f, 6); }
    if f[8].0 { lemma_flagged_holds(f, 8); }
    if f[0].0 { lemma_flagged_holds(f, 0); }
    if f[3].0 { lemma_flagged_holds(f, 3); }
    if f[1].0 { lemma_flagged_holds(f, 1); }
}

/// A helper or installer name costs a candidate exactly thirty points against the
/// same image under a name without any of those words (and the same launcher word),
/// and only it is given the reason `helper/installer-like name`.
pub proof fn lemma_helper_costs_thirty(helper: Seq<char>, other: Seq<char>, pe: Option<PeSummary>)
    requires
        contains(lower(helper), "setup"@) || contains(lower(helper), "crash"@) || contains(lower(helper), "redist"@)
            || contains(lower(helper), "unins"@) || contains(lower(helper), "vcredist"@) || contains(lower(helper), "dotnet"@),
        !contains(lower(other), "setup"@) && !contains(lower(other), "crash"@) && !contains(lower(other), "redist"@)
            && !contains(lower(other), "unins"@) && !contains(lower(other), "vcredist"@) && !contains(lower(other), "dotnet"@),
        contains(lower(helper), "launcher"@) == contains(lower(other), "launcher"@),
    ensures
        candidate_score(helper, pe).0 == candidate_score(other, pe).0 - 30,
        candidate_score(helper, pe).1.contains("helper/installer-like name"@),
        !candidate_score(other, pe).1.contains("helper/installer-like name"@),
{
    reveal_strlit("launcher-like name");
    reveal_strlit("valid PE");
    reveal_strlit("helper/installer-like name");
    reveal_strlit("imports Steamworks");
    reveal_strlit("imports graphics layer");
    let name = "helper/installer-like name"@;
    let l = lower(helper);
    let s0: (int, Seq<Seq<char>>) = if pe is Some { (20, seq!["valid PE"@]) } else { (0, Seq::empty()) };
    let s1 = if contains(l, "launcher"@) { (s0.0 - 10, s0.1.push("launcher-like name"@)) } else { s0 };
    let s2 = (s1.0 - 30, s1.1.push(name));
    let r = candidate_score(helper, pe).1;
    assert(r.subrange(0, s2.1.len() as int) =~= s2.1);
    assert(r[s2.1.len() - 1] == name);
    let q = candidate_score(other, pe).1;
    assert forall|i: int| 0 <= i < q.len() implies q[i] != name by {
        assert(name[0] == 'h');
        assert("valid PE"@[0] == 'v');
        assert("launcher-like name"@[0] == 'l');
        assert("imports Steamworks"@[0] == 'i');
        assert("imports graphics layer"@[0] == 'i');
    }
}

} // verus!
