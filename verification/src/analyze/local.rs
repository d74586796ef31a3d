//! Analysis of a Windows game installed in a local folder, outside Steam: the
//! executable to run, the Wine path of the folder, and a draft profile that launches
//! it directly under Wine.
use vstd::prelude::*;
use crate::analyze::discovery::{file_name_of, flagged, has_item, has_text, slug_of, slugify};
use crate::analyze::{
    add_layer_capabilities, import_dependencies, imports_any, imports_any_of, layer_capabilities, needles1,
    push_review, same_candidate, LocalGameAnalysis, PeSummary, WindowsExeCandidate, LOCAL_GAME_ANALYSIS_VERSION,
};
use crate::error::{PortCellarError, Result};
use crate::games::generic::{new_model, GenericGameProfile, ProfileModel};
use crate::games::{GameCapability, RuntimeDependency, SteamCefPolicy, SteamIntegration};
use crate::paths::{components, is_absolute, path_components, replace_char, replace_char_text};
use crate::text::{
    all_digits, chars_of, concat, concat3, eq_ignore_ascii_case, is_digit_text, lines, lines_text, lower, trim,
    trimmed,
};

verus! {

/// The candidate whose relative path equals `wanted`, with `\` read as `/` and
/// ASCII case ignored: the first such, from `i` on.
pub open spec fn named_candidate(candidates: Seq<WindowsExeCandidate>, wanted: Seq<char>, i: int) -> Option<int>
    decreases candidates.len() - i,
{
    if i < 0 || i >= candidates.len() {
        None
    } else if lower(candidates[i].relative_path@) == lower(replace_char(wanted, '\\', '/')) {
        Some(i)
    } else {
        named_candidate(candidates, wanted, i + 1)
    }
}

fn copy_candidate(c: &WindowsExeCandidate) -> (r: WindowsExeCandidate)
    ensures same_candidate(r, *c),
{
    WindowsExeCandidate {
        path: c.path.clone(),
        relative_path: c.relative_path.clone(),
        file_name: c.file_name.clone(),
        size: c.size,
        pe: match &c.pe {
            Some(p) => Some(PeSummary {
                machine: crate::games::clone_opt(&p.machine),
                subsystem: crate::games::clone_opt(&p.subsystem),
                import_dlls: crate::games::clone_strings(&p.import_dlls),
                detected_layers: crate::games::clone_strings(&p.detected_layers),
            }),
            None => None,
        },
        score: c.score,
        reasons: crate::games::clone_strings(&c.reasons),
    }
}

/// The executable a local analysis uses: the named one, or else the best candidate.
pub fn select_executable(candidates: &Vec<WindowsExeCandidate>, executable: Option<&str>) -> (r: Result<Option<WindowsExeCandidate>>)
    ensures
        match executable {
            None => match r {
                Ok(Some(c)) => candidates@.len() > 0 && same_candidate(c, candidates@[0]),
                Ok(None) => candidates@.len() == 0,
                Err(_) => false,
            },
            Some(x) => match named_candidate(candidates@, x@, 0) {
                Some(i) => r matches Ok(Some(c)) && same_candidate(c, candidates@[i]),
                None => r matches Err(e)
                    && e.text() == "local executable was not found below the game directory: "@ + x@,
            },
        },
{
    let x = match executable {
        None => {
            if candidates.len() == 0 {
                return Ok(None);
            }
            return Ok(Some(copy_candidate(&candidates[0])));
        }
        Some(x) => x,
    };
    let normalized = replace_char_text(x, '\\', '/');
    let mut i: usize = 0;
    while i < candidates.len()
        invariant
            i <= candidates.len(),
            executable == Some(x),
            normalized@ == replace_char(x@, '\\', '/'),
            named_candidate(candidates@, x@, 0) == named_candidate(candidates@, x@, i as int),
        decreases candidates.len() - i,
    {
        if eq_ignore_ascii_case(candidates[i].relative_path.as_str(), normalized.as_str()) {
            return Ok(Some(copy_candidate(&candidates[i])));
        }
        i = i + 1;
    }
    Err(PortCellarError::message(concat("local executable was not found below the game directory: ", x)))
}

/// The Steam app id in the text of `steam_appid.txt`: its first line, trimmed, when
/// that is a non-empty string of digits.
pub open spec fn embedded_app_id(text: Seq<char>) -> Option<Seq<char>> {
    let ls = lines(text);
    if ls.len() == 0 {
        None
    } else {
        let v = trim(ls[0]);
        if v.len() > 0 && all_digits(v) { Some(v) } else { None }
    }
}

/// The Steam app id written in `steam_appid.txt`, if it holds one.
pub fn steam_app_id_from_text(text: &str) -> (r: Option<String>)
    ensures crate::games::opt_text(r) == embedded_app_id(text@),
{
    let ls = lines_text(text);
    if ls.len() == 0 {
        return None;
    }
    let v = trimmed(ls[0].as_str());
    if v.unicode_len() > 0 && is_digit_text(v.as_str()) { Some(v) } else { None }
}

/// `\` followed by each component of `parts` that does not climb (`..`), in order.
pub open spec fn z_suffix(parts: Seq<Seq<char>>) -> Seq<char>
    decreases parts.len(),
{
    if parts.len() == 0 {
        Seq::empty()
    } else if parts.last() == seq!['.', '.'] {
        z_suffix(parts.drop_last())
    } else {
        z_suffix(parts.drop_last()) + seq!['\\'] + parts.last()
    }
}

/// The Wine `Z:` path of an absolute host path.
pub fn host_path_to_z_path(path: &str) -> (r: Result<String>)
    ensures
        match r {
            Ok(w) => is_absolute(path@) && w@ == "Z:"@ + z_suffix(components(path@)),
            Err(e) => !is_absolute(path@)
                && e.text() == "local game path must be absolute after resolution: "@ + path@,
        },
{
    let v = chars_of(path);
    if !(v.len() > 0 && v[0] == '/') {
        return Err(PortCellarError::message(concat("local game path must be absolute after resolution: ", path)));
    }
    let parts = path_components(path);
    let mut out = "Z:".to_owned();
    proof { reveal_strlit("Z:"); }
    let mut i: usize = 0;
    while i < parts.len()
        invariant
            i <= parts.len(),
            parts.deep_view() == components(path@),
            out@ == "Z:"@ + z_suffix(parts.deep_view().take(i as int)),
        decreases parts.len() - i,
    {
        assert(parts.deep_view().take(i + 1).drop_last() =~= parts.deep_view().take(i as int));
        let p = chars_of(parts[i].as_str());
        let climbs = p.len() == 2 && p[0] == '.' && p[1] == '.';
        proof {
            if parts.deep_view()[i as int] == seq!['.', '.'] { assert(p@.len() == 2 && p@[0] == '.' && p@[1] == '.'); }
            if climbs { assert(p@ =~= seq!['.', '.']); }
        }
        if !climbs {
            let ghost before = out@;
            crate::text::push_char(&mut out, '\\');
            out.append(parts[i].as_str());
            assert(out@ =~= "Z:"@ + z_suffix(parts.deep_view().take(i + 1)));
        }
        i = i + 1;
    }
    assert(parts.deep_view().take(i as int) =~= parts.deep_view());
    Ok(out)
}

/// The review notes for Steamworks in the layers, one for each.
pub open spec fn steamworks_notes(layers: Seq<Seq<char>>) -> Seq<Seq<char>>
    decreases layers.len(),
{
    if layers.len() == 0 {
        Seq::empty()
    } else if layers.last() == "steamworks"@ {
        steamworks_notes(layers.drop_last()).push(
            "Steamworks imports detected; the local runtime will not start Windows Steam, so the game may need a game-specific API workaround"@)
    } else {
        steamworks_notes(layers.drop_last())
    }
}

/// The review items that PE evidence adds to a local analysis.
pub open spec fn local_pe_review(pe: PeSummary) -> Seq<Seq<char>> {
    let dlls = pe.import_dlls.deep_view();
    steamworks_notes(pe.detected_layers.deep_view())
        + (if imports_any(dlls, seq!["vcruntime"@, "msvcp"@]) {
            seq!["Visual C++ imports detected; verify the matching redistributable before launch"@]
        } else { Seq::empty() })
        + (if imports_any(dlls, seq!["quartz"@, "theora"@, "bink"@, "avcodec"@]) {
            seq!["media imports detected; validate video playback separately from the graphics backend"@]
        } else { Seq::empty() })
}

fn steamworks_review(items: &mut Vec<String>, layers: &Vec<String>)
    ensures final(items).deep_view() == old(items).deep_view() + steamworks_notes(layers.deep_view()),
{
    let ghost start = items.deep_view();
    let mut i: usize = 0;
    proof { reveal_strlit("steamworks"); }
    assert(start + steamworks_notes(layers.deep_view().take(0)) =~= start);
    while i < layers.len()
        invariant
            i <= layers.len(),
            items.deep_view() == start + steamworks_notes(layers.deep_view().take(i as int)),
        decreases layers.len() - i,
    {
        assert(layers.deep_view().take(i + 1).drop_last() =~= layers.deep_view().take(i as int));
        if crate::text::same_text(layers[i].as_str(), "steamworks") {
            let ghost before = items.deep_view();
            push_review(items,
                "Steamworks imports detected; the local runtime will not start Windows Steam, so the game may need a game-specific API workaround");
            assert(items.deep_view() =~= start + steamworks_notes(layers.deep_view().take(i + 1)));
        }
        i = i + 1;
    }
    assert(layers.deep_view().take(i as int) =~= layers.deep_view());
}

/// Applies what an executable's PE summary shows to a local profile: the
/// capabilities of its layers, the dependencies its imports call for, and review
/// items for Steamworks, Visual C++ and media imports.
pub fn apply_pe_evidence(profile: GenericGameProfile, pe: &PeSummary, review_items: &mut Vec<String>) -> (r: GenericGameProfile)
    ensures
        r@ == (ProfileModel {
            capabilities: profile@.capabilities.union(layer_capabilities(pe.detected_layers.deep_view())),
            dependencies: profile@.dependencies + import_dependencies(pe.import_dlls.deep_view()),
            ..profile@
        }),
        final(review_items).deep_view() == old(review_items).deep_view() + local_pe_review(*pe),
{
    let mut profile = add_layer_capabilities(profile, &pe.detected_layers);
    let ghost items0 = review_items.deep_view();
    steamworks_review(review_items, &pe.detected_layers);
    let dlls = &pe.import_dlls;
    let ghost dv = dlls.deep_view();
    let mut two: Vec<&'static str> = Vec::new();
    two.push("vcruntime");
    two.push("msvcp");
    assert(two@.map_values(|n: &str| n@) =~= seq!["vcruntime"@, "msvcp"@]);
    let mut media: Vec<&'static str> = Vec::new();
    media.push("mfplat");
    media.push("mfreadwrite");
    media.push("wmvcore");
    assert(media@.map_values(|n: &str| n@) =~= seq!["mfplat"@, "mfreadwrite"@, "wmvcore"@]);
    let mut codecs: Vec<&'static str> = Vec::new();
    codecs.push("quartz");
    codecs.push("theora");
    codecs.push("bink");
    codecs.push("avcodec");
    assert(codecs@.map_values(|n: &str| n@) =~= seq!["quartz"@, "theora"@, "bink"@, "avcodec"@]);
    let ghost deps0 = profile@.dependencies;
    let ghost items1 = review_items.deep_view();
    if imports_any_of(dlls, &two) {
        profile = profile.with_dependency(RuntimeDependency::Vcrun2022);
        push_review(review_items, "Visual C++ imports detected; verify the matching redistributable before launch");
    }
    if imports_any_of(dlls, &needles1("d3dcompiler")) {
        profile = profile.with_dependency(RuntimeDependency::D3dCompiler);
    }
    if imports_any_of(dlls, &needles1("openal")) {
        profile = profile.with_dependency(RuntimeDependency::OpenAl);
    }
    if imports_any_of(dlls, &needles1("xaudio2")) {
        profile = profile.with_dependency(RuntimeDependency::XAudio);
    }
    if imports_any_of(dlls, &media) {
        profile = profile.with_dependency(RuntimeDependency::MediaFoundation);
    }
    assert(profile@.dependencies =~= deps0 + import_dependencies(dv));
    if imports_any_of(dlls, &codecs) {
        push_review(review_items, "media imports detected; validate video playback separately from the graphics backend");
    }
    assert(review_items.deep_view() =~= items0 + local_pe_review(*pe));
    profile
}

/// The recommendations for a local executable's graphics layers.
pub open spec fn local_recommendations_for(pe: Option<PeSummary>) -> Seq<Seq<char>> {
    match pe {
        None => Seq::empty(),
        Some(p) => {
            let l = p.detected_layers.deep_view();
            flagged(seq![
                (has_item(l, "d3d11/dxgi"@), "try DXMT or DXVK after a WineD3D baseline"@),
                (has_item(l, "d3d9"@), "try DXVK or WineD3D for this D3D9-era executable"@),
                (has_item(l, "opengl"@), "check Wine OpenGL/macOS driver behavior first"@),
            ])
        },
    }
}

/// The recommendations for a local executable's graphics layers.
pub fn local_recommendations(pe: Option<&PeSummary>) -> (r: Vec<String>)
    ensures r.deep_view() == local_recommendations_for(match pe { Some(p) => Some(*p), None => None }),
{
    let p = match pe {
        None => {
            let r: Vec<String> = Vec::new();
            assert(r.deep_view() =~= Seq::<Seq<char>>::empty());
            return r;
        }
        Some(p) => p,
    };
    let mut flags: Vec<(bool, &str)> = Vec::new();
    flags.push((has_text(&p.detected_layers, "d3d11/dxgi"), "try DXMT or DXVK after a WineD3D baseline"));
    flags.push((has_text(&p.detected_layers, "d3d9"), "try DXVK or WineD3D for this D3D9-era executable"));
    flags.push((has_text(&p.detected_layers, "opengl"), "check Wine OpenGL/macOS driver behavior first"));
    assert(flags@.map_values(|f: (bool, &str)| (f.0, f.1@)) =~= seq![
        (has_item(p.detected_layers.deep_view(), "d3d11/dxgi"@), "try DXMT or DXVK after a WineD3D baseline"@),
        (has_item(p.detected_layers.deep_view(), "d3d9"@), "try DXVK or WineD3D for this D3D9-era executable"@),
        (has_item(p.detected_layers.deep_view(), "opengl"@), "check Wine OpenGL/macOS driver behavior first"@),
    ]);
    crate::analyze::discovery::flag_texts(&flags)
}

/// The name of a local game: the one given, or the folder's name, or a default.
pub open spec fn local_name(root: Seq<char>, name: Option<Seq<char>>) -> Seq<char> {
    match name {
        Some(n) => n,
        None => if file_name_of(root).len() > 0 { file_name_of(root) } else { "Local Windows Game"@ },
    }
}

/// The slug a local game's ids are made from: its name's slug, or `game`.
pub open spec fn local_key(slug: Seq<char>) -> Seq<char> {
    if slug.len() > 0 { slug } else { "game"@ }
}

/// The review items every local analysis starts with.
pub open spec fn local_base_review(embedded: Option<Seq<char>>, candidate_count: int) -> Seq<Seq<char>> {
    seq![match embedded {
        Some(id) => "steam_appid.txt detected ("@ + id
            + "); recorded as static evidence only and ignored by the local launch policy"@,
        None => "no steam_appid.txt detected; profile uses direct non-Steam Wine launch"@,
    }, "the local folder is exposed through Wine Z:; keep the host path stable after profiling"@]
        + (if candidate_count > 1 {
            seq![crate::text::decimal(candidate_count as nat)
                + " executable candidates found; review the selected executable before launch"@]
        } else { Seq::empty() })
}

/// Whether `a` is the local analysis of the folder `root` with the given name, app
/// id and candidates, the text of its `steam_appid.txt`, and its bundled DLLs.
pub open spec fn is_local_analysis(
    a: LocalGameAnalysis,
    root: Seq<char>,
    name: Option<Seq<char>>,
    app_id: Option<Seq<char>>,
    candidates: Seq<WindowsExeCandidate>,
    steam_appid_text: Option<Seq<char>>,
) -> bool {
    let nm = local_name(root, name);
    let key = local_key(slug_of(nm));
    let id = match app_id { Some(i) => i, None => "local-"@ + key };
    let embedded = match steam_appid_text { Some(t) => embedded_app_id(t), None => None };
    let exe = match a.selected_exe { Some(c) => c.relative_path@, None => "Game.exe"@ };
    let pe = match a.selected_exe { Some(c) => c.pe, None => None };
    let base = ProfileModel {
        bottle_name: crate::text::safe_component_spec("local-"@ + key),
        install_dir_hint: nm,
        windows_install_path: Some(a.windows_install_path@),
        runtime_profile_version: LOCAL_GAME_ANALYSIS_VERSION@ + "-"@ + id,
        steam_integration: SteamIntegration::Standalone,
        steam_cef_policy: SteamCefPolicy::WineDefault,
        ..new_model(id, nm, exe)
    };
    &&& a.version@ == LOCAL_GAME_ANALYSIS_VERSION@
    &&& a.root@ == root && a.name@ == nm && a.slug@ == slug_of(nm) && a.app_id@ == id
    &&& a.windows_install_path@ == "Z:"@ + z_suffix(components(root))
    &&& a.exe_candidates@ == candidates
    &&& match pe {
        Some(p) => a.profile@ == (ProfileModel {
                capabilities: base.capabilities.union(layer_capabilities(p.detected_layers.deep_view())),
                dependencies: base.dependencies + import_dependencies(p.import_dlls.deep_view()),
                ..base
            })
            && a.review_items.deep_view() == local_base_review(embedded, candidates.len() as int)
                + local_pe_review(p) + local_recommendations_for(pe),
        None => a.profile@ == base
            && a.review_items.deep_view() == local_base_review(embedded, candidates.len() as int)
                + seq!["selected executable has no readable PE summary"@],
    }
}

/// The analysis of a local game folder `root` (already resolved to an absolute
/// directory) from its executable candidates (best first), the text of its
/// `steam_appid.txt` if there is one, and its bundled DLLs; the game is named
/// `name`, or after its folder, and gets `app_id` or one made from its name.
pub fn analyze_local_game(
    root: &str,
    name: Option<&str>,
    app_id: Option<&str>,
    executable: Option<&str>,
    exe_candidates: Vec<WindowsExeCandidate>,
    steam_appid_text: Option<&str>,
    bundled_dlls: Vec<String>,
) -> (r: Result<LocalGameAnalysis>)
    ensures
        match r {
            Ok(a) => is_local_analysis(a, root@, match name { Some(n) => Some(n@), None => None },
                    match app_id { Some(i) => Some(i@), None => None }, exe_candidates@,
                    match steam_appid_text { Some(t) => Some(t@), None => None })
                && a.bundled_dlls == bundled_dlls
                && match executable {
                    None => match a.selected_exe {
                        Some(c) => exe_candidates@.len() > 0 && same_candidate(c, exe_candidates@[0]),
                        None => exe_candidates@.len() == 0,
                    },
                    Some(x) => match named_candidate(exe_candidates@, x@, 0) {
                        Some(i) => a.selected_exe matches Some(c) && same_candidate(c, exe_candidates@[i]),
                        None => false,
                    },
                },
            Err(e) => (executable matches Some(x) && named_candidate(exe_candidates@, x@, 0) is None
                    && e.text() == "local executable was not found below the game directory: "@ + x@)
                || (!is_absolute(root@) && e.text() == "local game path must be absolute after resolution: "@ + root@),
        },
{
    let selected_exe = match select_executable(&exe_candidates, executable) {
        Ok(s) => s,
        Err(e) => { return Err(e); }
    };
    proof { reveal_strlit("Local Windows Game"); reveal_strlit("game"); }
    let name = match name {
        Some(n) => n.to_owned(),
        None => {
            let f = crate::analyze::discovery::file_name_text(root);
            if f.unicode_len() > 0 { f } else { "Local Windows Game".to_owned() }
        }
    };
    let slug = slugify(name.as_str());
    let key = if slug.unicode_len() > 0 { slug.clone() } else { "game".to_owned() };
    let embedded = match steam_appid_text {
        Some(t) => steam_app_id_from_text(t),
        None => None,
    };
    let app_id = match app_id {
        Some(i) => i.to_owned(),
        None => concat("local-", key.as_str()),
    };
    let windows_install_path = match host_path_to_z_path(root) {
        Ok(w) => w,
        Err(e) => { return Err(e); }
    };
    let exe = match &selected_exe {
        Some(c) => c.relative_path.clone(),
        None => "Game.exe".to_owned(),
    };
    let profile = GenericGameProfile::new(app_id.as_str(), name.as_str(), exe.as_str())
        .with_bottle_name(concat("local-", key.as_str()).as_str())
        .with_install_dir_hint(name.as_str())
        .with_windows_install_path(windows_install_path.as_str())
        .with_runtime_profile_version(concat3(LOCAL_GAME_ANALYSIS_VERSION, "-", app_id.as_str()).as_str())
        .with_steam_integration(SteamIntegration::Standalone)
        .with_steam_cef_policy(SteamCefPolicy::WineDefault);

    let mut review_items: Vec<String> = Vec::new();
    match &embedded {
        Some(id) => {
            let note = concat3("steam_appid.txt detected (", id.as_str(),
                "); recorded as static evidence only and ignored by the local launch policy");
            review_items.push(note);
        }
        None => {
            review_items.push("no steam_appid.txt detected; profile uses direct non-Steam Wine launch".to_owned());
        }
    }
    push_review(&mut review_items, "the local folder is exposed through Wine Z:; keep the host path stable after profiling");
    if exe_candidates.len() > 1 {
        let count = crate::text::decimal_text(exe_candidates.len() as u64);
        let ghost before = review_items.deep_view();
        review_items.push(concat(count.as_str(), " executable candidates found; review the selected executable before launch"));
        assert(review_items.deep_view() =~= before.push(crate::text::decimal(exe_candidates@.len() as nat)
            + " executable candidates found; review the selected executable before launch"@));
    }
    assert(review_items.deep_view() =~= local_base_review(crate::games::opt_text(embedded), exe_candidates@.len() as int));
    let ghost base_items = review_items.deep_view();
    let selected_pe = match &selected_exe {
        Some(c) => match &c.pe {
            Some(p) => Some(p),
            None => None,
        },
        None => None,
    };
    let profile = match selected_pe {
        Some(pe) => {
            let p = apply_pe_evidence(profile, pe, &mut review_items);
            let recommendations = local_recommendations(Some(pe));
            crate::runtime::launch::append_texts(&mut review_items, &recommendations);
            p
        }
        None => {
            push_review(&mut review_items, "selected executable has no readable PE summary");
            assert(review_items.deep_view() =~= base_items + seq!["selected executable has no readable PE summary"@]);
            profile
        }
    };
    Ok(LocalGameAnalysis {
        version: LOCAL_GAME_ANALYSIS_VERSION,
        root: root.to_owned(),
        name,
        slug,
        app_id,
        windows_install_path,
        exe_candidates,
        selected_exe,
        bundled_dlls,
        profile,
        review_items,
    })
}

} // verus!
