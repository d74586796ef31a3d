//! The environment a game or its installer starts with in its bottle: the profile's
//! own variables under the bottle's Wine variables, then what Steam, the graphics
//! backend and the redistributables need. Environment values this process inherited
//! and the runtime directories found on disk are handed in as facts.
use vstd::prelude::*;
use crate::anchors::{STEAM_CEF_CROSSOVER_POLICY_VALUE, STEAM_CEF_POLICY_ENV};
use crate::games::{GameProfile, GraphicsBackend, RuntimeDependency, SteamCefPolicy, SteamIntegration};
use crate::runtime::wine::{prepend_dll_override, prepend_env_path, prepended_override, prepended_path};
use crate::strmap::{map_of, StrMap};
use crate::types::WineSteamRuntime;

verus! {

/// The value of `k` in `m`, if it has one.
pub open spec fn lookup(m: Map<Seq<char>, Seq<char>>, k: Seq<char>) -> Option<Seq<char>> {
    if m.dom().contains(k) { Some(m[k]) } else { None }
}

/// The value of `k` set so far, else the one this process inherited.
pub open spec fn current_value(m: Map<Seq<char>, Seq<char>>, inherited: Map<Seq<char>, Seq<char>>, k: Seq<char>) -> Option<Seq<char>> {
    match lookup(m, k) {
        Some(v) => Some(v),
        None => lookup(inherited, k),
    }
}

/// The overrides that keep Steam's overlay out of a game.
pub open spec fn overlay_override() -> Seq<char> {
    "gameoverlayrenderer,gameoverlayrenderer64="@
}

/// What a game that uses Steam gets: its app id under Steam's three names, the
/// overlay off and overridden, and the CrossOver browser policy where the profile
/// asks for it.
pub open spec fn with_steam_env(m: Map<Seq<char>, Seq<char>>, app_id: Seq<char>, inherited: Map<Seq<char>, Seq<char>>, crossover_cef: bool) -> Map<Seq<char>, Seq<char>> {
    let n = m.insert("SteamAppId"@, app_id).insert("SteamGameId"@, app_id).insert("STEAM_GAME_ID"@, app_id)
        .insert("SteamNoOverlayUI"@, "1"@).insert("DISABLE_VK_LAYER_VALVE_steam_overlay_1"@, "1"@)
        .insert("WINEDLLOVERRIDES"@, prepended_override(overlay_override(), lookup(inherited, "WINEDLLOVERRIDES"@)));
    if crossover_cef { n.insert("PORTCELLAR_STEAM_CEF_POLICY"@, "crossover-compatible"@) } else { n }
}

/// What the DXMT backend gets: its configuration (the inherited one, else the
/// profile's) with a log level, and the DXMT root in front of the DLL search path.
pub open spec fn with_dxmt_env(m: Map<Seq<char>, Seq<char>>, profile_config: Option<Seq<char>>, dxmt_root: Option<Seq<char>>, inherited: Map<Seq<char>, Seq<char>>) -> Map<Seq<char>, Seq<char>> {
    let config = match lookup(inherited, "DXMT_CONFIG"@) { Some(c) => Some(c), None => profile_config };
    let level = match lookup(inherited, "DXMT_LOG_LEVEL"@) { Some(l) => l, None => "error"@ };
    let n = match config {
        Some(c) => m.insert("DXMT_CONFIG"@, c).insert("DXMT_LOG_LEVEL"@, level),
        None => m,
    };
    match dxmt_root {
        Some(r) => n.insert("WINEDLLPATH_PREPEND"@, prepended_path(r, lookup(inherited, "WINEDLLPATH_PREPEND"@))),
        None => n,
    }
}

/// `value` with each of `dirs` put in front, the first one foremost.
pub open spec fn dirs_prepended(dirs: Seq<Seq<char>>, value: Seq<char>) -> Seq<char>
    decreases dirs.len(),
{
    if dirs.len() == 0 {
        value
    } else {
        let rest = dirs_prepended(dirs.drop_first(), value);
        prepended_path(dirs[0], if rest.len() == 0 { None } else { Some(rest) })
    }
}

/// The DLL directories of a runtime put in front of both DLL search paths.
pub open spec fn with_dll_dirs(m: Map<Seq<char>, Seq<char>>, dirs: Seq<Seq<char>>, inherited: Map<Seq<char>, Seq<char>>) -> Map<Seq<char>, Seq<char>> {
    if dirs.len() == 0 {
        m
    } else {
        let prepend = match lookup(m, "WINEDLLPATH_PREPEND"@) { Some(v) => v, None => Seq::empty() };
        let dllpath = match current_value(m, inherited, "WINEDLLPATH"@) { Some(v) => v, None => Seq::empty() };
        m.insert("WINEDLLPATH_PREPEND"@, dirs_prepended(dirs, prepend))
            .insert("WINEDLLPATH"@, dirs_prepended(dirs, dllpath))
    }
}

/// A DLL override put in front of the overrides set so far, or inherited.
pub open spec fn with_override(m: Map<Seq<char>, Seq<char>>, value: Seq<char>, inherited: Map<Seq<char>, Seq<char>>) -> Map<Seq<char>, Seq<char>> {
    m.insert("WINEDLLOVERRIDES"@, prepended_override(value, current_value(m, inherited, "WINEDLLOVERRIDES"@)))
}

/// A host library directory put in front of the library search path.
pub open spec fn with_library_dir(m: Map<Seq<char>, Seq<char>>, dir: Option<Seq<char>>, inherited: Map<Seq<char>, Seq<char>>) -> Map<Seq<char>, Seq<char>> {
    match dir {
        Some(d) => m.insert("DYLD_FALLBACK_LIBRARY_PATH"@,
            prepended_path(d, current_value(m, inherited, "DYLD_FALLBACK_LIBRARY_PATH"@))),
        None => m,
    }
}

/// What the host shows that a launch environment depends on.
#[derive(Debug)]
pub struct LaunchEnvFacts {
    /// This process's own values of the variables the environment builds on
    /// (`WINEDLLOVERRIDES`, `DXMT_CONFIG`, `DXMT_LOG_LEVEL`, `WINEDLLPATH_PREPEND`,
    /// `WINEDLLPATH`, `DYLD_FALLBACK_LIBRARY_PATH`).
    pub inherited: StrMap,
    /// The existing DLL directories of the runtime found for the profile's DXVK or
    /// VKD3D backend; `None` where no usable runtime was found.
    pub graphics_dll_dirs: Option<Vec<String>>,
    /// The MoltenVK library directory, where a MoltenVK runtime was found.
    pub moltenvk_dir: Option<String>,
    /// The existing DLL directories of the FAudio runtime, where one was found.
    pub faudio_dll_dirs: Option<Vec<String>>,
    /// The GStreamer library directory, where a GStreamer runtime was found.
    pub gstreamer_lib_dir: Option<String>,
    /// The GStreamer plugin directory of that runtime, where it exists.
    pub gstreamer_plugin_dir: Option<String>,
}

/// The texts of optional directories.
pub open spec fn opt_dirs(d: Option<Vec<String>>) -> Option<Seq<Seq<char>>> {
    match d {
        Some(v) => Some(v.deep_view()),
        None => None,
    }
}

/// The texts of an optional directory.
pub open spec fn opt_dir(d: Option<String>) -> Option<Seq<char>> {
    match d {
        Some(s) => Some(s@),
        None => None,
    }
}

/// What the DXVK or VKD3D backend gets: the runtime's DLL directories and native
/// overrides where its runtime was found, and the MoltenVK library directory.
pub open spec fn with_backend_env(m: Map<Seq<char>, Seq<char>>, backend: GraphicsBackend, graphics_dirs: Option<Seq<Seq<char>>>, moltenvk: Option<Seq<char>>, inherited: Map<Seq<char>, Seq<char>>) -> Map<Seq<char>, Seq<char>> {
    let overrides = if backend == GraphicsBackend::Dxvk { "d3d8,d3d9,d3d10core,d3d11,dxgi=n,b"@ } else { "d3d12,d3d12core,dxgi=n,b"@ };
    if backend == GraphicsBackend::Dxvk || backend == GraphicsBackend::Vkd3d {
        let n = match graphics_dirs {
            Some(dirs) => with_override(with_dll_dirs(m, dirs, inherited), overrides, inherited),
            None => m,
        };
        with_library_dir(n, moltenvk, inherited)
    } else {
        m
    }
}

/// What GStreamer gets: its library directory and its plugin directory.
pub open spec fn with_gstreamer_env(m: Map<Seq<char>, Seq<char>>, lib: Option<Seq<char>>, plugins: Option<Seq<char>>, inherited: Map<Seq<char>, Seq<char>>) -> Map<Seq<char>, Seq<char>> {
    let n = with_library_dir(m, lib, inherited);
    match plugins {
        Some(p) => n.insert("GST_PLUGIN_PATH_1_0"@, p).insert("GST_PLUGIN_SYSTEM_PATH_1_0"@, p),
        None => n,
    }
}

/// The environment a game starts with: the profile's variables under the bottle's
/// Wine variables, then Steam's (unless the game is standalone), DXMT's, the
/// backend's, FAudio's (for XAudio) and GStreamer's (for Media Foundation).
pub open spec fn launch_env_of<P: GameProfile>(profile: P, dxmt_root: Option<Seq<char>>, wine_env: Map<Seq<char>, Seq<char>>, facts: LaunchEnvFacts) -> Map<Seq<char>, Seq<char>> {
    let inherited = facts.inherited.map();
    let backend = profile.spec_graphics_backend();
    let deps = profile.spec_dependencies();
    let base = map_of(profile.spec_runtime_environment()).union_prefer_right(wine_env);
    let s = if profile.spec_steam_integration() != SteamIntegration::Standalone {
        with_steam_env(base, profile.spec_app_id(), inherited, profile.spec_steam_cef_policy() == SteamCefPolicy::CrossOverCompatible)
    } else {
        base
    };
    let d = if backend == GraphicsBackend::Dxmt { with_dxmt_env(s, profile.spec_dxmt_config(), dxmt_root, inherited) } else { s };
    let g = with_backend_env(d, backend, opt_dirs(facts.graphics_dll_dirs), opt_dir(facts.moltenvk_dir), inherited);
    let a = if deps.contains(RuntimeDependency::XAudio) {
        match opt_dirs(facts.faudio_dll_dirs) {
            Some(dirs) => with_dll_dirs(g, dirs, inherited),
            None => g,
        }
    } else {
        g
    };
    if deps.contains(RuntimeDependency::MediaFoundation) {
        with_gstreamer_env(a, opt_dir(facts.gstreamer_lib_dir), opt_dir(facts.gstreamer_plugin_dir), inherited)
    } else {
        a
    }
}

// ---------------------------------------------------------------- steps

fn lookup_text(m: &StrMap, k: &str) -> (r: Option<String>)
    ensures opt_dir(r) == lookup(m.map(), k@),
{
    match m.get(k) {
        Some(v) => Some(v.clone()),
        None => None,
    }
}

fn current_text(m: &StrMap, inherited: &StrMap, k: &str) -> (r: Option<String>)
    ensures opt_dir(r) == current_value(m.map(), inherited.map(), k@),
{
    match m.get(k) {
        Some(v) => Some(v.clone()),
        None => lookup_text(inherited, k),
    }
}

fn as_opt_str(o: &Option<String>) -> (r: Option<&str>)
    ensures match r { Some(s) => opt_dir(*o) == Some(s@), None => o is None },
{
    match o {
        Some(s) => Some(s.as_str()),
        None => None,
    }
}

/// `base` with every entry of `top` set over it.
pub fn merge_env(base: StrMap, top: &StrMap) -> (r: StrMap)
    ensures r.map() == base.map().union_prefer_right(top.map()),
{
    let ghost b = base.map();
    let mut m = base;
    let mut i: usize = 0;
    assert(top@.take(0) =~= Seq::<(Seq<char>, Seq<char>)>::empty());
    assert(b.union_prefer_right(map_of(top@.take(0))) =~= b);
    while i < top.len()
        invariant
            i <= top@.len(),
            m.map() == b.union_prefer_right(map_of(top@.take(i as int))),
        decreases top@.len() - i,
    {
        let k = top.key_at(i).clone();
        let v = top.value_at(i).clone();
        let ghost before = map_of(top@.take(i as int));
        m.insert(k, v);
        assert(top@.take(i + 1).drop_last() =~= top@.take(i as int));
        assert(map_of(top@.take(i + 1)) == before.insert(top@[i as int].0, top@[i as int].1));
        assert(b.union_prefer_right(before).insert(top@[i as int].0, top@[i as int].1)
            =~= b.union_prefer_right(before.insert(top@[i as int].0, top@[i as int].1)));
        i = i + 1;
    }
    assert(top@.take(i as int) =~= top@);
    m
}

fn add_steam_env(m: &mut StrMap, app_id: &str, inherited: &StrMap, crossover_cef: bool)
    ensures final(m).map() == with_steam_env(old(m).map(), app_id@, inherited.map(), crossover_cef),
{
    proof {
        reveal_strlit("gameoverlayrenderer,gameoverlayrenderer64=");
        reveal_strlit("crossover-compatible");
        reveal_strlit("PORTCELLAR_STEAM_CEF_POLICY");
    }
    m.insert("SteamAppId".to_owned(), app_id.to_owned());
    m.insert("SteamGameId".to_owned(), app_id.to_owned());
    m.insert("STEAM_GAME_ID".to_owned(), app_id.to_owned());
    m.insert("SteamNoOverlayUI".to_owned(), "1".to_owned());
    m.insert("DISABLE_VK_LAYER_VALVE_steam_overlay_1".to_owned(), "1".to_owned());
    let inherited_overrides = lookup_text(inherited, "WINEDLLOVERRIDES");
    let overrides = prepend_dll_override("gameoverlayrenderer,gameoverlayrenderer64=", as_opt_str(&inherited_overrides));
    m.insert("WINEDLLOVERRIDES".to_owned(), overrides);
    if crossover_cef {
        m.insert(STEAM_CEF_POLICY_ENV.to_owned(), STEAM_CEF_CROSSOVER_POLICY_VALUE.to_owned());
    }
}

fn add_dxmt_env(m: &mut StrMap, profile_config: Option<&str>, dxmt_root: &Option<String>, inherited: &StrMap)
    ensures
        final(m).map() == with_dxmt_env(old(m).map(),
            match profile_config { Some(c) => Some(c@), None => None }, opt_dir(*dxmt_root), inherited.map()),
{
    let config = match lookup_text(inherited, "DXMT_CONFIG") {
        Some(c) => Some(c),
        None => match profile_config { Some(c) => Some(c.to_owned()), None => None },
    };
    if let Some(c) = config {
        let level = match lookup_text(inherited, "DXMT_LOG_LEVEL") { Some(l) => l, None => "error".to_owned() };
        m.insert("DXMT_CONFIG".to_owned(), c);
        m.insert("DXMT_LOG_LEVEL".to_owned(), level);
    }
    if let Some(r) = dxmt_root {
        let inherited_prepend = lookup_text(inherited, "WINEDLLPATH_PREPEND");
        let value = prepend_env_path(r.as_str(), as_opt_str(&inherited_prepend));
        m.insert("WINEDLLPATH_PREPEND".to_owned(), value);
    }
}

/// `value` with each of `dirs` put in front, the first one foremost.
pub fn prepend_dirs(dirs: &Vec<String>, value: String) -> (r: String)
    ensures r@ == dirs_prepended(dirs.deep_view(), value@),
{
    let mut out = value;
    let mut i: usize = dirs.len();
    assert(dirs.deep_view().skip(dirs.len() as int) =~= Seq::<Seq<char>>::empty());
    while i > 0
        invariant
            i <= dirs.len(),
            out@ == dirs_prepended(dirs.deep_view().skip(i as int), value@),
        decreases i,
    {
        i = i - 1;
        let ghost rest = dirs.deep_view().skip(i as int + 1);
        assert(dirs.deep_view().skip(i as int).drop_first() =~= rest);
        let next = if out.unicode_len() == 0 {
            prepend_env_path(dirs[i].as_str(), None)
        } else {
            prepend_env_path(dirs[i].as_str(), Some(out.as_str()))
        };
        out = next;
    }
    assert(dirs.deep_view().skip(0) =~= dirs.deep_view());
    out
}

fn add_dll_dirs(m: &mut StrMap, dirs: &Vec<String>, inherited: &StrMap)
    ensures final(m).map() == with_dll_dirs(old(m).map(), dirs.deep_view(), inherited.map()),
{
    if dirs.len() == 0 {
        return;
    }
    let prepend = match lookup_text(m, "WINEDLLPATH_PREPEND") { Some(v) => v, None => String::new() };
    let dllpath = match current_text(m, inherited, "WINEDLLPATH") { Some(v) => v, None => String::new() };
    let first = prepend_dirs(dirs, prepend);
    let second = prepend_dirs(dirs, dllpath);
    m.insert("WINEDLLPATH_PREPEND".to_owned(), first);
    m.insert("WINEDLLPATH".to_owned(), second);
}

fn add_override(m: &mut StrMap, value: &str, inherited: &StrMap)
    ensures final(m).map() == with_override(old(m).map(), value@, inherited.map()),
{
    let existing = current_text(m, inherited, "WINEDLLOVERRIDES");
    let joined = prepend_dll_override(value, as_opt_str(&existing));
    m.insert("WINEDLLOVERRIDES".to_owned(), joined);
}

fn add_library_dir(m: &mut StrMap, dir: &Option<String>, inherited: &StrMap)
    ensures final(m).map() == with_library_dir(old(m).map(), opt_dir(*dir), inherited.map()),
{
    if let Some(d) = dir {
        let existing = current_text(m, inherited, "DYLD_FALLBACK_LIBRARY_PATH");
        let joined = prepend_env_path(d.as_str(), as_opt_str(&existing));
        m.insert("DYLD_FALLBACK_LIBRARY_PATH".to_owned(), joined);
    }
}

fn add_backend_env(m: &mut StrMap, backend: GraphicsBackend, facts: &LaunchEnvFacts)
    ensures
        final(m).map() == with_backend_env(old(m).map(), backend, opt_dirs(facts.graphics_dll_dirs),
            opt_dir(facts.moltenvk_dir), facts.inherited.map()),
{
    if backend != GraphicsBackend::Dxvk && backend != GraphicsBackend::Vkd3d {
        return;
    }
    let overrides = if backend == GraphicsBackend::Dxvk { "d3d8,d3d9,d3d10core,d3d11,dxgi=n,b" } else { "d3d12,d3d12core,dxgi=n,b" };
    if let Some(dirs) = &facts.graphics_dll_dirs {
        add_dll_dirs(m, dirs, &facts.inherited);
        add_override(m, overrides, &facts.inherited);
    }
    add_library_dir(m, &facts.moltenvk_dir, &facts.inherited);
}

fn has_dependency(deps: &Vec<RuntimeDependency>, d: RuntimeDependency) -> (r: bool)
    ensures r == deps@.contains(d),
{
    let mut i: usize = 0;
    while i < deps.len()
        invariant
            i <= deps.len(),
            forall|k: int| 0 <= k < i ==> deps@[k] != d,
        decreases deps.len() - i,
    {
        if deps[i] == d {
            assert(deps@[i as int] == d);
            return true;
        }
        i = i + 1;
    }
    false
}

/// The environment a game starts with in its bottle, with the bottle's Wine
/// variables `wine_env` and what the host shows in `facts`.
pub fn game_launch_env<P: GameProfile>(profile: &P, runtime: &WineSteamRuntime, wine_env: &StrMap, facts: &LaunchEnvFacts) -> (r: StrMap)
    ensures r.map() == launch_env_of(*profile, opt_dir(runtime.dxmt_root), wine_env.map(), *facts),
{
    let backend = profile.graphics_backend();
    let deps = profile.dependencies();
    let mut m = merge_env(profile.runtime_environment(), wine_env);
    if profile.steam_integration() != SteamIntegration::Standalone {
        add_steam_env(&mut m, profile.app_id(), &facts.inherited,
            profile.steam_cef_policy() == SteamCefPolicy::CrossOverCompatible);
    }
    if backend == GraphicsBackend::Dxmt {
        add_dxmt_env(&mut m, profile.dxmt_config(), &runtime.dxmt_root, &facts.inherited);
    }
    add_backend_env(&mut m, backend, facts);
    if has_dependency(&deps, RuntimeDependency::XAudio) {
        if let Some(dirs) = &facts.faudio_dll_dirs {
            add_dll_dirs(&mut m, dirs, &facts.inherited);
        }
    }
    if has_dependency(&deps, RuntimeDependency::MediaFoundation) {
        add_library_dir(&mut m, &facts.gstreamer_lib_dir, &facts.inherited);
        if let Some(p) = &facts.gstreamer_plugin_dir {
            m.insert("GST_PLUGIN_PATH_1_0".to_owned(), p.clone());
            m.insert("GST_PLUGIN_SYSTEM_PATH_1_0".to_owned(), p.clone());
        }
    }
    m
}

/// The environment an installer starts with in a game's bottle: the profile's
/// variables under the bottle's Wine variables.
pub fn game_installer_env<P: GameProfile>(profile: &P, wine_env: &StrMap) -> (r: StrMap)
    ensures r.map() == map_of(profile.spec_runtime_environment()).union_prefer_right(wine_env.map()),
{
    merge_env(profile.runtime_environment(), wine_env)
}


/// Whether `m` holds `SteamAppId` with the value `app_id`.
pub open spec fn holds_app_id(m: Map<Seq<char>, Seq<char>>, app_id: Seq<char>) -> bool {
    m.dom().contains("SteamAppId"@) && m["SteamAppId"@] == app_id
}

proof fn lemma_other_keys_differ()
    ensures
        "SteamAppId"@ != "SteamGameId"@, "SteamAppId"@ != "STEAM_GAME_ID"@,
        "SteamAppId"@ != "SteamNoOverlayUI"@, "SteamAppId"@ != "DISABLE_VK_LAYER_VALVE_steam_overlay_1"@,
        "SteamAppId"@ != "WINEDLLOVERRIDES"@, "SteamAppId"@ != "PORTCELLAR_STEAM_CEF_POLICY"@,
        "SteamAppId"@ != "DXMT_CONFIG"@, "SteamAppId"@ != "DXMT_LOG_LEVEL"@,
        "SteamAppId"@ != "WINEDLLPATH_PREPEND"@, "SteamAppId"@ != "WINEDLLPATH"@,
        "SteamAppId"@ != "DYLD_FALLBACK_LIBRARY_PATH"@, "SteamAppId"@ != "GST_PLUGIN_PATH_1_0"@,
        "SteamAppId"@ != "GST_PLUGIN_SYSTEM_PATH_1_0"@,
{
    reveal_strlit("SteamAppId");
    reveal_strlit("SteamGameId");
    reveal_strlit("STEAM_GAME_ID");
    reveal_strlit("SteamNoOverlayUI");
    reveal_strlit("DISABLE_VK_LAYER_VALVE_steam_overlay_1");
    reveal_strlit("WINEDLLOVERRIDES");
    reveal_strlit("PORTCELLAR_STEAM_CEF_POLICY");
    reveal_strlit("DXMT_CONFIG");
    reveal_strlit("DXMT_LOG_LEVEL");
    reveal_strlit("WINEDLLPATH_PREPEND");
    reveal_strlit("WINEDLLPATH");
    reveal_strlit("DYLD_FALLBACK_LIBRARY_PATH");
    reveal_strlit("GST_PLUGIN_PATH_1_0");
    reveal_strlit("GST_PLUGIN_SYSTEM_PATH_1_0");
    assert("SteamAppId"@[5] != "SteamGameId"@[5]);
    assert("SteamAppId"@[1] != "STEAM_GAME_ID"@[1]);
    assert("SteamAppId"@[5] != "SteamNoOverlayUI"@[5]);
}

/// A game that uses Steam starts with its app id as `SteamAppId`: no later part of
/// its environment sets that variable again.
pub proof fn lemma_launch_env_app_id<P: GameProfile>(
    profile: P,
    dxmt_root: Option<Seq<char>>,
    wine_env: Map<Seq<char>, Seq<char>>,
    facts: LaunchEnvFacts,
)
    requires profile.spec_steam_integration() != SteamIntegration::Standalone,
    ensures holds_app_id(launch_env_of(profile, dxmt_root, wine_env, facts), profile.spec_app_id()),
{
    lemma_other_keys_differ();
}


// ---------------------------------------------------------------- the FAudio law

proof fn lemma_split_nonempty_env(s: Seq<char>, sep: char)
    ensures crate::text::split_char(s, sep).len() >= 1,
    decreases s.len(),
{
    if s.len() > 0 {
        lemma_split_nonempty_env(s.drop_last(), sep);
    }
}

/// Every piece of `split_char(s, sep)` occurs in `s`, and the last one ends it.
proof fn lemma_split_pieces_occur(s: Seq<char>, sep: char)
    ensures
        forall|i: int| 0 <= i < crate::text::split_char(s, sep).len()
            ==> crate::text::contains(s, #[trigger] crate::text::split_char(s, sep)[i]),
        crate::text::occurs_at(s, crate::text::split_char(s, sep).last(),
            s.len() - crate::text::split_char(s, sep).last().len()),
    decreases s.len(),
{
    lemma_split_nonempty_env(s, sep);
    let p = crate::text::split_char(s, sep);
    if s.len() == 0 {
        assert(p =~= seq![Seq::<char>::empty()]);
        assert(crate::text::occurs_at(s, Seq::<char>::empty(), 0)) by {
            assert(s.subrange(0, 0) =~= Seq::<char>::empty());
        }
    } else {
        let d = s.drop_last();
        lemma_split_pieces_occur(d, sep);
        lemma_split_nonempty_env(d, sep);
        let q = crate::text::split_char(d, sep);
        assert forall|i: int| 0 <= i < q.len() implies crate::text::contains(s, #[trigger] q[i]) by {
            let w = choose|w: int| crate::text::occurs_at(d, q[i], w);
            assert(s.subrange(w, w + q[i].len()) =~= d.subrange(w, w + q[i].len()));
            assert(crate::text::occurs_at(s, q[i], w));
        }
        if s.last() == sep {
            assert(p == q.push(Seq::<char>::empty()));
            assert(crate::text::occurs_at(s, Seq::<char>::empty(), s.len() as int)) by {
                assert(s.subrange(s.len() as int, s.len() as int) =~= Seq::<char>::empty());
            }
            assert forall|i: int| 0 <= i < p.len() implies crate::text::contains(s, #[trigger] p[i]) by {
                if i < q.len() { assert(p[i] == q[i]); }
            }
        } else {
            let nl = q.last().push(s.last());
            assert(p == q.update(q.len() - 1, nl));
            let start = d.len() - q.last().len();
            assert(s.subrange(start, start + nl.len()) =~= nl) by {
                assert(d.subrange(start, start + q.last().len()) =~= q.last());
                assert forall|j: int| 0 <= j < nl.len() implies s.subrange(start, start + nl.len())[j] == nl[j] by {
                    if j < q.last().len() {
                        assert(s[start + j] == d[start + j]);
                        assert(d.subrange(start, start + q.last().len())[j] == d[start + j]);
                    }
                }
            }
            assert(crate::text::occurs_at(s, nl, start));
            assert forall|i: int| 0 <= i < p.len() implies crate::text::contains(s, #[trigger] p[i]) by {
                if i < q.len() - 1 { assert(p[i] == q[i]); } else { assert(p[i] == nl); }
            }
        }
    }
}

proof fn lemma_occurs_after(a: Seq<char>, rest: Seq<char>, n: Seq<char>)
    requires crate::text::contains(rest, n),
    ensures crate::text::contains(a + rest, n),
{
    let w = choose|w: int| crate::text::occurs_at(rest, n, w);
    assert((a + rest).subrange(a.len() + w, a.len() + w + n.len()) =~= rest.subrange(w, w + n.len()));
    assert(crate::text::occurs_at(a + rest, n, a.len() + w));
}

proof fn lemma_occurs_first(a: Seq<char>, rest: Seq<char>)
    ensures crate::text::contains(a + rest, a),
{
    assert((a + rest).subrange(0, a.len() as int) =~= a);
    assert(crate::text::occurs_at(a + rest, a, 0));
}

proof fn lemma_empty_occurs(h: Seq<char>, n: Seq<char>)
    requires n.len() == 0,
    ensures crate::text::contains(h, n),
{
    assert(h.subrange(0, 0) =~= n);
    assert(crate::text::occurs_at(h, n, 0));
}

/// Every directory put in front of a search path occurs in the result.
pub proof fn lemma_dirs_prepended_hold(dirs: Seq<Seq<char>>, value: Seq<char>)
    ensures forall|i: int| 0 <= i < dirs.len() ==> crate::text::contains(dirs_prepended(dirs, value), #[trigger] dirs[i]),
    decreases dirs.len(),
{
    if dirs.len() > 0 {
        let rest = dirs_prepended(dirs.drop_first(), value);
        lemma_dirs_prepended_hold(dirs.drop_first(), value);
        let r = dirs_prepended(dirs, value);
        let d0 = dirs[0];
        assert forall|i: int| 0 <= i < dirs.len() implies crate::text::contains(r, #[trigger] dirs[i]) by {
            if rest.len() == 0 {
                assert(r == d0);
                if i == 0 {
                    lemma_occurs_first(d0, Seq::<char>::empty());
                    assert(d0 + Seq::<char>::empty() =~= d0);
                } else {
                    assert(dirs.drop_first()[i - 1] == dirs[i]);
                    assert(crate::text::contains(rest, dirs[i]));
                    let w = choose|w: int| crate::text::occurs_at(rest, dirs[i], w);
                    lemma_empty_occurs(r, dirs[i]);
                }
            } else if crate::runtime::wine::listed(crate::text::split_char(rest, ':'), d0) {
                assert(r == rest);
                if i == 0 {
                    lemma_split_pieces_occur(rest, ':');
                    let k = choose|k: int| 0 <= k < crate::text::split_char(rest, ':').len()
                        && crate::text::split_char(rest, ':')[k] == d0;
                    assert(crate::text::contains(rest, crate::text::split_char(rest, ':')[k]));
                } else {
                    assert(dirs.drop_first()[i - 1] == dirs[i]);
                }
            } else {
                assert(r == d0 + ":"@ + rest);
                if i == 0 {
                    lemma_occurs_first(d0, ":"@ + rest);
                    assert(d0 + ":"@ + rest =~= d0 + (":"@ + rest));
                } else {
                    assert(dirs.drop_first()[i - 1] == dirs[i]);
                    lemma_occurs_after(d0 + ":"@, rest, dirs[i]);
                }
            }
        }
    }
}

proof fn lemma_gstreamer_keys_differ()
    ensures
        "WINEDLLPATH_PREPEND"@ != "DYLD_FALLBACK_LIBRARY_PATH"@,
        "WINEDLLPATH_PREPEND"@ != "GST_PLUGIN_PATH_1_0"@,
        "WINEDLLPATH_PREPEND"@ != "GST_PLUGIN_SYSTEM_PATH_1_0"@,
        "WINEDLLPATH"@ != "DYLD_FALLBACK_LIBRARY_PATH"@,
        "WINEDLLPATH"@ != "GST_PLUGIN_PATH_1_0"@,
        "WINEDLLPATH"@ != "GST_PLUGIN_SYSTEM_PATH_1_0"@,
        "WINEDLLPATH"@ != "WINEDLLPATH_PREPEND"@,
{
    reveal_strlit("WINEDLLPATH_PREPEND");
    reveal_strlit("WINEDLLPATH");
    reveal_strlit("DYLD_FALLBACK_LIBRARY_PATH");
    reveal_strlit("GST_PLUGIN_PATH_1_0");
    reveal_strlit("GST_PLUGIN_SYSTEM_PATH_1_0");
    assert("WINEDLLPATH_PREPEND"@[0] != "DYLD_FALLBACK_LIBRARY_PATH"@[0]);
    assert("WINEDLLPATH_PREPEND"@[0] != "GST_PLUGIN_PATH_1_0"@[0]);
    assert("WINEDLLPATH_PREPEND"@[0] != "GST_PLUGIN_SYSTEM_PATH_1_0"@[0]);
    assert("WINEDLLPATH"@[0] != "DYLD_FALLBACK_LIBRARY_PATH"@[0]);
    assert("WINEDLLPATH"@[0] != "GST_PLUGIN_PATH_1_0"@[0]);
    assert("WINEDLLPATH"@[0] != "GST_PLUGIN_SYSTEM_PATH_1_0"@[0]);
    assert("WINEDLLPATH"@.len() != "WINEDLLPATH_PREPEND"@.len());
}

/// A game that declares XAudio, where an FAudio runtime was found, starts with every
/// FAudio DLL directory in both DLL search paths, `WINEDLLPATH_PREPEND` and
/// `WINEDLLPATH`.
pub proof fn lemma_faudio_dirs_in_dll_paths<P: GameProfile>(
    profile: P,
    dxmt_root: Option<Seq<char>>,
    wine_env: Map<Seq<char>, Seq<char>>,
    facts: LaunchEnvFacts,
    dirs: Seq<Seq<char>>,
)
    requires
        profile.spec_dependencies().contains(RuntimeDependency::XAudio),
        opt_dirs(facts.faudio_dll_dirs) == Some(dirs),
        dirs.len() > 0,
    ensures
        ({
            let env = launch_env_of(profile, dxmt_root, wine_env, facts);
            &&& env.dom().contains("WINEDLLPATH_PREPEND"@)
            &&& env.dom().contains("WINEDLLPATH"@)
            &&& forall|i: int| 0 <= i < dirs.len() ==> crate::text::contains(env["WINEDLLPATH_PREPEND"@], #[trigger] dirs[i])
            &&& forall|i: int| 0 <= i < dirs.len() ==> crate::text::contains(env["WINEDLLPATH"@], dirs[i])
        }),
{
    lemma_gstreamer_keys_differ();
    let inherited = facts.inherited.map();
    let backend = profile.spec_graphics_backend();
    let base = map_of(profile.spec_runtime_environment()).union_prefer_right(wine_env);
    let st = if profile.spec_steam_integration() != SteamIntegration::Standalone {
        with_steam_env(base, profile.spec_app_id(), inherited, profile.spec_steam_cef_policy() == SteamCefPolicy::CrossOverCompatible)
    } else {
        base
    };
    let d = if backend == GraphicsBackend::Dxmt { with_dxmt_env(st, profile.spec_dxmt_config(), dxmt_root, inherited) } else { st };
    let g = with_backend_env(d, backend, opt_dirs(facts.graphics_dll_dirs), opt_dir(facts.moltenvk_dir), inherited);
    let a = with_dll_dirs(g, dirs, inherited);
    let prepend = match lookup(g, "WINEDLLPATH_PREPEND"@) { Some(v) => v, None => Seq::empty() };
    let dllpath = match current_value(g, inherited, "WINEDLLPATH"@) { Some(v) => v, None => Seq::empty() };
    lemma_dirs_prepended_hold(dirs, prepend);
    lemma_dirs_prepended_hold(dirs, dllpath);
    assert(a["WINEDLLPATH_PREPEND"@] == dirs_prepended(dirs, prepend));
    assert(a["WINEDLLPATH"@] == dirs_prepended(dirs, dllpath));
}


// ---------------------------------------------------------------- the FAudio order

/// A piece without `sep`, then `sep`, then `x`: that piece is the first of the pieces,
/// and the pieces of `x` follow it.
proof fn lemma_split_after_piece(a: Seq<char>, x: Seq<char>, sep: char)
    requires !a.contains(sep),
    ensures crate::text::split_char(a + seq![sep] + x, sep) == seq![a] + crate::text::split_char(x, sep),
    decreases x.len(),
{
    let s = a + seq![sep] + x;
    if x.len() == 0 {
        assert(s.drop_last() =~= a);
        crate::runtime::wine::lemma_split_without_sep(a, sep);
        assert(crate::text::split_char(x, sep) =~= seq![Seq::<char>::empty()]);
        assert(crate::text::split_char(s, sep) =~= seq![a] + crate::text::split_char(x, sep));
    } else {
        let xd = x.drop_last();
        assert(s.drop_last() =~= a + seq![sep] + xd);
        assert(s.last() == x.last());
        lemma_split_after_piece(a, xd, sep);
        lemma_split_nonempty_env(xd, sep);
        let q = crate::text::split_char(xd, sep);
        let p = seq![a] + q;
        if x.last() == sep {
            assert(crate::text::split_char(x, sep) == q.push(Seq::<char>::empty()));
            assert(p.push(Seq::<char>::empty()) =~= seq![a] + q.push(Seq::<char>::empty()));
        } else {
            let c = x.last();
            assert(crate::text::split_char(x, sep) == q.update(q.len() - 1, q.last().push(c)));
            assert(p.last() == q.last());
            assert(p.update(p.len() - 1, p.last().push(c)) =~= seq![a] + q.update(q.len() - 1, q.last().push(c)));
        }
    }
}

/// Joining a first part and the rest: the first part, the separator, the rest joined.
proof fn lemma_joined_front(d: Seq<char>, t: Seq<Seq<char>>, sep: Seq<char>)
    requires t.len() > 0,
    ensures crate::text::joined_with(seq![d] + t, sep) == d + sep + crate::text::joined_with(t, sep),
    decreases t.len(),
{
    let parts = seq![d] + t;
    assert(parts.len() >= 2);
    assert(crate::text::joined_with(parts, sep)
        == crate::text::joined_with(parts.drop_last(), sep) + sep + parts.last());
    if t.len() == 1 {
        assert(parts.drop_last() =~= seq![d]);
        assert(parts.last() == t[0]);
        assert(crate::text::joined_with(seq![d], sep) == d);
        assert(crate::text::joined_with(t, sep) == t[0]);
    } else {
        let td = t.drop_last();
        assert(parts.drop_last() =~= seq![d] + td);
        assert(parts.last() == t.last());
        assert(crate::text::joined_with(t, sep) == crate::text::joined_with(td, sep) + sep + t.last());
        lemma_joined_front(d, td, sep);
        assert(d + sep + crate::text::joined_with(td, sep) + sep + t.last()
            =~= d + sep + (crate::text::joined_with(td, sep) + sep + t.last()));
    }
}

/// Parts without `:` joined with `:` split back into those parts.
proof fn lemma_split_joined(parts: Seq<Seq<char>>)
    requires
        parts.len() > 0,
        forall|i: int| 0 <= i < parts.len() ==> !(#[trigger] parts[i]).contains(':'),
    ensures crate::text::split_char(crate::text::joined_with(parts, ":"@), ':') == parts,
    decreases parts.len(),
{
    reveal_strlit(":");
    if parts.len() == 1 {
        crate::runtime::wine::lemma_split_without_sep(parts[0], ':');
        assert(crate::text::split_char(parts[0], ':') =~= parts);
    } else {
        let t = parts.drop_first();
        assert(forall|i: int| 0 <= i < t.len() ==> t[i] == parts[i + 1]);
        lemma_split_joined(t);
        assert(parts =~= seq![parts[0]] + t);
        lemma_joined_front(parts[0], t, ":"@);
        assert(":"@ =~= seq![':']);
        lemma_split_after_piece(parts[0], crate::text::joined_with(t, ":"@), ':');
    }
}

/// A joined list whose first part is not empty is not empty.
proof fn lemma_joined_nonempty(t: Seq<Seq<char>>, sep: Seq<char>)
    requires t.len() > 0, t[0].len() > 0,
    ensures crate::text::joined_with(t, sep).len() > 0,
{
    if t.len() > 1 {
        let r = t.drop_first();
        assert(t =~= seq![t[0]] + r);
        lemma_joined_front(t[0], r, sep);
    }
}

/// Distinct directories without `:`, put in front of an empty search path one by
/// one, the first foremost, give the directories joined with `:`, in their order.
proof fn lemma_dirs_prepended_joined(dirs: Seq<Seq<char>>)
    requires
        dirs.len() > 0,
        forall|i: int| 0 <= i < dirs.len() ==> (#[trigger] dirs[i]).len() > 0 && !dirs[i].contains(':'),
        forall|i: int, j: int| 0 <= i < j < dirs.len() ==> dirs[i] != dirs[j],
    ensures dirs_prepended(dirs, Seq::empty()) == crate::text::joined_with(dirs, ":"@),
    decreases dirs.len(),
{
    reveal_strlit(":");
    let t = dirs.drop_first();
    let rest = dirs_prepended(t, Seq::empty());
    if t.len() == 0 {
        assert(rest == Seq::<char>::empty());
    } else {
        assert(forall|i: int| 0 <= i < t.len() ==> t[i] == dirs[i + 1]);
        lemma_dirs_prepended_joined(t);
        lemma_joined_nonempty(t, ":"@);
        lemma_split_joined(t);
        if crate::runtime::wine::listed(crate::text::split_char(rest, ':'), dirs[0]) {
            let k = choose|k: int| 0 <= k < t.len() && t[k] == dirs[0];
            assert(dirs[k + 1] == dirs[0]);
        }
        assert(dirs =~= seq![dirs[0]] + t);
        lemma_joined_front(dirs[0], t, ":"@);
    }
}

/// No step before the FAudio one sets a DLL search path by any other name.
proof fn lemma_dll_path_keys_differ()
    ensures
        "SteamAppId"@ != "WINEDLLPATH"@, "SteamGameId"@ != "WINEDLLPATH"@, "STEAM_GAME_ID"@ != "WINEDLLPATH"@,
        "SteamNoOverlayUI"@ != "WINEDLLPATH"@, "DISABLE_VK_LAYER_VALVE_steam_overlay_1"@ != "WINEDLLPATH"@,
        "WINEDLLOVERRIDES"@ != "WINEDLLPATH"@, "PORTCELLAR_STEAM_CEF_POLICY"@ != "WINEDLLPATH"@,
        "DXMT_CONFIG"@ != "WINEDLLPATH"@, "DXMT_LOG_LEVEL"@ != "WINEDLLPATH"@,
        "SteamAppId"@ != "WINEDLLPATH_PREPEND"@, "SteamGameId"@ != "WINEDLLPATH_PREPEND"@,
        "STEAM_GAME_ID"@ != "WINEDLLPATH_PREPEND"@, "SteamNoOverlayUI"@ != "WINEDLLPATH_PREPEND"@,
        "DISABLE_VK_LAYER_VALVE_steam_overlay_1"@ != "WINEDLLPATH_PREPEND"@,
        "WINEDLLOVERRIDES"@ != "WINEDLLPATH_PREPEND"@, "PORTCELLAR_STEAM_CEF_POLICY"@ != "WINEDLLPATH_PREPEND"@,
        "DXMT_CONFIG"@ != "WINEDLLPATH_PREPEND"@, "DXMT_LOG_LEVEL"@ != "WINEDLLPATH_PREPEND"@,
{
    reveal_strlit("SteamAppId");
    reveal_strlit("SteamGameId");
    reveal_strlit("STEAM_GAME_ID");
    reveal_strlit("SteamNoOverlayUI");
    reveal_strlit("DISABLE_VK_LAYER_VALVE_steam_overlay_1");
    reveal_strlit("WINEDLLOVERRIDES");
    reveal_strlit("PORTCELLAR_STEAM_CEF_POLICY");
    reveal_strlit("DXMT_CONFIG");
    reveal_strlit("DXMT_LOG_LEVEL");
    reveal_strlit("WINEDLLPATH_PREPEND");
    reveal_strlit("WINEDLLPATH");
    assert("SteamAppId"@[0] != "WINEDLLPATH"@[0]);
    assert("SteamGameId"@[0] != "WINEDLLPATH"@[0]);
    assert("STEAM_GAME_ID"@[0] != "WINEDLLPATH"@[0]);
    assert("SteamNoOverlayUI"@[0] != "WINEDLLPATH"@[0]);
    assert("DISABLE_VK_LAYER_VALVE_steam_overlay_1"@[0] != "WINEDLLPATH"@[0]);
    assert("PORTCELLAR_STEAM_CEF_POLICY"@[0] != "WINEDLLPATH"@[0]);
    assert("DXMT_CONFIG"@[0] != "WINEDLLPATH"@[0]);
    assert("DXMT_LOG_LEVEL"@[0] != "WINEDLLPATH"@[0]);
    assert("WINEDLLOVERRIDES"@.len() != "WINEDLLPATH"@.len());
    assert("WINEDLLOVERRIDES"@.len() != "WINEDLLPATH_PREPEND"@.len());
}

/// A game that declares XAudio, where an FAudio runtime with distinct DLL directories
/// (none empty, none holding `:`) was found and no earlier source sets a DLL search
/// path (not the profile, the bottle, this process, DXMT's root or a DXVK or VKD3D
/// runtime), starts with `WINEDLLPATH_PREPEND` and `WINEDLLPATH` both equal to those
/// directories joined with `:`, in their order: the first directory foremost.
pub proof fn lemma_faudio_dirs_lead_dll_paths<P: GameProfile>(
    profile: P,
    dxmt_root: Option<Seq<char>>,
    wine_env: Map<Seq<char>, Seq<char>>,
    facts: LaunchEnvFacts,
    dirs: Seq<Seq<char>>,
)
    requires
        profile.spec_dependencies().contains(RuntimeDependency::XAudio),
        opt_dirs(facts.faudio_dll_dirs) == Some(dirs),
        dirs.len() > 0,
        forall|i: int| 0 <= i < dirs.len() ==> (#[trigger] dirs[i]).len() > 0 && !dirs[i].contains(':'),
        forall|i: int, j: int| 0 <= i < j < dirs.len() ==> dirs[i] != dirs[j],
        !map_of(profile.spec_runtime_environment()).dom().contains("WINEDLLPATH_PREPEND"@),
        !map_of(profile.spec_runtime_environment()).dom().contains("WINEDLLPATH"@),
        !wine_env.dom().contains("WINEDLLPATH_PREPEND"@),
        !wine_env.dom().contains("WINEDLLPATH"@),
        !facts.inherited.map().dom().contains("WINEDLLPATH_PREPEND"@),
        !facts.inherited.map().dom().contains("WINEDLLPATH"@),
        profile.spec_graphics_backend() == GraphicsBackend::Dxmt ==> dxmt_root is None,
        profile.spec_graphics_backend() == GraphicsBackend::Dxvk || profile.spec_graphics_backend() == GraphicsBackend::Vkd3d
            ==> facts.graphics_dll_dirs is None,
    ensures
        ({
            let env = launch_env_of(profile, dxmt_root, wine_env, facts);
            &&& env.dom().contains("WINEDLLPATH_PREPEND"@)
            &&& env.dom().contains("WINEDLLPATH"@)
            &&& env["WINEDLLPATH_PREPEND"@] == crate::text::joined_with(dirs, ":"@)
            &&& env["WINEDLLPATH"@] == crate::text::joined_with(dirs, ":"@)
        }),
{
    lemma_gstreamer_keys_differ();
    lemma_dll_path_keys_differ();
    lemma_dirs_prepended_joined(dirs);
    let inherited = facts.inherited.map();
    let backend = profile.spec_graphics_backend();
    let base = map_of(profile.spec_runtime_environment()).union_prefer_right(wine_env);
    let st = if profile.spec_steam_integration() != SteamIntegration::Standalone {
        with_steam_env(base, profile.spec_app_id(), inherited, profile.spec_steam_cef_policy() == SteamCefPolicy::CrossOverCompatible)
    } else {
        base
    };
    let d = if backend == GraphicsBackend::Dxmt { with_dxmt_env(st, profile.spec_dxmt_config(), dxmt_root, inherited) } else { st };
    let g = with_backend_env(d, backend, opt_dirs(facts.graphics_dll_dirs), opt_dir(facts.moltenvk_dir), inherited);
    assert(!base.dom().contains("WINEDLLPATH_PREPEND"@) && !base.dom().contains("WINEDLLPATH"@));
    assert(!st.dom().contains("WINEDLLPATH_PREPEND"@) && !st.dom().contains("WINEDLLPATH"@));
    assert(!d.dom().contains("WINEDLLPATH_PREPEND"@) && !d.dom().contains("WINEDLLPATH"@));
    assert(!g.dom().contains("WINEDLLPATH_PREPEND"@) && !g.dom().contains("WINEDLLPATH"@));
    let a = with_dll_dirs(g, dirs, inherited);
    assert(a["WINEDLLPATH_PREPEND"@] == dirs_prepended(dirs, Seq::empty()));
    assert(a["WINEDLLPATH"@] == dirs_prepended(dirs, Seq::empty()));
}

} // verus!
