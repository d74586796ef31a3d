//! Profiles described entirely by data, and their document form.
use vstd::prelude::*;
use super::{
    artifact_metadata_check, binary_patch_ok, clone_artifacts, clone_dependencies, clone_opt,
    clone_patches, clone_strings, opt_as_str, opt_str, opt_text, validate_binary_patch_metadata,
    validate_runtime_artifact_metadata, CapabilitySet, GameBinaryPatch, GameCapability,
    GameProfile, GameRuntimeArtifact, GraphicsBackend, RuntimeDependency, SteamCefPolicy,
    SteamIntegration,
};
use crate::error::{PortCellarError, Result};
use crate::paths::replace_char;
use crate::strmap::{map_of, sorted_keys, StrMap};
use crate::text::{
    all_digits, chars_of, concat, concat3, has_char, has_char_text, is_digit_text, lower_char,
    safe_component_spec, safe_component, split_char, trim, trimmed,
};

verus! {

/// The format tag of profile documents.
pub const GENERIC_GAME_PROFILE_FORMAT_VERSION: &'static str = "game-profile-v1";

/// Everything a data-driven profile holds.
pub ghost struct ProfileModel {
    pub app_id: Seq<char>,
    pub name: Seq<char>,
    pub bottle_name: Seq<char>,
    pub windows_exe: Seq<char>,
    pub launch_arguments: Seq<Seq<char>>,
    pub wine_engine_path: Option<Seq<char>>,
    pub windows_depot_id: Option<Seq<char>>,
    pub install_dir_hint: Seq<char>,
    pub windows_install_path: Option<Seq<char>>,
    pub runtime_options_path: Option<Seq<char>>,
    pub runtime_profile_version: Seq<char>,
    pub wine_windows_version: Seq<char>,
    pub dxmt_config: Option<Seq<char>>,
    pub graphics_backend: GraphicsBackend,
    pub steam_integration: SteamIntegration,
    pub steam_cef_policy: SteamCefPolicy,
    pub runtime_options: Seq<(Seq<char>, Seq<char>)>,
    pub runtime_environment: Seq<(Seq<char>, Seq<char>)>,
    pub runtime_artifacts: Seq<GameRuntimeArtifact>,
    pub binary_patches: Seq<GameBinaryPatch>,
    pub capabilities: Set<GameCapability>,
    pub dependencies: Seq<RuntimeDependency>,
}

/// A profile's serializable document form.
#[derive(Debug)]
pub struct GenericGameProfileDocument {
    pub format_version: String,
    pub app_id: String,
    pub name: String,
    pub bottle_name: String,
    pub windows_exe: String,
    pub launch_arguments: Vec<String>,
    pub windows_depot_id: Option<String>,
    pub install_dir_hint: Option<String>,
    pub windows_install_path: Option<String>,
    pub runtime_options_path: Option<String>,
    pub runtime_profile_version: String,
    pub wine_engine_path: Option<String>,
    pub wine_windows_version: String,
    pub graphics_backend: GraphicsBackend,
    pub dxmt_config: Option<String>,
    pub steam_integration: SteamIntegration,
    pub steam_cef_policy: SteamCefPolicy,
    pub runtime_options: StrMap,
    pub runtime_environment: StrMap,
    pub runtime_artifacts: Vec<GameRuntimeArtifact>,
    pub binary_patches: Vec<GameBinaryPatch>,
    pub capabilities: Vec<GameCapability>,
    pub dependencies: Vec<RuntimeDependency>,
}

/// A profile built from data rather than code.
#[derive(Debug)]
pub struct GenericGameProfile {
    app_id: String,
    name: String,
    bottle_name: String,
    windows_exe: String,
    launch_arguments: Vec<String>,
    wine_engine_path: Option<String>,
    windows_depot_id: Option<String>,
    install_dir_hint: String,
    windows_install_path: Option<String>,
    runtime_options_path: Option<String>,
    runtime_profile_version: String,
    wine_windows_version: String,
    dxmt_config: Option<String>,
    graphics_backend: GraphicsBackend,
    steam_integration: SteamIntegration,
    steam_cef_policy: SteamCefPolicy,
    runtime_options: StrMap,
    runtime_environment: StrMap,
    runtime_artifacts: Vec<GameRuntimeArtifact>,
    binary_patches: Vec<GameBinaryPatch>,
    capabilities: CapabilitySet,
    dependencies: Vec<RuntimeDependency>,
}

impl View for GenericGameProfile {
    type V = ProfileModel;

    closed spec fn view(&self) -> ProfileModel {
        ProfileModel {
            app_id: self.app_id@,
            name: self.name@,
            bottle_name: self.bottle_name@,
            windows_exe: self.windows_exe@,
            launch_arguments: self.launch_arguments.deep_view(),
            wine_engine_path: opt_text(self.wine_engine_path),
            windows_depot_id: opt_text(self.windows_depot_id),
            install_dir_hint: self.install_dir_hint@,
            windows_install_path: opt_text(self.windows_install_path),
            runtime_options_path: opt_text(self.runtime_options_path),
            runtime_profile_version: self.runtime_profile_version@,
            wine_windows_version: self.wine_windows_version@,
            dxmt_config: opt_text(self.dxmt_config),
            graphics_backend: self.graphics_backend,
            steam_integration: self.steam_integration,
            steam_cef_policy: self.steam_cef_policy,
            runtime_options: self.runtime_options@,
            runtime_environment: self.runtime_environment@,
            runtime_artifacts: self.runtime_artifacts@,
            binary_patches: self.binary_patches@,
            capabilities: self.capabilities@,
            dependencies: self.dependencies@,
        }
    }
}

impl Clone for GenericGameProfile {
    fn clone(&self) -> (r: Self)
        ensures r@ == self@,
    {
        GenericGameProfile {
            app_id: self.app_id.clone(),
            name: self.name.clone(),
            bottle_name: self.bottle_name.clone(),
            windows_exe: self.windows_exe.clone(),
            launch_arguments: clone_strings(&self.launch_arguments),
            wine_engine_path: clone_opt(&self.wine_engine_path),
            windows_depot_id: clone_opt(&self.windows_depot_id),
            install_dir_hint: self.install_dir_hint.clone(),
            windows_install_path: clone_opt(&self.windows_install_path),
            runtime_options_path: clone_opt(&self.runtime_options_path),
            runtime_profile_version: self.runtime_profile_version.clone(),
            wine_windows_version: self.wine_windows_version.clone(),
            dxmt_config: clone_opt(&self.dxmt_config),
            graphics_backend: self.graphics_backend,
            steam_integration: self.steam_integration,
            steam_cef_policy: self.steam_cef_policy,
            runtime_options: self.runtime_options.clone(),
            runtime_environment: self.runtime_environment.clone(),
            runtime_artifacts: clone_artifacts(&self.runtime_artifacts),
            binary_patches: clone_patches(&self.binary_patches),
            capabilities: self.capabilities.clone(),
            dependencies: clone_dependencies(&self.dependencies),
        }
    }
}

/// The profile that `new` builds.
pub open spec fn new_model(app_id: Seq<char>, name: Seq<char>, windows_exe: Seq<char>) -> ProfileModel {
    ProfileModel {
        app_id,
        name,
        bottle_name: "game-"@ + safe_component_spec(app_id),
        windows_exe,
        launch_arguments: Seq::empty(),
        wine_engine_path: None,
        windows_depot_id: None,
        install_dir_hint: Seq::empty(),
        windows_install_path: None,
        runtime_options_path: None,
        runtime_profile_version: "generic-wine-steam-"@ + app_id,
        wine_windows_version: "win10"@,
        dxmt_config: None,
        graphics_backend: GraphicsBackend::Auto,
        steam_integration: SteamIntegration::Required,
        steam_cef_policy: SteamCefPolicy::WineDefault,
        runtime_options: Seq::empty(),
        runtime_environment: Seq::empty(),
        runtime_artifacts: Seq::empty(),
        binary_patches: Seq::empty(),
        capabilities: Set::empty(),
        dependencies: Seq::empty(),
    }
}

/// `map` after storing `value` under `key`.
pub open spec fn map_stored(map: Seq<(Seq<char>, Seq<char>)>, key: Seq<char>, value: Seq<char>, after: Seq<(Seq<char>, Seq<char>)>) -> bool {
    exists|p: int| 0 <= p <= map.len() && ({
        ||| (p < map.len() && map[p].0 == key && after == map.update(p, (key, value)))
        ||| ((p == map.len() || map[p].0 != key) && after == map.insert(p, (key, value)))
    })
}

impl GenericGameProfile {
    /// A Steam profile for `app_id` with the defaults: bottle `game-<app id>`,
    /// Windows 10, automatic graphics backend and Wine's default Steam browser.
    pub fn new(app_id: &str, name: &str, windows_exe: &str) -> (r: Self)
        ensures r@ == new_model(app_id@, name@, windows_exe@),
    {
        let r = GenericGameProfile {
            runtime_profile_version: concat("generic-wine-steam-", app_id),
            bottle_name: concat("game-", safe_component(app_id).as_str()),
            app_id: app_id.to_owned(),
            name: name.to_owned(),
            windows_exe: windows_exe.to_owned(),
            launch_arguments: Vec::new(),
            wine_engine_path: None,
            windows_depot_id: None,
            install_dir_hint: String::new(),
            windows_install_path: None,
            runtime_options_path: None,
            wine_windows_version: "win10".to_owned(),
            dxmt_config: None,
            graphics_backend: GraphicsBackend::Auto,
            steam_integration: SteamIntegration::Required,
            steam_cef_policy: SteamCefPolicy::WineDefault,
            runtime_options: StrMap::new(),
            runtime_environment: StrMap::new(),
            runtime_artifacts: Vec::new(),
            binary_patches: Vec::new(),
            capabilities: CapabilitySet::new(),
            dependencies: Vec::new(),
        };
        assert(r@.launch_arguments =~= Seq::<Seq<char>>::empty());
        assert(r@.runtime_artifacts =~= Seq::<GameRuntimeArtifact>::empty());
        assert(r@.binary_patches =~= Seq::<GameBinaryPatch>::empty());
        assert(r@.dependencies =~= Seq::<RuntimeDependency>::empty());
        r
    }

    pub fn with_install_dir_hint(self, value: &str) -> (r: Self)
        ensures r@ == (ProfileModel { install_dir_hint: value@, ..self@ }),
    {
        let mut p = self;
        p.install_dir_hint = value.to_owned();
        p
    }

    pub fn with_launch_argument(self, value: &str) -> (r: Self)
        ensures r@ == (ProfileModel { launch_arguments: self@.launch_arguments.push(value@), ..self@ }),
    {
        let mut p = self;
        let ghost before = p.launch_arguments.deep_view();
        p.launch_arguments.push(value.to_owned());
        assert(p.launch_arguments.deep_view() =~= before.push(value@));
        p
    }

    /// Sets the bottle name, mapped onto a single safe path component.
    pub fn with_bottle_name(self, value: &str) -> (r: Self)
        ensures r@ == (ProfileModel { bottle_name: safe_component_spec(value@), ..self@ }),
    {
        let mut p = self;
        p.bottle_name = safe_component(value);
        p
    }

    pub fn with_runtime_profile_version(self, value: &str) -> (r: Self)
        ensures r@ == (ProfileModel { runtime_profile_version: value@, ..self@ }),
    {
        let mut p = self;
        p.runtime_profile_version = value.to_owned();
        p
    }

    pub fn with_wine_engine_path(self, value: &str) -> (r: Self)
        ensures r@ == (ProfileModel { wine_engine_path: Some(value@), ..self@ }),
    {
        let mut p = self;
        p.wine_engine_path = Some(value.to_owned());
        p
    }

    pub fn with_windows_depot_id(self, value: &str) -> (r: Self)
        ensures r@ == (ProfileModel { windows_depot_id: Some(value@), ..self@ }),
    {
        let mut p = self;
        p.windows_depot_id = Some(value.to_owned());
        p
    }

    pub fn with_windows_install_path(self, value: &str) -> (r: Self)
        ensures r@ == (ProfileModel { windows_install_path: Some(value@), ..self@ }),
    {
        let mut p = self;
        p.windows_install_path = Some(value.to_owned());
        p
    }

    pub fn with_runtime_options_path(self, value: &str) -> (r: Self)
        ensures r@ == (ProfileModel { runtime_options_path: Some(value@), ..self@ }),
    {
        let mut p = self;
        p.runtime_options_path = Some(value.to_owned());
        p
    }

    pub fn with_wine_windows_version(self, value: &str) -> (r: Self)
        ensures r@ == (ProfileModel { wine_windows_version: value@, ..self@ }),
    {
        let mut p = self;
        p.wine_windows_version = value.to_owned();
        p
    }

    pub fn with_graphics_backend(self, value: GraphicsBackend) -> (r: Self)
        ensures r@ == (ProfileModel { graphics_backend: value, ..self@ }),
    {
        let mut p = self;
        p.graphics_backend = value;
        p
    }

    /// Sets the DXMT configuration, which selects the DXMT backend.
    pub fn with_dxmt_config(self, value: &str) -> (r: Self)
        ensures r@ == (ProfileModel { dxmt_config: Some(value@), graphics_backend: GraphicsBackend::Dxmt, ..self@ }),
    {
        let mut p = self;
        p.dxmt_config = Some(value.to_owned());
        p.graphics_backend = GraphicsBackend::Dxmt;
        p
    }

    pub fn with_steam_integration(self, value: SteamIntegration) -> (r: Self)
        ensures r@ == (ProfileModel { steam_integration: value, ..self@ }),
    {
        let mut p = self;
        p.steam_integration = value;
        p
    }

    pub fn with_steam_cef_policy(self, value: SteamCefPolicy) -> (r: Self)
        ensures r@ == (ProfileModel { steam_cef_policy: value, ..self@ }),
    {
        let mut p = self;
        p.steam_cef_policy = value;
        p
    }

    /// Stores a runtime option, replacing an earlier value for the same key.
    pub fn with_runtime_option(self, key: &str, value: &str) -> (r: Self)
        ensures
            map_stored(self@.runtime_options, key@, value@, r@.runtime_options),
            map_of(r@.runtime_options) == map_of(self@.runtime_options).insert(key@, value@),
            sorted_keys(r@.runtime_options),
            r@ == (ProfileModel { runtime_options: r@.runtime_options, ..self@ }),
    {
        let mut p = self;
        p.runtime_options.insert(key.to_owned(), value.to_owned());
        p
    }

    /// Stores an environment variable, replacing an earlier value for the same key.
    pub fn with_runtime_environment(self, key: &str, value: &str) -> (r: Self)
        ensures
            map_stored(self@.runtime_environment, key@, value@, r@.runtime_environment),
            map_of(r@.runtime_environment) == map_of(self@.runtime_environment).insert(key@, value@),
            sorted_keys(r@.runtime_environment),
            r@ == (ProfileModel { runtime_environment: r@.runtime_environment, ..self@ }),
    {
        let mut p = self;
        p.runtime_environment.insert(key.to_owned(), value.to_owned());
        p
    }

    pub fn with_runtime_artifact(self, value: GameRuntimeArtifact) -> (r: Self)
        ensures r@ == (ProfileModel { runtime_artifacts: self@.runtime_artifacts.push(value), ..self@ }),
    {
        let mut p = self;
        p.runtime_artifacts.push(value);
        p
    }

    pub fn with_binary_patch(self, value: GameBinaryPatch) -> (r: Self)
        ensures r@ == (ProfileModel { binary_patches: self@.binary_patches.push(value), ..self@ }),
    {
        let mut p = self;
        p.binary_patches.push(value);
        p
    }

    pub fn with_capability(self, capability: GameCapability) -> (r: Self)
        ensures r@ == (ProfileModel { capabilities: self@.capabilities.insert(capability), ..self@ }),
    {
        let mut p = self;
        p.capabilities.insert(capability);
        p
    }

    pub fn with_dependency(self, dependency: RuntimeDependency) -> (r: Self)
        ensures r@ == (ProfileModel { dependencies: self@.dependencies.push(dependency), ..self@ }),
    {
        let mut p = self;
        p.dependencies.push(dependency);
        p
    }
}


// ---------------------------------------------------------------- validation

/// The `/`- or `\`-separated pieces of `v`.
pub open spec fn windows_pieces(v: Seq<char>) -> Seq<Seq<char>> {
    split_char(replace_char(v, '\\', '/'), '/')
}

/// Whether a piece is empty, `.` or `..`.
pub open spec fn bad_piece(p: Seq<char>) -> bool {
    p.len() == 0 || p == seq!['.'] || p == seq!['.', '.']
}

/// Whether `value` names an executable relative to the game directory.
pub open spec fn windows_executable_ok(value: Seq<char>) -> bool {
    let v = trim(value);
    &&& v.len() > 0
    &&& !has_char(v, '\0')
    &&& v[0] != '\\' && v[0] != '/'
    &&& !(v.len() >= 2 && (v[0] as u32) < 128 && v[1] == ':')
    &&& forall|i: int| 0 <= i < windows_pieces(v).len() ==> !bad_piece(#[trigger] windows_pieces(v)[i])
}

/// Whether `value` is an absolute `C:` or `Z:` path that never climbs with `..`.
pub open spec fn windows_absolute_path_ok(value: Seq<char>) -> bool {
    let v = trim(value);
    &&& v.len() >= 3
    &&& (lower_char(v[0]) == 'c' || lower_char(v[0]) == 'z')
    &&& v[1] == ':'
    &&& (v[2] == '\\' || v[2] == '/')
    &&& !has_char(v, '\0')
    &&& forall|i: int| 0 <= i < windows_pieces(v).len() ==> #[trigger] windows_pieces(v)[i] != seq!['.', '.']
}

fn pieces_ok(v: &str, dots_only: bool) -> (r: bool)
    ensures
        dots_only ==> r == forall|i: int| 0 <= i < windows_pieces(v@).len()
            ==> #[trigger] windows_pieces(v@)[i] != seq!['.', '.'],
        !dots_only ==> r == forall|i: int| 0 <= i < windows_pieces(v@).len()
            ==> !bad_piece(#[trigger] windows_pieces(v@)[i]),
{
    let normalized = crate::paths::replace_char_text(v, '\\', '/');
    let parts = crate::text::split_char_text(normalized.as_str(), '/');
    let mut i: usize = 0;
    while i < parts.len()
        invariant
            i <= parts.len(),
            parts.deep_view() == windows_pieces(v@),
            dots_only ==> forall|k: int| 0 <= k < i ==> #[trigger] parts.deep_view()[k] != seq!['.', '.'],
            !dots_only ==> forall|k: int| 0 <= k < i ==> !bad_piece(#[trigger] parts.deep_view()[k]),
        decreases parts.len() - i,
    {
        let c = chars_of(parts[i].as_str());
        assert(c@ == parts.deep_view()[i as int]);
        let is_dot = c.len() == 1 && c[0] == '.';
        let is_dot_dot = c.len() == 2 && c[0] == '.' && c[1] == '.';
        proof {
            if is_dot { assert(c@ =~= seq!['.']); }
            if is_dot_dot { assert(c@ =~= seq!['.', '.']); }
            if c@ == seq!['.'] { assert(is_dot); }
            if c@ == seq!['.', '.'] { assert(is_dot_dot); }
        }
        if is_dot_dot || (!dots_only && (c.len() == 0 || is_dot)) {
            return false;
        }
        i = i + 1;
    }
    true
}

/// Checks that `value` is a relative Windows executable path.
pub fn validate_windows_executable(value: &str) -> (r: Result<()>)
    ensures
        r is Ok == windows_executable_ok(value@),
        r matches Err(e) ==> e.text() == "game profile windows_exe must be a relative Windows executable path"@,
{
    let t = trimmed(value);
    let v = chars_of(t.as_str());
    let ok = v.len() > 0
        && !has_char_text(t.as_str(), '\0')
        && v[0] != '\\' && v[0] != '/'
        && !(v.len() >= 2 && (v[0] as u32) < 128 && v[1] == ':')
        && pieces_ok(t.as_str(), false);
    if !ok {
        return Err(PortCellarError::message(
            "game profile windows_exe must be a relative Windows executable path".to_owned()));
    }
    Ok(())
}

/// The message for an unsafe absolute path in `field`.
pub open spec fn absolute_path_message(field: Seq<char>) -> Seq<char> {
    "game profile "@ + field + " must be a safe absolute Windows path"@
}

/// Checks that `value` is an absolute `C:` or `Z:` Windows path without `..`.
pub fn validate_windows_absolute_path(value: &str, field: &str) -> (r: Result<()>)
    ensures
        r is Ok == windows_absolute_path_ok(value@),
        r matches Err(e) ==> e.text() == absolute_path_message(field@),
{
    let t = trimmed(value);
    let v = chars_of(t.as_str());
    let ok = v.len() >= 3
        && (crate::text::char_lower(v[0]) == 'c' || crate::text::char_lower(v[0]) == 'z')
        && v[1] == ':'
        && (v[2] == '\\' || v[2] == '/')
        && !has_char_text(t.as_str(), '\0')
        && pieces_ok(t.as_str(), true);
    if !ok {
        return Err(PortCellarError::message(concat3("game profile ", field, " must be a safe absolute Windows path")));
    }
    Ok(())
}

/// The first failed check among `artifacts`, in order.
pub open spec fn first_artifact_error(artifacts: Seq<GameRuntimeArtifact>) -> Option<Seq<char>>
    decreases artifacts.len(),
{
    if artifacts.len() == 0 {
        None
    } else {
        match artifact_metadata_check(artifacts[0]) {
            Err(m) => Some(m),
            Ok(()) => first_artifact_error(artifacts.drop_first()),
        }
    }
}

/// Whether some launch argument holds a NUL character.
pub open spec fn some_argument_has_nul(args: Seq<Seq<char>>) -> bool {
    exists|i: int| 0 <= i < args.len() && has_char(#[trigger] args[i], '\0')
}

/// The verdict on a profile document: `Ok` or the message of the first failed check.
pub open spec fn document_check(d: GenericGameProfileDocument) -> core::result::Result<(), Seq<char>> {
    if d.format_version@ != "game-profile-v1"@ {
        Err("unsupported game profile format: "@ + d.format_version@)
    } else if trim(d.app_id@).len() == 0 || trim(d.name@).len() == 0 || trim(d.windows_exe@).len() == 0
        || trim(d.runtime_profile_version@).len() == 0 || trim(d.wine_windows_version@).len() == 0 {
        Err("game profile identity and runtime fields must not be empty"@)
    } else if d.steam_integration != SteamIntegration::Standalone && !all_digits(d.app_id@) {
        Err("Steam game profiles require a numeric app_id"@)
    } else if !windows_executable_ok(d.windows_exe@) {
        Err("game profile windows_exe must be a relative Windows executable path"@)
    } else if some_argument_has_nul(d.launch_arguments.deep_view()) {
        Err("game profile launch_arguments must not contain NUL"@)
    } else if d.runtime_options_path is Some && !windows_absolute_path_ok(d.runtime_options_path->0@) {
        Err(absolute_path_message("runtime_options_path"@))
    } else if d.runtime_options@.len() > 0 && d.runtime_options_path is None {
        Err("game profile runtime_options require runtime_options_path"@)
    } else if safe_component_spec(d.bottle_name@) != d.bottle_name@ {
        Err("game profile bottle_name must be a single safe path component"@)
    } else if d.dxmt_config is Some && d.graphics_backend != GraphicsBackend::Dxmt {
        Err("dxmt_config requires the Dxmt graphics backend"@)
    } else if first_artifact_error(d.runtime_artifacts@) is Some {
        Err(first_artifact_error(d.runtime_artifacts@)->0)
    } else if exists|i: int| 0 <= i < d.binary_patches@.len() && !binary_patch_ok(#[trigger] d.binary_patches@[i]) {
        Err("binary patch target_path must be a non-empty relative path without '..'"@)
    } else {
        Ok(())
    }
}

/// The profile a document describes.
pub open spec fn document_model(d: GenericGameProfileDocument) -> ProfileModel {
    ProfileModel {
        app_id: d.app_id@,
        name: d.name@,
        bottle_name: d.bottle_name@,
        windows_exe: d.windows_exe@,
        launch_arguments: d.launch_arguments.deep_view(),
        wine_engine_path: opt_text(d.wine_engine_path),
        windows_depot_id: opt_text(d.windows_depot_id),
        install_dir_hint: match d.install_dir_hint { Some(h) => h@, None => Seq::empty() },
        windows_install_path: opt_text(d.windows_install_path),
        runtime_options_path: opt_text(d.runtime_options_path),
        runtime_profile_version: d.runtime_profile_version@,
        wine_windows_version: d.wine_windows_version@,
        dxmt_config: opt_text(d.dxmt_config),
        graphics_backend: d.graphics_backend,
        steam_integration: d.steam_integration,
        steam_cef_policy: d.steam_cef_policy,
        runtime_options: d.runtime_options@,
        runtime_environment: d.runtime_environment@,
        runtime_artifacts: d.runtime_artifacts@,
        binary_patches: d.binary_patches@,
        capabilities: d.capabilities@.to_set(),
        dependencies: d.dependencies@,
    }
}

/// Whether `d` is the document form of the profile `m`.
pub open spec fn is_document_of(d: GenericGameProfileDocument, m: ProfileModel) -> bool {
    &&& d.format_version@ == "game-profile-v1"@
    &&& d.app_id@ == m.app_id
    &&& d.name@ == m.name
    &&& d.bottle_name@ == m.bottle_name
    &&& d.windows_exe@ == m.windows_exe
    &&& d.launch_arguments.deep_view() == m.launch_arguments
    &&& opt_text(d.windows_depot_id) == m.windows_depot_id
    &&& opt_text(d.install_dir_hint) == (if m.install_dir_hint.len() == 0 { None } else { Some(m.install_dir_hint) })
    &&& opt_text(d.windows_install_path) == m.windows_install_path
    &&& opt_text(d.runtime_options_path) == m.runtime_options_path
    &&& d.runtime_profile_version@ == m.runtime_profile_version
    &&& opt_text(d.wine_engine_path) == m.wine_engine_path
    &&& d.wine_windows_version@ == m.wine_windows_version
    &&& d.graphics_backend == m.graphics_backend
    &&& opt_text(d.dxmt_config) == m.dxmt_config
    &&& d.steam_integration == m.steam_integration
    &&& d.steam_cef_policy == m.steam_cef_policy
    &&& d.runtime_options@ == m.runtime_options
    &&& d.runtime_environment@ == m.runtime_environment
    &&& d.runtime_artifacts@ == m.runtime_artifacts
    &&& d.binary_patches@ == m.binary_patches
    &&& d.capabilities@ == super::ordered_members(m.capabilities)
    &&& d.dependencies@ == m.dependencies
}

fn argument_has_nul(args: &Vec<String>) -> (r: bool)
    ensures r == some_argument_has_nul(args.deep_view()),
{
    let mut i: usize = 0;
    while i < args.len()
        invariant
            i <= args.len(),
            forall|k: int| 0 <= k < i ==> !has_char(#[trigger] args.deep_view()[k], '\0'),
        decreases args.len() - i,
    {
        if has_char_text(args[i].as_str(), '\0') {
            assert(has_char(args.deep_view()[i as int], '\0'));
            return true;
        }
        i = i + 1;
    }
    false
}

fn check_artifacts(artifacts: &Vec<GameRuntimeArtifact>) -> (r: core::result::Result<(), String>)
    ensures
        match r {
            Ok(()) => first_artifact_error(artifacts@) is None,
            Err(m) => first_artifact_error(artifacts@) == Some(m@),
        },
{
    let mut i: usize = 0;
    assert(artifacts@.skip(0) =~= artifacts@);
    while i < artifacts.len()
        invariant
            i <= artifacts.len(),
            first_artifact_error(artifacts@) == first_artifact_error(artifacts@.skip(i as int)),
        decreases artifacts.len() - i,
    {
        assert(artifacts@.skip(i as int)[0] == artifacts@[i as int]);
        assert(artifacts@.skip(i as int).drop_first() =~= artifacts@.skip(i + 1));
        match validate_runtime_artifact_metadata(&artifacts[i]) {
            Err(m) => { return Err(m); }
            Ok(()) => {}
        }
        i = i + 1;
    }
    Ok(())
}

fn check_patches(patches: &Vec<GameBinaryPatch>) -> (r: bool)
    ensures r == forall|i: int| 0 <= i < patches@.len() ==> binary_patch_ok(#[trigger] patches@[i]),
{
    let mut i: usize = 0;
    while i < patches.len()
        invariant
            i <= patches.len(),
            forall|k: int| 0 <= k < i ==> binary_patch_ok(#[trigger] patches@[k]),
        decreases patches.len() - i,
    {
        if validate_binary_patch_metadata(&patches[i]).is_err() {
            return false;
        }
        i = i + 1;
    }
    true
}

proof fn lemma_members_upto(s: Set<GameCapability>, n: int, c: GameCapability)
    requires 0 <= n <= 9,
    ensures members_upto_contains(s, n, c),
    decreases n,
{
    if n > 0 {
        lemma_members_upto(s, n - 1, c);
        let last = super::capability_at(n - 1);
        assert(super::capability_rank(last) == n - 1);
        assert(super::capability_rank(c) == n - 1 ==> c == last);
        vstd::seq_lib::lemma_seq_contains_after_push(super::members_upto(s, n - 1), last, c);
    }
}

/// `members_upto(s, n)` holds `c` exactly when `c` is in `s` and ranks below `n`.
pub open spec fn members_upto_contains(s: Set<GameCapability>, n: int, c: GameCapability) -> bool {
    super::members_upto(s, n).contains(c) == (s.contains(c) && super::capability_rank(c) < n)
}

/// Listing a capability set in order and collecting the list again gives the set back.
pub proof fn lemma_ordered_members_to_set(s: Set<GameCapability>)
    ensures super::ordered_members(s).to_set() == s,
{
    assert forall|c: GameCapability| #[trigger] super::ordered_members(s).to_set().contains(c) == s.contains(c) by {
        lemma_members_upto(s, 9, c);
    }
    assert(super::ordered_members(s).to_set() =~= s);
}

/// A profile that passes the document checks turns back into a document for the same
/// profile: building a profile from `to_profile_document`'s output gives the profile again.
pub proof fn lemma_document_round_trip(d: GenericGameProfileDocument, m: ProfileModel)
    requires is_document_of(d, m),
    ensures document_model(d) == m,
{
    lemma_ordered_members_to_set(m.capabilities);
    assert(document_model(d).install_dir_hint == m.install_dir_hint);
}

/// Whether capabilities are listed in declaration order without repeats.
pub open spec fn capabilities_in_order(cs: Seq<GameCapability>) -> bool {
    forall|i: int, j: int| 0 <= i < j < cs.len() ==> super::capability_rank(#[trigger] cs[i]) < super::capability_rank(#[trigger] cs[j])
}

proof fn lemma_rank_bounds(c: GameCapability)
    ensures
        0 <= super::capability_rank(c) < 9,
        super::capability_at(super::capability_rank(c)) == c,
{
}

proof fn lemma_members_upto_agree(s1: Set<GameCapability>, s2: Set<GameCapability>, n: int)
    requires
        0 <= n <= 9,
        forall|c: GameCapability| super::capability_rank(c) < n ==> (s1.contains(c) == s2.contains(c)),
    ensures super::members_upto(s1, n) == super::members_upto(s2, n),
    decreases n,
{
    if n > 0 {
        let c = super::capability_at(n - 1);
        assert(super::capability_rank(c) == n - 1);
        lemma_members_upto_agree(s1, s2, n - 1);
    }
}

proof fn lemma_ordered_list_is_members(cs: Seq<GameCapability>, n: int)
    requires
        0 <= n <= 9,
        capabilities_in_order(cs),
        forall|i: int| 0 <= i < cs.len() ==> super::capability_rank(#[trigger] cs[i]) < n,
    ensures super::members_upto(cs.to_set(), n) == cs,
    decreases n,
{
    if n == 0 {
        if cs.len() > 0 {
            lemma_rank_bounds(cs[0]);
        }
        assert(cs =~= Seq::<GameCapability>::empty());
    } else {
        let c = super::capability_at(n - 1);
        assert(super::capability_rank(c) == n - 1);
        if cs.len() > 0 && super::capability_rank(cs.last()) == n - 1 {
            lemma_rank_bounds(cs.last());
            let t = cs.drop_last();
            assert forall|i: int| 0 <= i < t.len() implies super::capability_rank(#[trigger] t[i]) < n - 1 by {
                assert(t[i] == cs[i]);
                assert(cs[cs.len() - 1] == cs.last());
            }
            assert(capabilities_in_order(t)) by {
                assert forall|i: int, j: int| 0 <= i < j < t.len() implies
                    super::capability_rank(#[trigger] t[i]) < super::capability_rank(#[trigger] t[j]) by {
                    assert(t[i] == cs[i] && t[j] == cs[j]);
                }
            }
            lemma_ordered_list_is_members(t, n - 1);
            assert forall|x: GameCapability| super::capability_rank(x) < n - 1 implies
                (cs.to_set().contains(x) == t.to_set().contains(x)) by {
                if cs.contains(x) {
                    let k = choose|k: int| 0 <= k < cs.len() && cs[k] == x;
                    if k == cs.len() - 1 {
                        assert(false);
                    }
                    assert(t[k] == x);
                }
                if t.contains(x) {
                    let k = choose|k: int| 0 <= k < t.len() && t[k] == x;
                    assert(cs[k] == x);
                }
            }
            lemma_members_upto_agree(cs.to_set(), t.to_set(), n - 1);
            assert(cs.contains(c)) by { assert(cs[cs.len() - 1] == c); }
            assert(t.push(c) =~= cs);
        } else {
            if cs.len() > 0 {
                assert forall|i: int| 0 <= i < cs.len() implies super::capability_rank(#[trigger] cs[i]) < n - 1 by {
                    if i < cs.len() - 1 {
                        assert(super::capability_rank(cs[i]) < super::capability_rank(cs[cs.len() - 1]));
                    }
                    assert(cs[cs.len() - 1] == cs.last());
                }
            }
            assert(!cs.contains(c));
            lemma_ordered_list_is_members(cs, n - 1);
        }
    }
}

proof fn lemma_members_upto_in_order(s: Set<GameCapability>, n: int)
    requires 0 <= n <= 9,
    ensures
        capabilities_in_order(super::members_upto(s, n)),
        forall|i: int| 0 <= i < super::members_upto(s, n).len()
            ==> super::capability_rank(#[trigger] super::members_upto(s, n)[i]) < n,
    decreases n,
{
    if n > 0 {
        lemma_members_upto_in_order(s, n - 1);
        let c = super::capability_at(n - 1);
        assert(super::capability_rank(c) == n - 1);
        let p = super::members_upto(s, n - 1);
        if s.contains(c) {
            let q = p.push(c);
            assert forall|i: int| 0 <= i < q.len() implies super::capability_rank(#[trigger] q[i]) < n by {
                if i < p.len() { assert(q[i] == p[i]); }
            }
            assert forall|i: int, j: int| 0 <= i < j < q.len() implies
                super::capability_rank(#[trigger] q[i]) < super::capability_rank(#[trigger] q[j]) by {
                assert(q[i] == p[i]);
                if j < p.len() { assert(q[j] == p[j]); }
            }
        }
    }
}

/// A capability set is listed in declaration order without repeats.
pub proof fn lemma_ordered_members_in_order(s: Set<GameCapability>)
    ensures capabilities_in_order(super::ordered_members(s)),
{
    lemma_members_upto_in_order(s, 9);
}

/// Whether two documents hold the same values, field for field.
pub open spec fn same_document(a: GenericGameProfileDocument, b: GenericGameProfileDocument) -> bool {
    &&& a.format_version@ == b.format_version@
    &&& a.app_id@ == b.app_id@
    &&& a.name@ == b.name@
    &&& a.bottle_name@ == b.bottle_name@
    &&& a.windows_exe@ == b.windows_exe@
    &&& a.launch_arguments.deep_view() == b.launch_arguments.deep_view()
    &&& opt_text(a.windows_depot_id) == opt_text(b.windows_depot_id)
    &&& opt_text(a.install_dir_hint) == opt_text(b.install_dir_hint)
    &&& opt_text(a.windows_install_path) == opt_text(b.windows_install_path)
    &&& opt_text(a.runtime_options_path) == opt_text(b.runtime_options_path)
    &&& a.runtime_profile_version@ == b.runtime_profile_version@
    &&& opt_text(a.wine_engine_path) == opt_text(b.wine_engine_path)
    &&& a.wine_windows_version@ == b.wine_windows_version@
    &&& a.graphics_backend == b.graphics_backend
    &&& opt_text(a.dxmt_config) == opt_text(b.dxmt_config)
    &&& a.steam_integration == b.steam_integration
    &&& a.steam_cef_policy == b.steam_cef_policy
    &&& a.runtime_options@ == b.runtime_options@
    &&& a.runtime_environment@ == b.runtime_environment@
    &&& a.runtime_artifacts@ == b.runtime_artifacts@
    &&& a.binary_patches@ == b.binary_patches@
    &&& a.capabilities@ == b.capabilities@
    &&& a.dependencies@ == b.dependencies@
}

/// A document that passes the checks comes back unchanged from its profile: where
/// `from_profile_document(d)` succeeds, `to_profile_document` of the profile gives
/// `d` again, provided `d` has no empty install directory hint (an empty hint comes
/// back as none) and lists its capabilities in declaration order without repeats (the
/// order a capability set is listed in).
pub proof fn lemma_document_profile_round_trip(d: GenericGameProfileDocument, again: GenericGameProfileDocument)
    requires
        document_check(d) is Ok,
        opt_text(d.install_dir_hint) != Some(Seq::<char>::empty()),
        capabilities_in_order(d.capabilities@),
        is_document_of(again, document_model(d)),
    ensures same_document(d, again),
{
    reveal_strlit("game-profile-v1");
    assert forall|i: int| 0 <= i < d.capabilities@.len() implies
        super::capability_rank(#[trigger] d.capabilities@[i]) < 9 by {
        lemma_rank_bounds(d.capabilities@[i]);
    }
    lemma_ordered_list_is_members(d.capabilities@, 9);
    match d.install_dir_hint {
        Some(h) => { if h@.len() == 0 { assert(h@ =~= Seq::<char>::empty()); } },
        None => {},
    }
}

impl GenericGameProfile {
    /// The profile's document form.
    pub fn to_profile_document(&self) -> (r: GenericGameProfileDocument)
        ensures
            is_document_of(r, self@),
            capabilities_in_order(r.capabilities@),
    {
        proof { lemma_ordered_members_in_order(self@.capabilities); }
        let install_dir_hint = if self.install_dir_hint.as_str().unicode_len() == 0 {
            None
        } else {
            Some(self.install_dir_hint.clone())
        };
        GenericGameProfileDocument {
            format_version: GENERIC_GAME_PROFILE_FORMAT_VERSION.to_owned(),
            app_id: self.app_id.clone(),
            name: self.name.clone(),
            bottle_name: self.bottle_name.clone(),
            windows_exe: self.windows_exe.clone(),
            launch_arguments: clone_strings(&self.launch_arguments),
            windows_depot_id: clone_opt(&self.windows_depot_id),
            install_dir_hint,
            windows_install_path: clone_opt(&self.windows_install_path),
            runtime_options_path: clone_opt(&self.runtime_options_path),
            runtime_profile_version: self.runtime_profile_version.clone(),
            wine_engine_path: clone_opt(&self.wine_engine_path),
            wine_windows_version: self.wine_windows_version.clone(),
            graphics_backend: self.graphics_backend,
            dxmt_config: clone_opt(&self.dxmt_config),
            steam_integration: self.steam_integration,
            steam_cef_policy: self.steam_cef_policy,
            runtime_options: self.runtime_options.clone(),
            runtime_environment: self.runtime_environment.clone(),
            runtime_artifacts: clone_artifacts(&self.runtime_artifacts),
            binary_patches: clone_patches(&self.binary_patches),
            capabilities: self.capabilities.members(),
            dependencies: clone_dependencies(&self.dependencies),
        }
    }

    /// Builds a profile from its document after checking it: the format, non-empty
    /// identity fields, a numeric app id for Steam profiles, a relative executable,
    /// NUL-free arguments, a safe options path, a safe bottle name, DXMT settings only
    /// with the DXMT backend, and well-formed artifacts and patches.
    pub fn from_profile_document(document: GenericGameProfileDocument) -> (r: Result<Self>)
        ensures
            match r {
                Ok(p) => document_check(document) is Ok && p@ == document_model(document),
                Err(e) => document_check(document) == Err::<(), Seq<char>>(e.text()),
            },
    {
        let d = document;
        proof { reveal_strlit("game-profile-v1"); }
        if d.format_version != GENERIC_GAME_PROFILE_FORMAT_VERSION.to_owned() {
            return Err(PortCellarError::message(concat("unsupported game profile format: ", d.format_version.as_str())));
        }
        if trimmed(d.app_id.as_str()).as_str().unicode_len() == 0
            || trimmed(d.name.as_str()).as_str().unicode_len() == 0
            || trimmed(d.windows_exe.as_str()).as_str().unicode_len() == 0
            || trimmed(d.runtime_profile_version.as_str()).as_str().unicode_len() == 0
            || trimmed(d.wine_windows_version.as_str()).as_str().unicode_len() == 0
        {
            return Err(PortCellarError::message("game profile identity and runtime fields must not be empty".to_owned()));
        }
        if d.steam_integration != SteamIntegration::Standalone && !is_digit_text(d.app_id.as_str()) {
            return Err(PortCellarError::message("Steam game profiles require a numeric app_id".to_owned()));
        }
        validate_windows_executable(d.windows_exe.as_str())?;
        if argument_has_nul(&d.launch_arguments) {
            return Err(PortCellarError::message("game profile launch_arguments must not contain NUL".to_owned()));
        }
        if let Some(path) = &d.runtime_options_path {
            let checked = validate_windows_absolute_path(path.as_str(), "runtime_options_path");
            proof { reveal_strlit("runtime_options_path"); }
            checked?;
        }
        if !d.runtime_options.is_empty() && d.runtime_options_path.is_none() {
            return Err(PortCellarError::message("game profile runtime_options require runtime_options_path".to_owned()));
        }
        if safe_component(d.bottle_name.as_str()) != d.bottle_name {
            return Err(PortCellarError::message("game profile bottle_name must be a single safe path component".to_owned()));
        }
        if d.dxmt_config.is_some() && d.graphics_backend != GraphicsBackend::Dxmt {
            return Err(PortCellarError::message("dxmt_config requires the Dxmt graphics backend".to_owned()));
        }
        match check_artifacts(&d.runtime_artifacts) {
            Err(m) => { return Err(PortCellarError::message(m)); }
            Ok(()) => {}
        }
        if !check_patches(&d.binary_patches) {
            return Err(PortCellarError::message(
                "binary patch target_path must be a non-empty relative path without '..'".to_owned()));
        }

        let mut capabilities = CapabilitySet::new();
        let mut i: usize = 0;
        while i < d.capabilities.len()
            invariant
                i <= d.capabilities.len(),
                capabilities@ == d.capabilities@.take(i as int).to_set(),
            decreases d.capabilities.len() - i,
        {
            capabilities.insert(d.capabilities[i]);
            proof {
                assert(d.capabilities@.take(i + 1) =~= d.capabilities@.take(i as int).push(d.capabilities@[i as int]));
                d.capabilities@.take(i as int).lemma_push_to_set_commute(d.capabilities@[i as int]);
            }
            i = i + 1;
        }
        assert(d.capabilities@.take(i as int) =~= d.capabilities@);
        let install_dir_hint = match d.install_dir_hint {
            Some(h) => h,
            None => String::new(),
        };
        Ok(GenericGameProfile {
            app_id: d.app_id,
            name: d.name,
            bottle_name: d.bottle_name,
            windows_exe: d.windows_exe,
            launch_arguments: d.launch_arguments,
            wine_engine_path: d.wine_engine_path,
            windows_depot_id: d.windows_depot_id,
            install_dir_hint,
            windows_install_path: d.windows_install_path,
            runtime_options_path: d.runtime_options_path,
            runtime_profile_version: d.runtime_profile_version,
            wine_windows_version: d.wine_windows_version,
            dxmt_config: d.dxmt_config,
            graphics_backend: d.graphics_backend,
            steam_integration: d.steam_integration,
            steam_cef_policy: d.steam_cef_policy,
            runtime_options: d.runtime_options,
            runtime_environment: d.runtime_environment,
            runtime_artifacts: d.runtime_artifacts,
            binary_patches: d.binary_patches,
            capabilities,
            dependencies: d.dependencies,
        })
    }
}

impl GameProfile for GenericGameProfile {
    open spec fn spec_app_id(&self) -> Seq<char> { self@.app_id }
    open spec fn spec_name(&self) -> Seq<char> { self@.name }
    open spec fn spec_bottle_name(&self) -> Option<Seq<char>> { Some(self@.bottle_name) }
    open spec fn spec_windows_depot_id(&self) -> Option<Seq<char>> { self@.windows_depot_id }
    open spec fn spec_windows_exe(&self) -> Seq<char> { self@.windows_exe }
    open spec fn spec_launch_arguments(&self) -> Seq<Seq<char>> { self@.launch_arguments }
    open spec fn spec_install_dir_hint(&self) -> Seq<char> { self@.install_dir_hint }
    open spec fn spec_windows_install_path_hint(&self) -> Option<Seq<char>> { self@.windows_install_path }
    open spec fn spec_runtime_profile_version(&self) -> Seq<char> { self@.runtime_profile_version }
    open spec fn spec_wine_engine_path_hint(&self) -> Option<Seq<char>> { self@.wine_engine_path }
    open spec fn spec_wine_windows_version(&self) -> Seq<char> { self@.wine_windows_version }
    open spec fn spec_dxmt_config(&self) -> Option<Seq<char>> { self@.dxmt_config }
    open spec fn spec_savedata_path_marker(&self) -> Option<Seq<char>> { None }
    open spec fn spec_default_documents_subdir(&self) -> Option<Seq<char>> { None }
    open spec fn spec_runtime_options_path_hint(&self) -> Option<Seq<char>> { self@.runtime_options_path }
    open spec fn spec_runtime_options(&self) -> Seq<(Seq<char>, Seq<char>)> { self@.runtime_options }
    open spec fn spec_graphics_backend(&self) -> GraphicsBackend { self@.graphics_backend }
    open spec fn spec_steam_integration(&self) -> SteamIntegration { self@.steam_integration }
    open spec fn spec_steam_cef_policy(&self) -> SteamCefPolicy { self@.steam_cef_policy }
    open spec fn spec_runtime_environment(&self) -> Seq<(Seq<char>, Seq<char>)> { self@.runtime_environment }
    open spec fn spec_runtime_artifacts(&self) -> Seq<GameRuntimeArtifact> { self@.runtime_artifacts }
    open spec fn spec_binary_patches(&self) -> Seq<GameBinaryPatch> { self@.binary_patches }
    open spec fn spec_capabilities(&self) -> Set<GameCapability> { self@.capabilities }
    open spec fn spec_dependencies(&self) -> Seq<RuntimeDependency> { self@.dependencies }

    fn app_id(&self) -> (r: &str) { self.app_id.as_str() }
    fn name(&self) -> (r: &str) { self.name.as_str() }
    fn bottle_name(&self) -> (r: Option<&str>) { Some(self.bottle_name.as_str()) }
    fn windows_depot_id(&self) -> (r: Option<&str>) { opt_as_str(&self.windows_depot_id) }
    fn windows_exe(&self) -> (r: &str) { self.windows_exe.as_str() }
    fn launch_arguments(&self) -> (r: Vec<String>) { clone_strings(&self.launch_arguments) }
    fn install_dir_hint(&self) -> (r: &str) { self.install_dir_hint.as_str() }
    fn windows_install_path_hint(&self) -> (r: Option<&str>) { opt_as_str(&self.windows_install_path) }
    fn runtime_profile_version(&self) -> (r: &str) { self.runtime_profile_version.as_str() }
    fn wine_engine_path_hint(&self) -> (r: Option<&str>) { opt_as_str(&self.wine_engine_path) }
    fn wine_windows_version(&self) -> (r: &str) { self.wine_windows_version.as_str() }
    fn dxmt_config(&self) -> (r: Option<&str>) { opt_as_str(&self.dxmt_config) }
    fn savedata_path_marker(&self) -> (r: Option<&str>) { None }
    fn default_documents_subdir(&self) -> (r: Option<&str>) { None }
    fn runtime_options_path_hint(&self) -> (r: Option<&str>) { opt_as_str(&self.runtime_options_path) }
    fn runtime_options(&self) -> (r: StrMap) { self.runtime_options.clone() }
    fn graphics_backend(&self) -> (r: GraphicsBackend) { self.graphics_backend }
    fn steam_integration(&self) -> (r: SteamIntegration) { self.steam_integration }
    fn steam_cef_policy(&self) -> (r: SteamCefPolicy) { self.steam_cef_policy }
    fn runtime_environment(&self) -> (r: StrMap) { self.runtime_environment.clone() }
    fn runtime_artifacts(&self) -> (r: Vec<GameRuntimeArtifact>) { clone_artifacts(&self.runtime_artifacts) }
    fn binary_patches(&self) -> (r: Vec<GameBinaryPatch>) { clone_patches(&self.binary_patches) }
    fn capabilities(&self) -> (r: CapabilitySet) { self.capabilities.clone() }
    fn dependencies(&self) -> (r: Vec<RuntimeDependency>) { clone_dependencies(&self.dependencies) }
}

/// The keys of a module profile's TOML table: its own, and those of each record of
/// `runtime_artifacts` and of `binary_patches` that is a table, each in table order.
#[derive(Debug)]
pub struct ModuleProfileKeys {
    pub top: Vec<String>,
    pub artifact_records: Vec<Vec<String>>,
    pub patch_records: Vec<Vec<String>>,
}

/// The fields a public module profile may have.
pub open spec fn module_profile_fields() -> Seq<Seq<char>> {
    seq!["format_version"@, "app_id"@, "name"@, "bottle_name"@, "windows_exe"@, "launch_arguments"@,
        "windows_depot_id"@, "install_dir_hint"@, "windows_install_path"@, "runtime_options_path"@,
        "runtime_profile_version"@, "wine_engine_path"@, "wine_windows_version"@, "graphics_backend"@,
        "dxmt_config"@, "steam_integration"@, "steam_cef_policy"@, "runtime_options"@, "runtime_environment"@,
        "runtime_artifacts"@, "binary_patches"@, "capabilities"@, "dependencies"@]
}

/// The fields a runtime artifact record may have.
pub open spec fn artifact_record_fields() -> Seq<Seq<char>> {
    seq!["id"@, "source_path"@, "target_path"@, "architecture"@]
}

/// The fields a binary patch record may have.
pub open spec fn patch_record_fields() -> Seq<Seq<char>> {
    seq!["target_path"@, "kind"@]
}

/// The first of `keys` that `allowed` does not hold.
pub open spec fn first_unknown(keys: Seq<Seq<char>>, allowed: Seq<Seq<char>>) -> Option<Seq<char>>
    decreases keys.len(),
{
    if keys.len() == 0 {
        None
    } else if !allowed.contains(keys[0]) {
        Some(keys[0])
    } else {
        first_unknown(keys.drop_first(), allowed)
    }
}

/// The first unknown key of the first record that has one.
pub open spec fn first_unknown_in(records: Seq<Seq<Seq<char>>>, allowed: Seq<Seq<char>>) -> Option<Seq<char>>
    decreases records.len(),
{
    if records.len() == 0 {
        None
    } else {
        match first_unknown(records[0], allowed) {
            Some(k) => Some(k),
            None => first_unknown_in(records.drop_first(), allowed),
        }
    }
}

/// The views of a list of key lists.
pub open spec fn key_lists(v: Seq<Vec<String>>) -> Seq<Seq<Seq<char>>> {
    v.map_values(|k: Vec<String>| k.deep_view())
}

/// The error a public module profile with these keys is refused with, if any: an
/// unknown field, first of the profile and then of its records; then a parse error;
/// then host paths or runtime artifacts.
pub open spec fn module_keys_error(
    top: Seq<Seq<char>>,
    artifact_records: Seq<Seq<Seq<char>>>,
    patch_records: Seq<Seq<Seq<char>>>,
    parsed: Result<GenericGameProfile>,
) -> Option<Seq<char>> {
    let unknown = match first_unknown(top, module_profile_fields()) {
        Some(k) => Some(k),
        None => match first_unknown_in(artifact_records, artifact_record_fields()) {
            Some(k) => Some(k),
            None => first_unknown_in(patch_records, patch_record_fields()),
        },
    };
    match unknown {
        Some(k) => Some("unknown module profile field: "@ + k),
        None => match parsed {
            Err(e) => Some(e.text()),
            Ok(p) => if top.contains("windows_install_path"@)
                || top.contains("wine_engine_path"@) || p@.runtime_artifacts.len() > 0 {
                Some("public module profiles must not contain host paths or runtime artifacts"@)
            } else {
                None
            },
        },
    }
}

/// The error a public module profile with `keys` is refused with, if any.
pub open spec fn module_profile_error(keys: ModuleProfileKeys, parsed: Result<GenericGameProfile>) -> Option<Seq<char>> {
    module_keys_error(keys.top.deep_view(), key_lists(keys.artifact_records@), key_lists(keys.patch_records@), parsed)
}

/// What `toml::from_str::<toml::Table>` reads from a module profile's text, given
/// as the keys of the table, and the keys of each record of `runtime_artifacts` and
/// of `binary_patches` that is a table; none where the text is no TOML table.
pub uninterp spec fn toml_table_keys(text: Seq<char>) -> Option<(Seq<Seq<char>>, Seq<Seq<Seq<char>>>, Seq<Seq<Seq<char>>>)>;

/// Parses `text` with `toml::from_str::<toml::Table>` and reads the keys of the
/// table and of the table records of `runtime_artifacts` and `binary_patches`, in
/// the table's order. The contract says only that these are the keys the `toml`
/// crate reads from the text (named, not written out), and that a parse error is
/// reported as `invalid module profile: ` followed by `toml`'s message, which is not
/// stated.
#[verifier::external_body]
fn module_profile_keys(text: &str) -> (r: Result<ModuleProfileKeys>)
    ensures
        match r {
            Ok(k) => toml_table_keys(text@)
                == Some((k.top.deep_view(), key_lists(k.artifact_records@), key_lists(k.patch_records@))),
            Err(e) => toml_table_keys(text@) is None && crate::text::starts_with(e.text(), "invalid module profile: "@),
        },
{
    let table: toml::Table = match toml::from_str(text) {
        Ok(t) => t,
        Err(e) => return Err(PortCellarError::message(format!("invalid module profile: {e}"))),
    };
    let records = |field: &str| -> Vec<Vec<String>> {
        table.get(field).and_then(toml::Value::as_array).map(|a| {
            a.iter().filter_map(toml::Value::as_table).map(|t| t.keys().cloned().collect()).collect()
        }).unwrap_or_default()
    };
    let (artifact_records, patch_records) = (records("runtime_artifacts"), records("binary_patches"));
    Ok(ModuleProfileKeys { top: table.keys().cloned().collect(), artifact_records, patch_records })
}

fn unknown_key(keys: &Vec<String>, allowed: &Vec<&str>) -> (r: Option<String>)
    ensures opt_text(r) == first_unknown(keys.deep_view(), allowed@.map_values(|a: &str| a@)),
{
    let ghost av = allowed@.map_values(|a: &str| a@);
    let mut i: usize = 0;
    assert(keys.deep_view().skip(0) =~= keys.deep_view());
    while i < keys.len()
        invariant
            i <= keys.len(),
            av == allowed@.map_values(|a: &str| a@),
            first_unknown(keys.deep_view(), av) == first_unknown(keys.deep_view().skip(i as int), av),
        decreases keys.len() - i,
    {
        let mut known = false;
        let mut j: usize = 0;
        while j < allowed.len()
            invariant
                j <= allowed.len(),
                i < keys.len(),
                av == allowed@.map_values(|a: &str| a@),
                known == exists|k: int| 0 <= k < j && av[k] == keys.deep_view()[i as int],
            decreases allowed.len() - j,
        {
            if crate::text::same_text(allowed[j], keys[i].as_str()) {
                assert(av[j as int] == keys.deep_view()[i as int]);
                known = true;
            }
            j = j + 1;
        }
        assert(keys.deep_view().skip(i as int)[0] == keys.deep_view()[i as int]);
        assert(keys.deep_view().skip(i as int).drop_first() =~= keys.deep_view().skip(i + 1));
        if !known {
            assert(!av.contains(keys.deep_view()[i as int]));
            return Some(keys[i].clone());
        }
        i = i + 1;
    }
    assert(keys.deep_view().skip(i as int) =~= Seq::<Seq<char>>::empty());
    None
}

fn unknown_in_records(records: &Vec<Vec<String>>, allowed: &Vec<&str>) -> (r: Option<String>)
    ensures opt_text(r) == first_unknown_in(key_lists(records@), allowed@.map_values(|a: &str| a@)),
{
    let ghost av = allowed@.map_values(|a: &str| a@);
    let ghost kl = key_lists(records@);
    let mut i: usize = 0;
    assert(kl.skip(0) =~= kl);
    while i < records.len()
        invariant
            i <= records.len(),
            av == allowed@.map_values(|a: &str| a@),
            kl == key_lists(records@),
            first_unknown_in(kl, av) == first_unknown_in(kl.skip(i as int), av),
        decreases records.len() - i,
    {
        assert(kl.skip(i as int)[0] == records@[i as int].deep_view());
        assert(kl.skip(i as int).drop_first() =~= kl.skip(i + 1));
        match unknown_key(&records[i], allowed) {
            Some(k) => { return Some(k); }
            None => {}
        }
        i = i + 1;
    }
    assert(kl.skip(i as int) =~= Seq::<Seq<Seq<char>>>::empty());
    None
}

fn names(list: &[&'static str]) -> (r: Vec<&'static str>)
    ensures r@ == list@,
{
    let mut v: Vec<&'static str> = Vec::new();
    let mut i: usize = 0;
    while i < list.len()
        invariant i <= list.len(), v@ == list@.take(i as int),
        decreases list.len() - i,
    {
        v.push(list[i]);
        assert(v@ =~= list@.take(i + 1));
        i = i + 1;
    }
    assert(list@.take(i as int) =~= list@);
    v
}

/// Checks a public module profile of the TOML text `text`: it must be a TOML table,
/// with no unknown fields, no host paths and no runtime artifacts. `parsed` is what
/// reading the same text as a profile document gave.
pub fn public_module_profile(text: &str, parsed: Result<GenericGameProfile>) -> (r: Result<GenericGameProfile>)
    ensures
        match toml_table_keys(text@) {
            None => r matches Err(e) && crate::text::starts_with(e.text(), "invalid module profile: "@),
            Some((top, artifact_records, patch_records)) => match r {
                Ok(p) => module_keys_error(top, artifact_records, patch_records, parsed) is None
                    && parsed == Ok::<GenericGameProfile, PortCellarError>(p),
                Err(e) => module_keys_error(top, artifact_records, patch_records, parsed) == Some(e.text()),
            },
        },
{
    match module_profile_keys(text) {
        Err(e) => Err(e),
        Ok(keys) => check_module_profile_keys(&keys, parsed),
    }
}

/// Checks a public module profile with the keys `keys`: no unknown fields, no host
/// paths and no runtime artifacts. `parsed` is what reading the same text as a
/// profile document gave.
pub fn check_module_profile_keys(keys: &ModuleProfileKeys, parsed: Result<GenericGameProfile>) -> (r: Result<GenericGameProfile>)
    ensures
        match r {
            Ok(p) => module_profile_error(*keys, parsed) is None && parsed == Ok::<GenericGameProfile, PortCellarError>(p),
            Err(e) => module_profile_error(*keys, parsed) == Some(e.text()),
        },
{
    let top = names(&["format_version", "app_id", "name", "bottle_name", "windows_exe", "launch_arguments",
        "windows_depot_id", "install_dir_hint", "windows_install_path", "runtime_options_path",
        "runtime_profile_version", "wine_engine_path", "wine_windows_version", "graphics_backend",
        "dxmt_config", "steam_integration", "steam_cef_policy", "runtime_options", "runtime_environment",
        "runtime_artifacts", "binary_patches", "capabilities", "dependencies"]);
    assert(top@.map_values(|a: &str| a@) =~= module_profile_fields());
    let artifact = names(&["id", "source_path", "target_path", "architecture"]);
    assert(artifact@.map_values(|a: &str| a@) =~= artifact_record_fields());
    let patch = names(&["target_path", "kind"]);
    assert(patch@.map_values(|a: &str| a@) =~= patch_record_fields());
    let unknown = match unknown_key(&keys.top, &top) {
        Some(k) => Some(k),
        None => match unknown_in_records(&keys.artifact_records, &artifact) {
            Some(k) => Some(k),
            None => unknown_in_records(&keys.patch_records, &patch),
        },
    };
    if let Some(k) = unknown {
        return Err(PortCellarError::message(concat("unknown module profile field: ", k.as_str())));
    }
    let profile = match parsed {
        Ok(p) => p,
        Err(e) => { return Err(e); }
    };
    let host = crate::analyze::discovery::has_text(&keys.top, "windows_install_path")
        || crate::analyze::discovery::has_text(&keys.top, "wine_engine_path")
        || profile.runtime_artifacts.len() > 0;
    if host {
        return Err(PortCellarError::message(
            "public module profiles must not contain host paths or runtime artifacts".to_owned()));
    }
    Ok(profile)
}

} // verus!
