//! Game profiles: the runtime policy a game declares and the checks on it.
use vstd::prelude::*;
use crate::paths::{relative_path_ok, replace_char, replace_char_text, is_safe_relative_path};
use crate::strmap::StrMap;
use crate::text::{concat, concat3, has_char, has_char_text, trim, trimmed};

pub mod catalog;
pub mod generic;
pub mod isaac;
pub mod module;

verus! {

/// A file that a profile stages into the game directory.
#[derive(Debug)]
pub struct GameRuntimeArtifact {
    pub id: String,
    pub source_path: String,
    pub target_path: String,
    pub architecture: Option<String>,
}

impl Clone for GameRuntimeArtifact {
    fn clone(&self) -> (r: Self)
        ensures r == *self,
    {
        GameRuntimeArtifact {
            id: self.id.clone(),
            source_path: self.source_path.clone(),
            target_path: self.target_path.clone(),
            architecture: match &self.architecture {
                Some(a) => Some(a.clone()),
                None => None,
            },
        }
    }
}

/// The kinds of binary patch a profile may request.
#[derive(Debug, Clone, Copy, PartialEq, Eq, Structural)]
pub enum GameBinaryPatchKind {
    LargeAddressAware,
}

/// A patch applied to a staged game binary.
#[derive(Debug)]
pub struct GameBinaryPatch {
    pub target_path: String,
    pub kind: GameBinaryPatchKind,
}

impl Clone for GameBinaryPatch {
    fn clone(&self) -> (r: Self)
        ensures r == *self,
    {
        GameBinaryPatch { target_path: self.target_path.clone(), kind: self.kind }
    }
}

/// Whether `s` is blank or holds a NUL character.
pub open spec fn blank_or_nul(s: Seq<char>) -> bool {
    trim(s).len() == 0 || has_char(s, '\0')
}

fn is_blank_or_nul(s: &str) -> (r: bool)
    ensures r == blank_or_nul(s@),
{
    let t = trimmed(s);
    t.as_str().unicode_len() == 0 || has_char_text(s, '\0')
}

/// The verdict on an artifact's metadata: `Ok` or the message of the first failed check.
pub open spec fn artifact_metadata_check(a: GameRuntimeArtifact) -> core::result::Result<(), Seq<char>> {
    if blank_or_nul(a.id@) {
        Err("runtime artifact id must be non-empty and must not contain NUL"@)
    } else if blank_or_nul(a.source_path@) {
        Err("runtime artifact "@ + a.id@ + " source_path must be non-empty and must not contain NUL"@)
    } else if !relative_path_ok(replace_char(a.target_path@, '\\', '/')) {
        Err("runtime artifact "@ + a.id@ + " target_path must be a relative path without '..'"@)
    } else if a.architecture is Some && blank_or_nul(a.architecture->0@) {
        Err("runtime artifact "@ + a.id@ + " architecture must not be empty or contain NUL"@)
    } else {
        Ok(())
    }
}

/// Checks an artifact's id, source, target and architecture.
pub fn validate_runtime_artifact_metadata(artifact: &GameRuntimeArtifact) -> (r: core::result::Result<(), String>)
    ensures
        match r {
            Ok(()) => artifact_metadata_check(*artifact) is Ok,
            Err(m) => artifact_metadata_check(*artifact) == Err::<(), Seq<char>>(m@),
        },
{
    if is_blank_or_nul(artifact.id.as_str()) {
        return Err("runtime artifact id must be non-empty and must not contain NUL".to_owned());
    }
    if is_blank_or_nul(artifact.source_path.as_str()) {
        return Err(concat3("runtime artifact ", artifact.id.as_str(),
            " source_path must be non-empty and must not contain NUL"));
    }
    let normalized = replace_char_text(artifact.target_path.as_str(), '\\', '/');
    if !is_safe_relative_path(normalized.as_str()) {
        return Err(concat3("runtime artifact ", artifact.id.as_str(),
            " target_path must be a relative path without '..'"));
    }
    if let Some(architecture) = &artifact.architecture {
        if is_blank_or_nul(architecture.as_str()) {
            return Err(concat3("runtime artifact ", artifact.id.as_str(),
                " architecture must not be empty or contain NUL"));
        }
    }
    Ok(())
}

/// Whether a binary patch names a safe relative target.
pub open spec fn binary_patch_ok(p: GameBinaryPatch) -> bool {
    relative_path_ok(replace_char(p.target_path@, '\\', '/'))
}

/// Checks that a binary patch's target is a non-empty relative path without `..`.
pub fn validate_binary_patch_metadata(patch: &GameBinaryPatch) -> (r: core::result::Result<(), String>)
    ensures
        r is Ok == binary_patch_ok(*patch),
        r matches Err(m) ==> m@ == "binary patch target_path must be a non-empty relative path without '..'"@,
{
    let normalized = replace_char_text(patch.target_path.as_str(), '\\', '/');
    if !is_safe_relative_path(normalized.as_str()) {
        return Err("binary patch target_path must be a non-empty relative path without '..'".to_owned());
    }
    Ok(())
}

/// Graphics translation layers.
#[derive(Debug, Clone, Copy, PartialEq, Eq, Structural)]
pub enum GraphicsBackend {
    Auto,
    WineD3D,
    Dxmt,
    Dxvk,
    D3dMetal,
    Vkd3d,
    Scgl,
}

/// How a game depends on a Steam client.
#[derive(Debug, Clone, Copy, PartialEq, Eq, Structural)]
pub enum SteamIntegration {
    Required,
    Optional,
    /// No Steam client is involved (the game runs standalone).
    Standalone,
}

/// How the Steam client's embedded browser is run.
#[derive(Debug, Clone, Copy, PartialEq, Eq, Structural)]
pub enum SteamCefPolicy {
    WineDefault,
    CrossOverCompatible,
}

/// Features a game uses that matter for compatibility.
#[derive(Debug, Clone, Copy, PartialEq, Eq, Structural)]
pub enum GameCapability {
    Steamworks,
    Direct3d9,
    Direct3d11,
    Direct3d12,
    OpenGl,
    Vulkan,
    VideoPlayback,
    Audio,
    AntiCheat,
}

/// Redistributable runtimes a game may need in its bottle.
#[derive(Debug, Clone, Copy, PartialEq, Eq, Structural)]
pub enum RuntimeDependency {
    Vcrun,
    Vcrun2022,
    D3dCompiler,
    MediaFoundation,
    OpenAl,
    XAudio,
    TrebuchetMs,
}

/// The name of a graphics backend.
pub open spec fn backend_label(b: GraphicsBackend) -> Seq<char> {
    match b {
        GraphicsBackend::Auto => "Auto"@,
        GraphicsBackend::WineD3D => "WineD3D"@,
        GraphicsBackend::Dxmt => "Dxmt"@,
        GraphicsBackend::Dxvk => "Dxvk"@,
        GraphicsBackend::D3dMetal => "D3dMetal"@,
        GraphicsBackend::Vkd3d => "Vkd3d"@,
        GraphicsBackend::Scgl => "Scgl"@,
    }
}

impl GraphicsBackend {
    /// The backend's name.
    pub fn label(self) -> (r: &'static str)
        ensures r@ == backend_label(self),
    {
        match self {
            GraphicsBackend::Auto => "Auto",
            GraphicsBackend::WineD3D => "WineD3D",
            GraphicsBackend::Dxmt => "Dxmt",
            GraphicsBackend::Dxvk => "Dxvk",
            GraphicsBackend::D3dMetal => "D3dMetal",
            GraphicsBackend::Vkd3d => "Vkd3d",
            GraphicsBackend::Scgl => "Scgl",
        }
    }
}

/// The name of a runtime dependency.
pub open spec fn dependency_label(d: RuntimeDependency) -> Seq<char> {
    match d {
        RuntimeDependency::Vcrun => "Vcrun"@,
        RuntimeDependency::Vcrun2022 => "Vcrun2022"@,
        RuntimeDependency::D3dCompiler => "D3dCompiler"@,
        RuntimeDependency::MediaFoundation => "MediaFoundation"@,
        RuntimeDependency::OpenAl => "OpenAl"@,
        RuntimeDependency::XAudio => "XAudio"@,
        RuntimeDependency::TrebuchetMs => "TrebuchetMs"@,
    }
}

/// The winetricks verb that installs a dependency, where one is known to be safe.
pub open spec fn winetricks_verb_spec(d: RuntimeDependency) -> Option<Seq<char>> {
    match d {
        RuntimeDependency::Vcrun => Some("vcrun2019"@),
        RuntimeDependency::Vcrun2022 => Some("vcrun2022"@),
        RuntimeDependency::D3dCompiler => Some("d3dcompiler_47"@),
        RuntimeDependency::MediaFoundation => None,
        RuntimeDependency::OpenAl => Some("openal"@),
        RuntimeDependency::XAudio => Some("xact"@),
        RuntimeDependency::TrebuchetMs => None,
    }
}

impl RuntimeDependency {
    /// The dependency's name.
    pub fn label(self) -> (r: &'static str)
        ensures r@ == dependency_label(self),
    {
        match self {
            RuntimeDependency::Vcrun => "Vcrun",
            RuntimeDependency::Vcrun2022 => "Vcrun2022",
            RuntimeDependency::D3dCompiler => "D3dCompiler",
            RuntimeDependency::MediaFoundation => "MediaFoundation",
            RuntimeDependency::OpenAl => "OpenAl",
            RuntimeDependency::XAudio => "XAudio",
            RuntimeDependency::TrebuchetMs => "TrebuchetMs",
        }
    }

    /// The winetricks verb for this dependency, if there is a safe generic one.
    pub fn winetricks_verb(self) -> (r: Option<&'static str>)
        ensures
            match r {
                Some(v) => winetricks_verb_spec(self) == Some(v@),
                None => winetricks_verb_spec(self) is None,
            },
    {
        match self {
            RuntimeDependency::Vcrun => Some("vcrun2019"),
            RuntimeDependency::Vcrun2022 => Some("vcrun2022"),
            RuntimeDependency::D3dCompiler => Some("d3dcompiler_47"),
            RuntimeDependency::MediaFoundation => None,
            RuntimeDependency::OpenAl => Some("openal"),
            RuntimeDependency::XAudio => Some("xact"),
            RuntimeDependency::TrebuchetMs => None,
        }
    }
}

/// The declaration order of capabilities, which orders a capability set.
pub open spec fn capability_rank(c: GameCapability) -> int {
    match c {
        GameCapability::Steamworks => 0,
        GameCapability::Direct3d9 => 1,
        GameCapability::Direct3d11 => 2,
        GameCapability::Direct3d12 => 3,
        GameCapability::OpenGl => 4,
        GameCapability::Vulkan => 5,
        GameCapability::VideoPlayback => 6,
        GameCapability::Audio => 7,
        GameCapability::AntiCheat => 8,
    }
}

fn rank_of(c: GameCapability) -> (r: u8)
    ensures r == capability_rank(c),
{
    match c {
        GameCapability::Steamworks => 0,
        GameCapability::Direct3d9 => 1,
        GameCapability::Direct3d11 => 2,
        GameCapability::Direct3d12 => 3,
        GameCapability::OpenGl => 4,
        GameCapability::Vulkan => 5,
        GameCapability::VideoPlayback => 6,
        GameCapability::Audio => 7,
        GameCapability::AntiCheat => 8,
    }
}

/// The capability with declaration index `i`.
pub open spec fn capability_at(i: int) -> GameCapability {
    if i == 0 { GameCapability::Steamworks }
    else if i == 1 { GameCapability::Direct3d9 }
    else if i == 2 { GameCapability::Direct3d11 }
    else if i == 3 { GameCapability::Direct3d12 }
    else if i == 4 { GameCapability::OpenGl }
    else if i == 5 { GameCapability::Vulkan }
    else if i == 6 { GameCapability::VideoPlayback }
    else if i == 7 { GameCapability::Audio }
    else { GameCapability::AntiCheat }
}

fn capability_of(i: usize) -> (r: GameCapability)
    requires i < 9,
    ensures r == capability_at(i as int), capability_rank(r) == i,
{
    if i == 0 { GameCapability::Steamworks }
    else if i == 1 { GameCapability::Direct3d9 }
    else if i == 2 { GameCapability::Direct3d11 }
    else if i == 3 { GameCapability::Direct3d12 }
    else if i == 4 { GameCapability::OpenGl }
    else if i == 5 { GameCapability::Vulkan }
    else if i == 6 { GameCapability::VideoPlayback }
    else if i == 7 { GameCapability::Audio }
    else { GameCapability::AntiCheat }
}

/// The members of `s` among the first `n` capabilities, in declaration order.
pub open spec fn members_upto(s: Set<GameCapability>, n: int) -> Seq<GameCapability>
    decreases n,
{
    if n <= 0 {
        Seq::empty()
    } else if s.contains(capability_at(n - 1)) {
        members_upto(s, n - 1).push(capability_at(n - 1))
    } else {
        members_upto(s, n - 1)
    }
}

/// The members of `s`, in declaration order.
pub open spec fn ordered_members(s: Set<GameCapability>) -> Seq<GameCapability> {
    members_upto(s, 9)
}

/// A set of capabilities; members are listed in declaration order.
#[derive(Debug)]
pub struct CapabilitySet {
    flags: Vec<bool>,
}

impl View for CapabilitySet {
    type V = Set<GameCapability>;

    closed spec fn view(&self) -> Set<GameCapability> {
        Set::new(|c: GameCapability| self.flags@[capability_rank(c)])
    }
}

impl Clone for CapabilitySet {
    fn clone(&self) -> (r: Self)
        ensures r@ == self@,
    {
        proof { use_type_invariant(self); }
        let mut flags: Vec<bool> = Vec::new();
        let mut i: usize = 0;
        while i < self.flags.len()
            invariant
                i <= self.flags.len(),
                flags@ == self.flags@.take(i as int),
            decreases self.flags.len() - i,
        {
            flags.push(self.flags[i]);
            i = i + 1;
            assert(flags@ =~= self.flags@.take(i as int));
        }
        assert(self.flags@.take(i as int) =~= self.flags@);
        let r = CapabilitySet { flags };
        assert(r@ =~= self@);
        r
    }
}

impl CapabilitySet {
    /// One flag per capability.
    #[verifier::type_invariant]
    spec fn inv(self) -> bool {
        self.flags@.len() == 9
    }

    /// The empty set.
    pub fn new() -> (r: Self)
        ensures r@ == Set::<GameCapability>::empty(),
    {
        let mut flags: Vec<bool> = Vec::new();
        let mut i: usize = 0;
        while i < 9
            invariant i <= 9, flags@.len() == i, forall|k: int| 0 <= k < i ==> !flags@[k],
            decreases 9 - i,
        {
            flags.push(false);
            i = i + 1;
        }
        let r = CapabilitySet { flags };
        assert(r@ =~= Set::<GameCapability>::empty());
        r
    }

    /// Whether `c` is a member.
    pub fn contains(&self, c: GameCapability) -> (r: bool)
        ensures r == self@.contains(c),
    {
        proof { use_type_invariant(self); }
        self.flags[rank_of(c) as usize]
    }

    /// Adds `c`.
    pub fn insert(&mut self, c: GameCapability)
        ensures final(self)@ == old(self)@.insert(c),
    {
        proof { use_type_invariant(&*self); }
        let ghost before = self@;
        let rc = rank_of(c) as usize;
        let mut flags: Vec<bool> = Vec::new();
        let mut i: usize = 0;
        while i < 9
            invariant
                i <= 9,
                self.flags@.len() == 9,
                rc < 9,
                flags@.len() == i,
                forall|k: int| 0 <= k < i ==> flags@[k] == (k == rc || self.flags@[k]),
            decreases 9 - i,
        {
            flags.push(i == rc || self.flags[i]);
            i = i + 1;
        }
        self.flags = flags;
        proof {
            assert forall|x: GameCapability| #[trigger] self@.contains(x) == before.insert(c).contains(x) by {
                if x != c { assert(capability_rank(x) != capability_rank(c)); }
            }
        }
        assert(self@ =~= before.insert(c));
    }

    /// The members, in declaration order.
    pub fn members(&self) -> (r: Vec<GameCapability>)
        ensures r@ == ordered_members(self@),
    {
        proof { use_type_invariant(self); }
        let mut out: Vec<GameCapability> = Vec::new();
        let mut i: usize = 0;
        while i < 9
            invariant
                self.flags@.len() == 9,
                i <= 9,
                out@ == members_upto(self@, i as int),
            decreases 9 - i,
        {
            let c = capability_of(i);
            if self.flags[i] {
                out.push(c);
            }
            i = i + 1;
        }
        out
    }
}

/// `Option<String>` viewed as optional text.
pub open spec fn opt_text(o: Option<String>) -> Option<Seq<char>> {
    match o {
        Some(s) => Some(s@),
        None => None,
    }
}

/// `Option<&str>` viewed as optional text.
pub open spec fn opt_str(o: Option<&str>) -> Option<Seq<char>> {
    match o {
        Some(s) => Some(s@),
        None => None,
    }
}

/// A copy of optional text.
pub fn clone_opt(o: &Option<String>) -> (r: Option<String>)
    ensures r == *o,
{
    match o {
        Some(s) => Some(s.clone()),
        None => None,
    }
}

/// Borrows optional owned text as optional text.
pub fn opt_as_str(o: &Option<String>) -> (r: Option<&str>)
    ensures opt_str(r) == opt_text(*o),
{
    match o {
        Some(s) => Some(s.as_str()),
        None => None,
    }
}

/// Owns optional borrowed text.
pub fn opt_to_owned(o: Option<&str>) -> (r: Option<String>)
    ensures opt_text(r) == opt_str(o),
{
    match o {
        Some(s) => Some(s.to_owned()),
        None => None,
    }
}

/// A copy of a list of texts.
pub fn clone_strings(v: &Vec<String>) -> (r: Vec<String>)
    ensures r@ == v@, r.deep_view() == v.deep_view(),
{
    let mut out: Vec<String> = Vec::new();
    let mut i: usize = 0;
    while i < v.len()
        invariant
            i <= v.len(),
            out@ == v@.take(i as int),
        decreases v.len() - i,
    {
        out.push(v[i].clone());
        i = i + 1;
        assert(out@ =~= v@.take(i as int));
    }
    assert(v@.take(i as int) =~= v@);
    assert(out.deep_view() =~= v.deep_view());
    out
}

/// A copy of a list of artifacts.
pub fn clone_artifacts(v: &Vec<GameRuntimeArtifact>) -> (r: Vec<GameRuntimeArtifact>)
    ensures r@ == v@,
{
    let mut out: Vec<GameRuntimeArtifact> = Vec::new();
    let mut i: usize = 0;
    while i < v.len()
        invariant
            i <= v.len(),
            out@ == v@.take(i as int),
        decreases v.len() - i,
    {
        out.push(v[i].clone());
        i = i + 1;
        assert(out@ =~= v@.take(i as int));
    }
    assert(v@.take(i as int) =~= v@);
    out
}

/// A copy of a list of binary patches.
pub fn clone_patches(v: &Vec<GameBinaryPatch>) -> (r: Vec<GameBinaryPatch>)
    ensures r@ == v@,
{
    let mut out: Vec<GameBinaryPatch> = Vec::new();
    let mut i: usize = 0;
    while i < v.len()
        invariant
            i <= v.len(),
            out@ == v@.take(i as int),
        decreases v.len() - i,
    {
        out.push(v[i].clone());
        i = i + 1;
        assert(out@ =~= v@.take(i as int));
    }
    assert(v@.take(i as int) =~= v@);
    out
}

/// A copy of a list of dependencies.
pub fn clone_dependencies(v: &Vec<RuntimeDependency>) -> (r: Vec<RuntimeDependency>)
    ensures r@ == v@,
{
    let mut out: Vec<RuntimeDependency> = Vec::new();
    let mut i: usize = 0;
    while i < v.len()
        invariant
            i <= v.len(),
            out@ == v@.take(i as int),
        decreases v.len() - i,
    {
        out.push(v[i]);
        i = i + 1;
        assert(out@ =~= v@.take(i as int));
    }
    assert(v@.take(i as int) =~= v@);
    out
}

/// Everything a profile declares about how its game should run.
#[derive(Debug)]
pub struct GameRuntimePolicy {
    pub windows_version: String,
    pub wine_engine_path: Option<String>,
    pub graphics_backend: GraphicsBackend,
    pub dxmt_config: Option<String>,
    pub steam_integration: SteamIntegration,
    pub steam_cef_policy: SteamCefPolicy,
    pub launch_arguments: Vec<String>,
    pub runtime_options_path: Option<String>,
    pub runtime_options: StrMap,
    pub environment: StrMap,
    pub runtime_artifacts: Vec<GameRuntimeArtifact>,
    pub binary_patches: Vec<GameBinaryPatch>,
    pub capabilities: CapabilitySet,
    pub dependencies: Vec<RuntimeDependency>,
}

/// What a game profile provides. Each method's result is the matching `spec_`
/// function, so code written against any profile can state what it does.
pub trait GameProfile {
    spec fn spec_app_id(&self) -> Seq<char>;
    spec fn spec_name(&self) -> Seq<char>;
    spec fn spec_bottle_name(&self) -> Option<Seq<char>>;
    spec fn spec_windows_depot_id(&self) -> Option<Seq<char>>;
    spec fn spec_windows_exe(&self) -> Seq<char>;
    spec fn spec_launch_arguments(&self) -> Seq<Seq<char>>;
    spec fn spec_install_dir_hint(&self) -> Seq<char>;
    spec fn spec_windows_install_path_hint(&self) -> Option<Seq<char>>;
    spec fn spec_runtime_profile_version(&self) -> Seq<char>;
    spec fn spec_wine_engine_path_hint(&self) -> Option<Seq<char>>;
    spec fn spec_wine_windows_version(&self) -> Seq<char>;
    spec fn spec_dxmt_config(&self) -> Option<Seq<char>>;
    spec fn spec_savedata_path_marker(&self) -> Option<Seq<char>>;
    spec fn spec_default_documents_subdir(&self) -> Option<Seq<char>>;
    spec fn spec_runtime_options_path_hint(&self) -> Option<Seq<char>>;
    spec fn spec_runtime_options(&self) -> Seq<(Seq<char>, Seq<char>)>;
    spec fn spec_graphics_backend(&self) -> GraphicsBackend;
    spec fn spec_steam_integration(&self) -> SteamIntegration;
    spec fn spec_steam_cef_policy(&self) -> SteamCefPolicy;
    spec fn spec_runtime_environment(&self) -> Seq<(Seq<char>, Seq<char>)>;
    spec fn spec_runtime_artifacts(&self) -> Seq<GameRuntimeArtifact>;
    spec fn spec_binary_patches(&self) -> Seq<GameBinaryPatch>;
    spec fn spec_capabilities(&self) -> Set<GameCapability>;
    spec fn spec_dependencies(&self) -> Seq<RuntimeDependency>;

    fn app_id(&self) -> (r: &str)
        ensures r@ == self.spec_app_id();
    fn name(&self) -> (r: &str)
        ensures r@ == self.spec_name();
    fn bottle_name(&self) -> (r: Option<&str>)
        ensures opt_str(r) == self.spec_bottle_name();
    fn windows_depot_id(&self) -> (r: Option<&str>)
        ensures opt_str(r) == self.spec_windows_depot_id();
    fn windows_exe(&self) -> (r: &str)
        ensures r@ == self.spec_windows_exe();
    fn launch_arguments(&self) -> (r: Vec<String>)
        ensures r.deep_view() == self.spec_launch_arguments();
    fn install_dir_hint(&self) -> (r: &str)
        ensures r@ == self.spec_install_dir_hint();
    fn windows_install_path_hint(&self) -> (r: Option<&str>)
        ensures opt_str(r) == self.spec_windows_install_path_hint();
    fn runtime_profile_version(&self) -> (r: &str)
        ensures r@ == self.spec_runtime_profile_version();
    fn wine_engine_path_hint(&self) -> (r: Option<&str>)
        ensures opt_str(r) == self.spec_wine_engine_path_hint();
    fn wine_windows_version(&self) -> (r: &str)
        ensures r@ == self.spec_wine_windows_version();
    fn dxmt_config(&self) -> (r: Option<&str>)
        ensures opt_str(r) == self.spec_dxmt_config();
    fn savedata_path_marker(&self) -> (r: Option<&str>)
        ensures opt_str(r) == self.spec_savedata_path_marker();
    fn default_documents_subdir(&self) -> (r: Option<&str>)
        ensures opt_str(r) == self.spec_default_documents_subdir();
    fn runtime_options_path_hint(&self) -> (r: Option<&str>)
        ensures opt_str(r) == self.spec_runtime_options_path_hint();
    fn runtime_options(&self) -> (r: StrMap)
        ensures r@ == self.spec_runtime_options();
    fn graphics_backend(&self) -> (r: GraphicsBackend)
        ensures r == self.spec_graphics_backend();
    fn steam_integration(&self) -> (r: SteamIntegration)
        ensures r == self.spec_steam_integration();
    fn steam_cef_policy(&self) -> (r: SteamCefPolicy)
        ensures r == self.spec_steam_cef_policy();
    fn runtime_environment(&self) -> (r: StrMap)
        ensures r@ == self.spec_runtime_environment();
    fn runtime_artifacts(&self) -> (r: Vec<GameRuntimeArtifact>)
        ensures r@ == self.spec_runtime_artifacts();
    fn binary_patches(&self) -> (r: Vec<GameBinaryPatch>)
        ensures r@ == self.spec_binary_patches();
    fn capabilities(&self) -> (r: CapabilitySet)
        ensures r@ == self.spec_capabilities();
    fn dependencies(&self) -> (r: Vec<RuntimeDependency>)
        ensures r@ == self.spec_dependencies();

    /// The profile's declarations gathered into one policy.
    fn runtime_policy(&self) -> (r: GameRuntimePolicy)
        ensures
            r.windows_version@ == self.spec_wine_windows_version(),
            opt_text(r.wine_engine_path) == self.spec_wine_engine_path_hint(),
            r.graphics_backend == self.spec_graphics_backend(),
            opt_text(r.dxmt_config) == self.spec_dxmt_config(),
            r.steam_integration == self.spec_steam_integration(),
            r.steam_cef_policy == self.spec_steam_cef_policy(),
            r.launch_arguments.deep_view() == self.spec_launch_arguments(),
            opt_text(r.runtime_options_path) == self.spec_runtime_options_path_hint(),
            r.runtime_options@ == self.spec_runtime_options(),
            r.environment@ == self.spec_runtime_environment(),
            r.runtime_artifacts@ == self.spec_runtime_artifacts(),
            r.binary_patches@ == self.spec_binary_patches(),
            r.capabilities@ == self.spec_capabilities(),
            r.dependencies@ == self.spec_dependencies(),
    {
        GameRuntimePolicy {
            windows_version: self.wine_windows_version().to_owned(),
            wine_engine_path: opt_to_owned(self.wine_engine_path_hint()),
            graphics_backend: self.graphics_backend(),
            dxmt_config: opt_to_owned(self.dxmt_config()),
            steam_integration: self.steam_integration(),
            steam_cef_policy: self.steam_cef_policy(),
            launch_arguments: self.launch_arguments(),
            runtime_options_path: opt_to_owned(self.runtime_options_path_hint()),
            runtime_options: self.runtime_options(),
            environment: self.runtime_environment(),
            runtime_artifacts: self.runtime_artifacts(),
            binary_patches: self.binary_patches(),
            capabilities: self.capabilities(),
            dependencies: self.dependencies(),
        }
    }
}

} // verus!
