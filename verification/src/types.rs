//! The values that runtime inspection, planning and evidence pass around.
use vstd::prelude::*;
use crate::games::{GameCapability, GraphicsBackend, RuntimeDependency, SteamIntegration};
use crate::strmap::StrMap;

verus! {

/// A command to run: program, arguments, extra environment and working directory.
#[derive(Debug)]
pub struct CommandPlan {
    pub program: String,
    pub args: Vec<String>,
    pub envs: StrMap,
    pub current_dir: Option<String>,
}

/// The families of engine that can run a game.
#[derive(Debug, Clone, Copy, PartialEq, Eq, Structural)]
pub enum EngineKind {
    NativeSteam,
    NativeApp,
    Wine,
    CrossOver,
    GamePortingToolkit,
}

/// The name of an engine kind.
pub open spec fn engine_label(k: EngineKind) -> Seq<char> {
    match k {
        EngineKind::NativeSteam => "NativeSteam"@,
        EngineKind::NativeApp => "NativeApp"@,
        EngineKind::Wine => "Wine"@,
        EngineKind::CrossOver => "CrossOver"@,
        EngineKind::GamePortingToolkit => "GamePortingToolkit"@,
    }
}

impl EngineKind {
    /// The engine kind's name.
    pub fn label(self) -> (r: &'static str)
        ensures r@ == engine_label(self),
    {
        match self {
            EngineKind::NativeSteam => "NativeSteam",
            EngineKind::NativeApp => "NativeApp",
            EngineKind::Wine => "Wine",
            EngineKind::CrossOver => "CrossOver",
            EngineKind::GamePortingToolkit => "GamePortingToolkit",
        }
    }
}

/// How far an engine and backend pairing is trusted.
#[derive(Debug, Clone, Copy, PartialEq, Eq, Structural)]
pub enum CompatibilityStatus {
    Verified,
    Candidate,
    ExternalDependency,
    Unsupported,
}

/// The name of a compatibility status.
pub open spec fn status_label(s: CompatibilityStatus) -> Seq<char> {
    match s {
        CompatibilityStatus::Verified => "Verified"@,
        CompatibilityStatus::Candidate => "Candidate"@,
        CompatibilityStatus::ExternalDependency => "ExternalDependency"@,
        CompatibilityStatus::Unsupported => "Unsupported"@,
    }
}

impl CompatibilityStatus {
    /// The status's name.
    pub fn label(self) -> (r: &'static str)
        ensures r@ == status_label(self),
    {
        match self {
            CompatibilityStatus::Verified => "Verified",
            CompatibilityStatus::Candidate => "Candidate",
            CompatibilityStatus::ExternalDependency => "ExternalDependency",
            CompatibilityStatus::Unsupported => "Unsupported",
        }
    }
}

/// The verdict on one engine and graphics backend pairing.
#[derive(Debug, Clone, Copy)]
pub struct EngineBackendCompatibility {
    pub engine: EngineKind,
    pub backend: GraphicsBackend,
    pub status: CompatibilityStatus,
    pub rationale: &'static str,
}

/// Components an engine installation may ship.
#[derive(Debug, Clone, Copy, PartialEq, Eq, Structural)]
pub enum RuntimeComponent {
    WineD3d,
    WineVulkan,
    WineGstreamer,
    WineCoreAudio,
    FAudio,
    Vkd3d,
    Dxvk,
    MoltenVk,
    GstreamerHost,
    D3dMetal,
    Dxmt,
}

/// The ways a game can be started.
#[derive(Debug, Clone, Copy, PartialEq, Eq, Structural)]
pub enum LaunchMode {
    Steam,
    Native,
    Direct,
    WineSteam,
    WineDirect,
}

/// The name of a launch mode.
pub open spec fn launch_mode_label(m: LaunchMode) -> Seq<char> {
    match m {
        LaunchMode::Steam => "Steam"@,
        LaunchMode::Native => "Native"@,
        LaunchMode::Direct => "Direct"@,
        LaunchMode::WineSteam => "WineSteam"@,
        LaunchMode::WineDirect => "WineDirect"@,
    }
}

impl LaunchMode {
    /// The launch mode's name.
    pub fn label(self) -> (r: &'static str)
        ensures r@ == launch_mode_label(self),
    {
        match self {
            LaunchMode::Steam => "Steam",
            LaunchMode::Native => "Native",
            LaunchMode::Direct => "Direct",
            LaunchMode::WineSteam => "WineSteam",
            LaunchMode::WineDirect => "WineDirect",
        }
    }
}

/// Whether a dependency can be installed by a plan.
#[derive(Debug, Clone, Copy, PartialEq, Eq, Structural)]
pub enum RuntimeDependencyStatus {
    Planned,
    Manual,
    ToolMissing,
}

/// The name of a dependency status.
pub open spec fn dependency_status_label(s: RuntimeDependencyStatus) -> Seq<char> {
    match s {
        RuntimeDependencyStatus::Planned => "Planned"@,
        RuntimeDependencyStatus::Manual => "Manual"@,
        RuntimeDependencyStatus::ToolMissing => "ToolMissing"@,
    }
}

impl RuntimeDependencyStatus {
    /// The status's name.
    pub fn label(self) -> (r: &'static str)
        ensures r@ == dependency_status_label(self),
    {
        match self {
            RuntimeDependencyStatus::Planned => "Planned",
            RuntimeDependencyStatus::Manual => "Manual",
            RuntimeDependencyStatus::ToolMissing => "ToolMissing",
        }
    }
}

/// How one declared dependency would be installed.
#[derive(Debug)]
pub struct RuntimeDependencyPlan {
    pub dependency: RuntimeDependency,
    pub status: RuntimeDependencyStatus,
    pub command: Option<CommandPlan>,
    pub note: String,
}

/// What the macOS Wine driver is configured to do: the registry values as written.
#[derive(Debug, Clone)]
pub struct WineMacDriverConfig {
    pub allow_immovable_windows: Option<String>,
    pub retina_mode: Option<String>,
}

/// What an inspection found about a Wine prefix, its Steam client and its game.
#[derive(Debug)]
pub struct WineSteamRuntime {
    pub wine: Option<String>,
    pub wine_version: Option<String>,
    pub windows_version: Option<String>,
    pub dxmt_root: Option<String>,
    pub prefix: String,
    pub steam_exe: Option<String>,
    pub game_manifest: Option<String>,
    pub game_install_dir: Option<String>,
    pub game_executable: Option<String>,
    pub running: bool,
    pub game_running: bool,
    pub launch_ready_after_login: bool,
    pub readiness_issues: Vec<String>,
    pub logged_in: Option<bool>,
    pub active_session: Option<bool>,
    pub cached_credentials: Option<bool>,
    pub login_status: Option<String>,
    pub connection_status: Option<String>,
    pub cef_status: Option<String>,
    pub mac_window_status: Option<String>,
    pub virtual_desktop: Option<String>,
    pub mac_driver: WineMacDriverConfig,
}

/// A snapshot of a game's runtime, tied to the profile it was taken for.
#[derive(Debug)]
pub struct GameRuntimeObservation {
    pub app_id: String,
    pub profile_name: String,
    pub profile_version: String,
    pub prefix: String,
    pub wine: Option<String>,
    pub wine_version: Option<String>,
    pub windows_version: Option<String>,
    pub steam_exe: Option<String>,
    pub game_executable: Option<String>,
    pub steam_running: bool,
    pub game_running: bool,
    pub active_session: Option<bool>,
    pub steam_session_ready: bool,
    pub logged_in: Option<bool>,
    pub cached_credentials: Option<bool>,
    pub login_status: Option<String>,
    pub connection_status: Option<String>,
    pub cef_status: Option<String>,
}

impl GameRuntimeObservation {
    /// Whether the game is running and, where a Steam session is required, the
    /// session is ready too.
    pub fn ready(&self, require_steam_session: bool) -> (r: bool)
        ensures r == (self.game_running && (!require_steam_session || self.steam_session_ready)),
    {
        self.game_running && (!require_steam_session || self.steam_session_ready)
    }
}

/// What identifies how a run was hosted, without host paths.
#[derive(Debug, PartialEq, Eq, Default)]
pub struct RuntimeExecutionFingerprint {
    pub windows_version: Option<String>,
    pub bottle_layout: String,
    pub launcher_model: String,
}

impl Clone for RuntimeExecutionFingerprint {
    fn clone(&self) -> (r: Self)
        ensures r == *self,
    {
        RuntimeExecutionFingerprint {
            windows_version: match &self.windows_version {
                Some(v) => Some(v.clone()),
                None => None,
            },
            bottle_layout: self.bottle_layout.clone(),
            launcher_model: self.launcher_model.clone(),
        }
    }
}

/// The record of one smoke run of a game.
#[derive(Debug)]
pub struct GameSmokeEvidence {
    pub observed_at_unix_seconds: u64,
    pub profile: GameRuntimeObservation,
    pub launch_mode: LaunchMode,
    pub engine: Option<EngineKind>,
    pub backend_compatibility: Option<EngineBackendCompatibility>,
    pub execution_fingerprint: RuntimeExecutionFingerprint,
    pub graphics_backend: GraphicsBackend,
    pub steam_integration: SteamIntegration,
    pub stable_window_seconds: u64,
    pub passed: bool,
    pub failure_reason: Option<String>,
}

/// The checks made before a game is launched, and what they found.
#[derive(Debug)]
pub struct RuntimePreflight {
    pub game: String,
    pub engine: Option<EngineKind>,
    pub backend: GraphicsBackend,
    pub backend_compatibility: Option<EngineBackendCompatibility>,
    pub capabilities: Vec<GameCapability>,
    pub dependencies: Vec<RuntimeDependency>,
    pub dependency_plans: Vec<RuntimeDependencyPlan>,
    pub blockers: Vec<String>,
    pub warnings: Vec<String>,
}

impl RuntimePreflight {
    /// Whether nothing blocks the launch.
    pub fn ready(&self) -> (r: bool)
        ensures r == (self.blockers@.len() == 0),
    {
        self.blockers.len() == 0
    }
}

/// How a bottle is copied aside before it is changed.
#[derive(Debug)]
pub struct BottleSnapshotPlan {
    pub source: String,
    pub destination: String,
    pub prepare_command: CommandPlan,
    pub command: CommandPlan,
}

/// A snapshot followed by dependency installs.
#[derive(Debug)]
pub struct BottleMutationPlan {
    pub prefix: String,
    pub snapshot: BottleSnapshotPlan,
    pub dependencies: Vec<RuntimeDependencyPlan>,
}

/// How a bottle is restored from a snapshot while keeping the current one.
#[derive(Debug)]
pub struct BottleRollbackPlan {
    pub prefix: String,
    pub snapshot: String,
    pub backup: String,
    pub staging: String,
    pub prepare_command: CommandPlan,
    pub stage_command: CommandPlan,
    pub backup_command: CommandPlan,
    pub activate_command: CommandPlan,
}

} // verus!
