//! Runtime planning: engines, observations, evidence, dependencies and preflight checks.
pub mod compatibility;
pub mod observe;
pub mod smoke;
pub mod dependencies;
pub mod preflight;
pub mod wine;
pub mod stage;
pub mod launch;
pub mod profile;
pub mod session;
pub mod steam_cef;
pub mod environment;
pub mod configure;
pub mod options_laws;
