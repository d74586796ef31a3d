//! Command-line requests: how each command's arguments are read and checked.
pub mod support;
pub mod bottle;
pub mod installer;
pub mod steam;
pub mod evidence;
pub mod numbers;
pub mod launch;
pub mod isaac;
