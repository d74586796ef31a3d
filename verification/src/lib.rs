//! Compatibility engineering logic for running Windows games under Wine on macOS.
pub mod analyze;
pub mod anchors;
pub mod cli;
pub mod command;
pub mod error;
pub mod games;
pub mod inspect;
pub mod paths;
pub mod runtime;
pub mod sort;
pub mod state;
pub mod strmap;
pub mod text;
pub mod types;
