//! What is read from the host, in the form the reports use: Steam's key-value files
//! and logs, process listings and crash reports. The files and command outputs are
//! read by the caller; here is what is made of their text.
pub mod crash;
pub mod parse;
pub mod process;
pub mod steam_status;
pub mod wine;
pub mod doctor;
pub mod engines;
