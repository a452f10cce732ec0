//! Read-only Linux filesystem source discovery and mount-control logic.

pub mod error;
pub mod block;
pub mod bytes;
pub mod partition;
pub mod text;
pub mod filesystem;
pub mod app;
pub mod winfsp;
pub mod cli;
pub mod config;
pub mod localization;
pub mod locale_file;
pub mod windows;
pub mod providers;
pub mod preview;
pub mod backends;
pub mod xfs;
pub mod runtime;
pub mod physical;
