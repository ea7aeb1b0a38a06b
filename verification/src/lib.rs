//! Deployment orchestration for locally built binaries: configuration
//! resolution, build-freshness detection and the remote session lifecycle,
//! with every rule stated as a contract and proved.

pub mod autobuild;
pub mod cli;
pub mod config;
pub mod deploy;
pub mod lifecycle;
pub mod metadata;
pub mod path;
pub mod remote;

pub use config::{build_target_path, Config, ConfigError, FileConfig, RequiredField};
pub use metadata::detect_cargo_binaries;
