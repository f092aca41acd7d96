//! Core of a Cargo-style build orchestrator for C/C++ projects.
//!
//! The library holds the verified logic: path normalization, the binary
//! cache codec, the dependency graph with its parallel-stage schedule,
//! the dependency-info codec, the fingerprint engine that decides what
//! is stale, the toolchain flag translation, the tool-output parser and
//! the ordered message queue.  Process spawning, the filesystem and the
//! terminal stay outside; callers hand the library plain values.

pub mod bytes;
pub mod color;
pub mod dep_info;
pub mod driver;
pub mod error;
pub mod fingerprint;
pub mod flags;
pub mod graph;
pub mod hashing;
pub mod layout;
pub mod msg_queue;
pub mod options;
pub mod output;
pub mod paths;
pub mod patterns;
pub mod platform;
pub mod prefixes;
pub mod serde_bin;
pub mod supported_flags;
pub mod target_name;
pub mod toml_model;
pub mod toolchain;
pub mod unit;
pub mod which;

pub use paths::normalize;
