//! Decisions behind a continuous-integration helper for cargo projects: which
//! arguments a cargo command gets, which commands a coverage run consists of,
//! what a finished command means for the run, and what may be printed.
//!
//! The library runs nothing and reads nothing. A caller hands it what it has
//! read (arguments, variables of the environment, the output of commands) and
//! runs the commands it names.
//!
//! - [`cargo`]: the arguments of cargo subcommands and the feature of nightly
//!   toolchains.
//! - [`coverage`]: the coverage run as a state machine.
//! - [`scan`]: the test binaries that a test build announces.
//! - [`utils`]: the outcome of a command, and masking a secret in its output.
//! - [`command`]: a command as a record.
//! - [`doc_upload`]: the upload of rendered documentation.
//! - [`manifest`]: the targets of a project.
//! - [`toolchain`]: the release channel.
//! - [`text`]: strings as sequences of characters.

pub mod cargo;
pub mod command;
pub mod coverage;
pub mod doc_upload;
pub mod manifest;
pub mod scan;
pub mod text;
pub mod toolchain;
pub mod utils;

pub use manifest::{Manifest, Target};
