//! Verified core of the TestQuorum test runner.
//!
//! - `config`: configuration defaults, the search for a config file and the
//!   validation of the Nix attribute set.
//! - `version`, `text`: tool-version parsing and the string primitives it
//!   rests on.
//! - `managers`: per-ecosystem detection rules, test discovery and the command
//!   lines each manager runs, the step-by-step outcome of a test, and the Nix
//!   builder's target tracking.
//! - `environments`: CI environment detection, run context, the GitHub event
//!   plan, the workflow handshake (token scopes, signing, retry policy) and
//!   the byte-level artifact encoding (CRC-32, zip, SHA-256 digest).
//! - `runner`: registry plan, routing of tests to managers, ranking order,
//!   event rendering and the final exit code.
//! - `api`: the wire types shared with the backend.

pub mod api;
pub mod text;
pub mod version;
pub mod managers;
pub mod environments;
pub mod config;
pub mod runner;
