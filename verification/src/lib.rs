//! Health checks for a Nix installation.
//!
//! A run evaluates every enabled unit of a [`NixHealth`] registry against
//! one snapshot of the installation, and folds what the units report into
//! a single result with an exit code.

pub mod attr;
pub mod check;
pub mod config;
pub mod env;
pub mod error;
pub mod flake;
pub mod health;
pub mod info;
pub mod logging;
pub mod report;
pub mod size;
pub mod state;
pub mod text;
pub mod traits;
pub mod verdict;
pub mod version;

pub use health::NixHealth;
