//! The individual health checks.

pub mod caches;
pub mod direnv;
pub mod flake_enabled;
pub mod max_jobs;
pub mod min_nix_version;
pub mod system;
pub mod trusted_users;
