//! The snapshot that every check of a run reads.

use crate::env::NixEnv;
use crate::flake::FlakeUrl;
use crate::version::NixVersion;
use vstd::prelude::*;

verus! {

/// What asking the outside world for a fact gave.
#[derive(Debug, Clone, PartialEq, Eq)]
pub enum Probe<T> {
    /// The fact.
    Found(T),
    /// There is no such fact, for the reason given: a tool that is not
    /// installed, a command that reported failure.
    Missing(String),
    /// Asking went wrong in a way nobody expected; the text says how.
    Faulted(String),
}

/// Where direnv keeps its things.
#[derive(Debug, Clone, PartialEq, Eq)]
pub struct DirenvConfig {
    /// Path to the config folder of direnv.
    pub config_dir: String,
    /// Path to the direnv binary.
    pub self_path: String,
}

/// What direnv knows of one `.envrc` file.
#[derive(Debug, Clone, PartialEq, Eq)]
pub struct DirenvRC {
    /// 0: allowed; 1: not allowed; 2: denied.
    pub allowed: u32,
    /// Path to the `.envrc` file.
    pub path: String,
}

/// What direnv reports of the directory it was asked in.
#[derive(Debug, Clone, PartialEq, Eq)]
pub struct DirenvState {
    /// The `.envrc` found in the directory.
    pub found_rc: Option<DirenvRC>,
    /// The `.envrc` that is currently loaded.
    pub loaded_rc: Option<DirenvRC>,
}

impl DirenvState {
    /// Whether an `.envrc` was found and is allowed.
    pub open spec fn allowed(&self) -> bool {
        self.found_rc matches Some(rc) && rc.allowed == 0
    }

    /// Check if the `.envrc` file is allowed.
    pub fn is_allowed(&self) -> (r: bool)
        ensures
            r == self.allowed(),
    {
        match &self.found_rc {
            Some(rc) => rc.allowed == 0,
            None => false,
        }
    }
}

/// The status that direnv reports.
#[derive(Debug, Clone, PartialEq, Eq)]
pub struct DirenvStatus {
    pub config: DirenvConfig,
    pub state: DirenvState,
}

/// What was found out about direnv on this host.
#[derive(Debug, Clone, PartialEq, Eq)]
pub struct DirenvFacts {
    /// What `direnv --version` printed, trimmed.
    pub version: Probe<String>,
    /// What `direnv status` reported.
    pub status: Probe<DirenvStatus>,
}

/// The values of `nix.conf` that the checks read.
#[derive(Debug, Clone, PartialEq, Eq)]
pub struct NixConfig {
    /// `experimental-features`
    pub experimental_features: Vec<String>,
    /// `max-jobs`
    pub max_jobs: i32,
    /// `substituters`, each URL in its normal form (`https://cache.nixos.org/`).
    pub substituters: Vec<String>,
    /// `system`
    pub system: String,
    /// `trusted-users`
    pub trusted_users: Vec<String>,
}

/// All the facts about the user's Nix installation, gathered once per run.
#[derive(Debug, Clone, PartialEq, Eq)]
pub struct NixInfo {
    /// Nix version.
    pub nix_version: NixVersion,
    /// The Nix configuration.
    pub nix_config: NixConfig,
    /// The environment Nix runs in.
    pub nix_env: NixEnv,
    /// The direnv installation.
    pub direnv: DirenvFacts,
}

/// The project that a run is about.
#[derive(Debug, Clone, PartialEq, Eq)]
pub struct Project {
    /// The flake of the project.
    pub url: FlakeUrl,
    /// Whether the project is on this machine and its directory holds an
    /// `.envrc`.
    pub has_envrc: bool,
    /// What `direnv status` reported when asked in that directory.
    pub direnv_status: Probe<DirenvStatus>,
}

} // verus!
