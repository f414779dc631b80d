//! Configuration of the checks: the defaults, and what a project sets in
//! their place.

use crate::check::caches::{normal_forms, normalize_urls, Caches};
use crate::check::direnv::Direnv;
use crate::check::flake_enabled::FlakeEnabled;
use crate::check::max_jobs::MaxJobs;
use crate::check::min_nix_version::MinNixVersion;
use crate::check::system::System;
use crate::check::trusted_users::TrustedUsers;
use crate::health::NixHealth;
use crate::size::ByteSize;
use crate::text::{concat2, join, joined, texts};
use crate::version::{parsed, NixVersion};
use vstd::prelude::*;
use vstd::string::*;

verus! {

/// Why a configuration cannot be used.
#[derive(Debug, Clone, PartialEq, Eq)]
pub enum ConfigError {
    /// A minimum version that is no version; it holds the text.
    MalformedVersion(String),
    /// A cache that is no URL; it holds the text.
    MalformedUrl(String),
    /// The configuration was asked for under attributes that it does not
    /// have; it holds them, with dots between.
    UnexpectedNestedAttribute(String),
}

impl ConfigError {
    /// What the error says.
    pub open spec fn text(&self) -> Seq<char> {
        match self {
            ConfigError::MalformedVersion(text) => "Malformed version: "@ + text@,
            ConfigError::MalformedUrl(text) => "Malformed URL: "@ + text@,
            ConfigError::UnexpectedNestedAttribute(attrs) => "Unexpected nested attribute: "@
                + attrs@,
        }
    }

    /// What the error says.
    pub fn to_text(&self) -> (r: String)
        ensures
            r@ == self.text(),
    {
        match self {
            ConfigError::MalformedVersion(text) => concat2("Malformed version: ", text.as_str()),
            ConfigError::MalformedUrl(text) => concat2("Malformed URL: ", text.as_str()),
            ConfigError::UnexpectedNestedAttribute(attrs) => concat2(
                "Unexpected nested attribute: ",
                attrs.as_str(),
            ),
        }
    }
}

/// What a project sets of the two switches that every check has. A key
/// that is not set keeps its default.
#[derive(Debug, Clone, PartialEq, Eq)]
pub struct Switches {
    pub enable: Option<bool>,
    pub required: Option<bool>,
}

/// What a project sets for the check of the Nix version.
#[derive(Debug, Clone, PartialEq, Eq)]
pub struct MinNixVersionConfig {
    pub switches: Switches,
    /// The minimum version, as it is written.
    pub min_required: Option<String>,
}

/// What a project sets for the check of the caches.
#[derive(Debug, Clone, PartialEq, Eq)]
pub struct CachesConfig {
    pub switches: Switches,
    /// The caches that must be in use, each URL as it is written.
    pub required: Option<Vec<String>>,
}

/// What a project sets for the check of the experimental features.
#[derive(Debug, Clone, PartialEq, Eq)]
pub struct FlakeEnabledConfig {
    pub switches: Switches,
    pub features: Option<Vec<String>>,
}

/// What a project sets for the check of the machine's resources. A
/// minimum that is set to nothing switches that part of the check off.
#[derive(Debug, Clone, PartialEq, Eq)]
pub struct SystemConfig {
    pub switches: Switches,
    pub min_ram: Option<Option<ByteSize>>,
    pub min_disk_space: Option<Option<ByteSize>>,
}

/// What a project sets in place of the defaults. A check that is not
/// named keeps all of its defaults.
#[derive(Debug, Clone, PartialEq, Eq)]
pub struct HealthConfig {
    pub max_jobs: Option<Switches>,
    pub caches: Option<CachesConfig>,
    pub flake_enabled: Option<FlakeEnabledConfig>,
    pub nix_version: Option<MinNixVersionConfig>,
    pub system: Option<SystemConfig>,
    pub trusted_users: Option<Switches>,
    pub direnv: Option<Switches>,
}

/// The value that holds after a merge: the one that is set, else the
/// default.
pub open spec fn chosen<T>(default: T, set: Option<T>) -> T {
    match set {
        Some(value) => value,
        None => default,
    }
}

/// The value that is set, else the default.
pub fn pick<T>(default: T, set: Option<T>) -> (r: T)
    ensures
        r == chosen(default, set),
{
    match set {
        Some(value) => value,
        None => default,
    }
}

/// The minimum version after a merge: the one written in the project's
/// configuration, which must be a version, else the default.
pub open spec fn chosen_version(default: NixVersion, set: Option<String>) -> Result<
    NixVersion,
    ConfigError,
> {
    match set {
        Some(text) => match parsed(text@) {
            Some(version) => Ok(version),
            None => Err(ConfigError::MalformedVersion(text)),
        },
        None => Ok(default),
    }
}

impl MaxJobs {
    /// These settings, with what the project sets in their place.
    pub open spec fn merged(self, set: Option<Switches>) -> MaxJobs {
        match set {
            Some(set) => MaxJobs {
                enable: chosen(self.enable, set.enable),
                required: chosen(self.required, set.required),
            },
            None => self,
        }
    }

    /// These settings, with what the project sets in their place.
    pub fn merge(self, set: Option<Switches>) -> (r: MaxJobs)
        ensures
            r == self.merged(set),
    {
        match set {
            Some(set) => MaxJobs {
                enable: pick(self.enable, set.enable),
                required: pick(self.required, set.required),
            },
            None => self,
        }
    }
}

impl Direnv {
    /// These settings, with what the project sets in their place.
    pub open spec fn merged(self, set: Option<Switches>) -> Direnv {
        match set {
            Some(set) => Direnv {
                enable: chosen(self.enable, set.enable),
                required: chosen(self.required, set.required),
            },
            None => self,
        }
    }

    /// These settings, with what the project sets in their place.
    pub fn merge(self, set: Option<Switches>) -> (r: Direnv)
        ensures
            r == self.merged(set),
    {
        match set {
            Some(set) => Direnv {
                enable: pick(self.enable, set.enable),
                required: pick(self.required, set.required),
            },
            None => self,
        }
    }
}

impl TrustedUsers {
    /// These settings, with what the project sets in their place.
    pub open spec fn merged(self, set: Option<Switches>) -> TrustedUsers {
        match set {
            Some(set) => TrustedUsers {
                enable: chosen(self.enable, set.enable),
                required: chosen(self.required, set.required),
            },
            None => self,
        }
    }

    /// These settings, with what the project sets in their place.
    pub fn merge(self, set: Option<Switches>) -> (r: TrustedUsers)
        ensures
            r == self.merged(set),
    {
        match set {
            Some(set) => TrustedUsers {
                enable: pick(self.enable, set.enable),
                required: pick(self.required, set.required),
            },
            None => self,
        }
    }
}

impl Caches {
    /// The caches asked for after a merge: those that the project
    /// writes, each in its normal form, else the default ones; or the
    /// first text that is no URL.
    pub open spec fn merged_urls(self, set: Option<CachesConfig>) -> Result<Seq<Seq<char>>, Seq<char>> {
        match set {
            Some(set) => match set.required {
                Some(urls) => normal_forms(texts(urls@)),
                None => Ok(texts(self.required@)),
            },
            None => Ok(texts(self.required@)),
        }
    }

    /// Whether `r` is what these settings become with what the project
    /// sets in their place.
    pub open spec fn merges_to(self, set: Option<CachesConfig>, r: Result<Caches, ConfigError>) -> bool {
        match self.merged_urls(set) {
            Ok(urls) => r matches Ok(merged) && texts(merged.required@) == urls && merged.enable
                == (match set {
                Some(set) => chosen(self.enable, set.switches.enable),
                None => self.enable,
            }) && merged.required_check == (match set {
                Some(set) => chosen(self.required_check, set.switches.required),
                None => self.required_check,
            }),
            Err(bad) => r matches Err(ConfigError::MalformedUrl(text)) && text@ == bad,
        }
    }

    /// These settings, with what the project sets in their place. A
    /// cache that is no URL is an error.
    pub fn merge(self, set: Option<CachesConfig>) -> (r: Result<Caches, ConfigError>)
        ensures
            self.merges_to(set, r),
    {
        match set {
            Some(set) => {
                let required = match set.required {
                    Some(urls) => match normalize_urls(&urls) {
                        Ok(normal) => normal,
                        Err(bad) => {
                            return Err(ConfigError::MalformedUrl(bad));
                        },
                    },
                    None => self.required,
                };
                Ok(
                    Caches {
                        enable: pick(self.enable, set.switches.enable),
                        required_check: pick(self.required_check, set.switches.required),
                        required,
                    },
                )
            },
            None => Ok(self),
        }
    }
}

impl FlakeEnabled {
    /// These settings, with what the project sets in their place.
    pub open spec fn merged(self, set: Option<FlakeEnabledConfig>) -> FlakeEnabled {
        match set {
            Some(set) => FlakeEnabled {
                enable: chosen(self.enable, set.switches.enable),
                required: chosen(self.required, set.switches.required),
                features: chosen(self.features, set.features),
            },
            None => self,
        }
    }

    /// These settings, with what the project sets in their place.
    pub fn merge(self, set: Option<FlakeEnabledConfig>) -> (r: FlakeEnabled)
        ensures
            r == self.merged(set),
    {
        match set {
            Some(set) => FlakeEnabled {
                enable: pick(self.enable, set.switches.enable),
                required: pick(self.required, set.switches.required),
                features: pick(self.features, set.features),
            },
            None => self,
        }
    }
}

impl System {
    /// These settings, with what the project sets in their place.
    pub open spec fn merged(self, set: Option<SystemConfig>) -> System {
        match set {
            Some(set) => System {
                enable: chosen(self.enable, set.switches.enable),
                required: chosen(self.required, set.switches.required),
                min_ram: chosen(self.min_ram, set.min_ram),
                min_disk_space: chosen(self.min_disk_space, set.min_disk_space),
            },
            None => self,
        }
    }

    /// These settings, with what the project sets in their place.
    pub fn merge(self, set: Option<SystemConfig>) -> (r: System)
        ensures
            r == self.merged(set),
    {
        match set {
            Some(set) => System {
                enable: pick(self.enable, set.switches.enable),
                required: pick(self.required, set.switches.required),
                min_ram: pick(self.min_ram, set.min_ram),
                min_disk_space: pick(self.min_disk_space, set.min_disk_space),
            },
            None => self,
        }
    }
}

impl MinNixVersion {
    /// These settings, with what the project sets in their place.
    pub open spec fn merged(self, set: Option<MinNixVersionConfig>) -> Result<
        MinNixVersion,
        ConfigError,
    > {
        match set {
            Some(set) => match chosen_version(self.min_required, set.min_required) {
                Ok(min_required) => Ok(
                    MinNixVersion {
                        enable: chosen(self.enable, set.switches.enable),
                        required: chosen(self.required, set.switches.required),
                        min_required,
                    },
                ),
                Err(e) => Err(e),
            },
            None => Ok(self),
        }
    }

    /// These settings, with what the project sets in their place. A
    /// minimum version that is no version is an error.
    pub fn merge(self, set: Option<MinNixVersionConfig>) -> (r: Result<MinNixVersion, ConfigError>)
        ensures
            r == self.merged(set),
    {
        match set {
            Some(set) => {
                let min_required = match set.min_required {
                    Some(text) => match NixVersion::parse(text.as_str()) {
                        Some(version) => version,
                        None => {
                            return Err(ConfigError::MalformedVersion(text));
                        },
                    },
                    None => self.min_required,
                };
                Ok(
                    MinNixVersion {
                        enable: pick(self.enable, set.switches.enable),
                        required: pick(self.required, set.switches.required),
                        min_required,
                    },
                )
            },
            None => Ok(self),
        }
    }
}

impl NixHealth {
    /// Whether `r` is what this registry becomes with what the project
    /// sets in place of its values: key by key, what the project sets,
    /// and the default where it sets nothing. A minimum version that is
    /// no version is reported before a cache that is no URL.
    pub open spec fn merges_to(self, set: HealthConfig, r: Result<NixHealth, ConfigError>) -> bool {
        match self.nix_version.merged(set.nix_version) {
            Err(e) => r == Err::<NixHealth, ConfigError>(e),
            Ok(nix_version) => match r {
                Err(e) => self.caches.merged_urls(set.caches) is Err && self.caches.merges_to(
                    set.caches,
                    Err(e),
                ),
                Ok(merged) => {
                    &&& merged.nix_version == nix_version
                    &&& self.caches.merges_to(set.caches, Ok(merged.caches))
                    &&& merged.max_jobs == self.max_jobs.merged(set.max_jobs)
                    &&& merged.flake_enabled == self.flake_enabled.merged(set.flake_enabled)
                    &&& merged.system == self.system.merged(set.system)
                    &&& merged.trusted_users == self.trusted_users.merged(set.trusted_users)
                    &&& merged.direnv == self.direnv.merged(set.direnv)
                },
            },
        }
    }

    /// This registry, with what the project sets in place of its values.
    pub fn merge(self, set: HealthConfig) -> (r: Result<NixHealth, ConfigError>)
        ensures
            self.merges_to(set, r),
    {
        let nix_version = match self.nix_version.merge(set.nix_version) {
            Ok(nix_version) => nix_version,
            Err(e) => {
                return Err(e);
            },
        };
        let caches = match self.caches.merge(set.caches) {
            Ok(caches) => caches,
            Err(e) => {
                return Err(e);
            },
        };
        Ok(
            NixHealth {
                max_jobs: self.max_jobs.merge(set.max_jobs),
                caches,
                flake_enabled: self.flake_enabled.merge(set.flake_enabled),
                nix_version,
                system: self.system.merge(set.system),
                trusted_users: self.trusted_users.merge(set.trusted_users),
                direnv: self.direnv.merge(set.direnv),
            },
        )
    }

    /// The configuration that a flake gave, where nothing is left of the
    /// attribute path under which it was asked for.
    pub fn from_evaluated(config: NixHealth, rest_attrs: &Vec<String>) -> (r: Result<
        NixHealth,
        ConfigError,
    >)
        ensures
            rest_attrs@.len() == 0 ==> r == Ok::<NixHealth, ConfigError>(config),
            rest_attrs@.len() > 0 ==> (r matches Err(ConfigError::UnexpectedNestedAttribute(attrs))
                && attrs@ == joined(texts(rest_attrs@), "."@)),
    {
        if rest_attrs.len() == 0 {
            Ok(config)
        } else {
            Err(ConfigError::UnexpectedNestedAttribute(join(rest_attrs, ".")))
        }
    }
}

/// A value that the project sets wins over the default.
pub proof fn project_value_wins<T>(default: T, set: T)
    ensures
        chosen(default, Some(set)) == set,
        chosen(default, None::<T>) == default,
{
}

/// A minimum version that the project writes replaces the default, and
/// the switches that it leaves out stay as they were.
pub proof fn project_version_wins(defaults: MinNixVersion, text: String, version: NixVersion)
    requires
        parsed(text@) == Some(version),
    ensures
        defaults.merged(
            Some(
                MinNixVersionConfig {
                    switches: Switches { enable: None, required: None },
                    min_required: Some(text),
                },
            ),
        ) == Ok::<MinNixVersion, ConfigError>(
            MinNixVersion {
                enable: defaults.enable,
                required: defaults.required,
                min_required: version,
            },
        ),
{
}

} // verus!
