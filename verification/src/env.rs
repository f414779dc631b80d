//! The environment in which Nix runs.

use crate::size::ByteSize;
use vstd::prelude::*;
use vstd::string::*;

verus! {

/// What the host's operating system was found to be.
#[derive(Debug, Clone, PartialEq, Eq)]
pub enum OsFamily {
    Macos,
    NixOS,
    /// Any other system, by the name it goes by.
    Other(String),
}

/// The system under which Nix is installed and operates.
#[derive(Debug, Clone, PartialEq, Eq)]
pub enum NixSystem {
    /// On macOS.
    MacOS {
        /// Managed by nix-darwin.
        nix_darwin: bool,
        /// On an ARM mac, but the caller runs under Rosetta.
        rosetta: bool,
    },
    /// On NixOS.
    NixOS,
    /// Nix is individually installed on another system, named here.
    Other(String),
}

/// The text of an optional string.
pub open spec fn text_of(s: Option<String>) -> Option<Seq<char>> {
    match s {
        Some(s) => Some(s@),
        None => None,
    }
}

impl NixSystem {
    /// Whether Nix is configured declaratively on this system: on NixOS,
    /// and on macOS under nix-darwin.
    pub open spec fn declarative(&self) -> bool {
        match self {
            NixSystem::MacOS { nix_darwin, rosetta: _ } => *nix_darwin,
            NixSystem::NixOS => true,
            NixSystem::Other(_) => false,
        }
    }

    /// What the declarative configuration of this system is called, where
    /// it has one.
    pub open spec fn config_label(&self) -> Option<Seq<char>> {
        match self {
            NixSystem::MacOS { nix_darwin, rosetta: _ } => if *nix_darwin {
                Some("nix-darwin configuration"@)
            } else {
                None
            },
            NixSystem::NixOS => Some("nixos configuration"@),
            NixSystem::Other(_) => None,
        }
    }

    /// The name of this system.
    pub open spec fn name(&self) -> Seq<char> {
        match self {
            NixSystem::MacOS { nix_darwin, rosetta: _ } => if *nix_darwin {
                "nix-darwin"@
            } else {
                "macOS"@
            },
            NixSystem::NixOS => "NixOS"@,
            NixSystem::Other(os) => os@,
        }
    }

    /// The system that the facts found on the host describe. On macOS,
    /// nix-darwin shows in `/etc/nix/nix.conf` being a symbolic link.
    pub open spec fn of(os: OsFamily, nix_conf_is_symlink: bool, under_rosetta: bool) -> NixSystem {
        match os {
            OsFamily::Macos => NixSystem::MacOS {
                nix_darwin: nix_conf_is_symlink,
                rosetta: under_rosetta,
            },
            OsFamily::NixOS => NixSystem::NixOS,
            OsFamily::Other(name) => NixSystem::Other(name),
        }
    }

    /// Classifies the host from the facts found on it.
    pub fn classify(os: OsFamily, nix_conf_is_symlink: bool, under_rosetta: bool) -> (r: NixSystem)
        ensures
            r == NixSystem::of(os, nix_conf_is_symlink, under_rosetta),
    {
        match os {
            OsFamily::Macos => NixSystem::MacOS {
                nix_darwin: nix_conf_is_symlink,
                rosetta: under_rosetta,
            },
            OsFamily::NixOS => NixSystem::NixOS,
            OsFamily::Other(name) => NixSystem::Other(name),
        }
    }

    /// The Nix for this system is configured automatically through a
    /// `configuration.nix`.
    pub fn has_configuration_nix(&self) -> (r: bool)
        ensures
            r == self.declarative(),
    {
        match self {
            NixSystem::MacOS { nix_darwin, rosetta: _ } => *nix_darwin,
            NixSystem::NixOS => true,
            NixSystem::Other(_) => false,
        }
    }

    /// The label of the declarative configuration, if the system has one.
    pub fn nix_system_config_label(&self) -> (r: Option<String>)
        ensures
            text_of(r) == self.config_label(),
    {
        match self {
            NixSystem::MacOS { nix_darwin, rosetta: _ } => if *nix_darwin {
                Some(String::from_str("nix-darwin configuration"))
            } else {
                None
            },
            NixSystem::NixOS => Some(String::from_str("nixos configuration")),
            NixSystem::Other(_) => None,
        }
    }

    /// The name of this system, as it is shown to the user.
    pub fn to_text(&self) -> (r: String)
        ensures
            r@ == self.name(),
    {
        match self {
            NixSystem::MacOS { nix_darwin, rosetta: _ } => if *nix_darwin {
                String::from_str("nix-darwin")
            } else {
                String::from_str("macOS")
            },
            NixSystem::NixOS => String::from_str("NixOS"),
            NixSystem::Other(os) => os.clone(),
        }
    }
}

/// The environment in which Nix operates.
#[derive(Debug, Clone, PartialEq, Eq)]
pub struct NixEnv {
    /// The current user.
    pub current_user: String,
    /// The groups that the current user belongs to.
    pub current_user_groups: Vec<String>,
    /// The underlying system.
    pub os: NixSystem,
    /// Total disk space of the volume that holds the Nix store.
    pub total_disk_space: ByteSize,
    /// Total memory.
    pub total_memory: ByteSize,
}

} // verus!
